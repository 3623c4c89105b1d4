//! Assembly text to machine code.
use vstd::prelude::*;

use crate::assembler::encoder::{encoding, Encoder};
use crate::assembler::parser::{
    parse_from, parse_instructions, parsed_view, views, ParseError, ParsedAddress, ParsedInstruction,
};
use vstd::string::StringSliceAdditionalSpecFns;

verus! {

/// Why a text could not be assembled.
#[derive(PartialEq, Eq, Debug, Copy, Clone, Structural)]
pub enum AssembleError {
    /// A line could not be parsed.
    Parse(ParseError),
    /// The instruction at this position (blank lines not counted) has no encoding.
    Encode { index: usize },
}

/// The machine code of the parsed lines, one after the other; `Err(k)` when the line
/// at position `k` has no encoding.
pub open spec fn assembled(items: Seq<(Seq<u8>, Option<ParsedAddress>)>) -> Result<Seq<u8>, int>
    decreases items.len(),
{
    if items.len() == 0 {
        Ok(Seq::empty())
    } else {
        match assembled(items.drop_last()) {
            Err(k) => Err(k),
            Ok(prev) => match encoding(items.last().0, items.last().1) {
                None => Err(items.len() - 1),
                Some(s) => Ok(prev + s),
            },
        }
    }
}

/// Once a prefix has no encoding, the whole sequence fails at the same position.
proof fn lemma_assembled_err(items: Seq<(Seq<u8>, Option<ParsedAddress>)>, j: int)
    requires
        0 <= j <= items.len(),
        assembled(items.subrange(0, j)) is Err,
    ensures
        assembled(items) == assembled(items.subrange(0, j)),
    decreases items.len() - j,
{
    if items.len() == j {
        assert(items.subrange(0, j) =~= items);
    } else {
        let p = items.drop_last();
        assert(p.subrange(0, j) =~= items.subrange(0, j));
        lemma_assembled_err(p, j);
    }
}

/// Parses and encodes a whole text.
pub fn assemble(str: &str) -> (r: Result<Vec<u8>, AssembleError>)
    ensures
        match parse_from(str.spec_bytes(), 0, 0) {
            Err(k) => r == Err::<Vec<u8>, AssembleError>(
                AssembleError::Parse(ParseError { line: k as usize }),
            ),
            Ok(items) => match assembled(items) {
                Ok(s) => r is Ok && r.unwrap()@ == s,
                Err(k) => r == Err::<Vec<u8>, AssembleError>(
                    AssembleError::Encode { index: k as usize },
                ),
            },
        },
{
    let parse_result = match parse_instructions(str) {
        Ok(p) => p,
        Err(e) => return Err(AssembleError::Parse(e)),
    };
    let ghost items = views(parse_result@);
    let encoder = Encoder::new();
    let mut out: Vec<u8> = Vec::new();
    let mut i: usize = 0;
    while i < parse_result.len()
        invariant
            i <= parse_result@.len(),
            items == views(parse_result@),
            parse_from(str.spec_bytes(), 0, 0) == Ok::<Seq<(Seq<u8>, Option<ParsedAddress>)>, int>(
                items,
            ),
            assembled(items.subrange(0, i as int)) == Ok::<Seq<u8>, int>(out@),
        decreases parse_result@.len() - i,
    {
        let ghost prefix = items.subrange(0, i as int + 1);
        assert(prefix.drop_last() =~= items.subrange(0, i as int));
        assert(prefix.last() == parsed_view(parse_result@[i as int]));
        match encoder.encode_instruction(&parse_result[i]) {
            Some(bytes) => {
                let ghost before = out@;
                let mut k: usize = 0;
                while k < bytes.len()
                    invariant
                        k <= bytes@.len(),
                        out@ == before + bytes@.subrange(0, k as int),
                    decreases bytes@.len() - k,
                {
                    out.push(bytes[k]);
                    assert(out@ =~= before + bytes@.subrange(0, k as int + 1));
                    k = k + 1;
                }
                assert(bytes@.subrange(0, bytes@.len() as int) =~= bytes@);
            },
            None => {
                proof {
                    assert(assembled(prefix) == Err::<Seq<u8>, int>(i as int));
                    lemma_assembled_err(items, i as int + 1);
                }
                return Err(AssembleError::Encode { index: i });
            },
        }
        i = i + 1;
    }
    assert(items.subrange(0, items.len() as int) =~= items);
    Ok(out)
}

} // verus!
