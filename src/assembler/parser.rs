//! Reads assembly text, one instruction per line, into mnemonics and operands.
use vstd::prelude::*;
use vstd::slice::slice_subrange;
use vstd::string::StringSliceAdditionalSpecFns;

verus! {

/// The operand written after a mnemonic.
#[allow(inconsistent_fields)]
#[derive(PartialEq, Eq, Debug, Copy, Clone, Structural)]
pub enum ParsedAddress {
    Empty,
    AbsoluteX { value: u16 },
    Immediate { value: u8 },
    /// At the parsing stage this is ambiguous.
    ZeroPageOrRelative { value: u8 },
    Unknown,
}

/// One line of assembly: the mnemonic as written, and its operand if it has one.
#[derive(PartialEq, Debug)]
pub struct ParsedInstruction<'a> {
    pub instruction: &'a [u8],
    pub address: Option<ParsedAddress>,
}

/// A line whose operand could not be read, counted from zero.
#[derive(PartialEq, Eq, Debug, Copy, Clone, Structural)]
pub struct ParseError {
    pub line: usize,
}

/// Space, tab, line feed, vertical tab, form feed and carriage return.
pub open spec fn is_space(b: u8) -> bool {
    b == 0x20 || b == 0x09 || b == 0x0A || b == 0x0B || b == 0x0C || b == 0x0D
}

pub open spec fn is_alphanumeric(b: u8) -> bool {
    (0x30 <= b <= 0x39) || (0x41 <= b <= 0x5A) || (0x61 <= b <= 0x7A)
}

/// The value of a digit in any radix up to 36, if `b` is a digit at all.
pub open spec fn digit_value(b: u8) -> int {
    if 0x30 <= b <= 0x39 {
        b - 0x30
    } else if 0x41 <= b <= 0x5A {
        b - 0x41 + 10
    } else if 0x61 <= b <= 0x7A {
        b - 0x61 + 10
    } else {
        36
    }
}

/// The number that `digits` spell in `radix`, or -1 when a byte is no digit of it.
pub open spec fn number_value(digits: Seq<u8>, radix: int) -> int
    decreases digits.len(),
{
    if digits.len() == 0 {
        0
    } else {
        let init = number_value(digits.drop_last(), radix);
        let d = digit_value(digits.last());
        if init < 0 || d >= radix {
            -1
        } else {
            init * radix + d
        }
    }
}

/// The first index at or after `i` that does not satisfy the space test (or the end).
pub open spec fn skip_spaces(t: Seq<u8>, i: int) -> int
    decreases t.len() - i,
{
    if i < 0 || i >= t.len() || !is_space(t[i]) {
        i
    } else {
        skip_spaces(t, i + 1)
    }
}

/// The first index at or after `i` that holds a space (or the end).
pub open spec fn skip_token(t: Seq<u8>, i: int) -> int
    decreases t.len() - i,
{
    if i < 0 || i >= t.len() || is_space(t[i]) {
        i
    } else {
        skip_token(t, i + 1)
    }
}

/// The first index at or after `i` that is not alphanumeric (or the end).
pub open spec fn skip_alphanumeric(t: Seq<u8>, i: int) -> int
    decreases t.len() - i,
{
    if i < 0 || i >= t.len() || !is_alphanumeric(t[i]) {
        i
    } else {
        skip_alphanumeric(t, i + 1)
    }
}

/// The index of the first line feed at or after `i` (or the end).
pub open spec fn line_end(t: Seq<u8>, i: int) -> int
    decreases t.len() - i,
{
    if i < 0 || i >= t.len() || t[i] == 0x0A {
        i
    } else {
        line_end(t, i + 1)
    }
}

/// A number with an optional radix prefix (`$` hexadecimal, `%` binary, else decimal),
/// made of the alphanumeric run that starts at `i`: its value (or -1) and where it ends.
pub open spec fn number_at(t: Seq<u8>, i: int) -> (int, int) {
    let (radix, start) = if i < t.len() && t[i] == 0x24 {
        (16int, i + 1)
    } else if i < t.len() && t[i] == 0x25 {
        (2int, i + 1)
    } else {
        (10int, i)
    };
    let end = skip_alphanumeric(t, start);
    if end == start {
        (-1, end)
    } else {
        (number_value(t.subrange(start, end), radix), end)
    }
}

/// The operand that the token `t` spells: `#n` is immediate, `n,X` absolute indexed by X.
pub open spec fn address_spec(t: Seq<u8>) -> Option<ParsedAddress> {
    if t.len() > 0 && t[0] == 0x23 && number_at(t, 1).0 >= 0 {
        let v = number_at(t, 1).0;
        if v <= 0xFF {
            Some(ParsedAddress::Immediate { value: v as u8 })
        } else {
            None
        }
    } else if number_at(t, 0).0 >= 0 && number_at(t, 0).1 + 2 <= t.len() && t[number_at(t, 0).1]
        == 0x2C && t[number_at(t, 0).1 + 1] == 0x58 {
        let v = number_at(t, 0).0;
        if v <= 0xFFFF {
            Some(ParsedAddress::AbsoluteX { value: v as u16 })
        } else {
            None
        }
    } else {
        None
    }
}

/// What the line `l` holds: nothing (a blank line), a mnemonic with the operand
/// read from the second word if there is one, or `Err` when that operand is unreadable.
pub open spec fn line_items(l: Seq<u8>) -> Result<Option<(Seq<u8>, Option<ParsedAddress>)>, ()> {
    let s0 = skip_spaces(l, 0);
    let e0 = skip_token(l, s0);
    let s1 = skip_spaces(l, e0);
    let e1 = skip_token(l, s1);
    if s0 >= l.len() {
        Ok(None)
    } else if s1 >= l.len() {
        Ok(Some((l.subrange(s0, e0), None)))
    } else {
        match address_spec(l.subrange(s1, e1)) {
            Some(a) => Ok(Some((l.subrange(s0, e0), Some(a)))),
            None => Err(()),
        }
    }
}

/// The parse of the lines from index `i` on, where `n` counts the lines before `i`.
pub open spec fn parse_from(t: Seq<u8>, i: int, n: int) -> Result<
    Seq<(Seq<u8>, Option<ParsedAddress>)>,
    int,
>
    decreases t.len() - i,
{
    if i < 0 || i >= t.len() {
        Ok(Seq::empty())
    } else {
        let e = line_end(t, i);
        if e < i {
            // A line never ends before it starts.
            Ok(Seq::empty())
        } else {
        match line_items(t.subrange(i, e)) {
            Err(_) => Err(n),
            Ok(item) => match if e < t.len() {
                parse_from(t, e + 1, n + 1)
            } else {
                Ok(Seq::empty())
            } {
                Ok(rest) => Ok(
                    match item {
                        Some(p) => seq![p] + rest,
                        None => rest,
                    },
                ),
                Err(k) => Err(k),
            },
        }
        }
    }
}

/// The view of a parsed line: the mnemonic's bytes and the operand.
pub open spec fn parsed_view(p: ParsedInstruction) -> (Seq<u8>, Option<ParsedAddress>) {
    (p.instruction@, p.address)
}

/// The views of parsed lines.
pub open spec fn views(v: Seq<ParsedInstruction>) -> Seq<(Seq<u8>, Option<ParsedAddress>)> {
    v.map_values(|p: ParsedInstruction| parsed_view(p))
}

/// The result of parsing one line, seen through `parsed_view`.
pub open spec fn line_view(r: Result<Option<ParsedInstruction>, ()>) -> Result<
    Option<(Seq<u8>, Option<ParsedAddress>)>,
    (),
> {
    match r {
        Ok(Some(p)) => Ok(Some(parsed_view(p))),
        Ok(None) => Ok(None),
        Err(_) => Err(()),
    }
}

fn skip_spaces_exec(t: &[u8], i: usize) -> (r: usize)
    requires
        i <= t@.len(),
    ensures
        r == skip_spaces(t@, i as int),
        i <= r <= t@.len(),
{
    let mut j = i;
    while j < t.len() && (t[j] == 0x20 || t[j] == 0x09 || t[j] == 0x0A || t[j] == 0x0B || t[j]
        == 0x0C || t[j] == 0x0D)
        invariant
            i <= j <= t@.len(),
            skip_spaces(t@, j as int) == skip_spaces(t@, i as int),
        decreases t@.len() - j,
    {
        j = j + 1;
    }
    j
}

fn skip_token_exec(t: &[u8], i: usize) -> (r: usize)
    requires
        i <= t@.len(),
    ensures
        r == skip_token(t@, i as int),
        i <= r <= t@.len(),
{
    let mut j = i;
    while j < t.len() && !(t[j] == 0x20 || t[j] == 0x09 || t[j] == 0x0A || t[j] == 0x0B || t[j]
        == 0x0C || t[j] == 0x0D)
        invariant
            i <= j <= t@.len(),
            skip_token(t@, j as int) == skip_token(t@, i as int),
        decreases t@.len() - j,
    {
        j = j + 1;
    }
    j
}

fn skip_alphanumeric_exec(t: &[u8], i: usize) -> (r: usize)
    requires
        i <= t@.len(),
    ensures
        r == skip_alphanumeric(t@, i as int),
        i <= r <= t@.len(),
{
    let mut j = i;
    while j < t.len() && ((0x30 <= t[j] && t[j] <= 0x39) || (0x41 <= t[j] && t[j] <= 0x5A) || (0x61
        <= t[j] && t[j] <= 0x7A))
        invariant
            i <= j <= t@.len(),
            skip_alphanumeric(t@, j as int) == skip_alphanumeric(t@, i as int),
        decreases t@.len() - j,
    {
        j = j + 1;
    }
    j
}

fn line_end_exec(t: &[u8], i: usize) -> (r: usize)
    requires
        i <= t@.len(),
    ensures
        r == line_end(t@, i as int),
        i <= r <= t@.len(),
{
    let mut j = i;
    while j < t.len() && t[j] != 0x0A
        invariant
            i <= j <= t@.len(),
            line_end(t@, j as int) == line_end(t@, i as int),
        decreases t@.len() - j,
    {
        j = j + 1;
    }
    j
}

/// Once a prefix of the digits is unreadable or above `max`, so is the whole number.
proof fn lemma_number_out_of_range(s: Seq<u8>, j: int, radix: int, max: int)
    requires
        0 <= j <= s.len(),
        radix >= 1,
        max >= 0,
        number_value(s.subrange(0, j), radix) < 0 || number_value(s.subrange(0, j), radix) > max,
    ensures
        number_value(s, radix) < 0 || number_value(s, radix) > max,
    decreases s.len() - j,
{
    if s.len() == j {
        assert(s.subrange(0, j) =~= s);
    } else {
        let p = s.drop_last();
        assert(p.subrange(0, j) =~= s.subrange(0, j));
        lemma_number_out_of_range(p, j, radix, max);
        let v = number_value(p, radix);
        if v > max {
            assert(v * radix >= v) by (nonlinear_arith)
                requires
                    v >= 0,
                    radix >= 1,
            ;
        }
    }
}

/// The number that `t[start..end]` spells in `radix`, when it is readable and at most `max`.
fn number_value_exec(t: &[u8], start: usize, end: usize, radix: u32, max: u32) -> (r: Option<u32>)
    requires
        start <= end <= t@.len(),
        2 <= radix <= 16,
        max <= 0xFFFF,
    ensures
        ({
            let v = number_value(t@.subrange(start as int, end as int), radix as int);
            &&& (0 <= v <= max) ==> r == Some(v as u32)
            &&& !(0 <= v <= max) ==> r is None
        }),
{
    let ghost s = t@.subrange(start as int, end as int);
    let mut acc: u32 = 0;
    let mut j = start;
    assert(s.subrange(0, 0) =~= Seq::<u8>::empty());
    while j < end
        invariant
            start <= j <= end <= t@.len(),
            2 <= radix <= 16,
            max <= 0xFFFF,
            s == t@.subrange(start as int, end as int),
            acc as int == number_value(s.subrange(0, j - start), radix as int),
            acc <= max,
        decreases end - j,
    {
        let b = t[j];
        let d: u32 = if 0x30 <= b && b <= 0x39 {
            (b - 0x30) as u32
        } else if 0x41 <= b && b <= 0x5A {
            (b - 0x41 + 10) as u32
        } else if 0x61 <= b && b <= 0x7A {
            (b - 0x61 + 10) as u32
        } else {
            36
        };
        let ghost pre = s.subrange(0, j - start);
        let ghost next = s.subrange(0, j + 1 - start);
        assert(next.drop_last() =~= pre);
        if d >= radix {
            proof {
                lemma_number_out_of_range(s, j + 1 - start, radix as int, max as int);
            }
            return None;
        }
        assert(acc * radix <= 0xFFFF * 16) by (nonlinear_arith)
            requires
                acc <= 0xFFFF,
                radix <= 16,
        ;
        let v = acc * radix + d;
        if v > max {
            proof {
                lemma_number_out_of_range(s, j + 1 - start, radix as int, max as int);
            }
            return None;
        }
        acc = v;
        j = j + 1;
    }
    assert(s.subrange(0, end - start) =~= s);
    Some(acc)
}

/// The number at `i` with its radix prefix, when readable and at most `max`, and where it ends.
fn number_at_exec(t: &[u8], i: usize, max: u32) -> (r: (Option<u32>, usize))
    requires
        i <= t@.len(),
        max <= 0xFFFF,
    ensures
        r.1 == number_at(t@, i as int).1,
        (0 <= number_at(t@, i as int).0 <= max) ==> r.0 == Some(number_at(t@, i as int).0 as u32),
        !(0 <= number_at(t@, i as int).0 <= max) ==> r.0 is None,
{
    let (radix, start): (u32, usize) = if i < t.len() && t[i] == 0x24 {
        (16, i + 1)
    } else if i < t.len() && t[i] == 0x25 {
        (2, i + 1)
    } else {
        (10, i)
    };
    let end = skip_alphanumeric_exec(t, start);
    if end == start {
        (None, end)
    } else {
        (number_value_exec(t, start, end, radix, max), end)
    }
}

/// Reads an operand token: `#n` immediate, `n,X` absolute indexed by X.
pub fn parse_address(t: &[u8]) -> (r: Option<ParsedAddress>)
    ensures
        r == address_spec(t@),
{
    if t.len() > 0 && t[0] == 0x23 {
        let (v, _) = number_at_exec(t, 1, 0xFFFF);
        if let Some(v) = v {
            if v <= 0xFF {
                return Some(ParsedAddress::Immediate { value: v as u8 });
            } else {
                return None;
            }
        }
    }
    let (v, end) = number_at_exec(t, 0, 0xFFFF);
    match v {
        Some(v) => {
            if end < t.len() && t.len() - end >= 2 && t[end] == 0x2C && t[end + 1] == 0x58 {
                Some(ParsedAddress::AbsoluteX { value: v as u16 })
            } else {
                None
            }
        },
        None => None,
    }
}

/// Reads one line: its first word is the mnemonic, its second the operand.
fn parse_line<'a>(line: &'a [u8]) -> (r: Result<Option<ParsedInstruction<'a>>, ()>)
    ensures
        line_view(r) == line_items(line@),
{
    let s0 = skip_spaces_exec(line, 0);
    let e0 = skip_token_exec(line, s0);
    let s1 = skip_spaces_exec(line, e0);
    let e1 = skip_token_exec(line, s1);
    if s0 >= line.len() {
        Ok(None)
    } else if s1 >= line.len() {
        Ok(Some(ParsedInstruction { instruction: slice_subrange(line, s0, e0), address: None }))
    } else {
        match parse_address(slice_subrange(line, s1, e1)) {
            Some(a) => Ok(
                Some(ParsedInstruction { instruction: slice_subrange(line, s0, e0), address: Some(a) }),
            ),
            None => Err(()),
        }
    }
}

/// `acc` followed by what `r` holds, or the error that `r` holds.
pub open spec fn prepend(
    acc: Seq<(Seq<u8>, Option<ParsedAddress>)>,
    r: Result<Seq<(Seq<u8>, Option<ParsedAddress>)>, int>,
) -> Result<Seq<(Seq<u8>, Option<ParsedAddress>)>, int> {
    match r {
        Ok(s) => Ok(acc + s),
        Err(k) => Err(k),
    }
}

/// Parses assembly text: blank lines are skipped; every other line gives its mnemonic and,
/// when the line has a second word, the operand that word spells. A line whose operand
/// cannot be read is an error that names the line.
pub fn parse_instructions<'a>(str: &'a str) -> (r: Result<Vec<ParsedInstruction<'a>>, ParseError>)
    ensures
        match parse_from(str.spec_bytes(), 0, 0) {
            Ok(s) => r is Ok && views(r.unwrap()@) == s,
            Err(k) => r == Err::<Vec<ParsedInstruction>, ParseError>(ParseError { line: k as usize }),
        },
{
    let t = str.as_bytes();
    let ghost tb = t@;
    let mut acc: Vec<ParsedInstruction<'a>> = Vec::new();
    let mut i: usize = 0;
    let mut n: usize = 0;
    while i < t.len()
        invariant
            tb == t@,
            tb == str.spec_bytes(),
            i <= t@.len(),
            n <= i,
            prepend(views(acc@), parse_from(tb, i as int, n as int))
                == parse_from(tb, 0, 0),
        decreases t@.len() - i,
    {
        let e = line_end_exec(t, i);
        let line = slice_subrange(t, i, e);
        let ghost old_acc = views(acc@);
        let ghost rest = if e < tb.len() {
            parse_from(tb, e + 1, n + 1)
        } else {
            Ok(Seq::empty())
        };
        match parse_line(line) {
            Err(_) => {
                return Err(ParseError { line: n });
            },
            Ok(item) => {
                if let Some(p) = item {
                    acc.push(p);
                    let ghost new_acc = views(acc@);
                    assert(new_acc =~= old_acc + seq![parsed_view(p)]);
                    proof {
                        if let Ok(s) = rest {
                            assert(old_acc + (seq![parsed_view(p)] + s) =~= new_acc + s);
                        }
                    }
                }
            },
        }
        if e < t.len() {
            i = e + 1;
            n = n + 1;
        } else {
            i = e;
        }
    }
    assert(parse_from(tb, i as int, n as int) == Ok::<Seq<(Seq<u8>, Option<ParsedAddress>)>, int>(Seq::empty()));
    assert(views(acc@) + Seq::empty() =~= views(acc@));
    Ok(acc)
}

} // verus!
