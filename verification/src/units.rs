use crate::document::Node;
use crate::error::TsnError;
use crate::text::char_is_digit;
use crate::text::char_is_space;
use crate::text::digit_value;
use crate::text::digits_end;
use crate::text::is_digit;
use crate::text::number_of;
use crate::text::spaces_end;
use crate::text::to_chars;
use vstd::prelude::*;
use vstd::string::*;

verus! {

/// Bits per second of a link whose speed could not be found out.
pub const DEFAULT_LINK_SPEED: i64 = 1_000_000_000;

/// The bits that a unit letter stands for: a bit, or the eight bits of an
/// octet.
pub open spec fn unit_bits(c: char) -> Option<int> {
    if c == 'b' {
        Some(1)
    } else if c == 'B' {
        Some(8)
    } else {
        None
    }
}

/// The factor of a decimal prefix.
pub open spec fn decimal_prefix(c: char) -> Option<int> {
    if c == 'k' {
        Some(1_000)
    } else if c == 'M' {
        Some(1_000_000)
    } else if c == 'G' {
        Some(1_000_000_000)
    } else {
        None
    }
}

/// The factor of a binary prefix, which an `i` follows.
pub open spec fn binary_prefix(c: char) -> Option<int> {
    if c == 'k' {
        Some(1024)
    } else if c == 'M' {
        Some(1_048_576)
    } else if c == 'G' {
        Some(1_073_741_824)
    } else {
        None
    }
}

/// The factor of the suffix of a size: an optional prefix, decimal (`k`, `M`,
/// `G`) or binary (`ki`, `Mi`, `Gi`), then `b` for bits or `B` for octets.
pub open spec fn size_unit(t: Seq<char>) -> Option<int> {
    if t.len() == 1 {
        unit_bits(t[0])
    } else if t.len() == 2 {
        match (decimal_prefix(t[0]), unit_bits(t[1])) {
            (Some(p), Some(u)) => Some(p * u),
            _ => None,
        }
    } else if t.len() == 3 && t[1] == 'i' {
        match (binary_prefix(t[0]), unit_bits(t[2])) {
            (Some(p), Some(u)) => Some(p * u),
            _ => None,
        }
    } else {
        None
    }
}

/// The factor of the suffix of a bandwidth: an optional decimal prefix, `b`
/// or `B`, then `ps` or `/s`. The number counts bits per second with either
/// letter.
pub open spec fn rate_unit(t: Seq<char>) -> Option<int> {
    if t.len() == 3 && unit_bits(t[0]) is Some && (t[1] == 'p' || t[1] == '/') && t[2] == 's' {
        Some(1)
    } else if t.len() == 4 && unit_bits(t[1]) is Some && (t[2] == 'p' || t[2] == '/') && t[3]
        == 's' {
        decimal_prefix(t[0])
    } else {
        None
    }
}

/// The factor of the suffix of a time: none or `ns` for nanoseconds, `us` or
/// `µs` for microseconds, `ms` for milliseconds.
pub open spec fn time_unit(t: Seq<char>) -> Option<int> {
    if t.len() == 0 {
        Some(1)
    } else if t.len() == 2 && t[1] == 's' {
        if t[0] == 'n' {
            Some(1)
        } else if t[0] == 'u' || t[0] == '\u{b5}' {
            Some(1_000)
        } else if t[0] == 'm' {
            Some(1_000_000)
        } else {
            None
        }
    } else {
        None
    }
}

/// The three kinds of quantity that a document writes with a unit.
#[derive(Clone, Copy, Debug, PartialEq, Eq, Structural)]
pub enum Quantity {
    Size,
    Rate,
    Time,
}

/// The factor of a suffix for a kind of quantity.
pub open spec fn unit_of(kind: Quantity, t: Seq<char>) -> Option<int> {
    match kind {
        Quantity::Size => size_unit(t),
        Quantity::Rate => rate_unit(t),
        Quantity::Time => time_unit(t),
    }
}

/// The value of a text of the shape: decimal digits, white space if any, a
/// suffix of the kind. The digits are a number, the suffix scales it, and the
/// result fits in 64 bits; a text of any other shape has no value.
pub open spec fn quantity_of(kind: Quantity, s: Seq<char>) -> Option<i64> {
    let d = digits_end(s, 0);
    let w = spaces_end(s, d);
    if d == 0 {
        None
    } else {
        match unit_of(kind, s.subrange(w, s.len() as int)) {
            None => None,
            Some(m) => if number_of(s.subrange(0, d)) * m <= i64::MAX {
                Some((number_of(s.subrange(0, d)) * m) as i64)
            } else {
                None
            },
        }
    }
}

/// The value that a node gives for a kind of quantity: a whole number that is
/// not negative stands for itself, in bits, bits per second or nanoseconds; a
/// text is read with its unit; anything else has no value.
pub open spec fn reading(kind: Quantity, n: Node) -> Option<i64> {
    match n {
        Node::Int(v) => if v >= 0 {
            Some(v)
        } else {
            None
        },
        Node::Text(t) => quantity_of(kind, t@),
        _ => None,
    }
}

/// The result of reading a quantity: the value, or `InvalidConfig`.
pub open spec fn checked(v: Option<i64>) -> Result<i64, TsnError> {
    match v {
        Some(x) => Ok(x),
        None => Err(TsnError::InvalidConfig),
    }
}

fn scan_digits(chars: &Vec<char>, from: usize) -> (end: usize)
    requires
        from <= chars@.len(),
    ensures
        end == digits_end(chars@, from as int),
        from <= end <= chars@.len(),
        forall|k: int| from <= k < end ==> is_digit(chars@[k]),
{
    let n: usize = chars.len();
    let mut i: usize = from;
    while i < n && char_is_digit(chars[i])
        invariant
            from <= i <= n,
            n == chars@.len(),
            digits_end(chars@, from as int) == digits_end(chars@, i as int),
            forall|k: int| from <= k < i ==> is_digit(chars@[k]),
        decreases n - i,
    {
        i = i + 1;
    }
    i
}

fn scan_spaces(chars: &Vec<char>, from: usize) -> (end: usize)
    requires
        from <= chars@.len(),
    ensures
        end == spaces_end(chars@, from as int),
        from <= end <= chars@.len(),
{
    let n: usize = chars.len();
    let mut i: usize = from;
    while i < n && char_is_space(chars[i])
        invariant
            from <= i <= n,
            n == chars@.len(),
            spaces_end(chars@, from as int) == spaces_end(chars@, i as int),
        decreases n - i,
    {
        i = i + 1;
    }
    i
}

/// A longer run of digits writes no smaller a number.
proof fn lemma_number_grows(s: Seq<char>, i: int, j: int)
    requires
        0 <= i <= j <= s.len(),
        forall|k: int| 0 <= k < s.len() ==> is_digit(s[k]),
    ensures
        number_of(s.subrange(0, i)) <= number_of(s.subrange(0, j)),
    decreases j - i,
{
    if i < j {
        lemma_number_grows(s, i, j - 1);
        assert(s.subrange(0, j).drop_last() =~= s.subrange(0, j - 1));
    }
}

/// Reads the number that the digits from `from` to `end` write, if it fits in
/// 63 bits.
fn read_number(chars: &Vec<char>, from: usize, end: usize) -> (r: Option<u64>)
    requires
        from <= end <= chars@.len(),
        forall|k: int| from <= k < end ==> is_digit(chars@[k]),
    ensures
        match r {
            Some(v) => v == number_of(chars@.subrange(from as int, end as int)) && v <= i64::MAX,
            None => number_of(chars@.subrange(from as int, end as int)) > i64::MAX,
        },
{
    let mut acc: u64 = 0;
    let mut i: usize = from;
    let ghost run = chars@.subrange(from as int, end as int);
    assert(run.subrange(0, 0) =~= Seq::<char>::empty());
    while i < end
        invariant
            from <= i <= end <= chars@.len(),
            run == chars@.subrange(from as int, end as int),
            forall|k: int| from <= k < end ==> is_digit(chars@[k]),
            acc == number_of(run.subrange(0, i - from)),
            acc <= i64::MAX,
        decreases end - i,
    {
        let d: u64 = (chars[i] as u32 - 48) as u64;
        proof {
            assert(run.subrange(0, i + 1 - from).drop_last() =~= run.subrange(0, i - from));
            assert(run.subrange(0, i + 1 - from).last() == chars@[i as int]);
            assert(d == digit_value(chars@[i as int]));
        }
        if acc > (i64::MAX as u64 - d) / 10 {
            proof {
                assert(number_of(run.subrange(0, i + 1 - from)) > i64::MAX);
                assert(forall|k: int| 0 <= k < run.len() ==> is_digit(run[k]));
                lemma_number_grows(run, i + 1 - from, run.len() as int);
                assert(run.subrange(0, run.len() as int) =~= run);
            }
            return None;
        }
        acc = acc * 10 + d;
        i = i + 1;
    }
    assert(run.subrange(0, run.len() as int) =~= run);
    Some(acc)
}

fn letter_bits(c: char) -> (r: Option<u64>)
    ensures
        match r {
            Some(v) => unit_bits(c) == Some(v as int),
            None => unit_bits(c) is None,
        },
{
    if c == 'b' {
        Some(1)
    } else if c == 'B' {
        Some(8)
    } else {
        None
    }
}

fn letter_decimal(c: char) -> (r: Option<u64>)
    ensures
        match r {
            Some(v) => decimal_prefix(c) == Some(v as int),
            None => decimal_prefix(c) is None,
        },
{
    if c == 'k' {
        Some(1_000)
    } else if c == 'M' {
        Some(1_000_000)
    } else if c == 'G' {
        Some(1_000_000_000)
    } else {
        None
    }
}

fn letter_binary(c: char) -> (r: Option<u64>)
    ensures
        match r {
            Some(v) => binary_prefix(c) == Some(v as int),
            None => binary_prefix(c) is None,
        },
{
    if c == 'k' {
        Some(1024)
    } else if c == 'M' {
        Some(1_048_576)
    } else if c == 'G' {
        Some(1_073_741_824)
    } else {
        None
    }
}

/// Reads the factor of the suffix that starts at `from`.
fn read_unit(kind: Quantity, chars: &Vec<char>, from: usize) -> (r: Option<u64>)
    requires
        from <= chars@.len(),
    ensures
        match r {
            Some(v) => unit_of(kind, chars@.subrange(from as int, chars@.len() as int)) == Some(
                v as int,
            ) && 1 <= v <= 8_589_934_592,
            None => unit_of(kind, chars@.subrange(from as int, chars@.len() as int)) is None,
        },
{
    let n: usize = chars.len();
    let len: usize = n - from;
    let ghost t = chars@.subrange(from as int, n as int);
    assert(forall|k: int| 0 <= k < t.len() ==> t[k] == chars@[from + k]);
    match kind {
        Quantity::Size => {
            if len == 1 {
                letter_bits(chars[from])
            } else if len == 2 {
                match (letter_decimal(chars[from]), letter_bits(chars[from + 1])) {
                    (Some(p), Some(u)) => Some(p * u),
                    _ => None,
                }
            } else if len == 3 && chars[from + 1] == 'i' {
                match (letter_binary(chars[from]), letter_bits(chars[from + 2])) {
                    (Some(p), Some(u)) => Some(p * u),
                    _ => None,
                }
            } else {
                None
            }
        },
        Quantity::Rate => {
            if len == 3 && letter_bits(chars[from]).is_some() && (chars[from + 1] == 'p'
                || chars[from + 1] == '/') && chars[from + 2] == 's' {
                Some(1)
            } else if len == 4 && letter_bits(chars[from + 1]).is_some() && (chars[from + 2]
                == 'p' || chars[from + 2] == '/') && chars[from + 3] == 's' {
                letter_decimal(chars[from])
            } else {
                None
            }
        },
        Quantity::Time => {
            if len == 0 {
                Some(1)
            } else if len == 2 && chars[from + 1] == 's' {
                let c = chars[from];
                if c == 'n' {
                    Some(1)
                } else if c == 'u' || c == '\u{b5}' {
                    Some(1_000)
                } else if c == 'm' {
                    Some(1_000_000)
                } else {
                    None
                }
            } else {
                None
            }
        },
    }
}

/// Reads a quantity out of a text.
pub fn read_quantity(kind: Quantity, text: &str) -> (r: Option<i64>)
    ensures
        r == quantity_of(kind, text@),
{
    let chars = to_chars(text);
    let d: usize = scan_digits(&chars, 0);
    let w: usize = scan_spaces(&chars, d);
    if d == 0 {
        return None;
    }
    let m: u64 = match read_unit(kind, &chars, w) {
        None => {
            return None;
        },
        Some(m) => m,
    };
    match read_number(&chars, 0, d) {
        None => {
            proof {
                let v = number_of(chars@.subrange(0, d as int));
                assert(v * m > i64::MAX) by (nonlinear_arith)
                    requires
                        v > i64::MAX,
                        m >= 1,
                ;
            }
            None
        },
        Some(v) => {
            assert(v * m <= 0x8000_0000_0000_0000 * 8_589_934_592) by (nonlinear_arith)
                requires
                    0 <= v <= 0x7fff_ffff_ffff_ffff,
                    0 <= m <= 8_589_934_592,
            ;
            let p: u128 = v as u128 * m as u128;
            if p <= i64::MAX as u128 {
                Some(p as i64)
            } else {
                None
            }
        },
    }
}

fn read_node(kind: Quantity, input: &Node) -> (r: Result<i64, TsnError>)
    ensures
        r == checked(reading(kind, *input)),
{
    let v: Option<i64> = match input {
        Node::Int(v) => if *v >= 0 {
            Some(*v)
        } else {
            None
        },
        Node::Text(t) => read_quantity(kind, t.as_str()),
        _ => None,
    };
    match v {
        Some(x) => Ok(x),
        None => Err(TsnError::InvalidConfig),
    }
}

/// Reads a size in bits. A whole number counts bits; a text carries its
/// unit. A negative number, a text of another shape, a value that does not
/// fit, and any other node give `InvalidConfig`.
pub fn to_bits(input: &Node) -> (r: Result<i64, TsnError>)
    ensures
        r == checked(reading(Quantity::Size, *input)),
{
    read_node(Quantity::Size, input)
}

/// Reads a bandwidth in bits per second; as `to_bits`.
pub fn to_bps(input: &Node) -> (r: Result<i64, TsnError>)
    ensures
        r == checked(reading(Quantity::Rate, *input)),
{
    read_node(Quantity::Rate, input)
}

/// Reads a time in nanoseconds; as `to_bits`.
pub fn to_ns(input: &Node) -> (r: Result<i64, TsnError>)
    ensures
        r == checked(reading(Quantity::Time, *input)),
{
    read_node(Quantity::Time, input)
}

/// Whether the label of the speed line stands at `i`.
pub open spec fn label_at(s: Seq<char>, i: int) -> bool {
    &&& 0 <= i
    &&& i + 7 <= s.len()
    &&& s[i] == 'S'
    &&& s[i + 1] == 'p'
    &&& s[i + 2] == 'e'
    &&& s[i + 3] == 'e'
    &&& s[i + 4] == 'd'
    &&& s[i + 5] == ':'
    &&& s[i + 6] == ' '
}

/// Where the speed that is labelled at `i` ends: after the label come decimal
/// digits, an optional decimal prefix, `b`, an optional `p` or `/`, and `s`.
pub open spec fn speed_end(s: Seq<char>, i: int) -> Option<int> {
    if !label_at(s, i) {
        None
    } else {
        let d = digits_end(s, i + 7);
        let m = if d < s.len() && decimal_prefix(s[d]) is Some {
            d + 1
        } else {
            d
        };
        if d == i + 7 || m >= s.len() || s[m] != 'b' {
            None
        } else if m + 1 < s.len() && s[m + 1] == 's' {
            Some(m + 2)
        } else if m + 2 < s.len() && (s[m + 1] == 'p' || s[m + 1] == '/') && s[m + 2] == 's' {
            Some(m + 3)
        } else {
            None
        }
    }
}

/// The first labelled speed of a report, from position `from` on: its text
/// without the label.
pub open spec fn first_speed(s: Seq<char>, from: int) -> Option<Seq<char>>
    decreases s.len() - from,
{
    if from < 0 || from >= s.len() {
        None
    } else {
        match speed_end(s, from) {
            Some(e) => Some(s.subrange(from + 7, e)),
            None => first_speed(s, from + 1),
        }
    }
}

fn match_speed(chars: &Vec<char>, i: usize) -> (r: Option<usize>)
    requires
        i < chars@.len(),
    ensures
        match r {
            Some(e) => speed_end(chars@, i as int) == Some(e as int) && i + 7 < e <= chars@.len(),
            None => speed_end(chars@, i as int) is None,
        },
{
    let n: usize = chars.len();
    if n - i < 7 {
        return None;
    }
    if !(chars[i] == 'S' && chars[i + 1] == 'p' && chars[i + 2] == 'e' && chars[i + 3] == 'e'
        && chars[i + 4] == 'd' && chars[i + 5] == ':' && chars[i + 6] == ' ') {
        return None;
    }
    let d: usize = scan_digits(chars, i + 7);
    let m: usize = if d < n && letter_decimal(chars[d]).is_some() {
        d + 1
    } else {
        d
    };
    if d == i + 7 || m >= n || chars[m] != 'b' {
        None
    } else if n - m > 1 && chars[m + 1] == 's' {
        Some(m + 2)
    } else if n - m > 2 && (chars[m + 1] == 'p' || chars[m + 1] == '/') && chars[m + 2] == 's' {
        Some(m + 3)
    } else {
        None
    }
}

/// Finds the speed of a link in the report of the link inspector: the text
/// that follows the first `Speed: ` label after which a speed stands.
pub fn get_linkspeed(report: &str) -> (r: Option<String>)
    ensures
        match r {
            Some(t) => first_speed(report@, 0) == Some(t@),
            None => first_speed(report@, 0) is None,
        },
{
    let chars = to_chars(report);
    let n: usize = chars.len();
    let mut i: usize = 0;
    while i < n
        invariant
            i <= n,
            n == chars@.len(),
            chars@ == report@,
            first_speed(report@, 0) == first_speed(report@, i as int),
        decreases n - i,
    {
        match match_speed(&chars, i) {
            Some(e) => {
                let t = report.substring_char(i + 7, e);
                return Some(String::from_str(t));
            },
            None => {},
        }
        i = i + 1;
    }
    None
}

/// The speed of a link, from the report of the link inspector if there is
/// one: the default where there is no report or no speed in it, the speed as
/// a bandwidth where one is found, `InvalidConfig` where what was found is no
/// bandwidth.
pub open spec fn link_speed_of(report: Option<Seq<char>>) -> Result<i64, TsnError> {
    match report {
        None => Ok(DEFAULT_LINK_SPEED),
        Some(r) => match first_speed(r, 0) {
            None => Ok(DEFAULT_LINK_SPEED),
            Some(t) => checked(quantity_of(Quantity::Rate, t)),
        },
    }
}

/// The view of an optional report.
pub open spec fn report_view(report: Option<&str>) -> Option<Seq<char>> {
    match report {
        Some(r) => Some(r@),
        None => None,
    }
}

/// Works out the speed of a link from the report of the link inspector.
pub fn link_speed(report: Option<&str>) -> (r: Result<i64, TsnError>)
    ensures
        r == link_speed_of(report_view(report)),
{
    match report {
        None => Ok(DEFAULT_LINK_SPEED),
        Some(text) => match get_linkspeed(text) {
            None => Ok(DEFAULT_LINK_SPEED),
            Some(t) => match read_quantity(Quantity::Rate, t.as_str()) {
                Some(v) => Ok(v),
                None => Err(TsnError::InvalidConfig),
            },
        },
    }
}

} // verus!
