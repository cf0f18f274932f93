use crate::themes::ThemeInfo;
use vstd::prelude::*;
use vstd::string::StringExecFns;

verus! {

/// Whether `c` is a decimal digit.
pub open spec fn is_digit_char(c: char) -> bool {
    0x30 <= c as u32 <= 0x39
}

/// The value of one decimal digit.
pub open spec fn digit_val(c: char) -> int {
    c as u32 - 0x30
}

/// The number that a sequence of decimal digits denotes, most significant
/// digit first; the empty sequence denotes zero.
pub open spec fn digits_val(s: Seq<char>) -> int
    decreases s.len(),
{
    if s.len() == 0 {
        0
    } else {
        digits_val(s.drop_last()) * 10 + digit_val(s.last())
    }
}

/// The digit part of a speed argument: everything after an optional leading
/// plus sign.
pub open spec fn speed_digits(s: Seq<char>) -> Seq<char> {
    if s.len() > 0 && s[0] == '+' {
        s.drop_first()
    } else {
        s
    }
}

/// Whether `s` is a well-formed speed argument: an optional plus sign, then
/// at least one decimal digit, denoting a value that fits in 32 bits.
pub open spec fn is_valid_speed(s: Seq<char>) -> bool {
    let d = speed_digits(s);
    &&& d.len() > 0
    &&& forall|i: int| 0 <= i < d.len() ==> is_digit_char(#[trigger] d[i])
    &&& digits_val(d) <= u32::MAX
}

/// A sequence of digits denotes a non-negative number.
proof fn lemma_digits_val_nonneg(d: Seq<char>)
    requires
        forall|i: int| 0 <= i < d.len() ==> is_digit_char(#[trigger] d[i]),
    ensures
        digits_val(d) >= 0,
    decreases d.len(),
{
    if d.len() > 0 {
        lemma_digits_val_nonneg(d.drop_last());
    }
}

/// Extending a digit sequence never shrinks the number it denotes.
proof fn lemma_digits_val_prefix_le(d: Seq<char>, k: int)
    requires
        0 <= k <= d.len(),
        forall|i: int| 0 <= i < d.len() ==> is_digit_char(#[trigger] d[i]),
    ensures
        digits_val(d.take(k)) <= digits_val(d),
    decreases d.len() - k,
{
    if k < d.len() {
        assert(d.take(k + 1).drop_last() =~= d.take(k));
        assert(forall|i: int| 0 <= i < d.take(k).len() ==> is_digit_char(#[trigger] d.take(k)[i]));
        lemma_digits_val_nonneg(d.take(k));
        assert(digits_val(d.take(k + 1)) == digits_val(d.take(k)) * 10 + digit_val(d[k]));
        lemma_digits_val_prefix_le(d, k + 1);
    } else {
        assert(d.take(k) =~= d);
    }
}

/// Reads a speed argument: `Some` exactly on a well-formed decimal number
/// that fits in 32 bits, and then the denoted value.
pub fn parse_speed(s: &str) -> (r: Option<u32>)
    ensures
        r is Some <==> is_valid_speed(s@),
        r matches Some(v) ==> v == digits_val(speed_digits(s@)),
{
    let n = s.unicode_len();
    if n == 0 {
        return None;
    }
    let first = s.get_char(0);
    let start: usize = if first == '+' {
        1
    } else {
        0
    };
    let ghost d = speed_digits(s@);
    assert(d =~= s@.subrange(start as int, n as int));
    if n == start {
        return None;
    }
    let mut val: u32 = 0;
    let mut i: usize = start;
    while i < n
        invariant
            start <= i <= n,
            n == s@.len(),
            start < n,
            d == speed_digits(s@),
            d =~= s@.subrange(start as int, n as int),
            forall|k: int| 0 <= k < i - start ==> is_digit_char(#[trigger] d[k]),
            val == digits_val(d.take(i - start)),
        decreases n - i,
    {
        let c = s.get_char(i);
        let u = c as u32;
        if u < 0x30 || u > 0x39 {
            assert(!is_digit_char(d[i - start]));
            return None;
        }
        let digit = u - 0x30;
        if val > 429496729 || (val == 429496729 && digit > 5) {
            proof {
                assert(d.take(i - start + 1).drop_last() =~= d.take(i - start));
                assert(digits_val(d.take(i - start + 1)) == val * 10 + digit);
                if forall|k: int| 0 <= k < d.len() ==> is_digit_char(#[trigger] d[k]) {
                    lemma_digits_val_prefix_le(d, i - start + 1);
                    assert(digits_val(d) > u32::MAX);
                }
            }
            return None;
        }
        proof {
            assert(d.take(i - start + 1).drop_last() =~= d.take(i - start));
        }
        val = val * 10 + digit;
        i = i + 1;
    }
    assert(d.take(n - start) =~= d);
    Some(val)
}

/// Looks a theme name up in the catalog, as the startup path does: the pool
/// of the first entry carrying the name, and `None` when no entry carries it
/// or the first entry that does has an empty pool.
pub fn lookup_theme(themes: &Vec<ThemeInfo>, name: &str) -> (r: Option<Vec<char>>)
    ensures
        match r {
            Some(chars) => exists|i: int|
                {
                    &&& 0 <= i < themes@.len()
                    &&& (#[trigger] themes@[i].name)@ == name@
                    &&& forall|j: int| 0 <= j < i ==> themes@[j].name@ != name@
                    &&& chars@ == themes@[i].chars@
                    &&& chars@.len() > 0
                },
            None => forall|i: int|
                (0 <= i < themes@.len() && (#[trigger] themes@[i].name)@ == name@ && (forall|j: int|
                    0 <= j < i ==> themes@[j].name@ != name@)) ==> themes@[i].chars@.len() == 0,
        },
{
    let owned = name.to_owned();
    let mut i: usize = 0;
    while i < themes.len()
        invariant
            i <= themes@.len(),
            owned@ == name@,
            forall|j: int| 0 <= j < i ==> themes@[j].name@ != name@,
        decreases themes@.len() - i,
    {
        if themes[i].name == owned {
            if themes[i].chars.len() > 0 {
                return Some(themes[i].chars.clone());
            } else {
                return None;
            }
        }
        i = i + 1;
    }
    None
}

/// The report for a malformed speed argument; it carries the offending
/// argument verbatim.
pub fn invalid_speed_message(arg: &str) -> (r: String)
    ensures
        r@ == "Invalid speed: "@ + arg@,
{
    let mut msg = "Invalid speed: ".to_owned();
    msg.append(arg);
    msg
}

/// The report for an unknown theme name; it carries the offending argument
/// verbatim.
pub fn invalid_theme_message(arg: &str) -> (r: String)
    ensures
        r@ == "Invalid theme: "@ + arg@,
{
    let mut msg = "Invalid theme: ".to_owned();
    msg.append(arg);
    msg
}

} // verus!
