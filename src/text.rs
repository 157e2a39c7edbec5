use vstd::prelude::*;

verus! {

pub open spec fn digit_char(d: nat) -> char {
    ((d + 48) as u8) as char
}

/// Decimal digits of `n`, without sign or leading zeros.
pub open spec fn decimal(n: nat) -> Seq<char>
    decreases n,
{
    if n < 10 {
        seq![digit_char(n)]
    } else {
        decimal(n / 10).push(digit_char(n % 10))
    }
}

pub open spec fn is_digit(c: char) -> bool {
    '0' <= c && c <= '9'
}

/// The value of a string of decimal digits.
pub open spec fn digits_value(s: Seq<char>) -> nat
    decreases s.len(),
{
    if s.len() == 0 {
        0
    } else {
        digits_value(s.drop_last()) * 10 + ((s.last() as nat) - 48) as nat
    }
}

/// A `u64` written in decimal: an optional `+`, then at least one digit,
/// with a value that fits.
pub open spec fn parsed_u64(s: Seq<char>) -> Option<u64> {
    let t = if s.len() > 0 && s[0] == '+' {
        s.drop_first()
    } else {
        s
    };
    if t.len() > 0 && (forall|i: int| 0 <= i < t.len() ==> is_digit(#[trigger] t[i]))
        && digits_value(t) <= u64::MAX {
        Some(digits_value(t) as u64)
    } else {
        None
    }
}

pub open spec fn bool_text(b: bool) -> Seq<char> {
    if b {
        "true"@
    } else {
        "false"@
    }
}

/// Relies on the `Display` of `u64`, through `ToString`: decimal digits.
#[verifier::external_body]
pub(crate) fn u64_text(n: u64) -> (r: String)
    ensures
        r@ == decimal(n as nat),
{
    n.to_string()
}

/// Relies on `<u64 as FromStr>::from_str`: an optional `+` and decimal
/// digits, refused on overflow.
#[verifier::external_body]
pub(crate) fn parse_u64(s: &str) -> (r: Option<u64>)
    ensures
        r == parsed_u64(s@),
{
    s.parse::<u64>().ok()
}

pub fn bool_to_text(b: bool) -> (r: String)
    ensures
        r@ == bool_text(b),
{
    if b {
        "true".to_string()
    } else {
        "false".to_string()
    }
}

/// The words joined by single spaces.
pub open spec fn joined(words: Seq<Seq<char>>) -> Seq<char>
    decreases words.len(),
{
    if words.len() == 0 {
        Seq::empty()
    } else if words.len() == 1 {
        words[0]
    } else {
        joined(words.drop_last()) + " "@ + words.last()
    }
}

pub fn join_words(words: &Vec<&'static str>) -> (r: String)
    ensures
        r@ == joined(words@.map_values(|w: &'static str| w@)),
{
    let ghost ws = words@.map_values(|w: &'static str| w@);
    let mut r = String::new();
    let mut i: usize = 0;
    while i < words.len()
        invariant
            0 <= i <= words.len(),
            ws == words@.map_values(|w: &'static str| w@),
            r@ == joined(ws.subrange(0, i as int)),
        decreases words.len() - i,
    {
        proof {
            reveal_strlit(" ");
        }
        if i > 0 {
            r.append(" ");
        }
        r.append(words[i]);
        proof {
            let s = ws.subrange(0, i as int + 1);
            assert(s.drop_last() =~= ws.subrange(0, i as int));
            assert(r@ =~= joined(s));
        }
        i = i + 1;
    }
    assert(ws.subrange(0, words.len() as int) =~= ws);
    r
}

} // verus!
