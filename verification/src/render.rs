//! Turning resolved values into the probe's one-line output form:
//! `<Mode>: Domain <domain> / <key> = <value-or-empty>`.
//!
//! Integers are rendered in decimal by a verified renderer, so the printed
//! text is pinned down character by character.

use vstd::prelude::*;
use vstd::string::StringExecFns;

use crate::value::PlistDataType;

verus! {

/// The decimal digit character for one digit value.
pub open spec fn spec_digit_char(d: nat) -> char {
    if d == 0 {
        '0'
    } else if d == 1 {
        '1'
    } else if d == 2 {
        '2'
    } else if d == 3 {
        '3'
    } else if d == 4 {
        '4'
    } else if d == 5 {
        '5'
    } else if d == 6 {
        '6'
    } else if d == 7 {
        '7'
    } else if d == 8 {
        '8'
    } else {
        '9'
    }
}

/// The decimal digits of an unsigned number, most significant first, with
/// no leading zeros (a lone zero for 0).
pub open spec fn spec_u64_digits(n: nat) -> Seq<char>
    decreases n,
{
    if n < 10 {
        seq![spec_digit_char(n)]
    } else {
        spec_u64_digits(n / 10).push(spec_digit_char(n % 10))
    }
}

/// The decimal rendering of a signed number: a minus sign, if negative,
/// followed by the digits of its magnitude.
pub open spec fn spec_i64_digits(i: int) -> Seq<char> {
    if i < 0 {
        seq!['-'] + spec_u64_digits((-i) as nat)
    } else {
        spec_u64_digits(i as nat)
    }
}

fn digit_str(d: u64) -> (r: String)
    requires
        d < 10,
    ensures
        r@ == seq![spec_digit_char(d as nat)],
{
    let r: String = if d == 0 {
        "0".to_owned()
    } else if d == 1 {
        "1".to_owned()
    } else if d == 2 {
        "2".to_owned()
    } else if d == 3 {
        "3".to_owned()
    } else if d == 4 {
        "4".to_owned()
    } else if d == 5 {
        "5".to_owned()
    } else if d == 6 {
        "6".to_owned()
    } else if d == 7 {
        "7".to_owned()
    } else if d == 8 {
        "8".to_owned()
    } else {
        "9".to_owned()
    };
    proof {
        reveal_strlit("0");
        reveal_strlit("1");
        reveal_strlit("2");
        reveal_strlit("3");
        reveal_strlit("4");
        reveal_strlit("5");
        reveal_strlit("6");
        reveal_strlit("7");
        reveal_strlit("8");
        reveal_strlit("9");
        assert(r@ =~= seq![spec_digit_char(d as nat)]);
    }
    r
}

/// Render an unsigned number in decimal, no leading zeros.
pub fn render_u64(n: u64) -> (r: String)
    ensures
        r@ == spec_u64_digits(n as nat),
    decreases n,
{
    if n < 10 {
        digit_str(n)
    } else {
        let prefix = render_u64(n / 10);
        let last = digit_str(n % 10);
        let r = prefix.concat(last.as_str());
        proof {
            assert(r@ =~= spec_u64_digits(n as nat));
        }
        r
    }
}

/// Render a signed number in decimal, with a leading minus sign when
/// negative.
pub fn render_i64(i: i64) -> (r: String)
    ensures
        r@ == spec_i64_digits(i as int),
{
    if i >= 0 {
        render_u64(i as u64)
    } else {
        let mag: u64 = (-(i as i128)) as u64;
        let digits = render_u64(mag);
        let r = String::from_str("-").concat(digits.as_str());
        proof {
            reveal_strlit("-");
            assert(mag as int == -(i as int));
            assert(r@ =~= spec_i64_digits(i as int));
        }
        r
    }
}

/// The printable text of one resolved value: the string itself, the decimal
/// integer, `true`/`false` for a boolean, and nothing at all for absence.
pub open spec fn spec_display_value(v: Option<PlistDataType>) -> Seq<char> {
    match v {
        None => Seq::empty(),
        Some(PlistDataType::Str(s)) => s@,
        Some(PlistDataType::Int(i)) => spec_i64_digits(i as int),
        Some(PlistDataType::Bool(b)) => (if b {
            "true"@
        } else {
            "false"@
        }),
    }
}

/// Convert one resolved value to its printable text.
pub fn display_value(v: &Option<PlistDataType>) -> (r: String)
    ensures
        r@ == spec_display_value(*v),
{
    match v {
        None => String::new(),
        Some(PlistDataType::Str(s)) => s.clone(),
        Some(PlistDataType::Int(i)) => render_i64(*i),
        Some(PlistDataType::Bool(b)) => (if *b {
            "true".to_owned()
        } else {
            "false".to_owned()
        }),
    }
}

/// Assemble one output line:
/// `<mode>: Domain <domain> / <key> = <value_text>`.
pub fn format_line(mode: &str, domain: &str, key: &str, value_text: &str) -> (r: String)
    ensures
        r@ == mode@ + ": Domain "@ + domain@ + " / "@ + key@ + " = "@ + value_text@,
{
    let r = String::from_str(mode).concat(": Domain ").concat(domain).concat(" / ").concat(
        key,
    ).concat(" = ").concat(value_text);
    proof {
        assert(r@ =~= mode@ + ": Domain "@ + domain@ + " / "@ + key@ + " = "@ + value_text@);
    }
    r
}

} // verus!
