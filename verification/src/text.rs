//! Text helpers: ASCII decoding and decimal rendering.
//!
//! Archive member names and record texts are plain ASCII. The decimal
//! renderer backs the stable textual form of a `GraphId`.
use vstd::prelude::*;

verus! {

/// The decimal digits of `n`, most significant first.
pub open spec fn spec_decimal(n: nat) -> Seq<char>
    decreases n,
{
    if n < 10 {
        seq![spec_digit_char(n)]
    } else {
        spec_decimal(n / 10).push(spec_digit_char(n % 10))
    }
}

/// The character for one decimal digit.
pub open spec fn spec_digit_char(d: nat) -> char {
    if d == 0 {
        '0'
    } else if d == 1 {
        '1'
    } else if d == 2 {
        '2'
    } else if d == 3 {
        '3'
    } else if d == 4 {
        '4'
    } else if d == 5 {
        '5'
    } else if d == 6 {
        '6'
    } else if d == 7 {
        '7'
    } else if d == 8 {
        '8'
    } else {
        '9'
    }
}

/// Relies on `String::from_utf8`: bytes below 128 are one-byte UTF-8 and
/// decode to the characters with the same code points.
#[verifier::external_body]
pub fn ascii_to_string(bytes: &Vec<u8>) -> (r: String)
    requires
        forall|i: int| 0 <= i < bytes@.len() ==> bytes@[i] < 128,
    ensures
        r@.len() == bytes@.len(),
        forall|i: int|
            0 <= i < bytes@.len() ==> (r@[i] as u8) == bytes@[i] && (r@[i] as u32) < 128,
{
    match String::from_utf8(bytes.clone()) {
        Ok(s) => s,
        Err(_) => String::new(),
    }
}

/// Appends the decimal digits of `n` to `out`.
pub fn push_decimal(out: &mut String, n: u64)
    ensures
        final(out)@ == old(out)@ + spec_decimal(n as nat),
{
    let digits = "0123456789";
    proof {
        reveal_strlit("0123456789");
    }
    let mut rest: u64 = n;
    let mut suffix = String::new();
    while rest >= 10
        invariant
            digits@ =~= "0123456789"@,
            digits.is_ascii(),
            digits@.len() == 10,
            forall|d: int| 0 <= d < 10 ==> digits@[d] == spec_digit_char(d as nat),
            spec_decimal(n as nat) =~= spec_decimal(rest as nat) + suffix@,
        decreases rest,
    {
        let ghost pre = suffix@;
        let d = (rest % 10) as usize;
        let ch = digits.substring_ascii(d, d + 1);
        let mut next = String::from_str(ch);
        next.append(suffix.as_str());
        suffix = next;
        proof {
            assert(ch@ =~= seq![spec_digit_char((rest % 10) as nat)]);
            assert(spec_decimal(rest as nat) =~= spec_decimal((rest / 10) as nat).push(
                spec_digit_char((rest % 10) as nat),
            ));
            assert(spec_decimal((rest / 10) as nat) + suffix@ =~= spec_decimal(rest as nat)
                + pre);
        }
        rest = rest / 10;
    }
    let d = rest as usize;
    let ch = digits.substring_ascii(d, d + 1);
    out.append(ch);
    out.append(suffix.as_str());
    proof {
        assert(ch@ =~= seq![spec_digit_char(rest as nat)]);
        assert(spec_decimal(rest as nat) =~= seq![spec_digit_char(rest as nat)]);
        assert((old(out)@ + ch@) + suffix@ =~= old(out)@ + spec_decimal(n as nat));
    }
}

} // verus!
