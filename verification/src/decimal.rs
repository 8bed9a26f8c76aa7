use vstd::prelude::*;
use vstd::string::StringExecFns;

verus! {

/// Relies on `String::push` of std: appends one character to the string.
pub assume_specification[ String::push ](s: &mut String, c: char)
    ensures
        final(s)@ == old(s)@.push(c),
;

/// The character for one decimal digit.
pub open spec fn spec_digit(d: nat) -> char {
    if d == 0 {
        '0'
    } else if d == 1 {
        '1'
    } else if d == 2 {
        '2'
    } else if d == 3 {
        '3'
    } else if d == 4 {
        '4'
    } else if d == 5 {
        '5'
    } else if d == 6 {
        '6'
    } else if d == 7 {
        '7'
    } else if d == 8 {
        '8'
    } else {
        '9'
    }
}

/// The decimal representation of a natural number, without sign or padding.
pub open spec fn spec_udec(n: nat) -> Seq<char>
    decreases n,
{
    if n < 10 {
        seq![spec_digit(n)]
    } else {
        spec_udec(n / 10).push(spec_digit(n % 10))
    }
}

/// The decimal representation of an integer, with a leading minus sign when
/// negative.
pub open spec fn spec_dec(v: int) -> Seq<char> {
    if v < 0 {
        seq!['-'] + spec_udec((-v) as nat)
    } else {
        spec_udec(v as nat)
    }
}

fn digit(d: u64) -> (c: char)
    requires
        d < 10,
    ensures
        c == spec_digit(d as nat),
{
    if d == 0 {
        '0'
    } else if d == 1 {
        '1'
    } else if d == 2 {
        '2'
    } else if d == 3 {
        '3'
    } else if d == 4 {
        '4'
    } else if d == 5 {
        '5'
    } else if d == 6 {
        '6'
    } else if d == 7 {
        '7'
    } else if d == 8 {
        '8'
    } else {
        '9'
    }
}

/// The decimal rendering of a natural number.
pub fn udec_u64(n: u64) -> (r: String)
    ensures
        r@ == spec_udec(n as nat),
    decreases n,
{
    if n < 10 {
        let mut s = String::from_str("");
        s.push(digit(n));
        proof {
            reveal_strlit("");
            assert(""@ =~= Seq::<char>::empty());
            assert(s@ =~= seq![spec_digit(n as nat)]);
        }
        s
    } else {
        let mut s = udec_u64(n / 10);
        s.push(digit(n % 10));
        s
    }
}

/// The decimal rendering of a machine-sized natural number.
pub fn udec_usize(n: usize) -> (r: String)
    ensures
        r@ == spec_udec(n as nat),
{
    udec_u64(n as u64)
}

/// The decimal rendering of an integer.
pub fn int_dec(v: i64) -> (r: String)
    ensures
        r@ == spec_dec(v as int),
{
    if v < 0 {
        let mag_wide: i128 = -(v as i128);
        let mag: u64 = mag_wide as u64;
        let mut s = String::from_str("-");
        let t = udec_u64(mag);
        s.append(t.as_str());
        proof {
            reveal_strlit("-");
            assert("-"@ =~= seq!['-']);
        }
        s
    } else {
        udec_u64(v as u64)
    }
}

} // verus!
