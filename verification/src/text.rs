//! Decimal rendering and the fixed message texts that generated accessors
//! carry: the out-of-bounds abort message, the stub abort message, and the
//! homogeneity diagnostic message.

use vstd::prelude::*;

verus! {

/// The decimal digit character for `d`, for `d < 10`.
pub open spec fn dec_digit(d: nat) -> char {
    if d == 0 {
        '0'
    } else if d == 1 {
        '1'
    } else if d == 2 {
        '2'
    } else if d == 3 {
        '3'
    } else if d == 4 {
        '4'
    } else if d == 5 {
        '5'
    } else if d == 6 {
        '6'
    } else if d == 7 {
        '7'
    } else if d == 8 {
        '8'
    } else {
        '9'
    }
}

/// The decimal representation of `n`, most significant digit first,
/// with no leading zeros (a single `'0'` for zero itself).
pub open spec fn dec_rep(n: nat) -> Seq<char>
    decreases n,
{
    if n < 10 {
        seq![dec_digit(n)]
    } else {
        dec_rep(n / 10).push(dec_digit(n % 10))
    }
}

/// The one-character string for the digit `d`.
fn digit_str(d: usize) -> (s: &'static str)
    requires
        d < 10,
    ensures
        s@ == seq![dec_digit(d as nat)],
{
    let s: &'static str = match d {
        0 => "0",
        1 => "1",
        2 => "2",
        3 => "3",
        4 => "4",
        5 => "5",
        6 => "6",
        7 => "7",
        8 => "8",
        _ => "9",
    };
    proof {
        reveal_strlit("0");
        reveal_strlit("1");
        reveal_strlit("2");
        reveal_strlit("3");
        reveal_strlit("4");
        reveal_strlit("5");
        reveal_strlit("6");
        reveal_strlit("7");
        reveal_strlit("8");
        reveal_strlit("9");
        assert(s@ =~= seq![dec_digit(d as nat)]);
    }
    s
}

/// Renders `n` in decimal, agreeing with the spec-level representation.
pub fn usize_to_string(n: usize) -> (s: String)
    ensures
        s@ == dec_rep(n as nat),
    decreases n,
{
    if n < 10 {
        String::from_str(digit_str(n))
    } else {
        let mut s = usize_to_string(n / 10);
        s.append(digit_str(n % 10));
        proof {
            assert(s@ =~= dec_rep(n as nat));
        }
        s
    }
}

/// The fixed part of the out-of-bounds abort message for a record of `n`
/// fields; the offending index is appended at the point of the abort.
pub open spec fn oob_prefix_spec(n: nat) -> Seq<char> {
    "index out of bounds: the len is "@ + dec_rep(n) + " but the index is "@
}

/// The full out-of-bounds abort message for a record of `n` fields and an
/// offending index `index`.
pub open spec fn oob_message_spec(n: nat, index: nat) -> Seq<char> {
    oob_prefix_spec(n) + dec_rep(index)
}

/// The abort message of stub accessors, emitted when homogeneity validation
/// failed and real accessor bodies could not be generated.
pub open spec fn stub_message() -> Seq<char> {
    "Unable to generate code due to previous errors"@
}

/// The message attached to every field whose type signature differs from the
/// first field's.
pub open spec fn mismatch_message() -> Seq<char> {
    "All fields must have the same type"@
}

/// Builds the fixed part of the out-of-bounds abort message for `n` fields.
pub fn oob_prefix(n: usize) -> (s: String)
    ensures
        s@ == oob_prefix_spec(n as nat),
{
    let mut s = String::from_str("index out of bounds: the len is ");
    let digits = usize_to_string(n);
    s.append(digits.as_str());
    s.append(" but the index is ");
    proof {
        assert(s@ =~= oob_prefix_spec(n as nat));
    }
    s
}

} // verus!
