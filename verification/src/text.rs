//! The texts that describe refused records and references to a reader.

use crate::codec::DecodeError;
use crate::identity::BuildId;
use vstd::prelude::*;

verus! {

/// The character that stands for a value below sixteen, lower case.
pub open spec fn hex_digit(d: int) -> char {
    seq!['0', '1', '2', '3', '4', '5', '6', '7', '8', '9', 'a', 'b', 'c', 'd', 'e', 'f'][d]
}

/// The decimal numeral of `n`, without leading zeros.
pub open spec fn decimal(n: nat) -> Seq<char>
    decreases n,
{
    if n < 10 {
        seq![hex_digit(n as int)]
    } else {
        decimal(n / 10).push(hex_digit((n % 10) as int))
    }
}

/// The last `width` hexadecimal digits of `n`, highest first.
pub open spec fn hex(n: nat, width: nat) -> Seq<char>
    decreases width,
{
    if width == 0 {
        Seq::empty()
    } else {
        hex(n / 16, (width - 1) as nat).push(hex_digit((n % 16) as int))
    }
}

/// The 32 hexadecimal digits of `bits` in five groups of 8, 4, 4, 4 and 12 digits, with a
/// hyphen between two groups.
pub open spec fn hyphenated(bits: u128) -> Seq<char> {
    let digits = hex(bits as nat, 32);
    digits.subrange(0, 8) + seq!['-'] + digits.subrange(8, 12) + seq!['-'] + digits.subrange(
        12,
        16,
    ) + seq!['-'] + digits.subrange(16, 20) + seq!['-'] + digits.subrange(20, 32)
}

/// `Uuid::from_u128` makes the identifier whose sixteen bytes are those of the number,
/// highest first. `Uuid::to_hyphenated` and the `Display` of what it returns write each
/// byte as two lower-case hexadecimal digits, in order, with a hyphen after the fourth,
/// sixth, eighth and tenth byte.
#[verifier::external_body]
fn hyphenated_string(id: BuildId) -> (s: String)
    ensures
        s@ == hyphenated(id.0),
{
    uuid::Uuid::from_u128(id.0).to_hyphenated().to_string()
}

fn digit_str(d: u64) -> (s: &'static str)
    requires
        d < 10,
    ensures
        s@ == seq![hex_digit(d as int)],
{
    proof {
        reveal_strlit("0");
        reveal_strlit("1");
        reveal_strlit("2");
        reveal_strlit("3");
        reveal_strlit("4");
        reveal_strlit("5");
        reveal_strlit("6");
        reveal_strlit("7");
        reveal_strlit("8");
        reveal_strlit("9");
    }
    let s = if d == 0 {
        "0"
    } else if d == 1 {
        "1"
    } else if d == 2 {
        "2"
    } else if d == 3 {
        "3"
    } else if d == 4 {
        "4"
    } else if d == 5 {
        "5"
    } else if d == 6 {
        "6"
    } else if d == 7 {
        "7"
    } else if d == 8 {
        "8"
    } else {
        "9"
    };
    assert(s@ =~= seq![hex_digit(d as int)]);
    s
}

/// Appends the decimal numeral of `n` to `out`.
pub fn push_decimal(out: &mut String, n: u64)
    ensures
        final(out)@ == old(out)@ + decimal(n as nat),
    decreases n,
{
    if n >= 10 {
        push_decimal(out, n / 10);
    }
    out.append(digit_str(n % 10));
    assert(final(out)@ =~= old(out)@ + decimal(n as nat));
}

impl DecodeError {
    /// What is said of the refusal. `expected_name` is what the type that was asked for is
    /// called; what the type that the record was made for is called is not known to the
    /// receiver.
    pub open spec fn text(self, expected_name: Seq<char>) -> Seq<char> {
        match self {
            DecodeError::CrossBinaryMismatch { found, expected } => {
                "relative reference came from a different binary "@ + hyphenated(found.0)
                    + ", expected "@ + hyphenated(expected.0)
            },
            DecodeError::TypeMismatch { found, expected } => {
                "relative reference to wrong type ???:"@ + decimal(found as nat)
                    + ", expected "@ + expected_name + ":"@ + decimal(expected as nat)
            },
        }
    }

    /// Says why the record was refused. `expected_name` is what the type that was asked for
    /// is called; it appears where the record was made for another type.
    pub fn message(&self, expected_name: &str) -> (s: String)
        ensures
            s@ == self.text(expected_name@),
    {
        match self {
            DecodeError::CrossBinaryMismatch { found, expected } => {
                let mut s = String::from_str("relative reference came from a different binary ");
                s.append(hyphenated_string(*found).as_str());
                s.append(", expected ");
                s.append(hyphenated_string(*expected).as_str());
                assert(s@ =~= self.text(expected_name@));
                s
            },
            DecodeError::TypeMismatch { found, expected } => {
                let mut s = String::from_str("relative reference to wrong type ???:");
                push_decimal(&mut s, *found);
                s.append(", expected ");
                s.append(expected_name);
                s.append(":");
                push_decimal(&mut s, *expected);
                assert(s@ =~= self.text(expected_name@));
                s
            },
        }
    }
}

} // verus!
