//! Turning the text fields of an input record into a transaction kind.
use crate::amount::{amount_of_text, parse_amount, Amount};
use crate::types::TransactionType;
use vstd::prelude::*;
use vstd::string::StrSliceExecFns;

verus! {

/// Why a record's fields name no transaction kind.
#[derive(Clone, Copy, Debug, PartialEq, Eq, Structural)]
pub enum ParseError {
    /// The type field is none of the five kinds.
    UnknownType,
    /// A deposit or withdrawal whose amount is missing, no decimal, or negative.
    InvalidAmount,
}

/// An amount that a deposit or withdrawal may carry: one that parsed and is
/// not negative.
pub open spec fn accepted_amount(amount: Option<Amount>) -> Option<Amount> {
    match amount {
        Some(a) => if a.value() >= 0 {
            Some(a)
        } else {
            None
        },
        None => None,
    }
}

/// The kind a type field names, given what its amount field parsed to.
pub open spec fn kind_of(kind: Seq<char>, amount: Option<Amount>) -> Result<
    TransactionType,
    ParseError,
> {
    if kind == "deposit"@ {
        match accepted_amount(amount) {
            Some(a) => Ok(TransactionType::Deposit(a)),
            None => Err(ParseError::InvalidAmount),
        }
    } else if kind == "withdrawal"@ {
        match accepted_amount(amount) {
            Some(a) => Ok(TransactionType::Withdrawal(a)),
            None => Err(ParseError::InvalidAmount),
        }
    } else if kind == "dispute"@ {
        Ok(TransactionType::Dispute)
    } else if kind == "resolve"@ {
        Ok(TransactionType::Resolve)
    } else if kind == "chargeback"@ {
        Ok(TransactionType::Chargeback)
    } else {
        Err(ParseError::UnknownType)
    }
}

/// Whether two texts hold the same characters.
fn text_is(s: &str, expected: &str) -> (r: bool)
    ensures
        r == (s@ == expected@),
{
    let n = s.unicode_len();
    if n != expected.unicode_len() {
        return false;
    }
    let mut i: usize = 0;
    while i < n
        invariant
            n == s@.len() == expected@.len(),
            i <= n,
            s@.subrange(0, i as int) == expected@.subrange(0, i as int),
        decreases n - i,
    {
        if s.get_char(i) != expected.get_char(i) {
            return false;
        }
        assert(s@.subrange(0, i + 1) =~= s@.subrange(0, i as int).push(s@[i as int]));
        assert(expected@.subrange(0, i + 1) =~= expected@.subrange(0, i as int).push(
            expected@[i as int],
        ));
        i = i + 1;
    }
    assert(s@ =~= s@.subrange(0, n as int));
    assert(expected@ =~= expected@.subrange(0, n as int));
    true
}

/// The transaction kind that a type field names, given the amount that the
/// record's amount field parsed to (`None` where it did not parse).
pub fn transaction_type_from(kind: &str, amount: Option<Amount>) -> (r: Result<
    TransactionType,
    ParseError,
>)
    ensures
        r == kind_of(kind@, amount),
{
    let accepted = match amount {
        Some(a) => if a.units >= 0 {
            Some(a)
        } else {
            None
        },
        None => None,
    };
    if text_is(kind, "deposit") {
        match accepted {
            Some(a) => Ok(TransactionType::Deposit(a)),
            None => Err(ParseError::InvalidAmount),
        }
    } else if text_is(kind, "withdrawal") {
        match accepted {
            Some(a) => Ok(TransactionType::Withdrawal(a)),
            None => Err(ParseError::InvalidAmount),
        }
    } else if text_is(kind, "dispute") {
        Ok(TransactionType::Dispute)
    } else if text_is(kind, "resolve") {
        Ok(TransactionType::Resolve)
    } else if text_is(kind, "chargeback") {
        Ok(TransactionType::Chargeback)
    } else {
        Err(ParseError::UnknownType)
    }
}

/// The transaction kind of a record, from its type and amount fields
/// (already trimmed). The amount is rounded to four fractional digits.
pub fn deserialize_transaction_type(kind: &str, amount: &str) -> (r: Result<
    TransactionType,
    ParseError,
>)
    ensures
        r == kind_of(kind@, amount_of_text(amount@)),
{
    transaction_type_from(kind, parse_amount(amount))
}

} // verus!
