//! The kind of a ledger record and its stored name.

use vstd::prelude::*;

use crate::error::AppError;
use crate::text::same_text;

verus! {

/// Whether a record spends money, earns it, or moves it between accounts.
#[derive(Debug, Clone, PartialEq, Eq, Structural)]
pub enum RecordType {
    Expense,
    Income,
    Transfer,
}

/// The name under which a record kind is stored.
pub open spec fn record_type_name(t: RecordType) -> Seq<char> {
    match t {
        RecordType::Expense => "expense"@,
        RecordType::Income => "income"@,
        RecordType::Transfer => "transfer"@,
    }
}

/// The record kind stored under `name`, if any.
pub open spec fn parse_record_type(name: Seq<char>) -> Option<RecordType> {
    if name == "expense"@ {
        Some(RecordType::Expense)
    } else if name == "income"@ {
        Some(RecordType::Income)
    } else if name == "transfer"@ {
        Some(RecordType::Transfer)
    } else {
        None
    }
}

/// The message of the error for a name that is no record kind.
pub open spec fn invalid_record_type_message(name: Seq<char>) -> Seq<char> {
    "无效的记录类型: "@ + name
}

impl RecordType {
    /// The stored name: `expense`, `income` or `transfer`.
    pub fn to_string(&self) -> (name: String)
        ensures
            name@ == record_type_name(*self),
    {
        match self {
            RecordType::Expense => String::from_str("expense"),
            RecordType::Income => String::from_str("income"),
            RecordType::Transfer => String::from_str("transfer"),
        }
    }

    /// The record kind stored under `s`; any other text is an invalid parameter.
    pub fn from_str(s: &str) -> (r: Result<RecordType, AppError>)
        ensures
            parse_record_type(s@) matches Some(t) ==> r == Ok::<RecordType, AppError>(t),
            parse_record_type(s@) is None ==> (r matches Err(AppError::InvalidParam(m))
                && m@ == invalid_record_type_message(s@)),
    {
        if same_text(s, "expense") {
            Ok(RecordType::Expense)
        } else if same_text(s, "income") {
            Ok(RecordType::Income)
        } else if same_text(s, "transfer") {
            Ok(RecordType::Transfer)
        } else {
            let mut m = String::from_str("无效的记录类型: ");
            m.append(s);
            Err(AppError::InvalidParam(m))
        }
    }
}

/// Reading back the stored name of a record kind gives that kind.
pub proof fn lemma_record_type_name_round_trip(t: RecordType)
    ensures
        parse_record_type(record_type_name(t)) == Some(t),
{
    reveal_strlit("expense");
    reveal_strlit("income");
    reveal_strlit("transfer");
    assert("expense"@.len() == 7);
    assert("income"@.len() == 6);
    assert("transfer"@.len() == 8);
}

/// A name that reads as a record kind is that kind's stored name.
pub proof fn lemma_parsed_name_is_stored_name(name: Seq<char>)
    ensures
        parse_record_type(name) matches Some(t) ==> record_type_name(t) == name,
{
}

/// The stored names are the lower-case English words for the kinds, as the statements
/// that total expenses and incomes compare them with.
pub proof fn lemma_record_type_names_spelled()
    ensures
        record_type_name(RecordType::Expense) == seq!['e', 'x', 'p', 'e', 'n', 's', 'e'],
        record_type_name(RecordType::Income) == seq!['i', 'n', 'c', 'o', 'm', 'e'],
        record_type_name(RecordType::Transfer) == seq!['t', 'r', 'a', 'n', 's', 'f', 'e', 'r'],
{
    reveal_strlit("expense");
    reveal_strlit("income");
    reveal_strlit("transfer");
    assert(record_type_name(RecordType::Expense) =~= seq!['e', 'x', 'p', 'e', 'n', 's', 'e']);
    assert(record_type_name(RecordType::Income) =~= seq!['i', 'n', 'c', 'o', 'm', 'e']);
    assert(record_type_name(RecordType::Transfer) =~= seq!['t', 'r', 'a', 'n', 's', 'f', 'e', 'r']);
}

} // verus!
