use vstd::prelude::*;

verus! {

/// An expense as it arrives from a caller or comes back from the document service.
pub struct Expense {
    /// The identifier the document service gave the record, once it has one.
    pub id: Option<String>,
    pub title: String,
    /// The amount, carried as the bit pattern of an IEEE 754 double. Nothing
    /// here computes with it; it is handed on unchanged.
    pub amount_bits: u64,
    pub paid_by: String,
    pub split_among: Vec<String>,
}

/// The fields of an expense that are sent to the document service when a
/// record is created or changed. It has no identifier: the service assigns it.
pub struct ExpensePayload {
    pub title: String,
    pub amount_bits: u64,
    pub paid_by: String,
    pub split_among: Vec<String>,
}

/// A user of the service.
pub struct User {
    pub id: String,
    pub username: String,
    pub email: String,
}

/// The payload an expense gives: each of its fields but the identifier.
pub open spec fn payload_of(e: Expense) -> ExpensePayload {
    ExpensePayload {
        title: e.title,
        amount_bits: e.amount_bits,
        paid_by: e.paid_by,
        split_among: e.split_among,
    }
}

impl Expense {
    /// Drops the identifier and keeps the other fields as they are.
    pub fn into_payload(self) -> (r: ExpensePayload)
        ensures
            r == payload_of(self),
    {
        ExpensePayload {
            title: self.title,
            amount_bits: self.amount_bits,
            paid_by: self.paid_by,
            split_among: self.split_among,
        }
    }
}

/// Whatever identifier an inbound expense carries, the payload sent on is the
/// same: two expenses that differ in their identifier alone give one payload.
pub proof fn lemma_payload_ignores_id(a: Expense, b: Expense)
    requires
        a.title == b.title,
        a.amount_bits == b.amount_bits,
        a.paid_by == b.paid_by,
        a.split_among == b.split_among,
    ensures
        payload_of(a) == payload_of(b),
{
}

} // verus!
