use vstd::prelude::*;

verus! {

/// The six client-supplied fields of a transaction: the two write-once
/// references (`account_id`, `child_category_id`) and the four mutable fields
/// (`transaction_amount`, `transaction_type`, `transaction_date`,
/// `transaction_description`).
///
/// The monetary amount is carried in minor units (for example cents) as an
/// integer; the handlers pass it through untouched, so no arithmetic is ever
/// performed on it. The date is carried as the date/time string the client
/// submitted, again untouched.
pub struct TransactionData {
    pub account_id: i64,
    pub child_category_id: i64,
    pub transaction_amount: i64,
    pub transaction_type: String,
    pub transaction_date: String,
    pub transaction_description: String,
}

/// The mathematical value of a [`TransactionData`]: integers as `int`,
/// strings as their character sequences.
#[verifier::ext_equal]
pub ghost struct DataView {
    pub account_id: int,
    pub child_category_id: int,
    pub transaction_amount: int,
    pub transaction_type: Seq<char>,
    pub transaction_date: Seq<char>,
    pub transaction_description: Seq<char>,
}

impl View for TransactionData {
    type V = DataView;

    open spec fn view(&self) -> DataView {
        DataView {
            account_id: self.account_id as int,
            child_category_id: self.child_category_id as int,
            transaction_amount: self.transaction_amount as int,
            transaction_type: self.transaction_type@,
            transaction_date: self.transaction_date@,
            transaction_description: self.transaction_description@,
        }
    }
}

impl TransactionData {
    /// An equal value with freshly allocated strings.
    pub fn duplicate(&self) -> (d: TransactionData)
        ensures
            d == *self,
    {
        TransactionData {
            account_id: self.account_id,
            child_category_id: self.child_category_id,
            transaction_amount: self.transaction_amount,
            transaction_type: self.transaction_type.clone(),
            transaction_date: self.transaction_date.clone(),
            transaction_description: self.transaction_description.clone(),
        }
    }
}

/// One persisted row: the storage-assigned identifier together with the six
/// data fields, flat, in the shape of the JSON row the service returns.
pub struct TransactionRecord {
    pub transaction_id: u64,
    pub account_id: i64,
    pub child_category_id: i64,
    pub transaction_amount: i64,
    pub transaction_type: String,
    pub transaction_date: String,
    pub transaction_description: String,
}

/// The mathematical value of a [`TransactionRecord`]: the identifier plus the
/// view of its data fields.
#[verifier::ext_equal]
pub ghost struct RecordView {
    pub transaction_id: u64,
    pub data: DataView,
}

impl View for TransactionRecord {
    type V = RecordView;

    open spec fn view(&self) -> RecordView {
        RecordView {
            transaction_id: self.transaction_id,
            data: DataView {
                account_id: self.account_id as int,
                child_category_id: self.child_category_id as int,
                transaction_amount: self.transaction_amount as int,
                transaction_type: self.transaction_type@,
                transaction_date: self.transaction_date@,
                transaction_description: self.transaction_description@,
            },
        }
    }
}

impl TransactionRecord {
    /// The row with identifier `transaction_id` and the fields of `data`.
    pub fn assemble(transaction_id: u64, data: &TransactionData) -> (r: TransactionRecord)
        ensures
            r@ == (RecordView { transaction_id: transaction_id, data: data@ }),
    {
        TransactionRecord {
            transaction_id,
            account_id: data.account_id,
            child_category_id: data.child_category_id,
            transaction_amount: data.transaction_amount,
            transaction_type: data.transaction_type.clone(),
            transaction_date: data.transaction_date.clone(),
            transaction_description: data.transaction_description.clone(),
        }
    }
}

} // verus!
