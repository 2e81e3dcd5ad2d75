use vstd::prelude::*;
use crate::store::{lemma_rows_view_insert, lemma_rows_view_remove, StoreView, TransactionStore};
use crate::transaction::{DataView, RecordView, TransactionData, TransactionRecord};

verus! {

broadcast use vstd::std_specs::hash::group_hash_axioms;

/// What a handler hands back to the transport layer: an HTTP status code and,
/// for the responses that carry one, the row as a body.
pub struct HandlerResponse {
    pub status: u16,
    pub body: Option<TransactionRecord>,
}

/// The mathematical value of a [`HandlerResponse`].
#[verifier::ext_equal]
pub ghost struct ResponseView {
    pub status: u16,
    pub body: Option<RecordView>,
}

impl View for HandlerResponse {
    type V = ResponseView;

    open spec fn view(&self) -> ResponseView {
        ResponseView {
            status: self.status,
            body: match self.body {
                Option::Some(rec) => Option::Some(rec@),
                Option::None => Option::None,
            },
        }
    }
}

/// What creating a transaction does: the row data is stored unchanged under
/// the next free identifier, the identifier counter moves on, and the
/// response is 201 with the freshly stored row read back.
pub open spec fn spec_create(s: StoreView, d: DataView) -> (StoreView, ResponseView) {
    let id = s.next_id;
    (
        StoreView { rows: s.rows.insert(id, d), next_id: (s.next_id + 1) as u64 },
        ResponseView {
            status: 201,
            body: Option::Some(RecordView { transaction_id: id, data: d }),
        },
    )
}

/// What reading a transaction does: 200 with the row if the identifier is
/// present, 404 with no body otherwise.
pub open spec fn spec_read(s: StoreView, id: u64) -> ResponseView {
    if s.rows.contains_key(id) {
        ResponseView {
            status: 200,
            body: Option::Some(RecordView { transaction_id: id, data: s.rows[id] }),
        }
    } else {
        ResponseView { status: 404, body: Option::None }
    }
}

/// The row data after an update: the two write-once references keep their
/// stored values, the four mutable fields take the submitted ones.
pub open spec fn updated_data(stored: DataView, submitted: DataView) -> DataView {
    DataView {
        account_id: stored.account_id,
        child_category_id: stored.child_category_id,
        transaction_amount: submitted.transaction_amount,
        transaction_type: submitted.transaction_type,
        transaction_date: submitted.transaction_date,
        transaction_description: submitted.transaction_description,
    }
}

/// What updating a transaction does. On a present identifier, the four
/// mutable fields of that row take the submitted values, the write-once
/// references are left as stored (`account_id` and `child_category_id` in the
/// submitted data are accepted but never written), and the response is 200
/// with the row read back. On an absent identifier the update statement
/// matches no row, the store is unchanged, and the read-back then fails: the
/// response is 500 with no body (not 404 — the service does not distinguish
/// the causes of a failed read-back).
pub open spec fn spec_update(s: StoreView, id: u64, d: DataView) -> (StoreView, ResponseView) {
    if s.rows.contains_key(id) {
        let stored = updated_data(s.rows[id], d);
        (
            StoreView { rows: s.rows.insert(id, stored), next_id: s.next_id },
            ResponseView {
                status: 200,
                body: Option::Some(RecordView { transaction_id: id, data: stored }),
            },
        )
    } else {
        (s, ResponseView { status: 500, body: Option::None })
    }
}

/// What deleting a transaction does: the row with the identifier is removed
/// if present, and the response is 204 with no body either way — deleting an
/// absent identifier is indistinguishable from success.
pub open spec fn spec_delete(s: StoreView, id: u64) -> (StoreView, ResponseView) {
    (
        StoreView { rows: s.rows.remove(id), next_id: s.next_id },
        ResponseView { status: 204, body: Option::None },
    )
}

/// Create: store the submitted fields as a new row under a freshly assigned
/// identifier and answer 201 with the stored row. A client-supplied
/// `transaction_id` never reaches this handler: the payload type carries only
/// the six data fields, so it is ignored by construction.
///
/// The caller must have identifiers left to assign (`next_id < u64::MAX`);
/// the transport layer checks this and answers 500 itself when the space is
/// exhausted, as it does for any storage failure.
pub fn create_transaction(store: &mut TransactionStore, payload: &TransactionData) -> (r:
    HandlerResponse)
    requires
        old(store).wf(),
        old(store)@.next_id < u64::MAX,
    ensures
        final(store).wf(),
        final(store)@ == spec_create(old(store)@, payload@).0,
        r@ == spec_create(old(store)@, payload@).1,
{
    let id = store.next_id;
    let ghost pre = store@;
    let ghost pre_rows = store.rows@;
    let stored = payload.duplicate();
    store.rows.insert(id, stored);
    store.next_id = id + 1;
    let record = TransactionRecord::assemble(id, payload);
    proof {
        lemma_rows_view_insert(pre_rows, id, stored);
        assert(store@ =~= spec_create(pre, payload@).0);
    }
    HandlerResponse { status: 201, body: Some(record) }
}

/// Read: answer 200 with the row matching `transaction_id`, or 404 with no
/// body when no row matches.
pub fn get_transaction(store: &TransactionStore, transaction_id: u64) -> (r: HandlerResponse)
    ensures
        r@ == spec_read(store@, transaction_id),
{
    match store.rows.get(&transaction_id) {
        Some(data) => {
            let record = TransactionRecord::assemble(transaction_id, data);
            HandlerResponse { status: 200, body: Some(record) }
        },
        None => HandlerResponse { status: 404, body: None },
    }
}

/// Update: on a row matching `transaction_id`, write the four mutable fields
/// from the payload, keep the stored `account_id` and `child_category_id`
/// (the payload's values for them are accepted but never written), and
/// answer 200 with the row read back. When no row matches, the update
/// statement silently affects nothing and the read-back fails: answer 500
/// with no body.
pub fn update_transaction(
    store: &mut TransactionStore,
    transaction_id: u64,
    payload: &TransactionData,
) -> (r: HandlerResponse)
    requires
        old(store).wf(),
    ensures
        final(store).wf(),
        final(store)@ == spec_update(old(store)@, transaction_id, payload@).0,
        r@ == spec_update(old(store)@, transaction_id, payload@).1,
{
    let ghost pre = store@;
    let ghost pre_rows = store.rows@;
    let (account_id, child_category_id) = match store.rows.get(&transaction_id) {
        Some(stored) => (stored.account_id, stored.child_category_id),
        None => {
            return HandlerResponse { status: 500, body: None };
        },
    };
    let stored = TransactionData {
        account_id: account_id,
        child_category_id: child_category_id,
        transaction_amount: payload.transaction_amount,
        transaction_type: payload.transaction_type.clone(),
        transaction_date: payload.transaction_date.clone(),
        transaction_description: payload.transaction_description.clone(),
    };
    let record = TransactionRecord::assemble(transaction_id, &stored);
    store.rows.insert(transaction_id, stored);
    proof {
        lemma_rows_view_insert(pre_rows, transaction_id, stored);
        assert(store@ =~= spec_update(pre, transaction_id, payload@).0);
    }
    HandlerResponse { status: 200, body: Some(record) }
}

/// Delete: remove the row matching `transaction_id` if one exists, and
/// answer 204 with no body either way — deleting an absent identifier is
/// indistinguishable from success.
pub fn delete_transaction(store: &mut TransactionStore, transaction_id: u64) -> (r:
    HandlerResponse)
    requires
        old(store).wf(),
    ensures
        final(store).wf(),
        final(store)@ == spec_delete(old(store)@, transaction_id).0,
        r@ == spec_delete(old(store)@, transaction_id).1,
{
    let ghost pre = store@;
    let ghost pre_rows = store.rows@;
    store.rows.remove(&transaction_id);
    proof {
        lemma_rows_view_remove(pre_rows, transaction_id);
        assert(store@ =~= spec_delete(pre, transaction_id).0);
    }
    HandlerResponse { status: 204, body: None }
}

} // verus!
