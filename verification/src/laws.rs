use vstd::prelude::*;
use crate::handlers::{spec_create, spec_delete, spec_read, spec_update, ResponseView};
use crate::store::{store_wf, StoreView};
use crate::transaction::{DataView, RecordView};

verus! {

/// Creating answers 201, and the body carries the submitted fields unchanged
/// under an identifier that is positive and was never in use before.
pub proof fn lemma_create_reflects_payload(s: StoreView, d: DataView)
    requires
        store_wf(s),
        s.next_id < u64::MAX,
    ensures
        ({
            let (s2, r) = spec_create(s, d);
            &&& r.status == 201
            &&& r.body == Option::Some(RecordView { transaction_id: s.next_id, data: d })
            &&& s.next_id >= 1
            &&& !s.rows.contains_key(s.next_id)
            &&& store_wf(s2)
        }),
{
}

/// Reading an identifier straight after creating it answers 200 with exactly
/// the fields the create response carried.
pub proof fn lemma_read_after_create(s: StoreView, d: DataView)
    requires
        store_wf(s),
        s.next_id < u64::MAX,
    ensures
        ({
            let (s2, r) = spec_create(s, d);
            spec_read(s2, s.next_id) == (ResponseView { status: 200, body: r.body })
        }),
{
}

/// Updating a present identifier changes exactly the four mutable fields of
/// that row to the submitted values, leaves its `account_id` and
/// `child_category_id` at their stored (create-time) values, and touches no
/// other row and not the identifier counter.
pub proof fn lemma_update_changes_only_mutable_fields(s: StoreView, id: u64, d: DataView)
    requires
        s.rows.contains_key(id),
    ensures
        ({
            let (s2, r) = spec_update(s, id, d);
            &&& r.status == 200
            &&& r.body == Option::Some(RecordView { transaction_id: id, data: s2.rows[id] })
            &&& s2.rows.contains_key(id)
            &&& s2.rows[id].account_id == s.rows[id].account_id
            &&& s2.rows[id].child_category_id == s.rows[id].child_category_id
            &&& s2.rows[id].transaction_amount == d.transaction_amount
            &&& s2.rows[id].transaction_type == d.transaction_type
            &&& s2.rows[id].transaction_date == d.transaction_date
            &&& s2.rows[id].transaction_description == d.transaction_description
            &&& s2.rows.dom() == s.rows.dom()
            &&& forall|k: u64|
                k != id && #[trigger] s.rows.contains_key(k) ==> s2.rows[k] == s.rows[k]
            &&& s2.next_id == s.next_id
        }),
{
    let (s2, r) = spec_update(s, id, d);
    assert(s2.rows.dom() =~= s.rows.dom());
}

/// Updating an absent identifier answers 500 and leaves the store untouched.
pub proof fn lemma_update_missing(s: StoreView, id: u64)
    requires
        !s.rows.contains_key(id),
    ensures
        forall|d: DataView| #[trigger] spec_update(s, id, d) == (s, (ResponseView {
            status: 500,
            body: Option::None,
        })),
{
}

/// Reading an identifier straight after deleting it answers 404 with no
/// body, whether or not the row existed.
pub proof fn lemma_read_after_delete(s: StoreView, id: u64)
    ensures
        spec_read(spec_delete(s, id).0, id) == (ResponseView {
            status: 404,
            body: Option::None,
        }),
{
}

/// Deleting answers 204 with no body whether or not a row matched, and
/// deleting an absent identifier leaves the store exactly as it was: from
/// the client's side, delete is idempotent.
pub proof fn lemma_delete_idempotent(s: StoreView, id: u64)
    ensures
        spec_delete(s, id).1 == (ResponseView { status: 204, body: Option::None }),
        !s.rows.contains_key(id) ==> spec_delete(s, id).0 == s,
        spec_delete(spec_delete(s, id).0, id).0 == spec_delete(s, id).0,
{
    if !s.rows.contains_key(id) {
        assert(spec_delete(s, id).0 =~= s);
    }
    assert(spec_delete(spec_delete(s, id).0, id).0 =~= spec_delete(s, id).0);
}

/// Reading an identifier that was never created answers 404 with no body.
/// In a well-formed store every stored identifier is below `next_id`, so an
/// identifier at or above `next_id` — one never yet assigned — has no row.
pub proof fn lemma_read_never_created(s: StoreView, id: u64)
    requires
        store_wf(s),
        id == 0 || id >= s.next_id,
    ensures
        spec_read(s, id) == (ResponseView { status: 404, body: Option::None }),
{
}

/// Every handler preserves well-formedness, and none of read, update and
/// delete moves the identifier counter: identifiers are assigned by create
/// alone, in increasing order, and are never reused.
pub proof fn lemma_handlers_preserve_wf(s: StoreView, id: u64, d: DataView)
    requires
        store_wf(s),
    ensures
        s.next_id < u64::MAX ==> store_wf(spec_create(s, d).0),
        s.next_id < u64::MAX ==> spec_create(s, d).0.next_id == s.next_id + 1,
        store_wf(spec_update(s, id, d).0),
        spec_update(s, id, d).0.next_id == s.next_id,
        store_wf(spec_delete(s, id).0),
        spec_delete(s, id).0.next_id == s.next_id,
{
}

} // verus!
