use vstd::prelude::*;
use std::collections::HashMap;
use crate::transaction::{DataView, TransactionData};

verus! {

broadcast use vstd::std_specs::hash::group_hash_axioms;

/// The in-memory model of the `Transactions` table.
///
/// `rows` maps each storage-assigned identifier to the data fields of its
/// row; `next_id` is the identifier the next insert will receive. Identifiers
/// are assigned in increasing order starting at 1 and are never reused, so
/// every key of `rows` is positive and below `next_id` (see
/// [`store_wf`]).
pub struct TransactionStore {
    pub rows: HashMap<u64, TransactionData>,
    pub next_id: u64,
}

/// The mathematical value of a [`TransactionStore`]: the table contents as a
/// map from identifier to row data, plus the next identifier to assign.
#[verifier::ext_equal]
pub ghost struct StoreView {
    pub rows: Map<u64, DataView>,
    pub next_id: u64,
}

/// Well-formedness of a store: the next identifier is positive, and every
/// stored identifier was assigned earlier, i.e. is positive and below
/// `next_id`. This is what makes freshly assigned identifiers
/// previously-unused.
pub open spec fn store_wf(s: StoreView) -> bool {
    &&& 1 <= s.next_id
    &&& forall|k: u64| #[trigger] s.rows.contains_key(k) ==> 1 <= k < s.next_id
}

/// The view of the executable row map: each stored value replaced by its
/// mathematical value.
pub open spec fn rows_view(m: Map<u64, TransactionData>) -> Map<u64, DataView> {
    m.map_values(|d: TransactionData| d@)
}

pub proof fn lemma_rows_view_insert(m: Map<u64, TransactionData>, k: u64, v: TransactionData)
    ensures
        rows_view(m.insert(k, v)) == rows_view(m).insert(k, v@),
{
    assert(rows_view(m.insert(k, v)) =~= rows_view(m).insert(k, v@));
}

pub proof fn lemma_rows_view_remove(m: Map<u64, TransactionData>, k: u64)
    ensures
        rows_view(m.remove(k)) == rows_view(m).remove(k),
{
    assert(rows_view(m.remove(k)) =~= rows_view(m).remove(k));
}

impl View for TransactionStore {
    type V = StoreView;

    open spec fn view(&self) -> StoreView {
        StoreView { rows: rows_view(self.rows@), next_id: self.next_id }
    }
}

impl TransactionStore {
    pub open spec fn wf(&self) -> bool {
        store_wf(self@)
    }

    /// An empty table; the first insert will be assigned identifier 1.
    pub fn new() -> (s: TransactionStore)
        ensures
            s@.rows == Map::<u64, DataView>::empty(),
            s@.next_id == 1,
            s.wf(),
    {
        let s = TransactionStore { rows: HashMap::new(), next_id: 1 };
        proof {
            assert(s@.rows =~= Map::<u64, DataView>::empty());
        }
        s
    }
}

} // verus!
