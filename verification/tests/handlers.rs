use transactions::handlers::{
    create_transaction, delete_transaction, get_transaction, update_transaction,
};
use transactions::store::TransactionStore;
use transactions::transaction::TransactionData;

fn payload(
    account_id: i64,
    child_category_id: i64,
    amount_minor: i64,
    kind: &str,
    date: &str,
    description: &str,
) -> TransactionData {
    TransactionData {
        account_id,
        child_category_id,
        transaction_amount: amount_minor,
        transaction_type: kind.to_owned(),
        transaction_date: date.to_owned(),
        transaction_description: description.to_owned(),
    }
}

#[test]
fn create_echoes_payload_and_assigns_fresh_id() {
    let mut store = TransactionStore::new();
    let r = create_transaction(&mut store, &payload(1, 2, 4250, "debit", "2024-01-01", "coffee"));
    assert_eq!(r.status, 201);
    let body = r.body.expect("201 carries the created row");
    assert_eq!(body.transaction_id, 1);
    assert_eq!(body.account_id, 1);
    assert_eq!(body.child_category_id, 2);
    assert_eq!(body.transaction_amount, 4250);
    assert_eq!(body.transaction_type, "debit");
    assert_eq!(body.transaction_date, "2024-01-01");
    assert_eq!(body.transaction_description, "coffee");
}

#[test]
fn create_assigns_increasing_unused_ids() {
    let mut store = TransactionStore::new();
    let first = create_transaction(&mut store, &payload(1, 2, 100, "debit", "2024-01-01", "a"));
    let second = create_transaction(&mut store, &payload(3, 4, 200, "credit", "2024-01-02", "b"));
    let first_id = first.body.unwrap().transaction_id;
    let second_id = second.body.unwrap().transaction_id;
    assert!(first_id >= 1);
    assert!(second_id > first_id);
    assert_eq!((first_id, second_id), (1, 2));
}

#[test]
fn read_after_create_returns_same_fields() {
    let mut store = TransactionStore::new();
    let created = create_transaction(
        &mut store,
        &payload(7, 8, 999, "credit", "2023-12-31", "salary"),
    );
    let created = created.body.unwrap();
    let read = get_transaction(&store, created.transaction_id);
    assert_eq!(read.status, 200);
    let read = read.body.unwrap();
    assert_eq!(read.transaction_id, created.transaction_id);
    assert_eq!(read.account_id, created.account_id);
    assert_eq!(read.child_category_id, created.child_category_id);
    assert_eq!(read.transaction_amount, created.transaction_amount);
    assert_eq!(read.transaction_type, created.transaction_type);
    assert_eq!(read.transaction_date, created.transaction_date);
    assert_eq!(read.transaction_description, created.transaction_description);
}

#[test]
fn read_never_created_is_404() {
    let store = TransactionStore::new();
    let r = get_transaction(&store, 1);
    assert_eq!(r.status, 404);
    assert!(r.body.is_none());
    let mut store = store;
    create_transaction(&mut store, &payload(1, 2, 100, "debit", "2024-01-01", "a"));
    let r = get_transaction(&store, 42);
    assert_eq!(r.status, 404);
    assert!(r.body.is_none());
}

#[test]
fn update_changes_only_the_four_mutable_fields() {
    let mut store = TransactionStore::new();
    let created = create_transaction(&mut store, &payload(1, 2, 4250, "debit", "2024-01-01", "coffee"));
    let id = created.body.unwrap().transaction_id;
    // The update payload proposes new write-once references; they must be
    // accepted but never written.
    let r = update_transaction(&mut store, id, &payload(9, 9, 5000, "credit", "2024-01-02", "tea"));
    assert_eq!(r.status, 200);
    let body = r.body.unwrap();
    assert_eq!(body.transaction_id, id);
    assert_eq!(body.account_id, 1);
    assert_eq!(body.child_category_id, 2);
    assert_eq!(body.transaction_amount, 5000);
    assert_eq!(body.transaction_type, "credit");
    assert_eq!(body.transaction_date, "2024-01-02");
    assert_eq!(body.transaction_description, "tea");
    // And the stored row agrees with the response.
    let read = get_transaction(&store, id).body.unwrap();
    assert_eq!(read.account_id, 1);
    assert_eq!(read.child_category_id, 2);
    assert_eq!(read.transaction_amount, 5000);
}

#[test]
fn update_leaves_other_rows_alone() {
    let mut store = TransactionStore::new();
    let a = create_transaction(&mut store, &payload(1, 2, 100, "debit", "2024-01-01", "a"));
    let b = create_transaction(&mut store, &payload(3, 4, 200, "credit", "2024-01-02", "b"));
    let a_id = a.body.unwrap().transaction_id;
    let b_id = b.body.unwrap().transaction_id;
    update_transaction(&mut store, b_id, &payload(0, 0, 999, "debit", "2024-02-02", "c"));
    let read_a = get_transaction(&store, a_id).body.unwrap();
    assert_eq!(read_a.transaction_amount, 100);
    assert_eq!(read_a.transaction_type, "debit");
    assert_eq!(read_a.transaction_description, "a");
}

#[test]
fn update_missing_is_500_and_changes_nothing() {
    let mut store = TransactionStore::new();
    create_transaction(&mut store, &payload(1, 2, 100, "debit", "2024-01-01", "a"));
    let r = update_transaction(&mut store, 5, &payload(1, 2, 999, "credit", "2024-02-02", "x"));
    assert_eq!(r.status, 500);
    assert!(r.body.is_none());
    let read = get_transaction(&store, 1).body.unwrap();
    assert_eq!(read.transaction_amount, 100);
    assert_eq!(get_transaction(&store, 5).status, 404);
}

#[test]
fn delete_then_read_is_404() {
    let mut store = TransactionStore::new();
    let created = create_transaction(&mut store, &payload(1, 2, 100, "debit", "2024-01-01", "a"));
    let id = created.body.unwrap().transaction_id;
    let r = delete_transaction(&mut store, id);
    assert_eq!(r.status, 204);
    assert!(r.body.is_none());
    assert_eq!(get_transaction(&store, id).status, 404);
}

#[test]
fn delete_missing_is_204() {
    let mut store = TransactionStore::new();
    let r = delete_transaction(&mut store, 17);
    assert_eq!(r.status, 204);
    assert!(r.body.is_none());
    create_transaction(&mut store, &payload(1, 2, 100, "debit", "2024-01-01", "a"));
    // Deleting twice: the second delete still answers 204.
    assert_eq!(delete_transaction(&mut store, 1).status, 204);
    assert_eq!(delete_transaction(&mut store, 1).status, 204);
}

#[test]
fn deleted_id_is_not_reassigned() {
    let mut store = TransactionStore::new();
    create_transaction(&mut store, &payload(1, 2, 100, "debit", "2024-01-01", "a"));
    delete_transaction(&mut store, 1);
    let r = create_transaction(&mut store, &payload(3, 4, 200, "credit", "2024-01-02", "b"));
    assert_eq!(r.body.unwrap().transaction_id, 2);
    assert_eq!(get_transaction(&store, 1).status, 404);
}

#[test]
fn crud_round_trip_scenario() {
    // Create {account_id: 1, child_category_id: 2, amount: 42.50 (4250 minor
    // units), type: "debit", date: "2024-01-01", description: "coffee"}.
    let mut store = TransactionStore::new();
    let created = create_transaction(&mut store, &payload(1, 2, 4250, "debit", "2024-01-01", "coffee"));
    assert_eq!(created.status, 201);
    let created = created.body.unwrap();
    let id = created.transaction_id;
    assert!(id >= 1);
    assert_eq!(created.account_id, 1);
    assert_eq!(created.child_category_id, 2);
    assert_eq!(created.transaction_amount, 4250);
    assert_eq!(created.transaction_type, "debit");
    assert_eq!(created.transaction_date, "2024-01-01");
    assert_eq!(created.transaction_description, "coffee");

    // Update the same id with amount 50.00 (5000), date 2024-01-02,
    // description "coffee, large".
    let updated = update_transaction(
        &mut store,
        id,
        &payload(1, 2, 5000, "debit", "2024-01-02", "coffee, large"),
    );
    assert_eq!(updated.status, 200);
    let updated = updated.body.unwrap();
    assert_eq!(updated.account_id, 1);
    assert_eq!(updated.child_category_id, 2);
    assert_eq!(updated.transaction_amount, 5000);
    assert_eq!(updated.transaction_date, "2024-01-02");
    assert_eq!(updated.transaction_description, "coffee, large");

    // Delete, then read: 204, then 404.
    assert_eq!(delete_transaction(&mut store, id).status, 204);
    assert_eq!(get_transaction(&store, id).status, 404);
}
