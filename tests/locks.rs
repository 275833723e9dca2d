use rushc::ids::{EntityId, LockToken};
use rushc::locks::{AirflowVideoLock, LockRecord, LockTable};

fn e(v: u128) -> EntityId {
    EntityId { value: v }
}

fn t(v: u128) -> LockToken {
    LockToken { value: v }
}

fn rec(entity: u128, token: u128) -> LockRecord {
    LockRecord { entity: e(entity), token: t(token) }
}

fn table() -> LockTable {
    LockTable::from_records(vec![rec(1, 10), rec(2, 20), rec(3, 30)]).unwrap()
}

#[test]
fn verify_holds_only_for_the_recorded_token() {
    let tb = table();
    assert!(tb.verify(e(1), t(10)));
    assert!(tb.verify(e(3), t(30)));
    assert!(!tb.verify(e(1), t(20)));
    assert!(!tb.verify(e(4), t(10)));
}

#[test]
fn verify_on_empty_store_is_false() {
    let tb = LockTable::from_records(vec![]).unwrap();
    assert!(!tb.verify(e(1), t(10)));
}

#[test]
fn rejected_lists_every_failing_entity() {
    let tb = table();
    let claims = vec![rec(1, 10), rec(2, 99), rec(3, 30), rec(4, 40), rec(5, 50)];
    assert_eq!(tb.rejected(&claims), vec![e(2), e(4), e(5)]);
}

#[test]
fn rejected_is_empty_when_all_hold() {
    let tb = table();
    assert!(tb.rejected(&vec![rec(2, 20), rec(1, 10)]).is_empty());
}

#[test]
fn duplicate_entity_breaks_the_table() {
    let r = LockTable::from_records(vec![rec(1, 10), rec(2, 20), rec(1, 11)]);
    assert!(matches!(r, Err(x) if x == e(1)));
}

#[test]
fn store_record_becomes_lock_record() {
    let l = AirflowVideoLock { doc_id: e(7), lock_id: t(70) };
    assert_eq!(l.record(), rec(7, 70));
}
