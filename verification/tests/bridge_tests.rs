use domdb::bridge::{EditError, EditPhase, StagedEdit, SyncBridge};
use domdb::codec::{decode, WireField, WireRecord, WireValue};
use domdb::mirror::{AppState, Change, MirrorError};
use domdb::record::{DomRecord, JsonFrontDom};
use domdb::store::StoreError;

const FIRST: u128 = 0x00000000_0000_4000_8000_000000000001;
const SECOND: u128 = 0x00000000_0000_4000_8000_000000000002;

fn record(id: u32, uuid: u128, tag: &str, text: &str, order: u32) -> DomRecord {
    DomRecord { id, uuid, tag: tag.to_string(), text: text.to_string(), order }
}

fn staged(tag: &str, text: &str) -> StagedEdit {
    StagedEdit { tag: tag.to_string(), text: text.to_string() }
}

fn bridge_over(records: Vec<DomRecord>) -> SyncBridge {
    let mut mirror = AppState::new();
    mirror.load(records);
    SyncBridge::new(mirror)
}

fn keyed(mut wire: WireRecord, id: i64) -> WireRecord {
    wire.fields.push(WireField { name: "id".to_string(), value: WireValue::Integer(id) });
    wire
}

#[test]
fn a_new_bridge_is_idle() {
    let bridge = SyncBridge::new(AppState::new());
    assert_eq!(bridge.phase(), &EditPhase::Idle);
    assert_eq!(bridge.staged(), None);
    assert_eq!(bridge.mirror().len(), 0);
}

#[test]
fn begin_edit_starts_editing_from_idle() {
    let mut bridge = SyncBridge::new(AppState::new());
    assert!(bridge.begin_edit());
    assert_eq!(bridge.phase(), &EditPhase::Editing(None));
    assert!(bridge.begin_edit());
    assert_eq!(bridge.phase(), &EditPhase::Editing(None));
}

#[test]
fn begin_edit_changes_nothing_while_committing() {
    let mut bridge = SyncBridge::new(AppState::new());
    bridge.begin_edit();
    bridge.confirm_edit_with(FIRST, "h3".to_string(), "This Text".to_string(), None).unwrap();
    assert!(!bridge.begin_edit());
    assert!(matches!(bridge.phase(), EditPhase::Committing(_)));
}

#[test]
fn cancel_edit_goes_back_to_idle() {
    let mut bridge = SyncBridge::new(AppState::new());
    assert!(!bridge.cancel_edit());
    bridge.begin_edit();
    assert!(bridge.cancel_edit());
    assert_eq!(bridge.phase(), &EditPhase::Idle);
    bridge.begin_edit();
    bridge.confirm_edit_with(FIRST, "h3".to_string(), "This Text".to_string(), None).unwrap();
    assert!(!bridge.cancel_edit());
    assert!(matches!(bridge.phase(), EditPhase::Committing(_)));
}

#[test]
fn confirm_edit_needs_an_edit_under_way() {
    let mut bridge = bridge_over(vec![record(1, FIRST, "h3", "This Text", 0)]);
    assert_eq!(
        bridge.confirm_edit_with(SECOND, "h1".to_string(), "x".to_string(), None),
        Err(EditError::NotEditing)
    );
    assert_eq!(bridge.phase(), &EditPhase::Idle);
    assert_eq!(bridge.confirm_edit("h1".to_string(), "x".to_string(), Some(3)), Err(EditError::NotEditing));
    assert_eq!(bridge.mirror().current_ordered_ids(), vec![1]);
}

#[test]
fn confirm_edit_is_refused_while_another_is_committing() {
    let mut bridge = SyncBridge::new(AppState::new());
    bridge.begin_edit();
    bridge.confirm_edit_with(FIRST, "h3".to_string(), "This Text".to_string(), None).unwrap();
    assert_eq!(
        bridge.confirm_edit_with(SECOND, "h1".to_string(), "x".to_string(), None),
        Err(EditError::NotEditing)
    );
    assert_eq!(
        bridge.phase(),
        &EditPhase::Committing(JsonFrontDom {
            uuid: FIRST,
            tag: "h3".to_string(),
            text: "This Text".to_string(),
            order: 0,
        })
    );
}

#[test]
fn confirm_edit_hands_out_the_record_to_insert() {
    let mut bridge = bridge_over(vec![record(1, FIRST, "h3", "This Text", 4)]);
    bridge.begin_edit();
    let wire = bridge
        .confirm_edit_with(SECOND, "h1".to_string(), "Another Text Text".to_string(), None)
        .unwrap();
    assert_eq!(
        wire.fields,
        vec![
            WireField {
                name: "uuid".to_string(),
                value: WireValue::Text("00000000-0000-4000-8000-000000000002".to_string()),
            },
            WireField { name: "tag".to_string(), value: WireValue::Text("h1".to_string()) },
            WireField {
                name: "text".to_string(),
                value: WireValue::Text("Another Text Text".to_string()),
            },
            WireField { name: "order".to_string(), value: WireValue::Integer(5) },
        ]
    );
    assert_eq!(bridge.mirror().current_ordered_ids(), vec![1]);
}

#[test]
fn confirm_edit_takes_the_order_it_is_given() {
    let mut bridge = bridge_over(vec![record(1, FIRST, "h3", "This Text", 4)]);
    bridge.begin_edit();
    let wire = bridge.confirm_edit_with(SECOND, "h1".to_string(), "x".to_string(), Some(2)).unwrap();
    assert_eq!(wire.fields[3].value, WireValue::Integer(2));
    assert_eq!(bridge.insert_settled(Ok(2)), Ok(Change::Structure));
    assert_eq!(bridge.mirror().get(2).unwrap().order, 2);
}

#[test]
fn confirm_edit_starts_the_order_at_zero() {
    let mut bridge = SyncBridge::new(AppState::new());
    bridge.begin_edit();
    let wire = bridge.confirm_edit_with(FIRST, "h3".to_string(), "This Text".to_string(), None).unwrap();
    assert_eq!(wire.fields[3].value, WireValue::Integer(0));
}

#[test]
fn confirm_edit_fails_where_no_order_is_left() {
    let mut bridge = bridge_over(vec![record(1, FIRST, "h3", "This Text", u32::MAX)]);
    bridge.begin_edit();
    assert_eq!(
        bridge.confirm_edit_with(SECOND, "h1".to_string(), "kept".to_string(), None),
        Err(EditError::OrderExhausted)
    );
    assert_eq!(bridge.phase(), &EditPhase::Editing(Some(staged("h1", "kept"))));
    assert_eq!(bridge.staged(), Some(&staged("h1", "kept")));
    assert_eq!(bridge.mirror().current_ordered_ids(), vec![1]);
    assert!(bridge.confirm_edit_with(SECOND, "h1".to_string(), "kept".to_string(), Some(0)).is_ok());
}

#[test]
fn confirm_edit_draws_an_identity_of_its_own() {
    let mut bridge = SyncBridge::new(AppState::new());
    bridge.begin_edit();
    let wire = bridge.confirm_edit("h4".to_string(), "typed".to_string(), None).unwrap();
    let pending = match bridge.phase() {
        EditPhase::Committing(pending) => pending.clone(),
        other => panic!("not committing: {other:?}"),
    };
    assert_eq!(pending.tag, "h4");
    assert_eq!(pending.text, "typed");
    assert_eq!(pending.order, 0);
    assert_eq!(pending.uuid & 0xF000_C000_0000_0000_0000, 0x4000_8000_0000_0000_0000);
    assert_eq!(decode(&keyed(wire, 1)), Ok(pending.into_record(1)));
}

#[test]
fn a_committed_insert_reaches_the_mirror() {
    let mut bridge = bridge_over(vec![record(1, FIRST, "h3", "This Text", 0)]);
    bridge.begin_edit();
    let wire = bridge
        .confirm_edit_with(SECOND, "h1".to_string(), "Another Text Text".to_string(), None)
        .unwrap();
    assert_eq!(bridge.mirror().len(), 1);
    assert_eq!(bridge.insert_settled(Ok(2)), Ok(Change::Structure));
    assert_eq!(bridge.phase(), &EditPhase::Idle);
    assert_eq!(bridge.staged(), None);
    assert_eq!(bridge.mirror().current_ordered_ids(), vec![1, 2]);
    let expected = record(2, SECOND, "h1", "Another Text Text", 1);
    assert_eq!(bridge.mirror().get(2), Some(&expected));
    assert_eq!(decode(&keyed(wire, 2)), Ok(expected));
}

#[test]
fn a_failed_insert_leaves_the_mirror_and_keeps_the_staged_value() {
    for failure in [
        StoreError::TransactionError,
        StoreError::UniquenessViolation,
        StoreError::SerializationError,
        StoreError::SchemaError,
    ] {
        let before = vec![record(1, FIRST, "h3", "This Text", 0)];
        let mut bridge = bridge_over(before.clone());
        bridge.begin_edit();
        bridge.confirm_edit_with(SECOND, "h1".to_string(), "Another Text Text".to_string(), None).unwrap();
        assert_eq!(bridge.insert_settled(Err(failure)), Err(EditError::Store(failure)));
        assert_eq!(bridge.mirror().snapshot(), before);
        assert_eq!(bridge.mirror().len(), 1);
        assert_eq!(bridge.phase(), &EditPhase::Editing(Some(staged("h1", "Another Text Text"))));
        assert_eq!(bridge.staged(), Some(&staged("h1", "Another Text Text")));
    }
}

#[test]
fn a_failed_insert_can_be_tried_again() {
    let mut bridge = SyncBridge::new(AppState::new());
    bridge.begin_edit();
    bridge.confirm_edit_with(FIRST, "h3".to_string(), "This Text".to_string(), None).unwrap();
    assert!(bridge.insert_settled(Err(StoreError::TransactionError)).is_err());
    let again = bridge.staged().map(|s| (s.tag.clone(), s.text.clone())).unwrap();
    bridge.confirm_edit_with(SECOND, again.0, again.1, None).unwrap();
    assert_eq!(bridge.insert_settled(Ok(1)), Ok(Change::Structure));
    assert_eq!(bridge.mirror().snapshot(), vec![record(1, SECOND, "h3", "This Text", 0)]);
}

#[test]
fn an_insert_under_a_key_the_mirror_holds_is_refused() {
    let before = vec![record(1, FIRST, "h3", "This Text", 0)];
    let mut bridge = bridge_over(before.clone());
    bridge.begin_edit();
    bridge.confirm_edit_with(SECOND, "h1".to_string(), "x".to_string(), None).unwrap();
    assert_eq!(
        bridge.insert_settled(Ok(1)),
        Err(EditError::Mirror(MirrorError::DuplicateId(1)))
    );
    assert_eq!(bridge.mirror().snapshot(), before);
    assert_eq!(bridge.staged(), Some(&staged("h1", "x")));
}

#[test]
fn an_insert_that_nobody_awaits_is_refused() {
    let mut bridge = bridge_over(vec![record(1, FIRST, "h3", "This Text", 0)]);
    assert_eq!(bridge.insert_settled(Ok(2)), Err(EditError::NotCommitting));
    assert_eq!(bridge.phase(), &EditPhase::Idle);
    bridge.begin_edit();
    assert_eq!(
        bridge.insert_settled(Err(StoreError::TransactionError)),
        Err(EditError::NotCommitting)
    );
    assert_eq!(bridge.phase(), &EditPhase::Editing(None));
    assert_eq!(bridge.mirror().current_ordered_ids(), vec![1]);
}

#[test]
fn two_inserts_in_turn_stand_in_the_order_they_were_committed() {
    let mut bridge = SyncBridge::new(AppState::new());
    bridge.begin_edit();
    bridge.confirm_edit_with(FIRST, "h3".to_string(), "This Text".to_string(), Some(0)).unwrap();
    assert_eq!(bridge.insert_settled(Ok(1)), Ok(Change::Structure));
    bridge.begin_edit();
    bridge.confirm_edit_with(SECOND, "h1".to_string(), "Another Text Text".to_string(), Some(1)).unwrap();
    assert_eq!(bridge.insert_settled(Ok(2)), Ok(Change::Structure));
    assert_eq!(
        bridge.mirror().snapshot(),
        vec![
            record(1, FIRST, "h3", "This Text", 0),
            record(2, SECOND, "h1", "Another Text Text", 1),
        ]
    );
    assert_eq!(bridge.mirror().current_ordered_ids(), vec![1, 2]);
}

#[test]
fn a_scan_that_succeeded_replaces_the_mirror() {
    let mut bridge = bridge_over(vec![record(9, FIRST, "p", "old", 0)]);
    let fetched = vec![record(2, SECOND, "h1", "b", 1), record(1, FIRST, "h3", "a", 0)];
    assert_eq!(bridge.fetch_settled(Ok(fetched.clone())), Ok(Change::Structure));
    assert_eq!(bridge.mirror().current_ordered_ids(), vec![2, 1]);
    assert_eq!(bridge.mirror().snapshot(), fetched);
    assert_eq!(bridge.phase(), &EditPhase::Idle);
}

#[test]
fn a_scan_that_failed_leaves_the_mirror() {
    let before = vec![record(9, FIRST, "p", "old", 0)];
    let mut bridge = bridge_over(before.clone());
    bridge.begin_edit();
    assert_eq!(
        bridge.fetch_settled(Err(StoreError::TransactionError)),
        Err(StoreError::TransactionError)
    );
    assert_eq!(bridge.mirror().snapshot(), before);
    assert_eq!(bridge.phase(), &EditPhase::Editing(None));
}

#[test]
fn clearing_reaches_the_mirror_only_where_the_store_succeeded() {
    let before = vec![record(9, FIRST, "p", "old", 0)];
    let mut bridge = bridge_over(before.clone());
    assert_eq!(bridge.clear_settled(Err(StoreError::TransactionError)), Err(StoreError::TransactionError));
    assert_eq!(bridge.mirror().snapshot(), before);
    assert_eq!(bridge.clear_settled(Ok(())), Ok(Change::Structure));
    assert_eq!(bridge.mirror().len(), 0);
    assert_eq!(bridge.mirror().current_ordered_ids(), Vec::<u32>::new());
    assert_eq!(bridge.clear_settled(Ok(())), Ok(Change::Structure));
    assert_eq!(bridge.mirror().len(), 0);
}
