use announce_relay::date::{encode_md, encode_ymd, resolve_end_date, CivilDate};
use announce_relay::feed::{has_stream_rule, stream_rule_value, STREAM_RULE_TAG};
use announce_relay::scheduler::{initial_delay_secs, tick_notices};
use announce_relay::store::{recurring_catalog, Category, EventStore};

#[test]
fn rollover_only_from_december_to_january() {
    let dec = CivilDate { year: 2023, month: 12, day: 30 };
    let nov = CivilDate { year: 2023, month: 11, day: 30 };
    assert_eq!(resolve_end_date(&dec, 1, 3), 20240103);
    assert_eq!(resolve_end_date(&dec, 2, 3), 20230203);
    assert_eq!(resolve_end_date(&dec, 12, 31), 20231231);
    assert_eq!(resolve_end_date(&nov, 1, 3), 20230103);
}

#[test]
fn date_encodings() {
    let d = CivilDate { year: 2024, month: 8, day: 31 };
    assert_eq!(encode_ymd(&d), 20240831);
    assert_eq!(encode_md(&d), 831);
}

#[test]
fn inserted_event_is_due_on_its_date_only() {
    let mut store = EventStore::new();
    store.init();
    let id = store.insert_pending("ウィンターフェス".to_string(), 20231225);
    let due = store.pending_due(20231225);
    assert_eq!(due.len(), 1);
    assert_eq!(due[0].id, id);
    assert_eq!(due[0].name, "ウィンターフェス");
    assert_eq!(due[0].end_date, 20231225);
    assert!(store.pending_due(20231226).is_empty());
}

#[test]
fn duplicate_events_are_kept() {
    let mut store = EventStore::new();
    let a = store.insert_pending("A".to_string(), 20240101);
    let b = store.insert_pending("A".to_string(), 20240101);
    assert_ne!(a, b);
    assert_eq!(store.pending_due(20240101).len(), 2);
}

#[test]
fn init_reseeds_the_fixed_catalog() {
    let mut store = EventStore::new();
    store.insert_pending("X".to_string(), 20240101);
    for _ in 0..3 {
        store.init();
    }
    assert_eq!(recurring_catalog().len(), 26);
    assert_eq!(store.recurring_due(1227).len(), 2);
    assert_eq!(store.recurring_due(831).len(), 1);
    assert_eq!(store.recurring_due(101).len(), 0);
    assert_eq!(store.pending_due(20240101).len(), 1);
    let total: usize = (1..=12u32)
        .flat_map(|m| (1..=31u32).map(move |d| m * 100 + d))
        .map(|md| store.recurring_due(md).len())
        .sum();
    assert_eq!(total, 26);
}

#[test]
fn tick_on_august_31_announces_the_anniversary() {
    let today = CivilDate { year: 2024, month: 8, day: 31 };
    let notices = tick_notices(&Vec::new(), &recurring_catalog(), &today);
    assert_eq!(notices, vec!["오늘은 하츠네 미쿠의 생일입니다.\n애니버서리 라이브를 시청하세요.".to_string()]);
    let entry = recurring_catalog().into_iter().find(|r| r.date == 831).unwrap();
    assert_eq!(entry.category, Category::Anniversary);
}

#[test]
fn tick_announces_events_then_birthdays() {
    let mut store = EventStore::new();
    store.init();
    store.insert_pending("ウィンターフェス".to_string(), 20241206);
    store.insert_pending("other".to_string(), 20241207);
    let today = CivilDate { year: 2024, month: 12, day: 6 };
    let pending = store.pending_due(20241206);
    let notices = tick_notices(&pending, &recurring_catalog(), &today);
    assert_eq!(
        notices,
        vec![
            "오늘 21시에 `ウィンターフェス` 이벤트가 종료됩니다.".to_string(),
            "오늘은 히노모리 시즈쿠의 생일입니다.\n생일 라이브를 시청하세요.".to_string(),
        ]
    );
}

#[test]
fn quiet_day_has_no_notices() {
    let today = CivilDate { year: 2024, month: 1, day: 1 };
    assert!(tick_notices(&Vec::new(), &recurring_catalog(), &today).is_empty());
}

#[test]
fn first_tick_waits_until_midnight() {
    assert_eq!(initial_delay_secs(0), 0);
    assert_eq!(initial_delay_secs(1), 86399);
    assert_eq!(initial_delay_secs(3600), 82800);
}

#[test]
fn stream_rule_lookup() {
    assert!(has_stream_rule(&vec!["x".to_string(), STREAM_RULE_TAG.to_string()]));
    assert!(!has_stream_rule(&vec!["official_account".to_string()]));
    assert!(!has_stream_rule(&Vec::new()));
    assert_eq!(stream_rule_value("someone"), "from:someone");
}
