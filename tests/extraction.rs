use announce_relay::date::CivilDate;
use announce_relay::pipeline::{immediate_notice, pending_event, process};
use announce_relay::rules::{match_broadcast_added, match_event_ends};
use announce_relay::weekday::day_kanji_to_hangul;

fn december(day: u32) -> CivilDate {
    CivilDate { year: 2023, month: 12, day }
}

#[test]
fn winter_fest_end_is_stored_in_the_same_year() {
    let text = "12月25日（月）\nウィンターフェス\nアフターライブを開催";
    let out = process(text, &december(20));
    let event = out.pending.expect("event-end rule matches");
    assert_eq!(event.name, "ウィンターフェス");
    assert_eq!(event.end_date, 20231225);
    assert!(out.notices.is_empty());
}

#[test]
fn january_event_seen_in_december_rolls_to_next_year() {
    let text = "1月3日（火）\n新春イベント\nアフターライブを開催";
    let event = pending_event(text, &december(30)).expect("event-end rule matches");
    assert_eq!(event.name, "新春イベント");
    assert_eq!(event.end_date, 2024 * 10000 + 103);
}

#[test]
fn january_event_seen_in_november_keeps_the_year() {
    let text = "1月3日（火）\n新春イベント\nアフターライブを開催";
    let now = CivilDate { year: 2023, month: 11, day: 30 };
    let event = pending_event(text, &now).unwrap();
    assert_eq!(event.end_date, 20230103);
}

#[test]
fn event_ended_today_gives_a_notice_and_no_event() {
    let text = "本日\nウィンターフェス\nアフターライブを開催";
    let out = process(text, &december(25));
    assert!(out.pending.is_none());
    assert_eq!(out.notices.len(), 1);
    assert!(out.notices[0].contains("ウィンターフェス"));
    assert_eq!(
        out.notices[0],
        "`ウィンターフェス` 이벤트가 종료되었습니다.\n애프터 라이브를 시청하세요.\n이벤트 스토리를 다 봤는지 확인하세요."
    );
}

#[test]
fn broadcast_added_notice() {
    let text = "12月25日（月）19時より\n『ワンダショちゃんねる #12』の生配信が決定！";
    assert_eq!(
        immediate_notice(text).unwrap(),
        "12월 25일 (월) 19시부터 제12회 원더쇼 채널이 방영될 예정입니다."
    );
    let c = match_broadcast_added(text).unwrap();
    assert_eq!(c.month, "12");
    assert_eq!(c.date, "25");
    assert_eq!(c.day, "月");
    assert_eq!(c.hour, "19");
    assert_eq!(c.episode_number, "12");
}

#[test]
fn broadcast_added_with_unknown_glyph_keeps_the_rest() {
    let text = "3月1日（祝）9時より\n『ワンダショちゃんねる #7』の生配信が決定！";
    assert_eq!(
        immediate_notice(text).unwrap(),
        "3월 1일 () 9시부터 제7회 원더쇼 채널이 방영될 예정입니다."
    );
}

#[test]
fn broadcast_starting_notice() {
    let text = "このあと21時より『ワンダショちゃんねる #3』を生配信します！";
    assert_eq!(
        immediate_notice(text).unwrap(),
        "잠시 후 21시부터 제3회 원더쇼 채널이 방영될 예정입니다."
    );
}

#[test]
fn unmatched_message_is_silent() {
    for text in ["", "   \n  ", "お知らせ\nウィンターフェス\nアフターライブを開催", "123月4日\nA\nアフターライブを開催"] {
        let out = process(text, &december(1));
        assert!(out.pending.is_none());
        assert!(out.notices.is_empty());
        assert!(immediate_notice(text).is_none());
    }
}

#[test]
fn event_end_needs_three_lines() {
    assert!(match_event_ends("12月25日（月）\nウィンターフェス").is_none());
    assert!(match_event_ends("12月25日（月）\nウィンターフェス\n開催").is_none());
    let c = match_event_ends("9月5日\n\nアフターライブを開催します").unwrap();
    assert_eq!(c.month, "9");
    assert_eq!(c.date, "5");
    assert_eq!(c.event_name, "");
}

#[test]
fn message_matching_two_rules_yields_both_outcomes() {
    let text = "12月25日（月）19時より\n『ワンダショちゃんねる #12』の生配信が決定！\nアフターライブを開催";
    let out = process(text, &december(1));
    let event = out.pending.expect("event-end rule matches");
    assert_eq!(event.name, "『ワンダショちゃんねる #12』の生配信が決定！");
    assert_eq!(event.end_date, 20231225);
    assert_eq!(out.notices, vec!["12월 25일 (월) 19시부터 제12회 원더쇼 채널이 방영될 예정입니다.".to_string()]);
}

#[test]
fn processing_twice_gives_the_same_outcome() {
    let text = "12月25日（月）19時より\n『ワンダショちゃんねる #12』の生配信が決定！\nアフターライブを開催";
    let a = process(text, &december(1));
    let b = process(text, &december(1));
    assert_eq!(a.notices, b.notices);
    let (ea, eb) = (a.pending.unwrap(), b.pending.unwrap());
    assert_eq!(ea.name, eb.name);
    assert_eq!(ea.end_date, eb.end_date);
}

#[test]
fn weekday_glyphs() {
    let pairs = [("月", "월"), ("火", "화"), ("水", "수"), ("木", "목"), ("金", "금"), ("土", "토"), ("日", "일")];
    for (k, h) in pairs {
        assert_eq!(day_kanji_to_hangul(k), h);
    }
    assert_eq!(day_kanji_to_hangul("祝"), "");
    assert_eq!(day_kanji_to_hangul("月曜"), "");
    assert_eq!(day_kanji_to_hangul(""), "");
}
