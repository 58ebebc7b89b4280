use vstd::prelude::*;
use crate::date::{resolve_end_date, resolved_date, CivilDate};
use crate::rules::{
    broadcast_added_rule, broadcast_starting_rule, event_ended_rule, event_ends_rule,
    match_broadcast_added, match_broadcast_starting, match_event_ended, match_event_ends,
};
use crate::text::{digit_run, is_digit, lemma_digit_run, small_number, small_number_at};
use crate::weekday::{day_kanji_to_hangul, hangul_of};

verus! {

/// A future event to be stored: its name and its end date, `YYYYMMDD`.
pub struct NewEvent {
    pub name: String,
    pub end_date: u64,
}

impl View for NewEvent {
    type V = (Seq<char>, int);

    open spec fn view(&self) -> Self::V {
        (self.name@, self.end_date as int)
    }
}

/// Everything one message yields: the event to store, if any, and the
/// notices to send at once, in rule order.
pub struct Extraction {
    pub pending: Option<NewEvent>,
    pub notices: Vec<String>,
}

/// The notice that an event has just ended.
pub open spec fn ended_notice(name: Seq<char>) -> Seq<char> {
    "`"@ + name + "` 이벤트가 종료되었습니다.\n애프터 라이브를 시청하세요.\n이벤트 스토리를 다 봤는지 확인하세요."@
}

/// The notice that a broadcast has been scheduled.
pub open spec fn added_notice(
    c: (Seq<char>, Seq<char>, Seq<char>, Seq<char>, Seq<char>),
) -> Seq<char> {
    c.0 + "월 "@ + c.1 + "일 ("@ + hangul_of(c.2) + ") "@ + c.3 + "시부터 제"@ + c.4
        + "회 원더쇼 채널이 방영될 예정입니다."@
}

/// The notice that a broadcast starts soon.
pub open spec fn starting_notice(c: (Seq<char>, Seq<char>)) -> Seq<char> {
    "잠시 후 "@ + c.0 + "시부터 제"@ + c.1 + "회 원더쇼 채널이 방영될 예정입니다."@
}

/// The event-ended notice of `t`, if its rule matches.
pub open spec fn ended_notice_of(t: Seq<char>) -> Option<Seq<char>> {
    match event_ended_rule(t) {
        Some(name) => Some(ended_notice(name)),
        None => None,
    }
}

/// The broadcast-added notice of `t`, if its rule matches.
pub open spec fn added_notice_of(t: Seq<char>) -> Option<Seq<char>> {
    match broadcast_added_rule(t) {
        Some(c) => Some(added_notice(c)),
        None => None,
    }
}

/// The broadcast-starting notice of `t`, if its rule matches.
pub open spec fn starting_notice_of(t: Seq<char>) -> Option<Seq<char>> {
    match broadcast_starting_rule(t) {
        Some(c) => Some(starting_notice(c)),
        None => None,
    }
}

/// An optional value as a sequence of at most one element.
pub open spec fn opt_seq(o: Option<Seq<char>>) -> Seq<Seq<char>> {
    match o {
        Some(x) => seq![x],
        None => seq![],
    }
}

/// All immediate notices of `t`, in rule order.
pub open spec fn notices_of(t: Seq<char>) -> Seq<Seq<char>> {
    opt_seq(ended_notice_of(t)) + opt_seq(added_notice_of(t)) + opt_seq(starting_notice_of(t))
}

/// The first immediate notice of `t` in rule order, if any.
pub open spec fn first_notice_of(t: Seq<char>) -> Option<Seq<char>> {
    if ended_notice_of(t) is Some {
        ended_notice_of(t)
    } else if added_notice_of(t) is Some {
        added_notice_of(t)
    } else {
        starting_notice_of(t)
    }
}

/// The event that `t`, seen on `now`, asks to store: its name and its
/// resolved end date.
pub open spec fn pending_of(t: Seq<char>, now: CivilDate) -> Option<(Seq<char>, int)> {
    match event_ends_rule(t) {
        Some(c) => Some((c.2, resolved_date(now, small_number(c.0), small_number(c.1)))),
        None => None,
    }
}

/// The event that `text`, seen on `now`, asks to store, if any.
pub fn pending_event(text: &str, now: &CivilDate) -> (r: Option<NewEvent>)
    ensures
        r is Some <==> pending_of(text@, *now) is Some,
        r is Some ==> r->0@ == pending_of(text@, *now)->0,
{
    let captured = match_event_ends(text);
    match captured {
        None => None,
        Some(c) => {
            proof {
                let t = text@;
                let m = digit_run(t, 0) as int;
                lemma_digit_run(t, 0);
                lemma_digit_run(t, m + 1);
                assert(forall|x: int| 0 <= x < c.month@.len() ==> is_digit(#[trigger] c.month@[x]))
                    by {
                    assert(forall|x: int| 0 <= x < m ==> c.month@[x] == t[x]);
                };
                assert(forall|x: int| 0 <= x < c.date@.len() ==> is_digit(#[trigger] c.date@[x]))
                    by {
                    assert(forall|x: int| 0 <= x < c.date@.len() ==> c.date@[x] == t[m + 1 + x]);
                };
            }
            let month_text = c.month.as_str();
            let date_text = c.date.as_str();
            let month = small_number_at(month_text, month_text.unicode_len(), 0, month_text.unicode_len());
            let day = small_number_at(date_text, date_text.unicode_len(), 0, date_text.unicode_len());
            proof {
                assert(month_text@.subrange(0, month_text@.len() as int) =~= month_text@);
                assert(date_text@.subrange(0, date_text@.len() as int) =~= date_text@);
            }
            let end_date = resolve_end_date(now, month, day);
            Some(NewEvent { name: c.event_name, end_date })
        },
    }
}

fn render_ended(name: &str) -> (r: String)
    ensures
        r@ == ended_notice(name@),
{
    let mut s = String::from_str("`");
    s.append(name);
    s.append(
        "` 이벤트가 종료되었습니다.\n애프터 라이브를 시청하세요.\n이벤트 스토리를 다 봤는지 확인하세요.",
    );
    s
}

fn render_added(month: &str, date: &str, day: &str, hour: &str, episode: &str) -> (r: String)
    ensures
        r@ == added_notice((month@, date@, day@, hour@, episode@)),
{
    let mut s = String::from_str(month);
    s.append("월 ");
    s.append(date);
    s.append("일 (");
    s.append(day_kanji_to_hangul(day));
    s.append(") ");
    s.append(hour);
    s.append("시부터 제");
    s.append(episode);
    s.append("회 원더쇼 채널이 방영될 예정입니다.");
    s
}

fn render_starting(hour: &str, episode: &str) -> (r: String)
    ensures
        r@ == starting_notice((hour@, episode@)),
{
    let mut s = String::from_str("잠시 후 ");
    s.append(hour);
    s.append("시부터 제");
    s.append(episode);
    s.append("회 원더쇼 채널이 방영될 예정입니다.");
    s
}

/// The event-ended notice of `text`, if its rule matches.
pub fn ended_notice_exec(text: &str) -> (r: Option<String>)
    ensures
        r is Some <==> ended_notice_of(text@) is Some,
        r is Some ==> r->0@ == ended_notice_of(text@)->0,
{
    match match_event_ended(text) {
        Some(name) => Some(render_ended(name.as_str())),
        None => None,
    }
}

/// The broadcast-added notice of `text`, if its rule matches.
pub fn added_notice_exec(text: &str) -> (r: Option<String>)
    ensures
        r is Some <==> added_notice_of(text@) is Some,
        r is Some ==> r->0@ == added_notice_of(text@)->0,
{
    match match_broadcast_added(text) {
        Some(c) => Some(
            render_added(
                c.month.as_str(),
                c.date.as_str(),
                c.day.as_str(),
                c.hour.as_str(),
                c.episode_number.as_str(),
            ),
        ),
        None => None,
    }
}

/// The broadcast-starting notice of `text`, if its rule matches.
pub fn starting_notice_exec(text: &str) -> (r: Option<String>)
    ensures
        r is Some <==> starting_notice_of(text@) is Some,
        r is Some ==> r->0@ == starting_notice_of(text@)->0,
{
    match match_broadcast_starting(text) {
        Some(c) => Some(render_starting(c.hour.as_str(), c.episode_number.as_str())),
        None => None,
    }
}

/// The immediate notice of `text`: the first, in rule order, of the
/// event-ended, broadcast-added and broadcast-starting notices. At most one
/// of them can match (see `lemma_notice_rules_exclusive`).
pub fn immediate_notice(text: &str) -> (r: Option<String>)
    ensures
        r is Some <==> first_notice_of(text@) is Some,
        r is Some ==> r->0@ == first_notice_of(text@)->0,
{
    let ended = ended_notice_exec(text);
    if ended.is_some() {
        return ended;
    }
    let added = added_notice_exec(text);
    if added.is_some() {
        return added;
    }
    starting_notice_exec(text)
}

fn push_opt(v: &mut Vec<String>, o: Option<String>)
    ensures
        final(v)@.len() == old(v)@.len() + opt_seq(
            match o {
                Some(s) => Some(s@),
                None => None,
            },
        ).len(),
        forall|i: int| 0 <= i < old(v)@.len() ==> final(v)@[i] == old(v)@[i],
        o is Some ==> final(v)@[old(v)@.len() as int]@ == o->0@,
{
    match o {
        Some(s) => v.push(s),
        None => {},
    }
}

/// Runs every rule on `text`, seen on `now`: the event to store, if the
/// event-end rule matches, and every immediate notice, in rule order.
pub fn process(text: &str, now: &CivilDate) -> (r: Extraction)
    ensures
        r.pending is Some <==> pending_of(text@, *now) is Some,
        r.pending is Some ==> r.pending->0@ == pending_of(text@, *now)->0,
        r.notices@.len() == notices_of(text@).len(),
        forall|i: int| 0 <= i < r.notices@.len() ==> (#[trigger] r.notices@[i])@ == notices_of(text@)[i],
{
    let pending = pending_event(text, now);
    let mut notices: Vec<String> = Vec::new();
    let a = ended_notice_exec(text);
    let b = added_notice_exec(text);
    let c = starting_notice_exec(text);
    push_opt(&mut notices, a);
    push_opt(&mut notices, b);
    push_opt(&mut notices, c);
    Extraction { pending, notices }
}

/// The three notice rules exclude one another: a message that opens with
/// `本日`, one that opens with a digit and one that opens with `このあと`
/// are three different messages. So at most one immediate notice comes of a
/// message.
pub proof fn lemma_notice_rules_exclusive(t: Seq<char>)
    ensures
        !(ended_notice_of(t) is Some && added_notice_of(t) is Some),
        !(ended_notice_of(t) is Some && starting_notice_of(t) is Some),
        !(added_notice_of(t) is Some && starting_notice_of(t) is Some),
        notices_of(t).len() <= 1,
{
    reveal_strlit("本日");
    reveal_strlit("このあと");
    if ended_notice_of(t) is Some {
        assert(t.subrange(0, 2)[0] == t[0]);
    }
    if starting_notice_of(t) is Some {
        assert(t.subrange(0, 4)[0] == t[0]);
    }
}

/// Whether a rule contributes to the outcome of a message depends on that
/// rule and the message alone: the stored event comes from the event-end
/// rule exactly when it matches, and the immediate notices are the same
/// whether the notice rules are tried in their order, in the reverse order,
/// or until the first that matches.
pub proof fn lemma_rules_independent(t: Seq<char>, now: CivilDate)
    ensures
        pending_of(t, now) is Some <==> event_ends_rule(t) is Some,
        notices_of(t) == opt_seq(starting_notice_of(t)) + opt_seq(added_notice_of(t)) + opt_seq(
            ended_notice_of(t),
        ),
        notices_of(t) == opt_seq(first_notice_of(t)),
        ended_notice_of(t) is Some ==> notices_of(t) == seq![ended_notice_of(t)->0],
        added_notice_of(t) is Some ==> notices_of(t) == seq![added_notice_of(t)->0],
        starting_notice_of(t) is Some ==> notices_of(t) == seq![starting_notice_of(t)->0],
{
    lemma_notice_rules_exclusive(t);
    assert(notices_of(t) =~= opt_seq(starting_notice_of(t)) + opt_seq(added_notice_of(t)) + opt_seq(
        ended_notice_of(t),
    ));
    assert(notices_of(t) =~= opt_seq(first_notice_of(t)));
}

/// A message that no rule matches is silent: nothing to store and no
/// notice.
pub proof fn lemma_no_match_silent(t: Seq<char>, now: CivilDate)
    requires
        event_ends_rule(t) is None,
        event_ended_rule(t) is None,
        broadcast_added_rule(t) is None,
        broadcast_starting_rule(t) is None,
    ensures
        pending_of(t, now) is None,
        notices_of(t).len() == 0,
{
}

/// An empty message, or one of spaces and line breaks only, matches no rule
/// and so is silent.
pub proof fn lemma_blank_message_silent(t: Seq<char>, now: CivilDate)
    requires
        forall|i: int|
            0 <= i < t.len() ==> (#[trigger] t[i] == ' ' || t[i] == '\n' || t[i] == '\t' || t[i]
                == '\r' || t[i] == '\u{3000}'),
    ensures
        pending_of(t, now) is None,
        notices_of(t).len() == 0,
{
    reveal_strlit("本日");
    reveal_strlit("このあと");
    if t.len() >= 2 {
        assert(t.subrange(0, 2)[0] == t[0]);
    }
    if t.len() >= 4 {
        assert(t.subrange(0, 4)[0] == t[0]);
    }
}

/// A message that satisfies both the event-end rule and the broadcast-added
/// rule yields both outcomes: the event to store and the broadcast notice.
pub proof fn lemma_multi_output(t: Seq<char>, now: CivilDate)
    requires
        event_ends_rule(t) is Some,
        broadcast_added_rule(t) is Some,
    ensures
        pending_of(t, now) is Some,
        notices_of(t) == seq![added_notice(broadcast_added_rule(t)->0)],
{
    lemma_rules_independent(t, now);
}

} // verus!
