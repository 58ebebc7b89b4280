use vstd::prelude::*;
use crate::text::{
    char_at, char_at_is, digit_run, digit_run_at, newline_from, next_newline, occurs_at,
    prefix_at, slice_owned,
};

verus! {

/// What the event-end rule captures: the month and day as written, and the
/// event's name.
pub struct EventEnds {
    pub month: String,
    pub date: String,
    pub event_name: String,
}

impl View for EventEnds {
    type V = (Seq<char>, Seq<char>, Seq<char>);

    open spec fn view(&self) -> Self::V {
        (self.month@, self.date@, self.event_name@)
    }
}

/// What the broadcast-added rule captures: month, day, weekday glyph, hour and
/// episode number, each as written.
pub struct BroadcastAdded {
    pub month: String,
    pub date: String,
    pub day: String,
    pub hour: String,
    pub episode_number: String,
}

impl View for BroadcastAdded {
    type V = (Seq<char>, Seq<char>, Seq<char>, Seq<char>, Seq<char>);

    open spec fn view(&self) -> Self::V {
        (self.month@, self.date@, self.day@, self.hour@, self.episode_number@)
    }
}

/// What the broadcast-starting rule captures: hour and episode number.
pub struct BroadcastStarting {
    pub hour: String,
    pub episode_number: String,
}

impl View for BroadcastStarting {
    type V = (Seq<char>, Seq<char>);

    open spec fn view(&self) -> Self::V {
        (self.hour@, self.episode_number@)
    }
}

/// Event-end rule: a first line that opens with `M月D日` (one or two digits
/// each), the event's name as the whole second line, and a third line that
/// opens with `アフターライブを開催`.
pub open spec fn event_ends_rule(t: Seq<char>) -> Option<(Seq<char>, Seq<char>, Seq<char>)> {
    let m = digit_run(t, 0) as int;
    let d = digit_run(t, m + 1) as int;
    let l1 = next_newline(t, 0);
    let l2 = next_newline(t, l1 + 1);
    if 1 <= m <= 2 && char_at(t, m, '月') && 1 <= d <= 2 && char_at(t, m + 1 + d, '日')
        && l1 < t.len() && l2 < t.len() && prefix_at(t, l2 + 1, "アフターライブを開催"@) {
        Some((t.subrange(0, m), t.subrange(m + 1, m + 1 + d), t.subrange(l1 + 1, l2)))
    } else {
        None
    }
}

/// Event-ended-today rule: a first line that opens with `本日`, the event's
/// name as the whole second line, and a third line that opens with
/// `アフターライブを開催`.
pub open spec fn event_ended_rule(t: Seq<char>) -> Option<Seq<char>> {
    let l1 = next_newline(t, 0);
    let l2 = next_newline(t, l1 + 1);
    if prefix_at(t, 0, "本日"@) && l1 < t.len() && l2 < t.len() && prefix_at(
        t,
        l2 + 1,
        "アフターライブを開催"@,
    ) {
        Some(t.subrange(l1 + 1, l2))
    } else {
        None
    }
}

/// Broadcast-added rule: `M月D日（W）H時より`, a line break, then
/// `『ワンダショちゃんねる #N』の生配信が決定！`, where `M`, `D`, `H` are one
/// or two digits, `W` is one character other than a line break and `N` is
/// one or more digits.
pub open spec fn broadcast_added_rule(t: Seq<char>) -> Option<
    (Seq<char>, Seq<char>, Seq<char>, Seq<char>, Seq<char>),
> {
    let m = digit_run(t, 0) as int;
    let d = digit_run(t, m + 1) as int;
    let p = m + 3 + d;
    let h = digit_run(t, p + 2) as int;
    let q = p + 2 + h + "時より\n『ワンダショちゃんねる #"@.len();
    let e = digit_run(t, q) as int;
    if 1 <= m <= 2 && char_at(t, m, '月') && 1 <= d <= 2 && char_at(t, m + 1 + d, '日')
        && char_at(t, m + 2 + d, '（') && 0 <= p < t.len() && t[p] != '\n' && char_at(
        t,
        p + 1,
        '）',
    ) && 1 <= h <= 2 && prefix_at(t, p + 2 + h, "時より\n『ワンダショちゃんねる #"@) && 1 <= e
        && prefix_at(t, q + e, "』の生配信が決定！"@) {
        Some(
            (
                t.subrange(0, m),
                t.subrange(m + 1, m + 1 + d),
                t.subrange(p, p + 1),
                t.subrange(p + 2, p + 2 + h),
                t.subrange(q, q + e),
            ),
        )
    } else {
        None
    }
}

/// Broadcast-starting rule: `このあとH時より『ワンダショちゃんねる #N』を生配信`,
/// where `H` is one or two digits and `N` one or more digits.
pub open spec fn broadcast_starting_rule(t: Seq<char>) -> Option<(Seq<char>, Seq<char>)> {
    let h0 = "このあと"@.len() as int;
    let h = digit_run(t, h0) as int;
    let q = h0 + h + "時より『ワンダショちゃんねる #"@.len();
    let e = digit_run(t, q) as int;
    if prefix_at(t, 0, "このあと"@) && 1 <= h <= 2 && prefix_at(
        t,
        h0 + h,
        "時より『ワンダショちゃんねる #"@,
    ) && 1 <= e && prefix_at(t, q + e, "』を生配信"@) {
        Some((t.subrange(h0, h0 + h), t.subrange(q, q + e)))
    } else {
        None
    }
}

/// Applies the event-end rule to `text`.
pub fn match_event_ends(text: &str) -> (r: Option<EventEnds>)
    ensures
        r is Some <==> event_ends_rule(text@) is Some,
        r is Some ==> r->0@ == event_ends_rule(text@)->0,
{
    let n = text.unicode_len();
    let m = digit_run_at(text, n, 0);
    if !(1 <= m && m <= 2 && char_at_is(text, n, m, '月')) {
        return None;
    }
    let d = digit_run_at(text, n, m + 1);
    if !(1 <= d && d <= 2 && char_at_is(text, n, m + 1 + d, '日')) {
        return None;
    }
    let l1 = newline_from(text, n, 0);
    if l1 >= n {
        return None;
    }
    let l2 = newline_from(text, n, l1 + 1);
    if l2 >= n || !occurs_at(text, n, l2 + 1, "アフターライブを開催") {
        return None;
    }
    Some(
        EventEnds {
            month: slice_owned(text, 0, m),
            date: slice_owned(text, m + 1, m + 1 + d),
            event_name: slice_owned(text, l1 + 1, l2),
        },
    )
}

/// Applies the event-ended-today rule to `text`.
pub fn match_event_ended(text: &str) -> (r: Option<String>)
    ensures
        r is Some <==> event_ended_rule(text@) is Some,
        r is Some ==> r->0@ == event_ended_rule(text@)->0,
{
    let n = text.unicode_len();
    if !occurs_at(text, n, 0, "本日") {
        return None;
    }
    let l1 = newline_from(text, n, 0);
    if l1 >= n {
        return None;
    }
    let l2 = newline_from(text, n, l1 + 1);
    if l2 >= n || !occurs_at(text, n, l2 + 1, "アフターライブを開催") {
        return None;
    }
    Some(slice_owned(text, l1 + 1, l2))
}

/// Applies the broadcast-added rule to `text`.
pub fn match_broadcast_added(text: &str) -> (r: Option<BroadcastAdded>)
    ensures
        r is Some <==> broadcast_added_rule(text@) is Some,
        r is Some ==> r->0@ == broadcast_added_rule(text@)->0,
{
    let n = text.unicode_len();
    let m = digit_run_at(text, n, 0);
    if !(1 <= m && m <= 2 && char_at_is(text, n, m, '月')) {
        return None;
    }
    let d = digit_run_at(text, n, m + 1);
    if !(1 <= d && d <= 2 && char_at_is(text, n, m + 1 + d, '日') && char_at_is(
        text,
        n,
        m + 2 + d,
        '（',
    )) {
        return None;
    }
    let p = m + 3 + d;
    if !(p < n && text.get_char(p) != '\n' && char_at_is(text, n, p + 1, '）')) {
        return None;
    }
    let h = digit_run_at(text, n, p + 2);
    let mid = "時より\n『ワンダショちゃんねる #";
    if !(1 <= h && h <= 2 && occurs_at(text, n, p + 2 + h, mid)) {
        return None;
    }
    let q = p + 2 + h + mid.unicode_len();
    let e = digit_run_at(text, n, q);
    if !(1 <= e && occurs_at(text, n, q + e, "』の生配信が決定！")) {
        return None;
    }
    Some(
        BroadcastAdded {
            month: slice_owned(text, 0, m),
            date: slice_owned(text, m + 1, m + 1 + d),
            day: slice_owned(text, p, p + 1),
            hour: slice_owned(text, p + 2, p + 2 + h),
            episode_number: slice_owned(text, q, q + e),
        },
    )
}

/// Applies the broadcast-starting rule to `text`.
pub fn match_broadcast_starting(text: &str) -> (r: Option<BroadcastStarting>)
    ensures
        r is Some <==> broadcast_starting_rule(text@) is Some,
        r is Some ==> r->0@ == broadcast_starting_rule(text@)->0,
{
    let n = text.unicode_len();
    let head = "このあと";
    if !occurs_at(text, n, 0, head) {
        return None;
    }
    let h0 = head.unicode_len();
    let h = digit_run_at(text, n, h0);
    let mid = "時より『ワンダショちゃんねる #";
    if !(1 <= h && h <= 2 && occurs_at(text, n, h0 + h, mid)) {
        return None;
    }
    let q = h0 + h + mid.unicode_len();
    let e = digit_run_at(text, n, q);
    if !(1 <= e && occurs_at(text, n, q + e, "』を生配信")) {
        return None;
    }
    Some(
        BroadcastStarting {
            hour: slice_owned(text, h0, h0 + h),
            episode_number: slice_owned(text, q, q + e),
        },
    )
}

} // verus!
