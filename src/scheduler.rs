use vstd::prelude::*;
use crate::date::{encode_md, encode_ymd, md_code, ymd_code, CivilDate};
use crate::store::{
    due_pending, due_recurring, pending_due, pending_views, recurring_due, recurring_views,
    Category, PendingEvent, RecurringDate,
};

verus! {

/// Seconds in one day: the scheduler's period.
pub const DAY_SECONDS: u64 = 86400;

/// The notice that an event ends today.
pub open spec fn ending_notice(name: Seq<char>) -> Seq<char> {
    "오늘 21시에 `"@ + name + "` 이벤트가 종료됩니다."@
}

/// The word that names a category in a notice.
pub open spec fn category_label(c: Category) -> Seq<char> {
    match c {
        Category::Birthday => "생일"@,
        Category::Anniversary => "애니버서리"@,
    }
}

/// The notice for a recurring date that falls today.
pub open spec fn recurring_notice(e: (Seq<char>, int, Category)) -> Seq<char> {
    "오늘은 "@ + e.0 + "의 생일입니다.\n"@ + category_label(e.2) + " 라이브를 시청하세요."@
}

/// Every notice of one tick on `today`: one per event ending that day, then
/// one per recurring date falling on that day of the year.
pub open spec fn tick_notices_of(
    pending: Seq<(int, Seq<char>, int)>,
    recurring: Seq<(Seq<char>, int, Category)>,
    today: CivilDate,
) -> Seq<Seq<char>> {
    due_pending(pending, ymd_code(today.year as int, today.month as int, today.day as int)).map_values(
        |e: (int, Seq<char>, int)| ending_notice(e.1),
    ) + due_recurring(recurring, md_code(today.month as int, today.day as int)).map_values(
        |e: (Seq<char>, int, Category)| recurring_notice(e),
    )
}

/// The views of a sequence of strings.
pub open spec fn string_views(v: Seq<String>) -> Seq<Seq<char>> {
    v.map_values(|s: String| s@)
}

/// Renders the notice that an event ends today.
pub fn render_ending(e: &PendingEvent) -> (r: String)
    ensures
        r@ == ending_notice(e.name@),
{
    let mut s = String::from_str("오늘 21시에 `");
    s.append(e.name.as_str());
    s.append("` 이벤트가 종료됩니다.");
    s
}

/// The word that names `c` in a notice.
pub fn category_text(c: Category) -> (r: &'static str)
    ensures
        r@ == category_label(c),
{
    match c {
        Category::Birthday => "생일",
        Category::Anniversary => "애니버서리",
    }
}

/// Renders the notice for a recurring date that falls today.
pub fn render_recurring(e: &RecurringDate) -> (r: String)
    ensures
        r@ == recurring_notice(e@),
{
    let mut s = String::from_str("오늘은 ");
    s.append(e.subject_name.as_str());
    s.append("의 생일입니다.\n");
    s.append(category_text(e.category));
    s.append(" 라이브를 시청하세요.");
    s
}

/// The notices that a tick on `today` dispatches, one per due item, given
/// the store's pending events and recurring dates.
pub fn tick_notices(
    pending: &Vec<PendingEvent>,
    recurring: &Vec<RecurringDate>,
    today: &CivilDate,
) -> (r: Vec<String>)
    requires
        today.wf(),
    ensures
        string_views(r@) == tick_notices_of(pending_views(pending@), recurring_views(recurring@), *today),
{
    let events = pending_due(pending, encode_ymd(today));
    let dates = recurring_due(recurring, encode_md(today));
    let ghost ev = pending_views(events@);
    let ghost dv = recurring_views(dates@);
    let mut out: Vec<String> = Vec::new();
    let mut i: usize = 0;
    while i < events.len()
        invariant
            i <= events@.len(),
            ev == pending_views(events@),
            string_views(out@) == ev.subrange(0, i as int).map_values(
                |e: (int, Seq<char>, int)| ending_notice(e.1),
            ),
        decreases events.len() - i,
    {
        let ghost prev = out@;
        out.push(render_ending(&events[i]));
        proof {
            assert(ev.subrange(0, i + 1) =~= ev.subrange(0, i as int).push(ev[i as int]));
            assert(string_views(out@) =~= string_views(prev).push(ending_notice(ev[i as int].1)));
        }
        i = i + 1;
    }
    proof {
        assert(ev.subrange(0, ev.len() as int) =~= ev);
    }
    let ghost first = string_views(out@);
    let mut j: usize = 0;
    while j < dates.len()
        invariant
            j <= dates@.len(),
            dv == recurring_views(dates@),
            string_views(out@) == first + dv.subrange(0, j as int).map_values(
                |e: (Seq<char>, int, Category)| recurring_notice(e),
            ),
        decreases dates.len() - j,
    {
        let ghost prev = out@;
        out.push(render_recurring(&dates[j]));
        proof {
            assert(dv.subrange(0, j + 1) =~= dv.subrange(0, j as int).push(dv[j as int]));
            assert(string_views(out@) =~= string_views(prev).push(recurring_notice(dv[j as int])));
            assert(dv.subrange(0, j + 1).map_values(|e: (Seq<char>, int, Category)| recurring_notice(e))
                =~= dv.subrange(0, j as int).map_values(|e: (Seq<char>, int, Category)| recurring_notice(e)).push(
                recurring_notice(dv[j as int]),
            ));
        }
        j = j + 1;
    }
    proof {
        assert(dv.subrange(0, dv.len() as int) =~= dv);
    }
    out
}

/// Seconds from `now_secs` (seconds since local midnight) until the first
/// tick: none at midnight itself, otherwise until the next midnight.
pub fn initial_delay_secs(now_secs: u64) -> (r: u64)
    requires
        now_secs < DAY_SECONDS,
    ensures
        now_secs == 0 ==> r == 0,
        now_secs > 0 ==> r == DAY_SECONDS - now_secs,
        now_secs + r == 0 || now_secs + r == DAY_SECONDS,
{
    if now_secs == 0 {
        0
    } else {
        DAY_SECONDS - now_secs
    }
}

} // verus!
