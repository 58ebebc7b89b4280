use vstd::prelude::*;

verus! {

/// How a recurring date is announced.
#[derive(Clone, Copy, Debug, PartialEq, Eq, Structural)]
pub enum Category {
    Birthday,
    Anniversary,
}

/// A stored event that ends on `end_date` (`YYYYMMDD`).
pub struct PendingEvent {
    pub id: u64,
    pub name: String,
    pub end_date: u64,
}

impl View for PendingEvent {
    type V = (int, Seq<char>, int);

    open spec fn view(&self) -> Self::V {
        (self.id as int, self.name@, self.end_date as int)
    }
}

/// A day of the year (`MMDD`) on which `subject_name` is celebrated.
pub struct RecurringDate {
    pub subject_name: String,
    pub date: u32,
    pub category: Category,
}

impl View for RecurringDate {
    type V = (Seq<char>, int, Category);

    open spec fn view(&self) -> Self::V {
        (self.subject_name@, self.date as int, self.category)
    }
}

/// The fixed catalog of recurring dates that the store is seeded with.
pub open spec fn catalog() -> Seq<(Seq<char>, int, Category)> {
    seq![
        ("히노모리 시호"@, 108, Category::Birthday),
        ("아사히나 마후유"@, 127, Category::Birthday),
        ("메구리네 루카"@, 130, Category::Anniversary),
        ("요이사키 카나데"@, 210, Category::Birthday),
        ("KAITO"@, 217, Category::Anniversary),
        ("아즈사와 코하네"@, 302, Category::Birthday),
        ("모모이 아이리"@, 319, Category::Birthday),
        ("하나사토 미노리"@, 414, Category::Birthday),
        ("시노노메 에나"@, 430, Category::Birthday),
        ("텐마 사키"@, 509, Category::Birthday),
        ("텐마 츠카사"@, 517, Category::Birthday),
        ("아오야기 토우야"@, 525, Category::Birthday),
        ("카미시로 루이"@, 624, Category::Birthday),
        ("쿠사나기 네네"@, 720, Category::Birthday),
        ("시라이시 안"@, 726, Category::Birthday),
        ("호시노 이치카"@, 811, Category::Birthday),
        ("아키야마 미즈키"@, 827, Category::Birthday),
        ("하츠네 미쿠"@, 831, Category::Anniversary),
        ("오오토리 에무"@, 909, Category::Birthday),
        ("키리타니 하루카"@, 1005, Category::Birthday),
        ("모치즈키 호나미"@, 1027, Category::Birthday),
        ("MEIKO"@, 1105, Category::Anniversary),
        ("시노노메 아키토"@, 1112, Category::Birthday),
        ("히노모리 시즈쿠"@, 1206, Category::Birthday),
        ("카가미네 린"@, 1227, Category::Anniversary),
        ("카가미네 렌"@, 1227, Category::Anniversary),
    ]
}

/// The views of a sequence of stored events.
pub open spec fn pending_views(v: Seq<PendingEvent>) -> Seq<(int, Seq<char>, int)> {
    v.map_values(|e: PendingEvent| e@)
}

/// The views of a sequence of recurring dates.
pub open spec fn recurring_views(v: Seq<RecurringDate>) -> Seq<(Seq<char>, int, Category)> {
    v.map_values(|e: RecurringDate| e@)
}

/// The rows of `rows` that end on `date`, in table order.
pub open spec fn due_pending(rows: Seq<(int, Seq<char>, int)>, date: int) -> Seq<
    (int, Seq<char>, int),
> {
    rows.filter(|e: (int, Seq<char>, int)| e.2 == date)
}

/// The rows of `rows` celebrated on `month_day`, in table order.
pub open spec fn due_recurring(rows: Seq<(Seq<char>, int, Category)>, month_day: int) -> Seq<
    (Seq<char>, int, Category),
> {
    rows.filter(|e: (Seq<char>, int, Category)| e.1 == month_day)
}

/// The catalog of recurring dates, in its fixed order.
pub fn recurring_catalog() -> (r: Vec<RecurringDate>)
    ensures
        recurring_views(r@) == catalog(),
{
    let mut v: Vec<RecurringDate> = Vec::new();
    v.push(RecurringDate { subject_name: String::from_str("히노모리 시호"), date: 108, category: Category::Birthday });
    v.push(RecurringDate { subject_name: String::from_str("아사히나 마후유"), date: 127, category: Category::Birthday });
    v.push(RecurringDate { subject_name: String::from_str("메구리네 루카"), date: 130, category: Category::Anniversary });
    v.push(RecurringDate { subject_name: String::from_str("요이사키 카나데"), date: 210, category: Category::Birthday });
    v.push(RecurringDate { subject_name: String::from_str("KAITO"), date: 217, category: Category::Anniversary });
    v.push(RecurringDate { subject_name: String::from_str("아즈사와 코하네"), date: 302, category: Category::Birthday });
    v.push(RecurringDate { subject_name: String::from_str("모모이 아이리"), date: 319, category: Category::Birthday });
    v.push(RecurringDate { subject_name: String::from_str("하나사토 미노리"), date: 414, category: Category::Birthday });
    v.push(RecurringDate { subject_name: String::from_str("시노노메 에나"), date: 430, category: Category::Birthday });
    v.push(RecurringDate { subject_name: String::from_str("텐마 사키"), date: 509, category: Category::Birthday });
    v.push(RecurringDate { subject_name: String::from_str("텐마 츠카사"), date: 517, category: Category::Birthday });
    v.push(RecurringDate { subject_name: String::from_str("아오야기 토우야"), date: 525, category: Category::Birthday });
    v.push(RecurringDate { subject_name: String::from_str("카미시로 루이"), date: 624, category: Category::Birthday });
    v.push(RecurringDate { subject_name: String::from_str("쿠사나기 네네"), date: 720, category: Category::Birthday });
    v.push(RecurringDate { subject_name: String::from_str("시라이시 안"), date: 726, category: Category::Birthday });
    v.push(RecurringDate { subject_name: String::from_str("호시노 이치카"), date: 811, category: Category::Birthday });
    v.push(RecurringDate { subject_name: String::from_str("아키야마 미즈키"), date: 827, category: Category::Birthday });
    v.push(RecurringDate { subject_name: String::from_str("하츠네 미쿠"), date: 831, category: Category::Anniversary });
    v.push(RecurringDate { subject_name: String::from_str("오오토리 에무"), date: 909, category: Category::Birthday });
    v.push(RecurringDate { subject_name: String::from_str("키리타니 하루카"), date: 1005, category: Category::Birthday });
    v.push(RecurringDate { subject_name: String::from_str("모치즈키 호나미"), date: 1027, category: Category::Birthday });
    v.push(RecurringDate { subject_name: String::from_str("MEIKO"), date: 1105, category: Category::Anniversary });
    v.push(RecurringDate { subject_name: String::from_str("시노노메 아키토"), date: 1112, category: Category::Birthday });
    v.push(RecurringDate { subject_name: String::from_str("히노모리 시즈쿠"), date: 1206, category: Category::Birthday });
    v.push(RecurringDate { subject_name: String::from_str("카가미네 린"), date: 1227, category: Category::Anniversary });
    v.push(RecurringDate { subject_name: String::from_str("카가미네 렌"), date: 1227, category: Category::Anniversary });
    proof {
        assert(recurring_views(v@) =~= catalog());
    }
    v
}

/// A copy of `e`.
pub fn copy_pending(e: &PendingEvent) -> (r: PendingEvent)
    ensures
        r@ == e@,
{
    PendingEvent { id: e.id, name: e.name.clone(), end_date: e.end_date }
}

/// A copy of `e`.
pub fn copy_recurring(e: &RecurringDate) -> (r: RecurringDate)
    ensures
        r@ == e@,
{
    RecurringDate { subject_name: e.subject_name.clone(), date: e.date, category: e.category }
}

/// The events of `rows` that end on `date`, in table order.
pub fn pending_due(rows: &Vec<PendingEvent>, date: u64) -> (r: Vec<PendingEvent>)
    ensures
        pending_views(r@) == due_pending(pending_views(rows@), date as int),
{
    let mut r: Vec<PendingEvent> = Vec::new();
    let mut i: usize = 0;
    while i < rows.len()
        invariant
            i <= rows@.len(),
            pending_views(r@) == due_pending(pending_views(rows@.subrange(0, i as int)), date as int),
        decreases rows.len() - i,
    {
        let ghost prev = r@;
        proof {
            reveal(Seq::filter);
            assert(pending_views(rows@.subrange(0, i + 1)).drop_last() =~= pending_views(
                rows@.subrange(0, i as int),
            ));
        }
        if rows[i].end_date == date {
            r.push(copy_pending(&rows[i]));
            proof {
                assert(pending_views(r@) =~= pending_views(prev).push(rows@[i as int]@));
            }
        }
        i = i + 1;
    }
    proof {
        assert(rows@.subrange(0, rows@.len() as int) =~= rows@);
    }
    r
}

/// The recurring dates of `rows` celebrated on `month_day`, in table order.
pub fn recurring_due(rows: &Vec<RecurringDate>, month_day: u32) -> (r: Vec<RecurringDate>)
    ensures
        recurring_views(r@) == due_recurring(recurring_views(rows@), month_day as int),
{
    let mut r: Vec<RecurringDate> = Vec::new();
    let mut i: usize = 0;
    while i < rows.len()
        invariant
            i <= rows@.len(),
            recurring_views(r@) == due_recurring(
                recurring_views(rows@.subrange(0, i as int)),
                month_day as int,
            ),
        decreases rows.len() - i,
    {
        let ghost prev = r@;
        proof {
            reveal(Seq::filter);
            assert(recurring_views(rows@.subrange(0, i + 1)).drop_last() =~= recurring_views(
                rows@.subrange(0, i as int),
            ));
        }
        if rows[i].date == month_day {
            r.push(copy_recurring(&rows[i]));
            proof {
                assert(recurring_views(r@) =~= recurring_views(prev).push(rows@[i as int]@));
            }
        }
        i = i + 1;
    }
    proof {
        assert(rows@.subrange(0, rows@.len() as int) =~= rows@);
    }
    r
}

/// What a store holds: its pending events, its recurring dates, and the id
/// that the next inserted event receives.
pub struct StoreModel {
    pub pending: Seq<(int, Seq<char>, int)>,
    pub recurring: Seq<(Seq<char>, int, Category)>,
    pub next_id: int,
}

/// The store after initialization: pending events kept, recurring dates
/// replaced by the catalog.
pub open spec fn init_model(s: StoreModel) -> StoreModel {
    StoreModel { recurring: catalog(), ..s }
}

/// The store after appending an event named `name` that ends on `end_date`.
pub open spec fn insert_model(s: StoreModel, name: Seq<char>, end_date: int) -> StoreModel {
    StoreModel {
        pending: s.pending.push((s.next_id, name, end_date)),
        next_id: s.next_id + 1,
        ..s
    }
}

/// A store of pending events and recurring dates.
pub struct EventStore {
    pending: Vec<PendingEvent>,
    recurring: Vec<RecurringDate>,
    next_id: u64,
}

impl View for EventStore {
    type V = StoreModel;

    closed spec fn view(&self) -> StoreModel {
        StoreModel {
            pending: pending_views(self.pending@),
            recurring: recurring_views(self.recurring@),
            next_id: self.next_id as int,
        }
    }
}

impl EventStore {
    /// Every stored event has an id below the next one to be handed out.
    pub open spec fn wf(&self) -> bool {
        forall|i: int| 0 <= i < self@.pending.len() ==> #[trigger] self@.pending[i].0 < self@.next_id
    }

    /// An empty store: no pending events, no recurring dates.
    pub fn new() -> (s: EventStore)
        ensures
            s.wf(),
            s@.pending == Seq::<(int, Seq<char>, int)>::empty(),
            s@.recurring == Seq::<(Seq<char>, int, Category)>::empty(),
            s@.next_id == 1,
    {
        let s = EventStore { pending: Vec::new(), recurring: Vec::new(), next_id: 1 };
        proof {
            assert(s@.pending =~= Seq::<(int, Seq<char>, int)>::empty());
            assert(s@.recurring =~= Seq::<(Seq<char>, int, Category)>::empty());
        }
        s
    }

    /// Keeps the pending events and reseeds the recurring dates with the
    /// catalog, whatever they held before.
    pub fn init(&mut self)
        ensures
            final(self)@ == init_model(old(self)@),
            old(self).wf() ==> final(self).wf(),
    {
        self.recurring = recurring_catalog();
        proof {
            assert(self@.pending == old(self)@.pending);
            assert(self@ =~= init_model(old(self)@));
        }
    }

    /// Appends an event; equal names and dates are never rejected. Returns the
    /// id given to the new event.
    pub fn insert_pending(&mut self, name: String, end_date: u64) -> (id: u64)
        requires
            old(self).wf(),
            old(self)@.next_id < u64::MAX,
        ensures
            final(self).wf(),
            final(self)@ == insert_model(old(self)@, name@, end_date as int),
            id == old(self)@.next_id,
    {
        let id = self.next_id;
        self.pending.push(PendingEvent { id, name, end_date });
        self.next_id = id + 1;
        proof {
            assert(pending_views(self.pending@) =~= old(self)@.pending.push(
                (id as int, name@, end_date as int),
            ));
        }
        id
    }

    /// The stored events that end on `date`.
    pub fn pending_due(&self, date: u64) -> (r: Vec<PendingEvent>)
        ensures
            pending_views(r@) == due_pending(self@.pending, date as int),
    {
        pending_due(&self.pending, date)
    }

    /// The recurring dates celebrated on `month_day`.
    pub fn recurring_due(&self, month_day: u32) -> (r: Vec<RecurringDate>)
        ensures
            recurring_views(r@) == due_recurring(self@.recurring, month_day as int),
    {
        recurring_due(&self.recurring, month_day)
    }
}

/// An event inserted with end date `x` is among the events due on `x`, with
/// that exact id, name and date, and is never among those due on `x + 1`.
pub proof fn lemma_insert_then_due(s: StoreModel, name: Seq<char>, x: int)
    ensures
        due_pending(insert_model(s, name, x).pending, x).contains((s.next_id, name, x)),
        !due_pending(insert_model(s, name, x).pending, x + 1).contains((s.next_id, name, x)),
{
    broadcast use vstd::seq_lib::group_filter_ensures;

    let rows = insert_model(s, name, x).pending;
    let row = (s.next_id, name, x);
    let last = rows.len() - 1;
    assert(rows[last] == row);
    assert(due_pending(rows, x).contains(rows[last]));
    if due_pending(rows, x + 1).contains(row) {
        let k = choose|k: int|
            0 <= k < due_pending(rows, x + 1).len() && #[trigger] due_pending(rows, x + 1)[k] == row;
        assert(due_pending(rows, x + 1)[k].2 == x + 1);
    }
}

/// Initializing a store any number of times leaves exactly the catalog of
/// recurring dates, of fixed size, and the pending events as they were.
pub proof fn lemma_init_idempotent(s: StoreModel)
    ensures
        init_model(init_model(s)) == init_model(s),
        init_model(s).recurring == catalog(),
        catalog().len() == 26,
        init_model(s).pending == s.pending,
{
}

} // verus!
