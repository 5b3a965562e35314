//! To-do items, their recurrence, and the table that holds them.
use crate::clock::{civil_of, utc_civil, CivilTime};
use crate::text::owned;
use vstd::prelude::*;
use vstd::seq_lib::{to_multiset_build, to_multiset_insert};

verus! {

/// Status of a pending item.
pub const PENDING: i64 = 0;

/// Status of a completed (archived) item.
pub const COMPLETED: i64 = 1;

/// Status of a deleted item: a tombstone that stays in the table.
pub const DELETED: i64 = 2;

/// Seconds in a day.
pub const DAY_SECONDS: i64 = 86400;

/// A to-do item. Times are seconds since the Unix epoch.
pub struct Todo {
    pub id: i64,
    pub title: String,
    pub start_time: i64,
    pub end_time: Option<i64>,
    pub notes: Option<String>,
    /// Priority: 0 important, 1 important and urgent, 2 neither, 3 urgent.
    pub level: i64,
    /// `one`, `day`, `week`, `month` or `year`.
    pub cycle: String,
    /// [`PENDING`], [`COMPLETED`] or [`DELETED`].
    pub status: i64,
    pub created_at: String,
    pub updated_at: String,
}

/// The fields of a new item.
pub struct AddTodoParams {
    pub title: String,
    pub start_time: i64,
    pub end_time: Option<i64>,
    pub notes: Option<String>,
    pub level: i64,
    pub cycle: String,
}

/// A partial change of an item: each field that is `Some` is replaced.
/// `end_time` and `notes` may be set to `Some(None)` to clear them.
pub struct UpdateTodoParams {
    pub id: i64,
    pub title: Option<String>,
    pub start_time: Option<i64>,
    pub end_time: Option<Option<i64>>,
    pub notes: Option<Option<String>>,
    pub level: Option<i64>,
    pub cycle: Option<String>,
    pub completed: Option<bool>,
}

/// How often an item recurs.
#[derive(Clone, Copy, Debug, PartialEq, Eq, Structural)]
pub enum Cycle {
    One,
    Day,
    Week,
    Month,
    Year,
}

/// The recurrence that a cycle text names, if it names one.
pub open spec fn cycle_of(s: Seq<char>) -> Option<Cycle> {
    if s == "one"@ {
        Some(Cycle::One)
    } else if s == "day"@ {
        Some(Cycle::Day)
    } else if s == "week"@ {
        Some(Cycle::Week)
    } else if s == "month"@ {
        Some(Cycle::Month)
    } else if s == "year"@ {
        Some(Cycle::Year)
    } else {
        None
    }
}

/// Reads a cycle text.
pub fn parse_cycle(s: &String) -> (r: Option<Cycle>)
    ensures
        r == cycle_of(s@),
{
    if *s == owned("one") {
        Some(Cycle::One)
    } else if *s == owned("day") {
        Some(Cycle::Day)
    } else if *s == owned("week") {
        Some(Cycle::Week)
    } else if *s == owned("month") {
        Some(Cycle::Month)
    } else if *s == owned("year") {
        Some(Cycle::Year)
    } else {
        None
    }
}

pub open spec fn is_leap_year(y: int) -> bool {
    (y % 4 == 0 && y % 100 != 0) || y % 400 == 0
}

/// Days in month `m` (1 to 12) of year `y` in the Gregorian calendar.
pub open spec fn days_in_month(y: int, m: int) -> int {
    if m == 2 {
        if is_leap_year(y) {
            29
        } else {
            28
        }
    } else if m == 4 || m == 6 || m == 9 || m == 11 {
        30
    } else {
        31
    }
}

/// Days from a date to the same day of the next month, where a day that
/// the next month lacks becomes that month's last day.
pub open spec fn month_step_days(c: CivilTime) -> int {
    let (ny, nm) = if c.month == 12 {
        (c.year + 1, 1int)
    } else {
        (c.year as int, c.month + 1)
    };
    let d = if c.day <= days_in_month(ny, nm) {
        c.day as int
    } else {
        days_in_month(ny, nm)
    };
    days_in_month(c.year as int, c.month as int) - c.day + d
}

pub open spec fn fits_i64(v: int) -> bool {
    i64::MIN <= v <= i64::MAX
}

/// `t` moved on by a number of days, if the result is an `i64`.
pub open spec fn advance(t: i64, days: int) -> Option<i64> {
    let v = t + days * DAY_SECONDS;
    if fits_i64(v) {
        Some(v as i64)
    } else {
        None
    }
}

/// The next occurrence of a start time: one day, seven days, the same day
/// of the next month (the last day where that month is shorter), or 365
/// days later. A one-off item has none.
pub open spec fn next_start(t: i64, cycle: Cycle) -> Option<i64> {
    match cycle {
        Cycle::One => None,
        Cycle::Day => advance(t, 1),
        Cycle::Week => advance(t, 7),
        Cycle::Month => match civil_of(t) {
            Some(c) => advance(t, month_step_days(c)),
            None => None,
        },
        Cycle::Year => advance(t, 365),
    }
}

#[verifier::rlimit(40)]
fn is_leap_year_exec(y: i64) -> (r: bool)
    ensures
        r == is_leap_year(y as int),
{
    (y % 4 == 0 && y % 100 != 0) || y % 400 == 0
}

fn days_in_month_exec(y: i64, m: i64) -> (r: i64)
    ensures
        r == days_in_month(y as int, m as int),
{
    if m == 2 {
        if is_leap_year_exec(y) {
            29
        } else {
            28
        }
    } else if m == 4 || m == 6 || m == 9 || m == 11 {
        30
    } else {
        31
    }
}

fn advance_exec(t: i64, days: i64) -> (r: Option<i64>)
    requires
        -0x1_0000_0000_0000 <= days <= 0x1_0000_0000_0000,
    ensures
        r == advance(t, days as int),
{
    let v: i128 = t as i128 + days as i128 * 86400;
    if v < i64::MIN as i128 || v > i64::MAX as i128 {
        None
    } else {
        Some(v as i64)
    }
}

/// The next occurrence of `current_time` under `cycle`; `None` where there
/// is none or it does not fit an `i64`.
pub fn calculate_next_cycle_time(current_time: i64, cycle: Cycle) -> (r: Option<i64>)
    ensures
        r == next_start(current_time, cycle),
{
    match cycle {
        Cycle::One => None,
        Cycle::Day => advance_exec(current_time, 1),
        Cycle::Week => advance_exec(current_time, 7),
        Cycle::Year => advance_exec(current_time, 365),
        Cycle::Month => match utc_civil(current_time) {
            Some(c) => next_month_time(current_time, c),
            None => None,
        },
    }
}

/// `current_time`, whose UTC calendar position is `c`, moved on to the
/// same day of the next month, or that month's last day where it is
/// shorter; `None` where the result does not fit an `i64`.
pub fn next_month_time(current_time: i64, c: CivilTime) -> (r: Option<i64>)
    ensures
        r == advance(current_time, month_step_days(c)),
{
    let y = c.year as i64;
    let m = c.month as i64;
    let (ny, nm) = if m == 12 {
        (y + 1, 1i64)
    } else {
        (y, m + 1)
    };
    let next_len = days_in_month_exec(ny, nm);
    let d: i64 = if (c.day as i64) <= next_len {
        c.day as i64
    } else {
        next_len
    };
    let step = days_in_month_exec(y, m) - c.day as i64 + d;
    advance_exec(current_time, step)
}

fn copy_text(s: &Option<String>) -> (r: Option<String>)
    ensures
        r == *s,
{
    match s {
        Some(t) => Some(t.clone()),
        None => None,
    }
}

impl Todo {
    /// A field-by-field copy.
    pub fn duplicate(&self) -> (r: Todo)
        ensures
            r == *self,
    {
        Todo {
            id: self.id,
            title: self.title.clone(),
            start_time: self.start_time,
            end_time: self.end_time,
            notes: copy_text(&self.notes),
            level: self.level,
            cycle: self.cycle.clone(),
            status: self.status,
            created_at: self.created_at.clone(),
            updated_at: self.updated_at.clone(),
        }
    }
}

/// Start and end of the occurrence that follows `t`: the end keeps its
/// distance from the start. `None` where `t` does not recur or the new
/// times do not fit an `i64`.
pub open spec fn successor_times(t: Todo) -> Option<(i64, Option<i64>)> {
    match cycle_of(t.cycle@) {
        Some(c) => match next_start(t.start_time, c) {
            Some(ns) => match t.end_time {
                None => Some((ns, None)),
                Some(e) => {
                    let ne = ns + (e - t.start_time);
                    if fits_i64(ne) {
                        Some((ns, Some(ne as i64)))
                    } else {
                        None
                    }
                },
            },
            None => None,
        },
        None => None,
    }
}

/// Start time of the occurrence that follows `t`, where there is one.
pub open spec fn successor_start(t: Todo) -> i64 {
    match successor_times(t) {
        Some((ns, _)) => ns,
        None => t.start_time,
    }
}

/// Whether `t` is rolled over at `now`: pending, due, and recurring.
pub open spec fn rolls(t: Todo, now: i64) -> bool {
    t.status == PENDING && t.start_time < now && successor_times(t) is Some
}

/// `t` archived as completed.
pub open spec fn archived(t: Todo, stamp: String) -> Todo {
    Todo { status: COMPLETED, updated_at: stamp, ..t }
}

/// `t` archived where it rolls over at `now`, unchanged otherwise.
pub open spec fn archived_if_rolls(t: Todo, now: i64, stamp: String) -> Todo {
    if rolls(t, now) {
        archived(t, stamp)
    } else {
        t
    }
}

/// The pending occurrence that follows `t`, under identity `id`.
pub open spec fn successor(t: Todo, id: int, stamp: String) -> Todo {
    let (ns, ne) = successor_times(t)->0;
    Todo {
        id: id as i64,
        start_time: ns,
        end_time: ne,
        status: PENDING,
        created_at: stamp,
        updated_at: stamp,
        ..t
    }
}

/// The rows that roll over at `now`, in table order.
pub open spec fn due_rows(rows: Seq<Todo>, now: i64) -> Seq<Todo>
    decreases rows.len(),
{
    if rows.len() == 0 {
        Seq::empty()
    } else {
        let rest = due_rows(rows.drop_last(), now);
        if rolls(rows.last(), now) {
            rest.push(rows.last())
        } else {
            rest
        }
    }
}

/// The successors of `due`, numbered from `first_id` on.
pub open spec fn spawned(due: Seq<Todo>, first_id: int, stamp: String) -> Seq<Todo> {
    Seq::new(due.len(), |k: int| successor(due[k], first_id + k, stamp))
}

/// The rows after a rollover at `now`: each rolling row archived in place,
/// then one successor of each appended.
pub open spec fn rolled_rows(rows: Seq<Todo>, now: i64, next_id: int, stamp: String) -> Seq<Todo> {
    Seq::new(rows.len(), |i: int| archived_if_rolls(rows[i], now, stamp)) + spawned(
        due_rows(rows, now),
        next_id,
        stamp,
    )
}

fn successor_times_exec(t: &Todo) -> (r: Option<(i64, Option<i64>)>)
    ensures
        r == successor_times(*t),
{
    match parse_cycle(&t.cycle) {
        Some(c) => match calculate_next_cycle_time(t.start_time, c) {
            Some(ns) => match t.end_time {
                None => Some((ns, None)),
                Some(e) => {
                    let ne: i128 = ns as i128 + (e as i128 - t.start_time as i128);
                    if ne < i64::MIN as i128 || ne > i64::MAX as i128 {
                        None
                    } else {
                        Some((ns, Some(ne as i64)))
                    }
                },
            },
            None => None,
        },
        None => None,
    }
}

/// Why a change of the table was refused.
#[derive(Clone, Copy, Debug, PartialEq, Eq, Structural)]
pub enum TodoError {
    /// No item that is not deleted has the identity.
    NotFound,
    /// The end time comes before the start time.
    EndBeforeStart,
    /// No identity is left for a new item.
    IdsExhausted,
}

impl TodoError {
    pub fn message(&self) -> (r: String)
        ensures
            *self is NotFound ==> r@ == "Todo not found"@,
            *self is EndBeforeStart ==> r@ == "end time is before start time"@,
            *self is IdsExhausted ==> r@ == "no todo id left"@,
    {
        match self {
            TodoError::NotFound => owned("Todo not found"),
            TodoError::EndBeforeStart => owned("end time is before start time"),
            TodoError::IdsExhausted => owned("no todo id left"),
        }
    }
}

/// Whether an optional end time is at or after the start.
pub open spec fn in_order(start: i64, end: Option<i64>) -> bool {
    match end {
        Some(e) => start <= e,
        None => true,
    }
}

/// The row that [`TodoStore::add_todo`] appends.
pub open spec fn new_row(p: AddTodoParams, id: i64, stamp: String) -> Todo {
    Todo {
        id,
        title: p.title,
        start_time: p.start_time,
        end_time: p.end_time,
        notes: p.notes,
        level: p.level,
        cycle: p.cycle,
        status: PENDING,
        created_at: stamp,
        updated_at: stamp,
    }
}

/// Whether `t` carries identity `id` and is not deleted.
pub open spec fn live(t: Todo, id: i64) -> bool {
    t.id == id && t.status != DELETED
}

/// The first row, in table order, that carries `id` and is not deleted.
pub open spec fn first_live(rows: Seq<Todo>, id: i64) -> Option<Todo>
    decreases rows.len(),
{
    if rows.len() == 0 {
        None
    } else if live(rows[0], id) {
        Some(rows[0])
    } else {
        first_live(rows.drop_first(), id)
    }
}

/// `t` with the fields that `p` sets replaced and `updated_at` set to `stamp`.
pub open spec fn merged(t: Todo, p: UpdateTodoParams, stamp: String) -> Todo {
    Todo {
        id: t.id,
        title: match p.title {
            Some(x) => x,
            None => t.title,
        },
        start_time: match p.start_time {
            Some(x) => x,
            None => t.start_time,
        },
        end_time: match p.end_time {
            Some(x) => x,
            None => t.end_time,
        },
        notes: match p.notes {
            Some(x) => x,
            None => t.notes,
        },
        level: match p.level {
            Some(x) => x,
            None => t.level,
        },
        cycle: match p.cycle {
            Some(x) => x,
            None => t.cycle,
        },
        status: match p.completed {
            Some(b) => if b {
                COMPLETED
            } else {
                PENDING
            },
            None => t.status,
        },
        created_at: t.created_at,
        updated_at: stamp,
    }
}

/// The rows after an update: every live row with the identity becomes `m`.
pub open spec fn updated_rows(rows: Seq<Todo>, id: i64, m: Todo) -> Seq<Todo> {
    Seq::new(rows.len(), |q: int| if live(rows[q], id) { m } else { rows[q] })
}

/// `t` marked deleted.
pub open spec fn tombstone(t: Todo, stamp: String) -> Todo {
    Todo { status: DELETED, updated_at: stamp, ..t }
}

/// The rows after a soft delete: every row with the identity is marked
/// deleted and stays in place.
pub open spec fn deleted_rows(rows: Seq<Todo>, id: i64, stamp: String) -> Seq<Todo> {
    Seq::new(rows.len(), |q: int| if rows[q].id == id { tombstone(rows[q], stamp) } else { rows[q] })
}

/// The rows that are not deleted, newest first.
pub open spec fn visible(rows: Seq<Todo>) -> Seq<Todo>
    decreases rows.len(),
{
    if rows.len() == 0 {
        Seq::empty()
    } else {
        let rest = visible(rows.drop_first());
        if rows[0].status != DELETED {
            rest.push(rows[0])
        } else {
            rest
        }
    }
}

/// Sort rank of a priority level: important and urgent first, then
/// important, then urgent, then the rest; an unknown level before all.
pub open spec fn level_rank(level: i64) -> int {
    if level == 1 {
        1
    } else if level == 0 {
        2
    } else if level == 3 {
        3
    } else if level == 2 {
        4
    } else {
        0
    }
}

/// Order of the recent list: by level rank, then by start time.
pub open spec fn listed_before(a: Todo, b: Todo) -> bool {
    level_rank(a.level) < level_rank(b.level) || (level_rank(a.level) == level_rank(b.level)
        && a.start_time <= b.start_time)
}

pub open spec fn sorted_for_listing(s: Seq<Todo>) -> bool {
    forall|i: int, j: int| 0 <= i < j < s.len() ==> listed_before(#[trigger] s[i], #[trigger] s[j])
}

/// Whether `t` is pending and starts within `days` days before or after `now`.
pub open spec fn recent(t: Todo, now: i64, days: i64) -> bool {
    t.status == PENDING && now - days * DAY_SECONDS <= t.start_time <= now + days * DAY_SECONDS
}

/// The recent rows, in table order.
pub open spec fn recent_rows(rows: Seq<Todo>, now: i64, days: i64) -> Seq<Todo>
    decreases rows.len(),
{
    if rows.len() == 0 {
        Seq::empty()
    } else {
        let rest = recent_rows(rows.drop_last(), now, days);
        if recent(rows.last(), now, days) {
            rest.push(rows.last())
        } else {
            rest
        }
    }
}

/// The table of to-do items, in insertion order, and the identity that the
/// next new item receives.
pub struct TodoStore {
    pub rows: Vec<Todo>,
    pub next_id: i64,
}

impl TodoStore {
    /// An empty table whose first item gets identity 1.
    pub fn new() -> (r: TodoStore)
        ensures
            r.rows@.len() == 0,
            r.next_id == 1,
    {
        TodoStore { rows: Vec::new(), next_id: 1 }
    }

    /// Rolls every pending recurring item whose start time is before `now`
    /// over by one cycle: the item is archived as completed and a pending
    /// successor is appended, with the same title, notes, level and cycle,
    /// the next start time, an end time at the same distance, and fresh
    /// timestamps `stamp`. Fails, changing nothing, where too few
    /// identities are left.
    pub fn process_expired_todos(&mut self, now: i64, stamp: &String) -> (r: Result<(), TodoError>)
        ensures
            r is Ok <==> old(self).next_id + due_rows(old(self).rows@, now).len() <= i64::MAX,
            r is Ok ==> final(self).rows@ == rolled_rows(old(self).rows@, now, old(self).next_id as int, *stamp)
                && final(self).next_id == old(self).next_id + due_rows(old(self).rows@, now).len(),
            r is Err ==> r == Err::<(), TodoError>(TodoError::IdsExhausted) && *final(self) == *old(self),
    {
        let n = self.rows.len();
        let ghost rows0 = self.rows@;
        let ghost id0 = self.next_id;
        let mut fresh: Vec<Todo> = Vec::new();
        let mut i: usize = 0;
        while i < n
            invariant
                n == rows0.len(),
                self.rows@ == rows0,
                self.next_id == id0,
                i <= n,
                fresh@ == spawned(due_rows(rows0.take(i as int), now), self.next_id as int, *stamp),
                self.next_id + fresh@.len() <= i64::MAX,
            decreases n - i,
        {
            proof {
                assert(rows0.take(i + 1).drop_last() == rows0.take(i as int));
            }
            let row = &self.rows[i];
            if row.status == PENDING && row.start_time < now {
                match successor_times_exec(row) {
                    Some((ns, ne)) => {
                        let k = fresh.len();
                        if self.next_id as i128 + k as i128 + 1 > i64::MAX as i128 {
                            proof {
                                lemma_due_rows_prefix_len(rows0, now, i as int + 1);
                            }
                            return Err(TodoError::IdsExhausted);
                        }
                        let t = Todo {
                            id: (self.next_id as i128 + k as i128) as i64,
                            title: row.title.clone(),
                            start_time: ns,
                            end_time: ne,
                            notes: copy_text(&row.notes),
                            level: row.level,
                            cycle: row.cycle.clone(),
                            status: PENDING,
                            created_at: stamp.clone(),
                            updated_at: stamp.clone(),
                        };
                        fresh.push(t);
                        proof {
                            let due = due_rows(rows0.take(i + 1), now);
                            assert(due == due_rows(rows0.take(i as int), now).push(rows0[i as int]));
                            assert(t == successor(rows0[i as int], self.next_id + k, *stamp));
                            assert(fresh@ =~= spawned(due, self.next_id as int, *stamp));
                        }
                    },
                    None => {},
                }
            }
            i = i + 1;
        }
        assert(rows0.take(n as int) == rows0);
        let ghost archived_rows = Seq::new(
            rows0.len(),
            |q: int| archived_if_rolls(rows0[q], now, *stamp),
        );
        let mut j: usize = 0;
        while j < n
            invariant
                n == rows0.len(),
                archived_rows == Seq::new(
                    rows0.len(),
                    |q: int| archived_if_rolls(rows0[q], now, *stamp),
                ),
                j <= n,
                self.next_id == id0,
                self.rows@.len() == n,
                forall|q: int| 0 <= q < j ==> self.rows@[q] == archived_rows[q],
                forall|q: int| j <= q < n ==> self.rows@[q] == rows0[q],
                fresh@ == spawned(due_rows(rows0, now), self.next_id as int, *stamp),
                self.next_id + fresh@.len() <= i64::MAX,
            decreases n - j,
        {
            let row = &self.rows[j];
            let ghost old_row = rows0[j as int];
            let due = row.status == PENDING && row.start_time < now && successor_times_exec(
                row,
            ).is_some();
            assert(due == rolls(old_row, now));
            assert(archived_rows[j as int] == archived_if_rolls(old_row, now, *stamp));
            if due {
                let mut t = row.duplicate();
                t.status = COMPLETED;
                t.updated_at = stamp.clone();
                self.rows.set(j, t);
            }
            assert(self.rows@[j as int] == archived_rows[j as int]);
            j = j + 1;
        }
        assert(self.rows@ =~= archived_rows);
        let count = fresh.len();
        self.rows.append(&mut fresh);
        assert(self.rows@ == rolled_rows(rows0, now, id0 as int, *stamp));
        self.next_id = (self.next_id as i128 + count as i128) as i64;
        Ok(())
    }

    /// Appends a pending item with the next identity and returns that
    /// identity. Refused, changing nothing, where the end time comes before
    /// the start time or no identity is left.
    pub fn add_todo(&mut self, params: AddTodoParams, stamp: &String) -> (r: Result<i64, TodoError>)
        ensures
            !in_order(params.start_time, params.end_time) ==> r == Err::<i64, TodoError>(
                TodoError::EndBeforeStart,
            ),
            in_order(params.start_time, params.end_time) && old(self).next_id == i64::MAX ==> r
                == Err::<i64, TodoError>(TodoError::IdsExhausted),
            r is Err ==> *final(self) == *old(self),
            in_order(params.start_time, params.end_time) && old(self).next_id < i64::MAX ==> {
                &&& r == Ok::<i64, TodoError>(old(self).next_id)
                &&& final(self).rows@ == old(self).rows@.push(
                    new_row(params, old(self).next_id, *stamp),
                )
                &&& final(self).next_id == old(self).next_id + 1
            },
    {
        if let Some(e) = params.end_time {
            if e < params.start_time {
                return Err(TodoError::EndBeforeStart);
            }
        }
        if self.next_id == i64::MAX {
            return Err(TodoError::IdsExhausted);
        }
        let id = self.next_id;
        let row = Todo {
            id,
            title: params.title,
            start_time: params.start_time,
            end_time: params.end_time,
            notes: params.notes,
            level: params.level,
            cycle: params.cycle,
            status: PENDING,
            created_at: stamp.clone(),
            updated_at: stamp.clone(),
        };
        self.rows.push(row);
        self.next_id = id + 1;
        Ok(id)
    }

    /// Index of the first row that carries `id` and is not deleted.
    fn find_live(&self, id: i64) -> (r: Option<usize>)
        ensures
            r is None <==> first_live(self.rows@, id) is None,
            r matches Some(i) ==> i < self.rows@.len() && first_live(self.rows@, id) == Some(
                self.rows@[i as int],
            ),
    {
        let n = self.rows.len();
        let mut i: usize = 0;
        assert(self.rows@.subrange(0, n as int) == self.rows@);
        while i < n
            invariant
                n == self.rows@.len(),
                i <= n,
                first_live(self.rows@, id) == first_live(self.rows@.subrange(i as int, n as int), id),
            decreases n - i,
        {
            assert(self.rows@.subrange(i as int, n as int).drop_first() == self.rows@.subrange(
                i + 1,
                n as int,
            ));
            let row = &self.rows[i];
            if row.id == id && row.status != DELETED {
                return Some(i);
            }
            i = i + 1;
        }
        None
    }

    /// Every item, pending or completed, that is not deleted, newest first.
    pub fn get_all_todos(&self) -> (r: Vec<Todo>)
        ensures
            r@ == visible(self.rows@),
    {
        let n = self.rows.len();
        let mut out: Vec<Todo> = Vec::new();
        let mut i: usize = n;
        while i > 0
            invariant
                n == self.rows@.len(),
                i <= n,
                out@ == visible(self.rows@.subrange(i as int, n as int)),
            decreases i,
        {
            i = i - 1;
            assert(self.rows@.subrange(i as int, n as int).drop_first() == self.rows@.subrange(
                i + 1,
                n as int,
            ));
            let row = &self.rows[i];
            if row.status != DELETED {
                out.push(row.duplicate());
            }
        }
        assert(self.rows@.subrange(0, n as int) == self.rows@);
        out
    }

    /// The first item with identity `id` that is not deleted.
    pub fn get_todo_by_id(&self, id: i64) -> (r: Option<Todo>)
        ensures
            r == first_live(self.rows@, id),
    {
        match self.find_live(id) {
            Some(i) => Some(self.rows[i].duplicate()),
            None => None,
        }
    }

    /// Applies `params` to the item with its identity: the first row that
    /// carries it and is not deleted is changed as `params` says, and every
    /// such row takes the result. Refused, changing nothing, where no such
    /// row exists or the result ends before it starts. A deleted item stays
    /// deleted.
    pub fn update_todo(&mut self, params: UpdateTodoParams, stamp: &String) -> (r: Result<(), TodoError>)
        ensures
            first_live(old(self).rows@, params.id) is None ==> r == Err::<(), TodoError>(
                TodoError::NotFound,
            ),
            first_live(old(self).rows@, params.id) matches Some(t) ==> {
                let m = merged(t, params, *stamp);
                &&& !in_order(m.start_time, m.end_time) ==> r == Err::<(), TodoError>(
                    TodoError::EndBeforeStart,
                )
                &&& in_order(m.start_time, m.end_time) ==> r == Ok::<(), TodoError>(())
                    && final(self).rows@ == updated_rows(old(self).rows@, params.id, m)
            },
            r is Err ==> *final(self) == *old(self),
            final(self).next_id == old(self).next_id,
    {
        let id = params.id;
        let found = match self.find_live(id) {
            Some(i) => i,
            None => {
                return Err(TodoError::NotFound);
            },
        };
        let ghost p = params;
        let mut m = self.rows[found].duplicate();
        if let Some(x) = params.title {
            m.title = x;
        }
        if let Some(x) = params.start_time {
            m.start_time = x;
        }
        if let Some(x) = params.end_time {
            m.end_time = x;
        }
        if let Some(x) = params.notes {
            m.notes = x;
        }
        if let Some(x) = params.level {
            m.level = x;
        }
        if let Some(x) = params.cycle {
            m.cycle = x;
        }
        if let Some(b) = params.completed {
            m.status = if b {
                COMPLETED
            } else {
                PENDING
            };
        }
        m.updated_at = stamp.clone();
        assert(m == merged(self.rows@[found as int], p, *stamp));
        if let Some(e) = m.end_time {
            if e < m.start_time {
                return Err(TodoError::EndBeforeStart);
            }
        }
        let n = self.rows.len();
        let ghost rows0 = self.rows@;
        let mut i: usize = 0;
        while i < n
            invariant
                n == rows0.len(),
                i <= n,
                self.rows@.len() == n,
                self.next_id == old(self).next_id,
                forall|q: int| 0 <= q < i ==> self.rows@[q] == (if live(rows0[q], id) { m } else { rows0[q] }),
                forall|q: int| i <= q < n ==> self.rows@[q] == rows0[q],
            decreases n - i,
        {
            if self.rows[i].id == id && self.rows[i].status != DELETED {
                self.rows.set(i, m.duplicate());
            }
            i = i + 1;
        }
        assert(self.rows@ =~= updated_rows(rows0, id, m));
        Ok(())
    }

    /// The recent list: pending items starting within `days` days before or
    /// after `now`, by level rank and then start time.
    pub fn list_recent(&self, now: i64, days: i64) -> (r: Vec<Todo>)
        ensures
            r@.to_multiset() == recent_rows(self.rows@, now, days).to_multiset(),
            sorted_for_listing(r@),
    {
        let n = self.rows.len();
        let lo: i128 = now as i128 - days as i128 * 86400;
        let hi: i128 = now as i128 + days as i128 * 86400;
        let mut out: Vec<Todo> = Vec::new();
        let mut i: usize = 0;
        while i < n
            invariant
                n == self.rows@.len(),
                i <= n,
                lo == now - days * DAY_SECONDS,
                hi == now + days * DAY_SECONDS,
                out@.to_multiset() == recent_rows(self.rows@.take(i as int), now, days).to_multiset(),
                sorted_for_listing(out@),
            decreases n - i,
        {
            proof {
                assert(self.rows@.take(i + 1).drop_last() == self.rows@.take(i as int));
            }
            let row = &self.rows[i];
            let start = row.start_time as i128;
            if row.status == PENDING && lo <= start && start <= hi {
                let t = row.duplicate();
                let rank = level_rank_exec(t.level);
                let mut p: usize = 0;
                while p < out.len() && (level_rank_exec(out[p].level) < rank || (level_rank_exec(
                    out[p].level,
                ) == rank && out[p].start_time <= t.start_time))
                    invariant
                        p <= out@.len(),
                        rank == level_rank(t.level),
                        forall|q: int| 0 <= q < p ==> listed_before(#[trigger] out@[q], t),
                    decreases out@.len() - p,
                {
                    p = p + 1;
                }
                let ghost before = out@;
                proof {
                    before.insert_ensures(p as int, t);
                }
                out.insert(p, t);
                proof {
                    assert forall|a: int, b: int| 0 <= a < b < out@.len() implies listed_before(
                        #[trigger] out@[a],
                        #[trigger] out@[b],
                    ) by {
                        if b == p {
                            assert(listed_before(before[a], t));
                        } else if a == p {
                            assert(listed_before(before[p as int], before[b - 1]));
                        } else if a < p && b > p {
                            assert(listed_before(before[a], t));
                            assert(listed_before(before[p as int], before[b - 1]));
                        } else if a > p {
                            assert(listed_before(before[a - 1], before[b - 1]));
                        } else {
                            assert(listed_before(before[a], before[b]));
                        }
                    }
                    assert(out@ == before.insert(p as int, t));
                    to_multiset_insert(before, p as int, t);
                    let prefix = recent_rows(self.rows@.take(i as int), now, days);
                    assert(recent_rows(self.rows@.take(i + 1), now, days) == prefix.push(t));
                    to_multiset_build(prefix, t);
                }
            }
            i = i + 1;
        }
        assert(self.rows@.take(n as int) == self.rows@);
        out
    }

    /// Rolls recurring items over at `now` (see
    /// [`TodoStore::process_expired_todos`]), then lists the recent ones
    /// (see [`TodoStore::list_recent`]).
    pub fn get_recent_todos(&mut self, now: i64, days: i64, stamp: &String) -> (r: Result<
        Vec<Todo>,
        TodoError,
    >)
        ensures
            r is Ok <==> old(self).next_id + due_rows(old(self).rows@, now).len() <= i64::MAX,
            r is Ok ==> final(self).rows@ == rolled_rows(old(self).rows@, now, old(self).next_id as int, *stamp)
                && final(self).next_id == old(self).next_id + due_rows(old(self).rows@, now).len(),
            r is Err ==> r == Err::<Vec<Todo>, TodoError>(TodoError::IdsExhausted) && *final(self)
                == *old(self),
            r matches Ok(v) ==> v@.to_multiset() == recent_rows(final(self).rows@, now, days).to_multiset()
                && sorted_for_listing(v@),
    {
        match self.process_expired_todos(now, stamp) {
            Ok(()) => Ok(self.list_recent(now, days)),
            Err(e) => Err(e),
        }
    }

    /// Soft delete: every row with identity `id` is marked deleted and
    /// stamped, and stays in the table.
    pub fn delete_todo(&mut self, id: i64, stamp: &String)
        ensures
            final(self).rows@ == deleted_rows(old(self).rows@, id, *stamp),
            final(self).next_id == old(self).next_id,
    {
        let n = self.rows.len();
        let ghost rows0 = self.rows@;
        let mut i: usize = 0;
        while i < n
            invariant
                n == rows0.len(),
                i <= n,
                self.rows@.len() == n,
                self.next_id == old(self).next_id,
                rows0 == old(self).rows@,
                forall|q: int|
                    0 <= q < i ==> self.rows@[q] == (if rows0[q].id == id {
                        tombstone(rows0[q], *stamp)
                    } else {
                        rows0[q]
                    }),
                forall|q: int| i <= q < n ==> self.rows@[q] == rows0[q],
            decreases n - i,
        {
            if self.rows[i].id == id {
                let mut t = self.rows[i].duplicate();
                t.status = DELETED;
                t.updated_at = stamp.clone();
                self.rows.set(i, t);
            }
            i = i + 1;
        }
        assert(self.rows@ =~= deleted_rows(rows0, id, *stamp));
    }
}

/// The due rows of a prefix are no more than the due rows of the whole.
proof fn lemma_due_rows_prefix_len(rows: Seq<Todo>, now: i64, k: int)
    requires
        0 <= k <= rows.len(),
    ensures
        due_rows(rows.take(k), now).len() <= due_rows(rows, now).len(),
    decreases rows.len() - k,
{
    if k < rows.len() {
        lemma_due_rows_prefix_len(rows, now, k + 1);
        assert(rows.take(k + 1).drop_last() == rows.take(k));
    } else {
        assert(rows.take(k) == rows);
    }
}


proof fn lemma_due_rows_roll(rows: Seq<Todo>, now: i64)
    ensures
        forall|k: int|
            0 <= k < due_rows(rows, now).len() ==> rolls(#[trigger] due_rows(rows, now)[k], now),
    decreases rows.len(),
{
    if rows.len() > 0 {
        lemma_due_rows_roll(rows.drop_last(), now);
        let rest = due_rows(rows.drop_last(), now);
        assert forall|k: int|
            0 <= k < due_rows(rows, now).len() implies rolls(
            #[trigger] due_rows(rows, now)[k],
            now,
        ) by {
            if k < rest.len() {
                assert(due_rows(rows, now)[k] == rest[k]);
            }
        }
    }
}

proof fn lemma_no_due_rows(rows: Seq<Todo>, now: i64)
    requires
        forall|i: int| 0 <= i < rows.len() ==> !rolls(#[trigger] rows[i], now),
    ensures
        due_rows(rows, now) == Seq::<Todo>::empty(),
    decreases rows.len(),
{
    if rows.len() > 0 {
        assert(!rolls(rows[rows.len() - 1], now));
        lemma_no_due_rows(rows.drop_last(), now);
    }
}

/// Rolling over twice at the same moment rolls over once: the second pass
/// finds nothing due and changes nothing, provided that every successor the
/// first pass appends starts at or after that moment.
pub proof fn lemma_rollover_idempotent(
    rows: Seq<Todo>,
    now: i64,
    next_id: int,
    stamp: String,
    later_stamp: String,
)
    requires
        forall|k: int|
            0 <= k < due_rows(rows, now).len() ==> #[trigger] successor_start(due_rows(rows, now)[k])
                >= now,
    ensures
        due_rows(rolled_rows(rows, now, next_id, stamp), now).len() == 0,
        rolled_rows(
            rolled_rows(rows, now, next_id, stamp),
            now,
            next_id + due_rows(rows, now).len(),
            later_stamp,
        ) == rolled_rows(rows, now, next_id, stamp),
{
    let once = rolled_rows(rows, now, next_id, stamp);
    let due = due_rows(rows, now);
    lemma_due_rows_roll(rows, now);
    assert forall|i: int| 0 <= i < once.len() implies !rolls(#[trigger] once[i], now) by {
        if i < rows.len() {
            assert(once[i] == archived_if_rolls(rows[i], now, stamp));
        } else {
            let k = i - rows.len();
            assert(once[i] == successor(due[k], next_id + k, stamp));
            assert(successor_start(due[k]) >= now);
        }
    }
    lemma_no_due_rows(once, now);
    let twice = rolled_rows(once, now, next_id + due.len(), later_stamp);
    assert(twice =~= once);
}


fn level_rank_exec(level: i64) -> (r: i64)
    ensures
        r == level_rank(level),
{
    if level == 1 {
        1
    } else if level == 0 {
        2
    } else if level == 3 {
        3
    } else if level == 2 {
        4
    } else {
        0
    }
}

proof fn lemma_visible_members(rows: Seq<Todo>)
    ensures
        forall|k: int|
            0 <= k < visible(rows).len() ==> (#[trigger] visible(rows)[k]).status != DELETED
                && rows.contains(visible(rows)[k]),
    decreases rows.len(),
{
    if rows.len() > 0 {
        let rest = rows.drop_first();
        lemma_visible_members(rest);
        assert forall|k: int| 0 <= k < visible(rows).len() implies (#[trigger] visible(
            rows,
        )[k]).status != DELETED && rows.contains(visible(rows)[k]) by {
            if k < visible(rest).len() {
                assert(visible(rows)[k] == visible(rest)[k]);
                let j = choose|j: int| 0 <= j < rest.len() && rest[j] == visible(rest)[k];
                assert(rows[j + 1] == rest[j]);
            } else {
                assert(visible(rows)[k] == rows[0]);
            }
        }
    }
}

/// Soft delete keeps the rows: after deleting `id`, the table has as many
/// rows as before, each row that carried `id` still does and is marked
/// deleted, and the list of all items shows none of them.
pub proof fn lemma_soft_delete(rows: Seq<Todo>, id: i64, stamp: String)
    ensures
        deleted_rows(rows, id, stamp).len() == rows.len(),
        forall|i: int|
            0 <= i < rows.len() && rows[i].id == id ==> (#[trigger] deleted_rows(rows, id, stamp)[i]).id
                == id && deleted_rows(rows, id, stamp)[i].status == DELETED,
        forall|k: int|
            0 <= k < visible(deleted_rows(rows, id, stamp)).len() ==> (#[trigger] visible(
                deleted_rows(rows, id, stamp),
            )[k]).id != id,
{
    let d = deleted_rows(rows, id, stamp);
    lemma_visible_members(d);
    assert forall|k: int| 0 <= k < visible(d).len() implies (#[trigger] visible(d)[k]).id != id by {
        let v = visible(d)[k];
        let i = choose|i: int| 0 <= i < d.len() && d[i] == v;
        assert(d[i] == (if rows[i].id == id { tombstone(rows[i], stamp) } else { rows[i] }));
    }
}

} // verus!
