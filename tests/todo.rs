use grape_planit::clock::CivilTime;
use grape_planit::todo::next_month_time;
use grape_planit::todo::{
    calculate_next_cycle_time, parse_cycle, AddTodoParams, Cycle, Todo, TodoError, TodoStore,
    UpdateTodoParams, COMPLETED, DELETED, PENDING,
};

const NOW: i64 = 1_700_000_000;

fn stamp(s: &str) -> String {
    s.to_string()
}

fn params(title: &str, start: i64, end: Option<i64>, level: i64, cycle: &str) -> AddTodoParams {
    AddTodoParams {
        title: title.to_string(),
        start_time: start,
        end_time: end,
        notes: Some("note".to_string()),
        level,
        cycle: cycle.to_string(),
    }
}

fn no_change(id: i64) -> UpdateTodoParams {
    UpdateTodoParams {
        id,
        title: None,
        start_time: None,
        end_time: None,
        notes: None,
        level: None,
        cycle: None,
        completed: None,
    }
}

fn find(store: &TodoStore, id: i64) -> &Todo {
    store.rows.iter().find(|t| t.id == id).unwrap()
}

#[test]
fn daily_item_rolls_over_once() {
    let t0 = NOW - 86_400 + 3_000;
    let mut store = TodoStore::new();
    let id = store.add_todo(params("standup", t0, Some(t0 + 3600), 1, "day"), &stamp("s0")).unwrap();
    store.process_expired_todos(NOW, &stamp("s1")).unwrap();
    assert_eq!(store.rows.len(), 2);
    let old = find(&store, id);
    assert_eq!(old.status, COMPLETED);
    assert_eq!(old.updated_at, "s1");
    let new = &store.rows[1];
    assert_eq!(new.status, PENDING);
    assert_eq!(new.start_time, t0 + 86_400);
    assert_eq!(new.end_time, Some(t0 + 90_000));
    assert_eq!(new.title, "standup");
    assert_eq!(new.notes.as_deref(), Some("note"));
    assert_eq!(new.level, 1);
    assert_eq!(new.cycle, "day");
    assert_eq!(new.created_at, "s1");
    assert!(new.id > id);
}

#[test]
fn rolling_over_twice_at_once_rolls_once() {
    let t0 = NOW - 100;
    let mut store = TodoStore::new();
    store.add_todo(params("a", t0, None, 0, "week"), &stamp("s0")).unwrap();
    store.process_expired_todos(NOW, &stamp("s1")).unwrap();
    let rows_after_first: Vec<(i64, i64, i64)> =
        store.rows.iter().map(|t| (t.id, t.start_time, t.status)).collect();
    let next_after_first = store.next_id;
    store.process_expired_todos(NOW, &stamp("s2")).unwrap();
    let rows_after_second: Vec<(i64, i64, i64)> =
        store.rows.iter().map(|t| (t.id, t.start_time, t.status)).collect();
    assert_eq!(rows_after_first, rows_after_second);
    assert_eq!(store.next_id, next_after_first);
    assert!(store.rows.iter().all(|t| t.updated_at != "s2"));
}

#[test]
fn overdue_by_many_cycles_catches_up_one_step_per_call() {
    let t0 = NOW - 3 * 86_400 - 10;
    let mut store = TodoStore::new();
    store.add_todo(params("a", t0, None, 0, "day"), &stamp("s0")).unwrap();
    store.process_expired_todos(NOW, &stamp("s1")).unwrap();
    assert_eq!(store.rows.len(), 2);
    store.process_expired_todos(NOW, &stamp("s2")).unwrap();
    assert_eq!(store.rows.len(), 3);
    assert_eq!(store.rows[2].start_time, t0 + 2 * 86_400);
}

#[test]
fn one_off_and_future_items_do_not_roll() {
    let mut store = TodoStore::new();
    store.add_todo(params("once", NOW - 10, None, 0, "one"), &stamp("s0")).unwrap();
    store.add_todo(params("later", NOW + 10, None, 0, "day"), &stamp("s0")).unwrap();
    store.add_todo(params("odd", NOW - 10, None, 0, "fortnight"), &stamp("s0")).unwrap();
    store.process_expired_todos(NOW, &stamp("s1")).unwrap();
    assert_eq!(store.rows.len(), 3);
    assert!(store.rows.iter().all(|t| t.status == PENDING));
}

#[test]
fn rollover_refused_when_ids_run_out() {
    let mut store = TodoStore::new();
    store.next_id = i64::MAX - 1;
    store.add_todo(params("a", NOW - 10, None, 0, "day"), &stamp("s0")).unwrap();
    assert_eq!(store.next_id, i64::MAX);
    let r = store.process_expired_todos(NOW, &stamp("s1"));
    assert_eq!(r, Err(TodoError::IdsExhausted));
    assert_eq!(store.rows.len(), 1);
    assert_eq!(store.rows[0].status, PENDING);
    assert_eq!(
        store.add_todo(params("b", NOW, None, 0, "one"), &stamp("s0")),
        Err(TodoError::IdsExhausted)
    );
}

#[test]
fn soft_delete_keeps_the_row() {
    let mut store = TodoStore::new();
    let a = store.add_todo(params("a", NOW, None, 0, "one"), &stamp("s0")).unwrap();
    let b = store.add_todo(params("b", NOW, None, 0, "one"), &stamp("s0")).unwrap();
    store.delete_todo(a, &stamp("s1"));
    assert_eq!(find(&store, a).status, DELETED);
    assert_eq!(store.rows.len(), 2);
    let all = store.get_all_todos();
    assert_eq!(all.len(), 1);
    assert_eq!(all[0].id, b);
    assert!(store.get_todo_by_id(a).is_none());
    assert_eq!(store.get_todo_by_id(b).unwrap().title, "b");
}

#[test]
fn all_todos_are_newest_first() {
    let mut store = TodoStore::new();
    let a = store.add_todo(params("a", NOW, None, 0, "one"), &stamp("s0")).unwrap();
    let b = store.add_todo(params("b", NOW, None, 0, "one"), &stamp("s0")).unwrap();
    let c = store.add_todo(params("c", NOW, None, 0, "one"), &stamp("s0")).unwrap();
    let ids: Vec<i64> = store.get_all_todos().iter().map(|t| t.id).collect();
    assert_eq!(ids, vec![c, b, a]);
}

#[test]
fn add_refuses_end_before_start() {
    let mut store = TodoStore::new();
    let r = store.add_todo(params("a", NOW, Some(NOW - 1), 0, "one"), &stamp("s0"));
    assert_eq!(r, Err(TodoError::EndBeforeStart));
    assert_eq!(store.rows.len(), 0);
    assert_eq!(store.next_id, 1);
    assert_eq!(store.add_todo(params("a", NOW, Some(NOW), 0, "one"), &stamp("s0")), Ok(1));
    assert_eq!(store.add_todo(params("b", NOW, None, 0, "one"), &stamp("s0")), Ok(2));
}

#[test]
fn update_changes_only_given_fields() {
    let mut store = TodoStore::new();
    let a = store.add_todo(params("a", NOW, Some(NOW + 60), 0, "one"), &stamp("s0")).unwrap();
    let mut p = no_change(a);
    p.title = Some("renamed".to_string());
    p.notes = Some(None);
    p.completed = Some(true);
    store.update_todo(p, &stamp("s1")).unwrap();
    let t = find(&store, a);
    assert_eq!(t.title, "renamed");
    assert_eq!(t.notes, None);
    assert_eq!(t.status, COMPLETED);
    assert_eq!(t.start_time, NOW);
    assert_eq!(t.end_time, Some(NOW + 60));
    assert_eq!(t.created_at, "s0");
    assert_eq!(t.updated_at, "s1");
    let mut q = no_change(a);
    q.end_time = Some(None);
    q.completed = Some(false);
    store.update_todo(q, &stamp("s2")).unwrap();
    let t = find(&store, a);
    assert_eq!(t.end_time, None);
    assert_eq!(t.status, PENDING);
}

#[test]
fn update_errors() {
    let mut store = TodoStore::new();
    let a = store.add_todo(params("a", NOW, None, 0, "one"), &stamp("s0")).unwrap();
    assert_eq!(store.update_todo(no_change(99), &stamp("s1")), Err(TodoError::NotFound));
    let mut p = no_change(a);
    p.end_time = Some(Some(NOW - 5));
    assert_eq!(store.update_todo(p, &stamp("s1")), Err(TodoError::EndBeforeStart));
    assert_eq!(find(&store, a).end_time, None);
    store.delete_todo(a, &stamp("s2"));
    let mut revive = no_change(a);
    revive.completed = Some(false);
    assert_eq!(store.update_todo(revive, &stamp("s3")), Err(TodoError::NotFound));
    assert_eq!(find(&store, a).status, DELETED);
    assert_eq!(TodoError::NotFound.message(), "Todo not found");
}

#[test]
fn recent_list_orders_by_level_then_start() {
    let mut store = TodoStore::new();
    store.add_todo(params("plain", NOW + 100, None, 2, "one"), &stamp("s0")).unwrap();
    store.add_todo(params("urgent-late", NOW + 200, None, 1, "one"), &stamp("s0")).unwrap();
    store.add_todo(params("urgent-early", NOW - 200, None, 1, "one"), &stamp("s0")).unwrap();
    store.add_todo(params("important", NOW + 50, None, 0, "one"), &stamp("s0")).unwrap();
    store.add_todo(params("only-urgent", NOW + 10, None, 3, "one"), &stamp("s0")).unwrap();
    store.add_todo(params("too-far", NOW + 3 * 86_400, None, 1, "one"), &stamp("s0")).unwrap();
    let done = store.add_todo(params("done", NOW, None, 1, "one"), &stamp("s0")).unwrap();
    let mut p = no_change(done);
    p.completed = Some(true);
    store.update_todo(p, &stamp("s1")).unwrap();
    let list = store.get_recent_todos(NOW, 2, &stamp("s2")).unwrap();
    let titles: Vec<&str> = list.iter().map(|t| t.title.as_str()).collect();
    assert_eq!(titles, vec!["urgent-early", "urgent-late", "important", "only-urgent", "plain"]);
}

#[test]
fn recent_list_rolls_over_first() {
    let mut store = TodoStore::new();
    store.add_todo(params("daily", NOW - 60, None, 0, "day"), &stamp("s0")).unwrap();
    let list = store.get_recent_todos(NOW, 2, &stamp("s1")).unwrap();
    assert_eq!(list.len(), 1);
    assert_eq!(list[0].start_time, NOW - 60 + 86_400);
    assert_eq!(store.rows[0].status, COMPLETED);
}

#[test]
fn next_cycle_times() {
    assert_eq!(calculate_next_cycle_time(NOW, Cycle::Day), Some(NOW + 86_400));
    assert_eq!(calculate_next_cycle_time(NOW, Cycle::Week), Some(NOW + 7 * 86_400));
    assert_eq!(calculate_next_cycle_time(NOW, Cycle::Year), Some(NOW + 365 * 86_400));
    assert_eq!(calculate_next_cycle_time(NOW, Cycle::One), None);
    assert_eq!(calculate_next_cycle_time(i64::MAX - 10, Cycle::Day), None);
}

#[test]
fn month_cycle_keeps_the_day_or_clamps_it() {
    // 2023-01-31 -> 2023-02-28
    assert_eq!(calculate_next_cycle_time(1_675_123_200, Cycle::Month), Some(1_677_542_400));
    // 2024-01-31 -> 2024-02-29
    assert_eq!(calculate_next_cycle_time(1_706_659_200, Cycle::Month), Some(1_709_164_800));
    // 2023-12-15 -> 2024-01-15
    assert_eq!(calculate_next_cycle_time(1_702_598_400, Cycle::Month), Some(1_705_276_800));
    // 2023-11-14T22:13:20Z -> 2023-12-14T22:13:20Z
    assert_eq!(calculate_next_cycle_time(NOW, Cycle::Month), Some(NOW + 30 * 86_400));
    // out of the calendar's range
    assert_eq!(calculate_next_cycle_time(i64::MAX, Cycle::Month), None);
}

#[test]
fn cycle_names() {
    assert_eq!(parse_cycle(&"day".to_string()), Some(Cycle::Day));
    assert_eq!(parse_cycle(&"month".to_string()), Some(Cycle::Month));
    assert_eq!(parse_cycle(&"one".to_string()), Some(Cycle::One));
    assert_eq!(parse_cycle(&"Daily".to_string()), None);
}

#[test]
fn month_step_from_a_calendar_position() {
    // 2023-03-31 -> 2023-04-30
    let c = CivilTime { year: 2023, month: 3, day: 31, seconds: 0 };
    assert_eq!(next_month_time(1_680_220_800, c), Some(1_680_220_800 + 30 * 86_400));
    // 2023-02-28 -> 2023-03-28
    let f = CivilTime { year: 2023, month: 2, day: 28, seconds: 0 };
    assert_eq!(next_month_time(1_677_542_400, f), Some(1_677_542_400 + 28 * 86_400));
    // 2100 is not a leap year: 2100-01-30 -> 2100-02-28
    let g = CivilTime { year: 2100, month: 1, day: 30, seconds: 0 };
    assert_eq!(next_month_time(0, g), Some(29 * 86_400));
}
