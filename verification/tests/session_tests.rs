use todors::session::{CompleteOutcome, Mode, Session, UpdateOutcome, resolve_due_date,
    resolve_priority};
use todors::todo::{Priority, Status};

#[test]
fn new_session_is_empty_and_global() {
    let s = Session::new();
    assert_eq!(s.len(), 0);
    assert_eq!(s.mode, Mode::Global);
    assert_eq!(s.selected_index(), None);
}

#[test]
fn create_appends_and_returns_the_index() {
    let mut s = Session::new();
    let i0 = s.create_task("a".to_string(), "".to_string(), Priority::High, 1);
    let i1 = s.create_task("b".to_string(), "".to_string(), Priority::Low, 2);
    assert_eq!(i0, 0);
    assert_eq!(i1, 1);
    assert_eq!(s.len(), 2);
    assert_eq!(s.get(0).unwrap().title, "a");
    assert_eq!(s.get(1).unwrap().title, "b");
    assert_eq!(s.get(2).map(|t| t.title.clone()), None);
    assert_eq!(s.mode, Mode::Global);
}

#[test]
fn select_on_empty_registry_reports_not_found() {
    // `select 5` with nothing to select: the mode stays Global.
    let mut s = Session::new();
    assert!(!s.select_token("5"));
    assert_eq!(s.mode, Mode::Global);
}

#[test]
fn select_token_rejects_non_numeric_and_out_of_range() {
    let mut s = Session::new();
    s.create_task("a".to_string(), "".to_string(), Priority::High, 1);
    assert!(!s.select_token("one"));
    assert_eq!(s.mode, Mode::Global);
    assert!(!s.select_token("1"));
    assert_eq!(s.mode, Mode::Global);
    assert!(s.select_token("0"));
    assert_eq!(s.mode, Mode::Selected(0));
    // a signed index is still a valid index
    assert!(s.select_token("+0"));
    assert_eq!(s.mode, Mode::Selected(0));
    // a failed selection leaves the previous selection in place
    assert!(!s.select_token("7"));
    assert_eq!(s.mode, Mode::Selected(0));
}

#[test]
fn start_then_complete_then_refuse_unstarted() {
    // Task A (High, due 100), Task B (Medium, due 200); A is started and
    // completed; completing B without a start is refused.
    let mut s = Session::new();
    s.create_task("Task A".to_string(), "".to_string(), Priority::High, 100);
    s.create_task("Task B".to_string(), "".to_string(), Priority::Medium, 200);
    assert!(s.select_token("0"));
    assert!(s.start_selected());
    assert_eq!(s.complete_selected(), CompleteOutcome::Completed);
    assert_eq!(s.get(0).unwrap().status, Status::Completed);
    assert!(s.select_token("1"));
    assert_eq!(s.complete_selected(), CompleteOutcome::NotStarted);
    assert_eq!(s.get(1).unwrap().status, Status::NotStarted);
}

#[test]
fn scoped_commands_refuse_global_mode() {
    let mut s = Session::new();
    s.create_task("a".to_string(), "".to_string(), Priority::High, 1);
    assert!(!s.start_selected());
    assert_eq!(s.complete_selected(), CompleteOutcome::NotSelected);
    assert_eq!(s.delete_selected(), None);
    let r = s.update_selected("x".to_string(), "y".to_string(), "P1", "5");
    assert!(matches!(r, UpdateOutcome::NotSelected));
    assert_eq!(s.get(0).unwrap().title, "a");
    assert_eq!(s.get(0).unwrap().status, Status::NotStarted);
}

#[test]
fn delete_shifts_later_tasks_down_and_resets_mode() {
    let mut s = Session::new();
    s.create_task("first".to_string(), "".to_string(), Priority::High, 1);
    s.create_task("second".to_string(), "".to_string(), Priority::Medium, 2);
    s.create_task("third".to_string(), "".to_string(), Priority::Low, 3);
    assert!(s.select_token("1"));
    assert_eq!(s.delete_selected(), Some(1));
    assert_eq!(s.mode, Mode::Global);
    assert_eq!(s.len(), 2);
    assert_eq!(s.get(0).unwrap().title, "first");
    // the task previously at index 2 is now addressable at index 1
    assert_eq!(s.get(1).unwrap().title, "third");
}

#[test]
fn back_returns_to_global_unconditionally() {
    let mut s = Session::new();
    s.create_task("a".to_string(), "".to_string(), Priority::High, 1);
    assert!(s.select_token("0"));
    s.back();
    assert_eq!(s.mode, Mode::Global);
    s.back();
    assert_eq!(s.mode, Mode::Global);
}

#[test]
fn update_command_applies_field_policies() {
    let mut s = Session::new();
    s.create_task("old".to_string(), "desc".to_string(), Priority::High, 10);
    assert!(s.select_token("0"));
    let r = s.update_selected("  new  ".to_string(), "".to_string(), " p3 ", "25");
    match r {
        UpdateOutcome::Updated(report) => {
            assert!(report.title_updated);
            assert!(!report.description_updated);
            assert!(report.due_date_updated);
        }
        _ => panic!("update should have been applied"),
    }
    let t = s.get(0).unwrap();
    assert_eq!(t.title, "new");
    assert_eq!(t.description, "desc");
    assert_eq!(t.priority, Priority::Low);
    assert_eq!(t.due_date, 25);
}

#[test]
fn update_command_blank_tokens_mean_no_change() {
    let mut s = Session::new();
    s.create_task("t".to_string(), "d".to_string(), Priority::Medium, 40);
    assert!(s.select_token("0"));
    let r = s.update_selected("".to_string(), "".to_string(), "", "");
    assert!(matches!(r, UpdateOutcome::Updated(_)));
    let t = s.get(0).unwrap();
    assert_eq!(t.title, "t");
    assert_eq!(t.description, "d");
    assert_eq!(t.priority, Priority::Medium);
    assert_eq!(t.due_date, 40);
}

#[test]
fn update_command_rejects_bad_tokens_without_mutation() {
    let mut s = Session::new();
    s.create_task("t".to_string(), "d".to_string(), Priority::Medium, 40);
    assert!(s.select_token("0"));
    let r = s.update_selected("x".to_string(), "y".to_string(), "P9", "5");
    assert_eq!(r, UpdateOutcome::InvalidPriority);
    assert_eq!(s.get(0).unwrap().title, "t");
    let r = s.update_selected("x".to_string(), "y".to_string(), "P1", "soon");
    assert_eq!(r, UpdateOutcome::InvalidDueDate);
    assert_eq!(s.get(0).unwrap().title, "t");
    assert_eq!(s.get(0).unwrap().priority, Priority::Medium);
    assert_eq!(s.get(0).unwrap().due_date, 40);
}

#[test]
fn resolve_helpers_follow_the_blank_policies() {
    assert_eq!(resolve_priority("", Priority::Low), Some(Priority::Low));
    assert_eq!(resolve_priority("  ", Priority::High), Some(Priority::High));
    assert_eq!(resolve_priority("p1", Priority::Low), Some(Priority::High));
    assert_eq!(resolve_priority("bogus", Priority::Low), None);
    assert_eq!(resolve_due_date(""), Some(0));
    assert_eq!(resolve_due_date(" 120 "), Some(120));
    assert_eq!(resolve_due_date("+5"), Some(5));
    assert_eq!(resolve_due_date("later"), None);
}

#[test]
fn reselect_after_delete_addresses_the_shifted_task() {
    let mut s = Session::new();
    s.create_task("a".to_string(), "".to_string(), Priority::High, 1);
    s.create_task("b".to_string(), "".to_string(), Priority::Low, 2);
    assert!(s.select_token("0"));
    assert_eq!(s.delete_selected(), Some(0));
    assert!(s.select_token("0"));
    assert_eq!(s.get(0).unwrap().title, "b");
    assert!(!s.select_token("1"));
}
