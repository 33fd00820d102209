//! The command interpreter: its mode state machine, the registry of tasks it
//! owns, the command vocabulary, and the mode-checked dispatch of every
//! select-scoped operation.

use vstd::prelude::*;
use crate::text::{first_token_spec, second_token_spec, first_token, second_token, trim, trim_spec};
use crate::todo::{Todo, Status, Priority, UpdateReport, priority_of_token, priority_from_token,
    same_but_status, update_applies};
use crate::utils::{all_digits, digits_of, digits_value, str_to_id, str_to_u32};

verus! {

/// The interpreter's interaction mode: either at the global prompt, or
/// addressing one task of the registry by its index.
#[derive(Debug, Clone, Copy, PartialEq, Eq, Structural)]
pub enum Mode {
    Global,
    Selected(usize),
}

/// The command a line's first token names. The match is case-sensitive and
/// exact; a blank line asks for help; anything else is unknown and non-fatal.
#[derive(Debug, Clone, Copy, PartialEq, Eq, Structural)]
pub enum CommandKind {
    Create,
    List,
    Select,
    Show,
    Start,
    Update,
    Complete,
    Delete,
    Back,
    Help,
    Exit,
    Unknown,
}

/// The command named by a first token.
pub open spec fn command_kind_of(t: Seq<char>) -> CommandKind {
    if t.len() == 0 {
        CommandKind::Help
    } else if t == "create"@ {
        CommandKind::Create
    } else if t == "list"@ {
        CommandKind::List
    } else if t == "select"@ {
        CommandKind::Select
    } else if t == "show"@ {
        CommandKind::Show
    } else if t == "start"@ {
        CommandKind::Start
    } else if t == "update"@ {
        CommandKind::Update
    } else if t == "complete"@ {
        CommandKind::Complete
    } else if t == "delete"@ {
        CommandKind::Delete
    } else if t == "back"@ {
        CommandKind::Back
    } else if t == "help"@ {
        CommandKind::Help
    } else if t == "exit"@ {
        CommandKind::Exit
    } else {
        CommandKind::Unknown
    }
}

/// Maps a command token to the command it names.
pub fn command_kind(token: &str) -> (k: CommandKind)
    ensures
        k == command_kind_of(token@),
{
    let t: String = token.to_owned();
    if t.as_str().is_empty() {
        CommandKind::Help
    } else if t == "create".to_owned() {
        CommandKind::Create
    } else if t == "list".to_owned() {
        CommandKind::List
    } else if t == "select".to_owned() {
        CommandKind::Select
    } else if t == "show".to_owned() {
        CommandKind::Show
    } else if t == "start".to_owned() {
        CommandKind::Start
    } else if t == "update".to_owned() {
        CommandKind::Update
    } else if t == "complete".to_owned() {
        CommandKind::Complete
    } else if t == "delete".to_owned() {
        CommandKind::Delete
    } else if t == "back".to_owned() {
        CommandKind::Back
    } else if t == "help".to_owned() {
        CommandKind::Help
    } else if t == "exit".to_owned() {
        CommandKind::Exit
    } else {
        CommandKind::Unknown
    }
}

/// A parsed input line: the command its first token names, and the raw
/// second token (empty when the line has no second token).
pub struct ParsedLine {
    pub kind: CommandKind,
    pub argument: String,
}

/// Splits an input line on whitespace and classifies its first token.
pub fn parse_line(line: &str) -> (p: ParsedLine)
    ensures
        p.kind == command_kind_of(first_token_spec(line@)),
        p.argument@ == second_token_spec(line@),
{
    let tok = first_token(line);
    let kind = command_kind(tok.as_str());
    let argument = second_token(line);
    ParsedLine { kind, argument }
}

/// What a select-scoped status transition came to.
#[derive(Debug, Clone, Copy, PartialEq, Eq, Structural)]
pub enum CompleteOutcome {
    /// The interpreter was not in select mode; nothing changed.
    NotSelected,
    /// The addressed task had not been started; nothing changed.
    NotStarted,
    /// The addressed task was in progress and is now completed.
    Completed,
}

/// What an update command came to.
#[derive(Debug, Clone, Copy, PartialEq, Eq, Structural)]
pub enum UpdateOutcome {
    /// The interpreter was not in select mode; nothing changed.
    NotSelected,
    /// The priority token was non-blank but outside the vocabulary; nothing
    /// changed.
    InvalidPriority,
    /// The due-date token was non-blank but not a valid number; nothing
    /// changed.
    InvalidDueDate,
    /// The update was applied; the report says which fields changed.
    Updated(UpdateReport),
}

/// The priority an update's priority token resolves to: a blank token keeps
/// the current priority, a non-blank one must be in the vocabulary.
pub open spec fn priority_input(tok: Seq<char>, current: Priority) -> Option<Priority> {
    if trim_spec(tok).len() == 0 {
        Some(current)
    } else {
        priority_of_token(trim_spec(tok))
    }
}

/// The due date an update's due-date token resolves to: a blank token maps
/// to zero (meaning "no change"), a non-blank one must be a number that fits
/// (one optional leading `+` sign, then decimal digits).
pub open spec fn due_date_input(tok: Seq<char>) -> Option<u32> {
    let t = trim_spec(tok);
    if t.len() == 0 {
        Some(0u32)
    } else if digits_of(t).len() > 0 && all_digits(digits_of(t))
        && digits_value(digits_of(t)) <= u32::MAX {
        Some(digits_value(digits_of(t)) as u32)
    } else {
        None
    }
}

/// Resolves an update's priority token against the current priority.
pub fn resolve_priority(token: &str, current: Priority) -> (r: Option<Priority>)
    ensures
        r == priority_input(token@, current),
{
    let t = trim(token);
    if t.as_str().is_empty() {
        Some(current)
    } else {
        priority_from_token(t.as_str())
    }
}

/// Resolves an update's due-date token.
pub fn resolve_due_date(token: &str) -> (r: Option<u32>)
    ensures
        r == due_date_input(token@),
{
    let t = trim(token);
    if t.as_str().is_empty() {
        Some(0)
    } else {
        match str_to_u32(t.as_str()) {
            Ok(v) => Some(v),
            Err(_) => None,
        }
    }
}

/// `new_s` is `old_s` with at most the entry at `i` changed.
pub open spec fn registry_unchanged_except(old_s: Seq<Todo>, new_s: Seq<Todo>, i: int) -> bool {
    &&& new_s.len() == old_s.len()
    &&& forall|j: int| 0 <= j < old_s.len() && j != i ==> new_s[j] == old_s[j]
}

/// One interactive session: the registry of tasks and the interpreter's
/// mode. The interpreter is the sole mutator of both.
pub struct Session {
    pub todos: Vec<Todo>,
    pub mode: Mode,
}

impl Session {
    /// A selection always addresses a live registry index, and every stored
    /// task holds its own invariant.
    pub open spec fn wf(self) -> bool {
        &&& match self.mode {
            Mode::Global => true,
            Mode::Selected(i) => i < self.todos@.len(),
        }
        &&& forall|j: int| 0 <= j < self.todos@.len() ==> (#[trigger] self.todos@[j]).wf()
    }

    /// A fresh session: empty registry, global mode.
    pub fn new() -> (s: Session)
        ensures
            s.wf(),
            s.todos@.len() == 0,
            s.mode == Mode::Global,
    {
        Session { todos: Vec::new(), mode: Mode::Global }
    }

    /// How many tasks the registry holds.
    pub fn len(&self) -> (n: usize)
        ensures
            n == self.todos@.len(),
    {
        self.todos.len()
    }

    /// Bounds-checked read of the task at `idx`.
    pub fn get(&self, idx: usize) -> (r: Option<&Todo>)
        ensures
            match r {
                Some(t) => idx < self.todos@.len() && *t == self.todos@[idx as int],
                None => idx >= self.todos@.len(),
            },
    {
        if idx < self.todos.len() {
            Some(&self.todos[idx])
        } else {
            None
        }
    }

    /// The selected index, when the interpreter is in select mode.
    pub fn selected_index(&self) -> (r: Option<usize>)
        ensures
            match self.mode {
                Mode::Global => r == None::<usize>,
                Mode::Selected(i) => r == Some(i),
            },
    {
        match self.mode {
            Mode::Global => None,
            Mode::Selected(i) => Some(i),
        }
    }

    /// Appends a new task built from the given fields and returns its index
    /// (the registry length before the append). The mode is untouched.
    pub fn create_task(
        &mut self,
        title: String,
        description: String,
        priority: Priority,
        due_date: u32,
    ) -> (idx: usize)
        requires
            old(self).wf(),
        ensures
            final(self).wf(),
            idx == old(self).todos@.len(),
            final(self).todos@.len() == old(self).todos@.len() + 1,
            final(self).todos@.drop_last() == old(self).todos@,
            final(self).todos@.last().title@ == trim_spec(title@),
            final(self).todos@.last().description@ == trim_spec(description@),
            final(self).todos@.last().status == Status::NotStarted,
            final(self).todos@.last().priority == priority,
            final(self).todos@.last().due_date == due_date,
            final(self).mode == old(self).mode,
    {
        let idx: usize = self.todos.len();
        let t = Todo::new(title, description, priority, due_date);
        self.todos.push(t);
        proof {
            assert(self.todos@.drop_last() =~= old(self).todos@);
        }
        idx
    }

    /// Selects the task at `idx`, if there is one; an out-of-range index
    /// changes nothing, the current mode included.
    pub fn select(&mut self, idx: usize) -> (ok: bool)
        requires
            old(self).wf(),
        ensures
            final(self).wf(),
            final(self).todos == old(self).todos,
            ok == (idx < old(self).todos@.len()),
            final(self).mode == if idx < old(self).todos@.len() {
                Mode::Selected(idx)
            } else {
                old(self).mode
            },
    {
        if idx < self.todos.len() {
            self.mode = Mode::Selected(idx);
            true
        } else {
            false
        }
    }

    /// Selects by a raw id token: the token must parse as a decimal index
    /// within range, else nothing changes (a parse failure and an
    /// out-of-range index alike are a single "not found" outcome).
    pub fn select_token(&mut self, token: &str) -> (ok: bool)
        requires
            old(self).wf(),
        ensures
            final(self).wf(),
            final(self).todos == old(self).todos,
            ok == (digits_of(token@).len() > 0 && all_digits(digits_of(token@))
                && digits_value(digits_of(token@)) < old(self).todos@.len()),
            final(self).mode == if ok {
                Mode::Selected(digits_value(digits_of(token@)) as usize)
            } else {
                old(self).mode
            },
    {
        // bounds the registry length by usize::MAX, so an overflowing token
        // is known to be out of range
        let _n: usize = self.todos.len();
        match str_to_id(token) {
            Ok(idx) => self.select(idx),
            Err(_) => false,
        }
    }

    /// Returns to the global prompt, whatever the current mode.
    pub fn back(&mut self)
        requires
            old(self).wf(),
        ensures
            final(self).wf(),
            final(self).todos == old(self).todos,
            final(self).mode == Mode::Global,
    {
        self.mode = Mode::Global;
    }

    /// Starts the selected task; outside select mode nothing changes and the
    /// call reports failure.
    pub fn start_selected(&mut self) -> (ok: bool)
        requires
            old(self).wf(),
        ensures
            final(self).wf(),
            final(self).mode == old(self).mode,
            ok == (old(self).mode != Mode::Global),
            match old(self).mode {
                Mode::Global => final(self).todos == old(self).todos,
                Mode::Selected(i) => {
                    &&& registry_unchanged_except(old(self).todos@, final(self).todos@, i as int)
                    &&& final(self).todos@[i as int].status == Status::InProgress
                    &&& same_but_status(old(self).todos@[i as int], final(self).todos@[i as int])
                },
            },
    {
        let m = self.mode;
        match m {
            Mode::Global => false,
            Mode::Selected(i) => {
                let mut t = self.todos.remove(i);
                t.start();
                self.todos.insert(i, t);
                proof {
                    assert(self.todos@ =~= old(self).todos@.update(i as int, self.todos@[i as int]));
                }
                true
            },
        }
    }

    /// Completes the selected task, but only from `InProgress`; the outcome
    /// says whether the mode, the task's status, or nothing stood in the way.
    pub fn complete_selected(&mut self) -> (r: CompleteOutcome)
        requires
            old(self).wf(),
        ensures
            final(self).wf(),
            final(self).mode == old(self).mode,
            match old(self).mode {
                Mode::Global => r == CompleteOutcome::NotSelected
                    && final(self).todos == old(self).todos,
                Mode::Selected(i) => {
                    &&& registry_unchanged_except(old(self).todos@, final(self).todos@, i as int)
                    &&& same_but_status(old(self).todos@[i as int], final(self).todos@[i as int])
                    &&& r == if old(self).todos@[i as int].status == Status::InProgress {
                        CompleteOutcome::Completed
                    } else {
                        CompleteOutcome::NotStarted
                    }
                    &&& final(self).todos@[i as int].status
                        == if old(self).todos@[i as int].status == Status::InProgress {
                        Status::Completed
                    } else {
                        old(self).todos@[i as int].status
                    }
                },
            },
    {
        let m = self.mode;
        match m {
            Mode::Global => CompleteOutcome::NotSelected,
            Mode::Selected(i) => {
                let mut t = self.todos.remove(i);
                let completed = t.complete();
                self.todos.insert(i, t);
                proof {
                    assert(self.todos@ =~= old(self).todos@.update(i as int, self.todos@[i as int]));
                }
                if completed {
                    CompleteOutcome::Completed
                } else {
                    CompleteOutcome::NotStarted
                }
            },
        }
    }

    /// Updates the selected task from the raw prompt inputs. Both validating
    /// tokens are checked before anything is written: a bad priority or
    /// due-date token aborts the command with nothing changed.
    pub fn update_selected(
        &mut self,
        title: String,
        description: String,
        priority_token: &str,
        due_date_token: &str,
    ) -> (r: UpdateOutcome)
        requires
            old(self).wf(),
        ensures
            final(self).wf(),
            final(self).mode == old(self).mode,
            match old(self).mode {
                Mode::Global => r == UpdateOutcome::NotSelected
                    && final(self).todos == old(self).todos,
                Mode::Selected(i) => match priority_input(
                    priority_token@,
                    old(self).todos@[i as int].priority,
                ) {
                    None => r == UpdateOutcome::InvalidPriority
                        && final(self).todos == old(self).todos,
                    Some(p) => match due_date_input(due_date_token@) {
                        None => r == UpdateOutcome::InvalidDueDate
                            && final(self).todos == old(self).todos,
                        Some(d) => {
                            &&& registry_unchanged_except(
                                old(self).todos@,
                                final(self).todos@,
                                i as int,
                            )
                            &&& update_applies(
                                old(self).todos@[i as int],
                                final(self).todos@[i as int],
                                title@,
                                description@,
                                p,
                                d,
                            )
                            &&& r == UpdateOutcome::Updated(UpdateReport {
                                title_updated: trim_spec(title@).len() > 0,
                                description_updated: trim_spec(description@).len() > 0,
                                due_date_updated: d > 0,
                            })
                        },
                    },
                },
            },
    {
        let m = self.mode;
        match m {
            Mode::Global => UpdateOutcome::NotSelected,
            Mode::Selected(i) => {
                let current = &self.todos[i];
                let priority = match resolve_priority(priority_token, current.priority) {
                    Some(p) => p,
                    None => {
                        return UpdateOutcome::InvalidPriority;
                    },
                };
                let due_date = match resolve_due_date(due_date_token) {
                    Some(d) => d,
                    None => {
                        return UpdateOutcome::InvalidDueDate;
                    },
                };
                let mut t = self.todos.remove(i);
                let report = t.update(title, description, priority, due_date);
                self.todos.insert(i, t);
                proof {
                    assert(self.todos@ =~= old(self).todos@.update(i as int, self.todos@[i as int]));
                }
                UpdateOutcome::Updated(report)
            },
        }
    }

    /// Deletes the selected task and returns to the global prompt; every
    /// task after the deleted one moves down one index. Outside select mode
    /// nothing changes.
    pub fn delete_selected(&mut self) -> (r: Option<usize>)
        requires
            old(self).wf(),
        ensures
            final(self).wf(),
            match old(self).mode {
                Mode::Global => r == None::<usize>
                    && final(self).todos == old(self).todos
                    && final(self).mode == Mode::Global,
                Mode::Selected(i) => {
                    &&& r == Some(i)
                    &&& final(self).mode == Mode::Global
                    &&& final(self).todos@ == old(self).todos@.remove(i as int)
                    &&& forall|j: int|
                        i < j < old(self).todos@.len()
                            ==> final(self).todos@[j - 1] == old(self).todos@[j]
                    &&& forall|j: int|
                        0 <= j < i ==> final(self).todos@[j] == old(self).todos@[j]
                },
            },
    {
        let m = self.mode;
        match m {
            Mode::Global => None,
            Mode::Selected(i) => {
                self.todos.remove(i);
                self.mode = Mode::Global;
                Some(i)
            },
        }
    }
}

} // verus!
