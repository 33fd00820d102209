//! The task entity: its fields, its status transitions, and the closed
//! priority vocabulary that maps user tokens to priority levels.

use vstd::prelude::*;
use crate::text::{trim, trim_spec, is_trimmed, lemma_trim_yields_trimmed};

verus! {

/// Progress state of a task. Completion must be preceded by an explicit
/// start; re-starting a completed task is permitted.
#[derive(Debug, Clone, Copy, PartialEq, Eq, Structural)]
pub enum Status {
    NotStarted,
    InProgress,
    Completed,
}

/// Priority level of a task.
#[derive(Debug, Clone, Copy, PartialEq, Eq, Structural)]
pub enum Priority {
    High,
    Medium,
    Low,
}

/// One unit of work. Textual fields are never stored with surrounding
/// whitespace; a due date is considered set only when it is greater than
/// zero.
#[derive(Debug)]
pub struct Todo {
    pub title: String,
    pub description: String,
    pub status: Status,
    pub priority: Priority,
    pub due_date: u32,
}

/// Which fields an update overwrote; a field left unchanged earns a
/// "not updated" notice at the prompt.
#[derive(Debug, Clone, Copy, PartialEq, Eq, Structural)]
pub struct UpdateReport {
    pub title_updated: bool,
    pub description_updated: bool,
    pub due_date_updated: bool,
}

/// The priority level a token names: `P1`, `P2`, `P3` (either letter case)
/// name High, Medium, Low; every other token names nothing.
pub open spec fn priority_of_token(s: Seq<char>) -> Option<Priority> {
    if s.len() == 2 && (s[0] == 'P' || s[0] == 'p') {
        if s[1] == '1' {
            Some(Priority::High)
        } else if s[1] == '2' {
            Some(Priority::Medium)
        } else if s[1] == '3' {
            Some(Priority::Low)
        } else {
            None
        }
    } else {
        None
    }
}

/// Looks an already-trimmed priority token up in the closed vocabulary.
pub fn priority_from_token(token: &str) -> (r: Option<Priority>)
    ensures
        r == priority_of_token(token@),
{
    let n: usize = token.unicode_len();
    if n == 2 {
        let c0 = token.get_char(0);
        let c1 = token.get_char(1);
        if c0 == 'P' || c0 == 'p' {
            if c1 == '1' {
                Some(Priority::High)
            } else if c1 == '2' {
                Some(Priority::Medium)
            } else if c1 == '3' {
                Some(Priority::Low)
            } else {
                None
            }
        } else {
            None
        }
    } else {
        None
    }
}

/// The whole priority vocabulary, spelled out: each of the six accepted
/// token spellings maps to its level.
pub proof fn lemma_priority_vocabulary()
    ensures
        priority_of_token("P1"@) == Some(Priority::High),
        priority_of_token("p1"@) == Some(Priority::High),
        priority_of_token("P2"@) == Some(Priority::Medium),
        priority_of_token("p2"@) == Some(Priority::Medium),
        priority_of_token("P3"@) == Some(Priority::Low),
        priority_of_token("p3"@) == Some(Priority::Low),
{
    reveal_strlit("P1");
    reveal_strlit("p1");
    reveal_strlit("P2");
    reveal_strlit("p2");
    reveal_strlit("P3");
    reveal_strlit("p3");
}

/// `b` differs from `a` at most in its status.
pub open spec fn same_but_status(a: Todo, b: Todo) -> bool {
    &&& b.title == a.title
    &&& b.description == a.description
    &&& b.priority == a.priority
    &&& b.due_date == a.due_date
}

/// `after` is `before` with an update of the given inputs applied:
/// a blank title or description keeps the stored one, a non-blank one
/// overwrites it (trimmed); the priority is always overwritten; a zero due
/// date keeps the stored one.
pub open spec fn update_applies(
    before: Todo,
    after: Todo,
    title: Seq<char>,
    description: Seq<char>,
    priority: Priority,
    due_date: u32,
) -> bool {
    &&& after.title@ == if trim_spec(title).len() > 0 {
        trim_spec(title)
    } else {
        before.title@
    }
    &&& after.description@ == if trim_spec(description).len() > 0 {
        trim_spec(description)
    } else {
        before.description@
    }
    &&& after.priority == priority
    &&& after.due_date == if due_date > 0 {
        due_date
    } else {
        before.due_date
    }
    &&& after.status == before.status
}

impl Todo {
    /// The entity's invariant: textual fields are never stored with
    /// surrounding whitespace.
    pub open spec fn wf(self) -> bool {
        is_trimmed(self.title@) && is_trimmed(self.description@)
    }

    /// Creates a task with the given fields, trimmed, not yet started.
    pub fn new(title: String, description: String, priority: Priority, due_date: u32) -> (t: Todo)
        ensures
            t.wf(),
            t.title@ == trim_spec(title@),
            t.description@ == trim_spec(description@),
            t.status == Status::NotStarted,
            t.priority == priority,
            t.due_date == due_date,
    {
        proof {
            lemma_trim_yields_trimmed(title@);
            lemma_trim_yields_trimmed(description@);
        }
        Todo {
            title: trim(title.as_str()),
            description: trim(description.as_str()),
            status: Status::NotStarted,
            priority,
            due_date,
        }
    }

    /// Puts the task in progress, whatever its prior status.
    pub fn start(&mut self)
        ensures
            final(self).status == Status::InProgress,
            same_but_status(*old(self), *final(self)),
    {
        self.status = Status::InProgress;
    }

    /// Marks the task completed, but only from `InProgress`; from any other
    /// status nothing changes and the call reports failure.
    pub fn complete(&mut self) -> (completed: bool)
        ensures
            completed == (old(self).status == Status::InProgress),
            final(self).status == if old(self).status == Status::InProgress {
                Status::Completed
            } else {
                old(self).status
            },
            same_but_status(*old(self), *final(self)),
    {
        if self.status == Status::InProgress {
            self.status = Status::Completed;
            true
        } else {
            false
        }
    }

    /// Overwrites the task's fields from the given inputs, field by field:
    /// blank text keeps the stored text, a zero due date keeps the stored
    /// date, the priority is always taken. Reports which fields changed.
    pub fn update(
        &mut self,
        title: String,
        description: String,
        priority: Priority,
        due_date: u32,
    ) -> (report: UpdateReport)
        ensures
            update_applies(*old(self), *final(self), title@, description@, priority, due_date),
            old(self).wf() ==> final(self).wf(),
            report.title_updated == (trim_spec(title@).len() > 0),
            report.description_updated == (trim_spec(description@).len() > 0),
            report.due_date_updated == (due_date > 0),
    {
        proof {
            lemma_trim_yields_trimmed(title@);
            lemma_trim_yields_trimmed(description@);
        }
        let new_title = trim(title.as_str());
        let title_updated = !new_title.as_str().is_empty();
        if title_updated {
            self.title = new_title;
        }

        let new_description = trim(description.as_str());
        let description_updated = !new_description.as_str().is_empty();
        if description_updated {
            self.description = new_description;
        }

        self.priority = priority;

        let due_date_updated = due_date > 0;
        if due_date_updated {
            self.due_date = due_date;
        }

        UpdateReport { title_updated, description_updated, due_date_updated }
    }
}

} // verus!
