use vstd::prelude::*;

use chrono::TimeZone;

use crate::domain::scope::lowercase_of;
use crate::domain::{NewTask, Scope, TaskId, Timestamp};
use crate::generator::{next_counter, Generator};
use crate::tabular::TableRow;
use crate::text::dec_rep;

verus! {

/// The cell key under which a task row yields its identifier.
pub const TASK_CELL_ID: usize = 0;

/// The cell key for the description.
pub const TASK_CELL_DESCRIPTION: usize = 1;

/// The cell key for the scope tag.
pub const TASK_CELL_SCOPE: usize = 2;

/// The cell key for the creation time.
pub const TASK_CELL_CREATED_AT: usize = 3;

/// The cell key for the completion marker.
pub const TASK_CELL_COMPLETED: usize = 4;

/// One stored task.
#[derive(Debug)]
pub struct Task {
    pub id: TaskId,
    pub description: String,
    pub completed_at: Option<Timestamp>,
    pub created_at: Timestamp,
    pub scope: Option<Scope>,
}

/// Relies on chrono's `NaiveDate::from_ymd_opt`, `NaiveDate::and_hms_opt`
/// and `Local::from_local_datetime`: a `Some` hands the fields back
/// unchanged; `None` comes when they are no valid calendar time, or when
/// the machine's local time zone gives them no single mapping.
#[verifier::external_body]
fn try_parse_datetime(date: &Timestamp) -> (r: Option<Timestamp>)
    ensures
        r matches Some(t) ==> t == *date,
{
    let day = chrono::NaiveDate::from_ymd_opt(date.year as i32, date.month as u32, date.day as u32);
    let naive = match day {
        Some(d) => d.and_hms_opt(date.hour as u32, date.minute as u32, date.second as u32),
        None => None,
    };
    let resolved = match naive {
        Some(n) => chrono::Local.from_local_datetime(&n),
        None => chrono::LocalResult::None,
    };
    match resolved {
        chrono::LocalResult::Single(_) => Some(*date),
        _ => None,
    }
}

impl Task {
    /// A new, uncompleted task: the generator's next identifier, created
    /// now.
    pub fn new(input: NewTask, generator: &mut Generator) -> (r: Task)
        ensures
            r.id.value() == old(generator).current(),
            final(generator).current() == next_counter(old(generator).current()),
            r.description == input.description,
            r.completed_at is None,
            r.created_at.wf(),
            r.scope == input.scope,
    {
        Task {
            id: TaskId::new(generator),
            description: input.description,
            completed_at: None,
            created_at: Timestamp::now(),
            scope: input.scope,
        }
    }

    /// Assembles a stored row whose timestamps were already resolved against
    /// the local time zone: a task comes back exactly when the creation
    /// timestamp resolved; an unresolved completion timestamp reads as not
    /// completed.
    pub fn from_resolved(
        id: u32,
        description: String,
        completed_at: Option<Timestamp>,
        created_at: Option<Timestamp>,
        scope: Option<String>,
    ) -> (r: Option<Task>)
        ensures
            r is Some <==> created_at is Some,
            r matches Some(t) ==> {
                &&& t.id.value() == id
                &&& t.description == description
                &&& t.completed_at == completed_at
                &&& created_at == Some(t.created_at)
                &&& (match scope {
                    Some(s) => t.scope matches Some(sc) && sc@ == lowercase_of(s@),
                    None => t.scope is None,
                })
            },
    {
        let created = match created_at {
            Some(t) => t,
            None => {
                return None;
            },
        };
        Some(
            Task {
                id: TaskId::from(id),
                description,
                completed_at,
                created_at: created,
                scope: match scope {
                    Some(s) => Some(Scope::new(s)),
                    None => None,
                },
            },
        )
    }

    /// A task from a stored row: both timestamps are resolved against the
    /// local time zone, and the row is rejected when its creation timestamp
    /// does not resolve.
    pub fn from(
        id: u32,
        description: String,
        completed_at: Option<Timestamp>,
        created_at: Timestamp,
        scope: Option<String>,
    ) -> (r: Option<Task>)
        ensures
            r matches Some(t) ==> {
                &&& t.id.value() == id
                &&& t.description == description
                &&& t.created_at == created_at
                &&& (t.completed_at matches Some(c) ==> completed_at == Some(c))
                &&& (match scope {
                    Some(s) => t.scope matches Some(sc) && sc@ == lowercase_of(s@),
                    None => t.scope is None,
                })
            },
    {
        let created = try_parse_datetime(&created_at);
        let completed = match &completed_at {
            Some(t) => try_parse_datetime(t),
            None => None,
        };
        Task::from_resolved(id, description, completed, created, scope)
    }

    /// Flips completion: completing stamps the current local time,
    /// un-completing clears the stamp; nothing else changes.
    pub fn toggle_complete(&mut self)
        ensures
            old(self).completed_at is Some ==> final(self).completed_at is None,
            old(self).completed_at is None ==> (final(self).completed_at matches Some(t)
                && t.wf()),
            final(self).id == old(self).id,
            final(self).description == old(self).description,
            final(self).created_at == old(self).created_at,
            final(self).scope == old(self).scope,
    {
        match &self.completed_at {
            Some(_) => {
                self.completed_at = None;
            },
            None => {
                self.completed_at = Some(Timestamp::now());
            },
        }
    }
}

impl TableRow for Task {
    open spec fn cell_view(&self, key: int) -> Seq<char> {
        if key == TASK_CELL_ID as int {
            dec_rep(self.id.value() as nat)
        } else if key == TASK_CELL_DESCRIPTION as int {
            self.description@
        } else if key == TASK_CELL_SCOPE as int {
            match self.scope {
                Some(s) => s@,
                None => "None"@,
            }
        } else if key == TASK_CELL_CREATED_AT as int {
            self.created_at.text()
        } else if key == TASK_CELL_COMPLETED as int {
            if self.completed_at is Some {
                "x"@
            } else {
                " "@
            }
        } else {
            Seq::empty()
        }
    }

    fn cell(&self, key: usize) -> (r: String) {
        match key {
            TASK_CELL_ID => self.id.to_text(),
            TASK_CELL_DESCRIPTION => self.description.clone(),
            TASK_CELL_SCOPE => match &self.scope {
                Some(s) => String::from_str(s.as_ref()),
                None => String::from_str("None"),
            },
            TASK_CELL_CREATED_AT => self.created_at.to_text(),
            TASK_CELL_COMPLETED => match &self.completed_at {
                Some(_) => String::from_str("x"),
                None => String::from_str(" "),
            },
            _ => String::new(),
        }
    }
}

} // verus!
