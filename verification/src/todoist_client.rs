use vstd::prelude::*;
use vstd::string::*;
use crate::clock::local_rfc3339_of_ms;
use crate::clock::utc_rfc3339_of_ms;
use crate::clock::utc_rfc3339_text;
use crate::clock::UTC_TEXT_MAX_MS;
use crate::text::eq_str;

verus! {

/// A task-service project: the container tasks live in.
#[derive(Debug, PartialEq)]
pub struct Project {
    pub comment_count: u64,
    pub id: String,
    pub name: String,
}

impl Clone for Project {
    fn clone(&self) -> (r: Self)
        ensures
            r == *self,
    {
        Project { comment_count: self.comment_count, id: self.id.clone(), name: self.name.clone() }
    }
}

/// A task as the task service reports it.
#[derive(Debug, PartialEq)]
pub struct Task {
    pub id: String,
    pub project_id: String,
    pub content: String,
    pub is_completed: bool,
    pub order: Option<usize>,
    pub priority: u64,
    pub due_string: Option<String>,
    pub due_date: Option<String>,
    pub due_datetime: Option<String>,
    pub due: Option<TodoistDate>,
    pub url: String,
}

/// The body sent to create a task.
#[derive(Debug, PartialEq)]
pub struct NewTask {
    pub project_id: String,
    pub content: String,
    pub due_datetime: Option<String>,
}

/// A task's due date as the service reports it: a display string, a civil
/// date `"YYYY-MM-DD"` in the user's time zone, and optionally an exact
/// instant and time zone.
#[derive(Debug, PartialEq)]
pub struct TodoistDate {
    pub string: String,
    pub date: String,
    pub datetime: Option<String>,
    pub timezone: Option<String>,
}

impl Clone for TodoistDate {
    fn clone(&self) -> (r: Self)
        ensures
            r == *self,
    {
        TodoistDate {
            string: self.string.clone(),
            date: self.date.clone(),
            datetime: match &self.datetime {
                Some(s) => Some(s.clone()),
                None => None,
            },
            timezone: match &self.timezone {
                Some(s) => Some(s.clone()),
                None => None,
            },
        }
    }
}

impl Task {
    /// A reschedule body: the task keeps its id and text and gets the due
    /// instant, carried as RFC 3339 text with the machine's local offset.
    pub fn new(pid: String, id: Option<String>, description: String, due_ms: i64) -> (r: Task)
        ensures
            r.id@ == (match id {
                Some(i) => i@,
                None => "0"@,
            }),
            r.project_id == pid,
            r.content == description,
            !r.is_completed,
            r.order is None,
            r.priority == 0,
            r.due_string is None,
            r.due_date is None,
            r.due is None,
            r.url@ == Seq::<char>::empty(),
    {
        Task {
            id: match id {
                Some(i) => i,
                None => String::from_str("0"),
            },
            project_id: pid,
            content: description,
            is_completed: false,
            order: None,
            priority: 0,
            due_string: None,
            due_date: None,
            due_datetime: local_rfc3339_of_ms(due_ms),
            due: None,
            url: String::new(),
        }
    }
}

impl NewTask {
    /// A create body: the due instant is carried as RFC 3339 text read as
    /// UTC, exactly as the wall clock value spells; every due date from the
    /// epoch through the formattable window gets its text.
    pub fn new(pid: String, description: String, due_ms: i64) -> (r: NewTask)
        ensures
            r.project_id == pid,
            r.content == description,
            r.due_datetime matches Some(s) ==> s@ == utc_rfc3339_text(due_ms as int),
            0 <= due_ms <= UTC_TEXT_MAX_MS ==> r.due_datetime is Some,
    {
        NewTask { project_id: pid, content: description, due_datetime: utc_rfc3339_of_ms(due_ms) }
    }
}

/// The credentials holder for the task service's REST interface. The
/// surrounding process performs the HTTP calls with this token.
#[derive(Debug)]
pub struct TodoistRestClient {
    pub token: String,
}

impl TodoistRestClient {
    pub fn new(token: String) -> (r: TodoistRestClient)
        ensures
            r.token == token,
    {
        TodoistRestClient { token }
    }
}

/// The first project with the given name, if any.
pub open spec fn spec_find_project(projects: Seq<Project>, name: Seq<char>) -> Option<int>
    decreases projects.len(),
{
    if projects.len() == 0 {
        None
    } else if projects[0].name@ == name {
        Some(0int)
    } else {
        match spec_find_project(projects.skip(1), name) {
            Some(j) => Some(j + 1),
            None => None,
        }
    }
}

pub proof fn lemma_find_project_props(projects: Seq<Project>, name: Seq<char>)
    ensures
        match spec_find_project(projects, name) {
            Some(j) => 0 <= j < projects.len() && projects[j].name@ == name && forall|k: int|
                0 <= k < j ==> (#[trigger] projects[k].name@) != name,
            None => forall|k: int|
                0 <= k < projects.len() ==> (#[trigger] projects[k].name@) != name,
        },
    decreases projects.len(),
{
    if projects.len() == 0 {
    } else if projects[0].name@ == name {
    } else {
        lemma_find_project_props(projects.skip(1), name);
        match spec_find_project(projects, name) {
            Some(j) => {
                assert(projects.skip(1)[j - 1] == projects[j]);
                assert forall|k: int| 0 <= k < j implies (#[trigger] projects[k].name@) != name by {
                    if k > 0 {
                        assert(projects.skip(1)[k - 1] == projects[k]);
                    }
                }
            },
            None => {
                assert forall|k: int|
                    0 <= k < projects.len() implies (#[trigger] projects[k].name@) != name by {
                    if k > 0 {
                        assert(projects.skip(1)[k - 1] == projects[k]);
                    }
                }
            },
        }
    }
}

/// Pick the project a request is aimed at: the first one with that name.
pub fn find_project<'a>(projects: &'a Vec<Project>, name: &str) -> (r: Option<&'a Project>)
    ensures
        match r {
            Some(p) => spec_find_project(projects@, name@) matches Some(j) && *p == projects@[j],
            None => spec_find_project(projects@, name@) is None,
        },
{
    let mut i: usize = 0;
    while i < projects.len()
        invariant
            i <= projects@.len(),
            forall|k: int| 0 <= k < i ==> (#[trigger] projects@[k].name@) != name@,
        decreases projects@.len() - i,
    {
        if eq_str(projects[i].name.as_str(), name) {
            proof {
                lemma_find_project_props(projects@, name@);
            }
            return Some(&projects[i]);
        }
        i = i + 1;
    }
    proof {
        lemma_find_project_props(projects@, name@);
    }
    None
}

} // verus!
