use vstd::prelude::*;

use crate::find::{
    distinct_by, first_where, lemma_filter_all_true, lemma_filter_keeps_distinct_by,
    lemma_filter_keeps_forall, lemma_filter_removes_one, lemma_first_index_where_found,
    lemma_first_index_where_none, lemma_max_key_bound, max_key,
};
use crate::model::{scope_count, ResourceKind};
use crate::roles::TaskStatusType;

verus! {

/// A company: the root of the resource hierarchy.
#[derive(Debug)]
pub struct Company {
    pub id: i32,
    pub name: String,
    pub name_alias: String,
    pub description: Option<String>,
    pub contact_info: Option<String>,
}

/// A project; belongs to exactly one company.
#[derive(Debug)]
pub struct Project {
    pub id: i32,
    pub company_id: i32,
    pub title: String,
    pub description: Option<String>,
    pub decoration_color: Option<String>,
}

/// A task; belongs to exactly one project.
#[derive(Debug)]
pub struct Task {
    pub id: i32,
    pub project_id: i32,
    pub assigned_to: Option<i32>,
    pub status: TaskStatusType,
    pub title: String,
    pub description: Option<String>,
    pub priority: Option<String>,
}

/// A subtask; belongs to exactly one task.
#[derive(Debug)]
pub struct Subtask {
    pub id: i32,
    pub task_id: i32,
    pub assigned_to: Option<i32>,
    pub status: TaskStatusType,
    pub title: String,
    pub description: Option<String>,
}

/// A free-form note, attached to at most one hierarchy level
/// (or to none: a personal note of its author).
#[derive(Debug)]
pub struct Note {
    pub id: i32,
    pub user_id: i32,
    pub company_id: Option<i32>,
    pub project_id: Option<i32>,
    pub task_id: Option<i32>,
    pub subtask_id: Option<i32>,
    pub content: String,
    pub tags: Option<String>,
    pub decoration_color: Option<String>,
}

impl Note {
    /// A note attaches to at most one hierarchy level.
    pub open spec fn valid_scope(self) -> bool {
        scope_count(self.company_id, self.project_id, self.task_id, self.subtask_id) <= 1
    }

    /// The resource the note is attached to, if any.
    pub open spec fn attachment(self) -> Option<(ResourceKind, i32)> {
        if self.company_id is Some {
            Some((ResourceKind::Company, self.company_id->0))
        } else if self.project_id is Some {
            Some((ResourceKind::Project, self.project_id->0))
        } else if self.task_id is Some {
            Some((ResourceKind::Task, self.task_id->0))
        } else if self.subtask_id is Some {
            Some((ResourceKind::Subtask, self.subtask_id->0))
        } else {
            None
        }
    }
}

/// Strict ordering of kinds from the root of the hierarchy down; used as a
/// termination measure when walking up from a resource.
pub open spec fn kind_rank(kind: ResourceKind) -> int {
    match kind {
        ResourceKind::Company => 0,
        ResourceKind::Project => 1,
        ResourceKind::Task => 2,
        ResourceKind::Subtask => 3,
        ResourceKind::Note => 4,
    }
}

pub open spec fn company_pred(id: i32) -> spec_fn(Company) -> bool {
    |c: Company| c.id == id
}

pub open spec fn project_pred(id: i32) -> spec_fn(Project) -> bool {
    |p: Project| p.id == id
}

pub open spec fn task_pred(id: i32) -> spec_fn(Task) -> bool {
    |t: Task| t.id == id
}

pub open spec fn subtask_pred(id: i32) -> spec_fn(Subtask) -> bool {
    |s: Subtask| s.id == id
}

pub open spec fn note_pred(id: i32) -> spec_fn(Note) -> bool {
    |n: Note| n.id == id
}

pub open spec fn company_id_key() -> spec_fn(Company) -> i32 {
    |c: Company| c.id
}

pub open spec fn company_alias_key() -> spec_fn(Company) -> Seq<char> {
    |c: Company| c.name_alias@
}

pub open spec fn project_id_key() -> spec_fn(Project) -> i32 {
    |p: Project| p.id
}

pub open spec fn task_id_key() -> spec_fn(Task) -> i32 {
    |t: Task| t.id
}

pub open spec fn subtask_id_key() -> spec_fn(Subtask) -> i32 {
    |s: Subtask| s.id
}

pub open spec fn note_id_key() -> spec_fn(Note) -> i32 {
    |n: Note| n.id
}

/// Read-only knowledge of parent/child relationships: which company owns
/// which project, which project owns which task, and so on. The resolver
/// walks this index from a concrete resource up to its ancestors.
#[derive(Debug)]
pub struct HierarchyIndex {
    pub companies: Vec<Company>,
    pub projects: Vec<Project>,
    pub tasks: Vec<Task>,
    pub subtasks: Vec<Subtask>,
    pub notes: Vec<Note>,
}

impl HierarchyIndex {
    /// Well-formedness: ids are unique per table, company aliases are
    /// unique, and every note attaches to at most one level.
    pub open spec fn wf(self) -> bool {
        &&& distinct_by(self.companies@, company_id_key())
        &&& distinct_by(self.companies@, company_alias_key())
        &&& distinct_by(self.projects@, project_id_key())
        &&& distinct_by(self.tasks@, task_id_key())
        &&& distinct_by(self.subtasks@, subtask_id_key())
        &&& distinct_by(self.notes@, note_id_key())
        &&& forall|i: int| 0 <= i < self.notes@.len() ==> (#[trigger] self.notes@[i]).valid_scope()
    }

    pub open spec fn company_by_id(self, id: i32) -> Option<Company> {
        first_where(self.companies@, company_pred(id))
    }

    pub open spec fn project_by_id(self, id: i32) -> Option<Project> {
        first_where(self.projects@, project_pred(id))
    }

    pub open spec fn task_by_id(self, id: i32) -> Option<Task> {
        first_where(self.tasks@, task_pred(id))
    }

    pub open spec fn subtask_by_id(self, id: i32) -> Option<Subtask> {
        first_where(self.subtasks@, subtask_pred(id))
    }

    pub open spec fn note_by_id(self, id: i32) -> Option<Note> {
        first_where(self.notes@, note_pred(id))
    }

    pub fn new() -> (r: HierarchyIndex)
        ensures
            r.wf(),
            r.companies@ =~= Seq::<Company>::empty(),
            r.projects@ =~= Seq::<Project>::empty(),
            r.tasks@ =~= Seq::<Task>::empty(),
            r.subtasks@ =~= Seq::<Subtask>::empty(),
            r.notes@ =~= Seq::<Note>::empty(),
    {
        HierarchyIndex {
            companies: Vec::new(),
            projects: Vec::new(),
            tasks: Vec::new(),
            subtasks: Vec::new(),
            notes: Vec::new(),
        }
    }

    #[verifier::loop_isolation(false)]
    pub fn find_company(&self, id: i32) -> (r: Option<&Company>)
        ensures
            match r {
                Some(c) => self.company_by_id(id) == Some(*c),
                None => self.company_by_id(id) is None,
            },
    {
        let ghost p = company_pred(id);
        let mut i: usize = 0;
        while i < self.companies.len()
            invariant
                i <= self.companies@.len(),
                forall|j: int| 0 <= j < i ==> !p(#[trigger] self.companies@[j]),
            decreases self.companies@.len() - i,
        {
            if self.companies[i].id == id {
                proof {
                    lemma_first_index_where_found(self.companies@, p, i as int);
                }
                return Some(&self.companies[i]);
            }
            i += 1;
        }
        proof {
            lemma_first_index_where_none(self.companies@, p);
        }
        None
    }

    #[verifier::loop_isolation(false)]
    pub fn find_project(&self, id: i32) -> (r: Option<&Project>)
        ensures
            match r {
                Some(p) => self.project_by_id(id) == Some(*p),
                None => self.project_by_id(id) is None,
            },
    {
        let ghost p = project_pred(id);
        let mut i: usize = 0;
        while i < self.projects.len()
            invariant
                i <= self.projects@.len(),
                forall|j: int| 0 <= j < i ==> !p(#[trigger] self.projects@[j]),
            decreases self.projects@.len() - i,
        {
            if self.projects[i].id == id {
                proof {
                    lemma_first_index_where_found(self.projects@, p, i as int);
                }
                return Some(&self.projects[i]);
            }
            i += 1;
        }
        proof {
            lemma_first_index_where_none(self.projects@, p);
        }
        None
    }

    #[verifier::loop_isolation(false)]
    pub fn find_task(&self, id: i32) -> (r: Option<&Task>)
        ensures
            match r {
                Some(t) => self.task_by_id(id) == Some(*t),
                None => self.task_by_id(id) is None,
            },
    {
        let ghost p = task_pred(id);
        let mut i: usize = 0;
        while i < self.tasks.len()
            invariant
                i <= self.tasks@.len(),
                forall|j: int| 0 <= j < i ==> !p(#[trigger] self.tasks@[j]),
            decreases self.tasks@.len() - i,
        {
            if self.tasks[i].id == id {
                proof {
                    lemma_first_index_where_found(self.tasks@, p, i as int);
                }
                return Some(&self.tasks[i]);
            }
            i += 1;
        }
        proof {
            lemma_first_index_where_none(self.tasks@, p);
        }
        None
    }

    #[verifier::loop_isolation(false)]
    pub fn find_subtask(&self, id: i32) -> (r: Option<&Subtask>)
        ensures
            match r {
                Some(s) => self.subtask_by_id(id) == Some(*s),
                None => self.subtask_by_id(id) is None,
            },
    {
        let ghost p = subtask_pred(id);
        let mut i: usize = 0;
        while i < self.subtasks.len()
            invariant
                i <= self.subtasks@.len(),
                forall|j: int| 0 <= j < i ==> !p(#[trigger] self.subtasks@[j]),
            decreases self.subtasks@.len() - i,
        {
            if self.subtasks[i].id == id {
                proof {
                    lemma_first_index_where_found(self.subtasks@, p, i as int);
                }
                return Some(&self.subtasks[i]);
            }
            i += 1;
        }
        proof {
            lemma_first_index_where_none(self.subtasks@, p);
        }
        None
    }

    #[verifier::loop_isolation(false)]
    pub fn find_note(&self, id: i32) -> (r: Option<&Note>)
        ensures
            match r {
                Some(n) => self.note_by_id(id) == Some(*n),
                None => self.note_by_id(id) is None,
            },
    {
        let ghost p = note_pred(id);
        let mut i: usize = 0;
        while i < self.notes.len()
            invariant
                i <= self.notes@.len(),
                forall|j: int| 0 <= j < i ==> !p(#[trigger] self.notes@[j]),
            decreases self.notes@.len() - i,
        {
            if self.notes[i].id == id {
                proof {
                    lemma_first_index_where_found(self.notes@, p, i as int);
                }
                return Some(&self.notes[i]);
            }
            i += 1;
        }
        proof {
            lemma_first_index_where_none(self.notes@, p);
        }
        None
    }

    /// Whether the resource row itself is present in the index.
    pub open spec fn resource_exists(self, kind: ResourceKind, id: i32) -> bool {
        match kind {
            ResourceKind::Company => self.company_by_id(id) is Some,
            ResourceKind::Project => self.project_by_id(id) is Some,
            ResourceKind::Task => self.task_by_id(id) is Some,
            ResourceKind::Subtask => self.subtask_by_id(id) is Some,
            ResourceKind::Note => self.note_by_id(id) is Some,
        }
    }

    /// Executable test for `resource_exists`.
    pub fn check_resource_exists(&self, kind: ResourceKind, id: i32) -> (r: bool)
        ensures
            r == self.resource_exists(kind, id),
    {
        match kind {
            ResourceKind::Company => self.find_company(id).is_some(),
            ResourceKind::Project => self.find_project(id).is_some(),
            ResourceKind::Task => self.find_task(id).is_some(),
            ResourceKind::Subtask => self.find_subtask(id).is_some(),
            ResourceKind::Note => self.find_note(id).is_some(),
        }
    }

    /// The company a resource ultimately belongs to, walking the parent
    /// links; `None` when a link is missing or a note is personal.
    pub open spec fn company_of(self, kind: ResourceKind, id: i32) -> Option<i32>
        decreases kind_rank(kind),
    {
        match kind {
            ResourceKind::Company => Some(id),
            ResourceKind::Project => match self.project_by_id(id) {
                Some(p) => Some(p.company_id),
                None => None,
            },
            ResourceKind::Task => match self.task_by_id(id) {
                Some(t) => self.company_of(ResourceKind::Project, t.project_id),
                None => None,
            },
            ResourceKind::Subtask => match self.subtask_by_id(id) {
                Some(s) => self.company_of(ResourceKind::Task, s.task_id),
                None => None,
            },
            ResourceKind::Note => match self.note_by_id(id) {
                Some(n) => match n.attachment() {
                    Some((k, i)) => if k != ResourceKind::Note {
                        self.company_of(k, i)
                    } else {
                        None
                    },
                    None => None,
                },
                None => None,
            },
        }
    }

    /// Executable walk for `company_of`.
    pub fn find_company_of(&self, kind: ResourceKind, id: i32) -> (r: Option<i32>)
        ensures
            r == self.company_of(kind, id),
        decreases kind_rank(kind),
    {
        match kind {
            ResourceKind::Company => Some(id),
            ResourceKind::Project => match self.find_project(id) {
                Some(p) => Some(p.company_id),
                None => None,
            },
            ResourceKind::Task => {
                let project_id = match self.find_task(id) {
                    Some(t) => t.project_id,
                    None => {
                        return None;
                    },
                };
                self.find_company_of(ResourceKind::Project, project_id)
            },
            ResourceKind::Subtask => {
                let task_id = match self.find_subtask(id) {
                    Some(s) => s.task_id,
                    None => {
                        return None;
                    },
                };
                self.find_company_of(ResourceKind::Task, task_id)
            },
            ResourceKind::Note => {
                let attachment = match self.find_note(id) {
                    Some(n) => note_attachment(n),
                    None => {
                        return None;
                    },
                };
                match attachment {
                    Some((k, i)) => self.find_company_of(k, i),
                    None => None,
                }
            },
        }
    }

    /// A company id one past the table's high-water mark, when it fits in
    /// the id type.
    #[verifier::loop_isolation(false)]
    pub fn fresh_company_id(&self) -> (r: Option<i32>)
        ensures
            r is None <==> max_key(self.companies@, company_id_key()) == i32::MAX as int,
            r matches Some(id) ==> id as int == max_key(self.companies@, company_id_key()) + 1,
            r matches Some(id) ==> 1 <= id && forall|j: int|
                0 <= j < self.companies@.len() ==> (#[trigger] self.companies@[j]).id < id,
    {
        let ghost k = company_id_key();
        let mut max: i32 = 0;
        let mut i: usize = 0;
        while i < self.companies.len()
            invariant
                i <= self.companies@.len(),
                max >= 0,
                max as int == max_key(self.companies@.take(i as int), k),
            decreases self.companies@.len() - i,
        {
            proof {
                assert(self.companies@.take(i + 1int).drop_last() =~= self.companies@.take(i as int));
                assert(self.companies@.take(i + 1int).last() == self.companies@[i as int]);
            }
            if self.companies[i].id > max {
                max = self.companies[i].id;
            }
            i += 1;
        }
        proof {
            assert(self.companies@.take(self.companies@.len() as int) =~= self.companies@);
            lemma_max_key_bound(self.companies@, k);
        }
        if max == i32::MAX {
            None
        } else {
            Some(max + 1)
        }
    }

    /// A project id one past the table's high-water mark, when it fits in
    /// the id type.
    #[verifier::loop_isolation(false)]
    pub fn fresh_project_id(&self) -> (r: Option<i32>)
        ensures
            r is None <==> max_key(self.projects@, project_id_key()) == i32::MAX as int,
            r matches Some(id) ==> id as int == max_key(self.projects@, project_id_key()) + 1,
            r matches Some(id) ==> 1 <= id && forall|j: int|
                0 <= j < self.projects@.len() ==> (#[trigger] self.projects@[j]).id < id,
    {
        let ghost k = project_id_key();
        let mut max: i32 = 0;
        let mut i: usize = 0;
        while i < self.projects.len()
            invariant
                i <= self.projects@.len(),
                max >= 0,
                max as int == max_key(self.projects@.take(i as int), k),
            decreases self.projects@.len() - i,
        {
            proof {
                assert(self.projects@.take(i + 1int).drop_last() =~= self.projects@.take(i as int));
                assert(self.projects@.take(i + 1int).last() == self.projects@[i as int]);
            }
            if self.projects[i].id > max {
                max = self.projects[i].id;
            }
            i += 1;
        }
        proof {
            assert(self.projects@.take(self.projects@.len() as int) =~= self.projects@);
            lemma_max_key_bound(self.projects@, k);
        }
        if max == i32::MAX {
            None
        } else {
            Some(max + 1)
        }
    }

    /// A task id one past the table's high-water mark, when it fits in
    /// the id type.
    #[verifier::loop_isolation(false)]
    pub fn fresh_task_id(&self) -> (r: Option<i32>)
        ensures
            r is None <==> max_key(self.tasks@, task_id_key()) == i32::MAX as int,
            r matches Some(id) ==> id as int == max_key(self.tasks@, task_id_key()) + 1,
            r matches Some(id) ==> 1 <= id && forall|j: int|
                0 <= j < self.tasks@.len() ==> (#[trigger] self.tasks@[j]).id < id,
    {
        let ghost k = task_id_key();
        let mut max: i32 = 0;
        let mut i: usize = 0;
        while i < self.tasks.len()
            invariant
                i <= self.tasks@.len(),
                max >= 0,
                max as int == max_key(self.tasks@.take(i as int), k),
            decreases self.tasks@.len() - i,
        {
            proof {
                assert(self.tasks@.take(i + 1int).drop_last() =~= self.tasks@.take(i as int));
                assert(self.tasks@.take(i + 1int).last() == self.tasks@[i as int]);
            }
            if self.tasks[i].id > max {
                max = self.tasks[i].id;
            }
            i += 1;
        }
        proof {
            assert(self.tasks@.take(self.tasks@.len() as int) =~= self.tasks@);
            lemma_max_key_bound(self.tasks@, k);
        }
        if max == i32::MAX {
            None
        } else {
            Some(max + 1)
        }
    }

    /// A note id one past the table's high-water mark, when it fits in
    /// the id type.
    #[verifier::loop_isolation(false)]
    pub fn fresh_note_id(&self) -> (r: Option<i32>)
        ensures
            r is None <==> max_key(self.notes@, note_id_key()) == i32::MAX as int,
            r matches Some(id) ==> id as int == max_key(self.notes@, note_id_key()) + 1,
            r matches Some(id) ==> 1 <= id && forall|j: int|
                0 <= j < self.notes@.len() ==> (#[trigger] self.notes@[j]).id < id,
    {
        let ghost k = note_id_key();
        let mut max: i32 = 0;
        let mut i: usize = 0;
        while i < self.notes.len()
            invariant
                i <= self.notes@.len(),
                max >= 0,
                max as int == max_key(self.notes@.take(i as int), k),
            decreases self.notes@.len() - i,
        {
            proof {
                assert(self.notes@.take(i + 1int).drop_last() =~= self.notes@.take(i as int));
                assert(self.notes@.take(i + 1int).last() == self.notes@[i as int]);
            }
            if self.notes[i].id > max {
                max = self.notes[i].id;
            }
            i += 1;
        }
        proof {
            assert(self.notes@.take(self.notes@.len() as int) =~= self.notes@);
            lemma_max_key_bound(self.notes@, k);
        }
        if max == i32::MAX {
            None
        } else {
            Some(max + 1)
        }
    }

    /// Whether some company already uses this alias.
    #[verifier::loop_isolation(false)]
    pub fn alias_taken(&self, alias: &String) -> (r: bool)
        ensures
            r <==> exists|j: int|
                0 <= j < self.companies@.len() && (#[trigger] self.companies@[j]).name_alias@
                    == alias@,
    {
        let mut i: usize = 0;
        while i < self.companies.len()
            invariant
                i <= self.companies@.len(),
                forall|j: int|
                    0 <= j < i ==> (#[trigger] self.companies@[j]).name_alias@ != alias@,
            decreases self.companies@.len() - i,
        {
            if self.companies[i].name_alias.eq(alias) {
                return true;
            }
            i += 1;
        }
        false
    }

    /// Adds a company; the caller supplies a fresh id and an unused alias.
    pub fn insert_company(&mut self, c: Company)
        requires
            old(self).wf(),
            forall|j: int|
                0 <= j < old(self).companies@.len() ==> (#[trigger] old(self).companies@[j]).id
                    != c.id,
            forall|j: int|
                0 <= j < old(self).companies@.len() ==> (
                #[trigger] old(self).companies@[j]).name_alias@ != c.name_alias@,
        ensures
            final(self).wf(),
            final(self).companies@ == old(self).companies@.push(c),
            final(self).projects@ == old(self).projects@,
            final(self).tasks@ == old(self).tasks@,
            final(self).subtasks@ == old(self).subtasks@,
            final(self).notes@ == old(self).notes@,
    {
        self.companies.push(c);
    }

    /// Adds a project; the caller supplies a fresh id.
    pub fn insert_project(&mut self, p: Project)
        requires
            old(self).wf(),
            forall|j: int|
                0 <= j < old(self).projects@.len() ==> (#[trigger] old(self).projects@[j]).id
                    != p.id,
        ensures
            final(self).wf(),
            final(self).projects@ == old(self).projects@.push(p),
            final(self).companies@ == old(self).companies@,
            final(self).tasks@ == old(self).tasks@,
            final(self).subtasks@ == old(self).subtasks@,
            final(self).notes@ == old(self).notes@,
    {
        self.projects.push(p);
    }

    /// Adds a task; the caller supplies a fresh id.
    pub fn insert_task(&mut self, t: Task)
        requires
            old(self).wf(),
            forall|j: int|
                0 <= j < old(self).tasks@.len() ==> (#[trigger] old(self).tasks@[j]).id != t.id,
        ensures
            final(self).wf(),
            final(self).tasks@ == old(self).tasks@.push(t),
            final(self).companies@ == old(self).companies@,
            final(self).projects@ == old(self).projects@,
            final(self).subtasks@ == old(self).subtasks@,
            final(self).notes@ == old(self).notes@,
    {
        self.tasks.push(t);
    }

    /// Adds a subtask; the caller supplies a fresh id.
    pub fn insert_subtask(&mut self, s: Subtask)
        requires
            old(self).wf(),
            forall|j: int|
                0 <= j < old(self).subtasks@.len() ==> (#[trigger] old(self).subtasks@[j]).id
                    != s.id,
        ensures
            final(self).wf(),
            final(self).subtasks@ == old(self).subtasks@.push(s),
            final(self).companies@ == old(self).companies@,
            final(self).projects@ == old(self).projects@,
            final(self).tasks@ == old(self).tasks@,
            final(self).notes@ == old(self).notes@,
    {
        self.subtasks.push(s);
    }

    /// Adds a note; the caller supplies a fresh id and a valid scope.
    pub fn insert_note(&mut self, n: Note)
        requires
            old(self).wf(),
            n.valid_scope(),
            forall|j: int|
                0 <= j < old(self).notes@.len() ==> (#[trigger] old(self).notes@[j]).id != n.id,
        ensures
            final(self).wf(),
            final(self).notes@ == old(self).notes@.push(n),
            final(self).companies@ == old(self).companies@,
            final(self).projects@ == old(self).projects@,
            final(self).tasks@ == old(self).tasks@,
            final(self).subtasks@ == old(self).subtasks@,
    {
        self.notes.push(n);
    }

    /// Drops the company row with this id, if present.
    #[verifier::loop_isolation(false)]
    pub fn remove_company_row(&mut self, id: i32)
        requires
            old(self).wf(),
        ensures
            final(self).wf(),
            final(self).companies@ == old(self).companies@.filter(|c: Company| c.id != id),
            final(self).company_by_id(id) is None,
            final(self).projects@ == old(self).projects@,
            final(self).tasks@ == old(self).tasks@,
            final(self).subtasks@ == old(self).subtasks@,
            final(self).notes@ == old(self).notes@,
    {
        let ghost keep = |c: Company| c.id != id;
        let ghost orig = self.companies@;
        let mut i: usize = 0;
        while i < self.companies.len()
            invariant
                i <= orig.len(),
                self.companies@ == orig,
                self.projects@ == old(self).projects@,
                self.tasks@ == old(self).tasks@,
                self.subtasks@ == old(self).subtasks@,
                self.notes@ == old(self).notes@,
                forall|j: int| 0 <= j < i ==> keep(#[trigger] orig[j]),
            decreases orig.len() - i,
        {
            if self.companies[i].id == id {
                let _removed = self.companies.remove(i);
                proof {
                    assert forall|j: int| 0 <= j < orig.len() && j != i implies keep(
                        #[trigger] orig[j],
                    ) by {
                        assert(company_id_key()(orig[i as int]) == id);
                    }
                    lemma_filter_removes_one(orig, keep, i as int);
                    lemma_filter_keeps_distinct_by(orig, keep, company_id_key());
                    lemma_filter_keeps_distinct_by(orig, keep, company_alias_key());
                    assert forall|j: int| 0 <= j < self.companies@.len() implies !company_pred(id)(
                        #[trigger] self.companies@[j],
                    ) by {
                        if j < i {
                            assert(self.companies@[j] == orig[j]);
                        } else {
                            assert(self.companies@[j] == orig[j + 1]);
                        }
                    }
                    lemma_first_index_where_none(self.companies@, company_pred(id));
                }
                return;
            }
            i += 1;
        }
        proof {
            lemma_filter_all_true(self.companies@, keep);
            lemma_first_index_where_none(self.companies@, company_pred(id));
        }
    }

    /// Drops the project row with this id, if present.
    #[verifier::loop_isolation(false)]
    pub fn remove_project_row(&mut self, id: i32)
        requires
            old(self).wf(),
        ensures
            final(self).wf(),
            final(self).projects@ == old(self).projects@.filter(|p: Project| p.id != id),
            final(self).project_by_id(id) is None,
            final(self).companies@ == old(self).companies@,
            final(self).tasks@ == old(self).tasks@,
            final(self).subtasks@ == old(self).subtasks@,
            final(self).notes@ == old(self).notes@,
    {
        let ghost keep = |p: Project| p.id != id;
        let ghost orig = self.projects@;
        let mut i: usize = 0;
        while i < self.projects.len()
            invariant
                i <= orig.len(),
                self.projects@ == orig,
                self.companies@ == old(self).companies@,
                self.tasks@ == old(self).tasks@,
                self.subtasks@ == old(self).subtasks@,
                self.notes@ == old(self).notes@,
                forall|j: int| 0 <= j < i ==> keep(#[trigger] orig[j]),
            decreases orig.len() - i,
        {
            if self.projects[i].id == id {
                let _removed = self.projects.remove(i);
                proof {
                    assert forall|j: int| 0 <= j < orig.len() && j != i implies keep(
                        #[trigger] orig[j],
                    ) by {
                        assert(project_id_key()(orig[i as int]) == id);
                    }
                    lemma_filter_removes_one(orig, keep, i as int);
                    lemma_filter_keeps_distinct_by(orig, keep, project_id_key());
                    assert forall|j: int| 0 <= j < self.projects@.len() implies !project_pred(id)(
                        #[trigger] self.projects@[j],
                    ) by {
                        if j < i {
                            assert(self.projects@[j] == orig[j]);
                        } else {
                            assert(self.projects@[j] == orig[j + 1]);
                        }
                    }
                    lemma_first_index_where_none(self.projects@, project_pred(id));
                }
                return;
            }
            i += 1;
        }
        proof {
            lemma_filter_all_true(self.projects@, keep);
            lemma_first_index_where_none(self.projects@, project_pred(id));
        }
    }

    /// Drops the task row with this id, if present.
    #[verifier::loop_isolation(false)]
    pub fn remove_task_row(&mut self, id: i32)
        requires
            old(self).wf(),
        ensures
            final(self).wf(),
            final(self).tasks@ == old(self).tasks@.filter(|t: Task| t.id != id),
            final(self).task_by_id(id) is None,
            final(self).companies@ == old(self).companies@,
            final(self).projects@ == old(self).projects@,
            final(self).subtasks@ == old(self).subtasks@,
            final(self).notes@ == old(self).notes@,
    {
        let ghost keep = |t: Task| t.id != id;
        let ghost orig = self.tasks@;
        let mut i: usize = 0;
        while i < self.tasks.len()
            invariant
                i <= orig.len(),
                self.tasks@ == orig,
                self.companies@ == old(self).companies@,
                self.projects@ == old(self).projects@,
                self.subtasks@ == old(self).subtasks@,
                self.notes@ == old(self).notes@,
                forall|j: int| 0 <= j < i ==> keep(#[trigger] orig[j]),
            decreases orig.len() - i,
        {
            if self.tasks[i].id == id {
                let _removed = self.tasks.remove(i);
                proof {
                    assert forall|j: int| 0 <= j < orig.len() && j != i implies keep(
                        #[trigger] orig[j],
                    ) by {
                        assert(task_id_key()(orig[i as int]) == id);
                    }
                    lemma_filter_removes_one(orig, keep, i as int);
                    lemma_filter_keeps_distinct_by(orig, keep, task_id_key());
                    assert forall|j: int| 0 <= j < self.tasks@.len() implies !task_pred(id)(
                        #[trigger] self.tasks@[j],
                    ) by {
                        if j < i {
                            assert(self.tasks@[j] == orig[j]);
                        } else {
                            assert(self.tasks@[j] == orig[j + 1]);
                        }
                    }
                    lemma_first_index_where_none(self.tasks@, task_pred(id));
                }
                return;
            }
            i += 1;
        }
        proof {
            lemma_filter_all_true(self.tasks@, keep);
            lemma_first_index_where_none(self.tasks@, task_pred(id));
        }
    }

    /// Drops the note row with this id, if present.
    #[verifier::loop_isolation(false)]
    pub fn remove_note_row(&mut self, id: i32)
        requires
            old(self).wf(),
        ensures
            final(self).wf(),
            final(self).notes@ == old(self).notes@.filter(|n: Note| n.id != id),
            final(self).note_by_id(id) is None,
            final(self).companies@ == old(self).companies@,
            final(self).projects@ == old(self).projects@,
            final(self).tasks@ == old(self).tasks@,
            final(self).subtasks@ == old(self).subtasks@,
    {
        let ghost keep = |n: Note| n.id != id;
        let ghost orig = self.notes@;
        let mut i: usize = 0;
        while i < self.notes.len()
            invariant
                i <= orig.len(),
                self.notes@ == orig,
                self.companies@ == old(self).companies@,
                self.projects@ == old(self).projects@,
                self.tasks@ == old(self).tasks@,
                self.subtasks@ == old(self).subtasks@,
                forall|j: int| 0 <= j < i ==> keep(#[trigger] orig[j]),
            decreases orig.len() - i,
        {
            if self.notes[i].id == id {
                let _removed = self.notes.remove(i);
                proof {
                    assert forall|j: int| 0 <= j < orig.len() && j != i implies keep(
                        #[trigger] orig[j],
                    ) by {
                        assert(note_id_key()(orig[i as int]) == id);
                    }
                    lemma_filter_removes_one(orig, keep, i as int);
                    lemma_filter_keeps_distinct_by(orig, keep, note_id_key());
                    lemma_filter_keeps_forall(orig, keep, |n: Note| n.valid_scope());
                    assert forall|j: int| 0 <= j < self.notes@.len() implies !note_pred(id)(
                        #[trigger] self.notes@[j],
                    ) by {
                        if j < i {
                            assert(self.notes@[j] == orig[j]);
                        } else {
                            assert(self.notes@[j] == orig[j + 1]);
                        }
                    }
                    lemma_first_index_where_none(self.notes@, note_pred(id));
                }
                return;
            }
            i += 1;
        }
        proof {
            lemma_filter_all_true(self.notes@, keep);
            lemma_first_index_where_none(self.notes@, note_pred(id));
        }
    }

    /// The chain of ancestors of a resource, nearest first: a task yields
    /// its project and then that project's company. A missing link truncates
    /// the chain; a resource that is not in the index has none.
    pub open spec fn ancestors_of(self, kind: ResourceKind, id: i32) -> Seq<(ResourceKind, i32)>
        decreases kind_rank(kind),
    {
        match kind {
            ResourceKind::Company => Seq::empty(),
            ResourceKind::Project => match self.project_by_id(id) {
                Some(p) => seq![(ResourceKind::Company, p.company_id)],
                None => Seq::empty(),
            },
            ResourceKind::Task => match self.task_by_id(id) {
                Some(t) => seq![(ResourceKind::Project, t.project_id)] + self.ancestors_of(
                    ResourceKind::Project,
                    t.project_id,
                ),
                None => Seq::empty(),
            },
            ResourceKind::Subtask => match self.subtask_by_id(id) {
                Some(s) => seq![(ResourceKind::Task, s.task_id)] + self.ancestors_of(
                    ResourceKind::Task,
                    s.task_id,
                ),
                None => Seq::empty(),
            },
            ResourceKind::Note => match self.note_by_id(id) {
                Some(n) => match n.attachment() {
                    Some((k, i)) => if k != ResourceKind::Note {
                        seq![(k, i)] + self.ancestors_of(k, i)
                    } else {
                        Seq::empty()
                    },
                    None => Seq::empty(),
                },
                None => Seq::empty(),
            },
        }
    }

    /// Executable walk for `ancestors_of`.
    pub fn ancestors(&self, kind: ResourceKind, id: i32) -> (r: Vec<(ResourceKind, i32)>)
        ensures
            r@ == self.ancestors_of(kind, id),
        decreases kind_rank(kind),
    {
        let mut out: Vec<(ResourceKind, i32)> = Vec::new();
        match kind {
            ResourceKind::Company => {},
            ResourceKind::Project => {
                if let Some(p) = self.find_project(id) {
                    out.push((ResourceKind::Company, p.company_id));
                }
            },
            ResourceKind::Task => {
                let project_id = match self.find_task(id) {
                    Some(t) => Some(t.project_id),
                    None => None,
                };
                if let Some(pid) = project_id {
                    out.push((ResourceKind::Project, pid));
                    let mut rest = self.ancestors(ResourceKind::Project, pid);
                    out.append(&mut rest);
                }
            },
            ResourceKind::Subtask => {
                let task_id = match self.find_subtask(id) {
                    Some(s) => Some(s.task_id),
                    None => None,
                };
                if let Some(tid) = task_id {
                    out.push((ResourceKind::Task, tid));
                    let mut rest = self.ancestors(ResourceKind::Task, tid);
                    out.append(&mut rest);
                }
            },
            ResourceKind::Note => {
                let attachment = match self.find_note(id) {
                    Some(n) => note_attachment(n),
                    None => None,
                };
                if let Some((k, i)) = attachment {
                    out.push((k, i));
                    let mut rest = self.ancestors(k, i);
                    out.append(&mut rest);
                }
            },
        }
        proof {
            assert(out@ =~= self.ancestors_of(kind, id));
        }
        out
    }
}

/// Executable form of `Note::attachment`. The result is never the `Note`
/// kind itself.
pub fn note_attachment(n: &Note) -> (r: Option<(ResourceKind, i32)>)
    ensures
        r == n.attachment(),
        r matches Some(a) ==> a.0 != ResourceKind::Note,
{
    if let Some(c) = n.company_id {
        Some((ResourceKind::Company, c))
    } else if let Some(p) = n.project_id {
        Some((ResourceKind::Project, p))
    } else if let Some(t) = n.task_id {
        Some((ResourceKind::Task, t))
    } else if let Some(s) = n.subtask_id {
        Some((ResourceKind::Subtask, s))
    } else {
        None
    }
}

/// Clones an optional string, contents and all.
pub fn clone_opt_string(o: &Option<String>) -> (r: Option<String>)
    ensures
        r == *o,
{
    match o {
        Some(s) => Some(s.clone()),
        None => None,
    }
}

impl Clone for Company {
    fn clone(&self) -> (res: Self)
        ensures
            res == *self,
    {
        Company {
            id: self.id,
            name: self.name.clone(),
            name_alias: self.name_alias.clone(),
            description: clone_opt_string(&self.description),
            contact_info: clone_opt_string(&self.contact_info),
        }
    }
}

impl Clone for Project {
    fn clone(&self) -> (res: Self)
        ensures
            res == *self,
    {
        Project {
            id: self.id,
            company_id: self.company_id,
            title: self.title.clone(),
            description: clone_opt_string(&self.description),
            decoration_color: clone_opt_string(&self.decoration_color),
        }
    }
}

impl Clone for Task {
    fn clone(&self) -> (res: Self)
        ensures
            res == *self,
    {
        Task {
            id: self.id,
            project_id: self.project_id,
            assigned_to: self.assigned_to,
            status: self.status,
            title: self.title.clone(),
            description: clone_opt_string(&self.description),
            priority: clone_opt_string(&self.priority),
        }
    }
}

impl Clone for Subtask {
    fn clone(&self) -> (res: Self)
        ensures
            res == *self,
    {
        Subtask {
            id: self.id,
            task_id: self.task_id,
            assigned_to: self.assigned_to,
            status: self.status,
            title: self.title.clone(),
            description: clone_opt_string(&self.description),
        }
    }
}

impl Clone for Note {
    fn clone(&self) -> (res: Self)
        ensures
            res == *self,
    {
        Note {
            id: self.id,
            user_id: self.user_id,
            company_id: self.company_id,
            project_id: self.project_id,
            task_id: self.task_id,
            subtask_id: self.subtask_id,
            content: self.content.clone(),
            tags: clone_opt_string(&self.tags),
            decoration_color: clone_opt_string(&self.decoration_color),
        }
    }
}

} // verus!
