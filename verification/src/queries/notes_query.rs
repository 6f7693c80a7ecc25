use vstd::prelude::*;

use crate::errors::CoreErrors;
use crate::find::{lemma_first_index_where_properties, max_key};
use crate::hierarchy::{note_id_key, HierarchyIndex, Note};
use crate::model::{scope_count, GrantStore, ResourceKind};
use crate::resolver::{resolve, resolve_spec};

verus! {

/// Queries and mutations about notes.
pub struct NotesQuery;

impl NotesQuery {
    /// Creates a note attached to at most one hierarchy level; a request
    /// naming more than one scope is rejected before anything is written.
    pub fn create_note(
        hierarchy: &mut HierarchyIndex,
        user_id: i32,
        project_id: Option<i32>,
        company_id: Option<i32>,
        task_id: Option<i32>,
        subtask_id: Option<i32>,
        content: String,
        tags: String,
        decoration_color: String,
    ) -> (r: Result<Note, CoreErrors>)
        requires
            old(hierarchy).wf(),
        ensures
            final(hierarchy).wf(),
            scope_count(company_id, project_id, task_id, subtask_id) > 1 ==> crate::errors::is_db_error(
                r,
                "invalid_resource_scope"@,
            ) && final(hierarchy).notes@ == old(hierarchy).notes@,
            r matches Ok(n) ==> {
                &&& scope_count(company_id, project_id, task_id, subtask_id) <= 1
                &&& n.user_id == user_id
                &&& n.company_id == company_id
                &&& n.project_id == project_id
                &&& n.task_id == task_id
                &&& n.subtask_id == subtask_id
                &&& n.content == content
                &&& n.tags == Some(tags)
                &&& n.decoration_color == Some(decoration_color)
                &&& (forall|j: int|
                    0 <= j < old(hierarchy).notes@.len() ==> (#[trigger] old(
                        hierarchy,
                    ).notes@[j]).id < n.id)
                &&& final(hierarchy).notes@ == old(hierarchy).notes@.push(n)
            },
            r is Ok <==> scope_count(company_id, project_id, task_id, subtask_id) <= 1
                && max_key(old(hierarchy).notes@, note_id_key()) < i32::MAX as int,
            r matches Ok(n) ==> n.id as int == max_key(old(hierarchy).notes@, note_id_key()) + 1,
            r is Err ==> final(hierarchy).notes@ == old(hierarchy).notes@,
            final(hierarchy).companies@ == old(hierarchy).companies@,
            final(hierarchy).projects@ == old(hierarchy).projects@,
            final(hierarchy).tasks@ == old(hierarchy).tasks@,
            final(hierarchy).subtasks@ == old(hierarchy).subtasks@,
    {
        let scopes = crate::model::count_scopes(&company_id, &project_id, &task_id, &subtask_id);
        if scopes > 1 {
            let s: &str = "invalid_resource_scope";
            return Err(CoreErrors::DatabaseServiceError(s.to_owned()));
        }
        let note_id = match hierarchy.fresh_note_id() {
            Some(id) => id,
            None => {
                let s: &str = "Failed to create note";
                return Err(CoreErrors::DatabaseServiceError(s.to_owned()));
            },
        };
        let row = Note {
            id: note_id,
            user_id,
            company_id,
            project_id,
            task_id,
            subtask_id,
            content,
            tags: Some(tags),
            decoration_color: Some(decoration_color),
        };
        let result = row.clone();
        hierarchy.insert_note(row);
        Ok(result)
    }

    /// Whether the user may touch the note: its author always may, and so
    /// may anyone the resolver grants standing on it. Hands the note back on
    /// success, and nothing otherwise — whether the note is missing or the
    /// user lacks permission.
    pub fn check_user_permission(
        grants: &GrantStore,
        hierarchy: &HierarchyIndex,
        note_id: i32,
        user_id: i32,
    ) -> (r: Option<Note>)
        ensures
            r is Some <==> resolve_spec(
                *grants,
                *hierarchy,
                user_id,
                ResourceKind::Note,
                note_id,
            ) is Some,
            r matches Some(n) ==> hierarchy.note_by_id(note_id) == Some(n),
    {
        if resolve(grants, hierarchy, user_id, ResourceKind::Note, note_id).is_none() {
            return None;
        }
        match hierarchy.find_note(note_id) {
            Some(n) => Some(n.clone()),
            None => None,
        }
    }

    /// Deletes the note row itself; reports an error when it is absent.
    pub fn delete_note(hierarchy: &mut HierarchyIndex, note_id: i32) -> (r: Result<(), CoreErrors>)
        requires
            old(hierarchy).wf(),
        ensures
            final(hierarchy).wf(),
            r is Ok <==> old(hierarchy).note_by_id(note_id) is Some,
            final(hierarchy).notes@ == old(hierarchy).notes@.filter(|n: Note| n.id != note_id),
            final(hierarchy).note_by_id(note_id) is None,
            r is Err ==> crate::errors::is_db_error(r, "Note with the given id does not exist"@)
                && final(hierarchy).notes@ == old(hierarchy).notes@,
            final(hierarchy).companies@ == old(hierarchy).companies@,
            final(hierarchy).projects@ == old(hierarchy).projects@,
            final(hierarchy).tasks@ == old(hierarchy).tasks@,
            final(hierarchy).subtasks@ == old(hierarchy).subtasks@,
    {
        let exists = hierarchy.find_note(note_id).is_some();
        hierarchy.remove_note_row(note_id);
        if exists {
            Ok(())
        } else {
            proof {
                lemma_first_index_where_properties(
                    old(hierarchy).notes@,
                    crate::hierarchy::note_pred(note_id),
                );
                crate::find::lemma_filter_all_true(
                    old(hierarchy).notes@,
                    |n: Note| n.id != note_id,
                );
            }
            let s: &str = "Note with the given id does not exist";
            Err(CoreErrors::DatabaseServiceError(s.to_owned()))
        }
    }
}

} // verus!
