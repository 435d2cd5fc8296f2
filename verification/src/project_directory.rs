//! Project directories: the record type, the name-update rule and the
//! decisions of get-or-create, which looks a directory up by path, creates
//! it when missing, survives a concurrent creation (unique-constraint
//! conflict) by looking it up again, and brings its name up to date.
use vstd::prelude::*;

use crate::text::{contains_seq, contains_str};

verus! {

/// One registered project directory.
#[derive(Debug, Clone)]
pub struct ProjectDirectory {
    pub id: i64,
    pub path: String,
    pub name: Option<String>,
    pub created_at: Option<String>,
    pub updated_at: Option<String>,
    /// Whether running a todo in this directory creates a git worktree.
    pub git_worktree_enabled: bool,
    /// Whether that worktree is removed once the run ends (only meaningful
    /// when `git_worktree_enabled`).
    pub auto_cleanup: bool,
}

/// The name column write of an update: a non-empty new name is written; no
/// name, or an empty one, leaves the stored name unchanged (`None`).
pub fn name_update(name: Option<&str>) -> (r: Option<String>)
    ensures
        r matches Some(s) ==> name matches Some(n) && s@ == n@,
        r is Some <==> (name matches Some(n) && n@.len() > 0),
{
    match name {
        Some(s) => {
            let v = crate::text::chars_of(s);
            if v.len() > 0 {
                Some(String::from_str(s))
            } else {
                None
            }
        },
        None => None,
    }
}

/// An insert failed because another writer created the same row first: the
/// error's text reports a failed `UNIQUE` constraint.
pub fn is_unique_constraint_error(err_text: &str) -> (b: bool)
    ensures
        b == contains_seq(err_text@, "UNIQUE constraint failed"@),
{
    contains_str(err_text, "UNIQUE constraint failed")
}

/// `name` asks for a rename of a directory currently named `existing`: a
/// name is given and differs from the stored one (a missing stored name
/// differs from every given name).
pub open spec fn wants_rename(existing: Option<String>, name: Option<Seq<char>>) -> bool {
    match name {
        Some(n) => match existing {
            Some(e) => e@ != n,
            None => true,
        },
        None => false,
    }
}

/// Exec test of [`wants_rename`].
pub fn needs_rename(existing: &Option<String>, name: Option<&str>) -> (b: bool)
    ensures
        b == wants_rename(*existing, match name {
            Some(n) => Some(n@),
            None => None,
        }),
{
    match name {
        Some(n) => match existing {
            Some(e) => {
                let nn = String::from_str(n);
                !(*e == nn)
            },
            None => true,
        },
        None => false,
    }
}

/// Where get-or-create stands: which answer it waits for.
#[derive(Debug, Clone, Copy, PartialEq, Eq, Structural)]
pub enum GetOrCreatePhase {
    Start,
    /// Waits for the lookup by path.
    AwaitLookup,
    /// Waits for the insert.
    AwaitCreate,
    /// Waits for the lookup by path after a unique-constraint conflict.
    AwaitConflictLookup,
    /// Waits for the rename of directory `id`.
    AwaitRename { id: i64 },
    /// Waits for the reload after a rename.
    AwaitRenameReload,
    /// Waits for the reload of the directory just inserted.
    AwaitCreatedReload,
    Finished,
}

/// What the database answered to the last action.
pub enum GetOrCreateEvent {
    Started,
    /// A lookup (by path or by id) returned this row, if any.
    Found(Option<ProjectDirectory>),
    /// The insert returned the new id, or failed with this error text.
    Created(Result<i64, String>),
    /// The rename was written.
    Renamed,
}

/// Why get-or-create gives up.
#[derive(Debug, Clone, Copy, PartialEq, Eq, Structural)]
pub enum GetOrCreateError {
    /// The row inserted by a concurrent writer was gone on re-lookup.
    DisappearedAfterConflict,
    /// The row was gone when reloaded after the rename.
    DisappearedAfterRename,
    /// The freshly inserted row could not be read back.
    CreatedNotFound,
}

impl GetOrCreateError {
    /// The error text reported to the caller.
    pub fn message(&self) -> (s: &'static str)
        ensures
            *self is DisappearedAfterConflict ==> s@ == "Directory disappeared after conflict"@,
            *self is DisappearedAfterRename ==> s@ == "Directory disappeared after rename"@,
            *self is CreatedNotFound ==> s@ == "Failed to retrieve created directory"@,
    {
        match self {
            GetOrCreateError::DisappearedAfterConflict => "Directory disappeared after conflict",
            GetOrCreateError::DisappearedAfterRename => "Directory disappeared after rename",
            GetOrCreateError::CreatedNotFound => "Failed to retrieve created directory",
        }
    }
}

/// The next database action of get-or-create.
pub enum GetOrCreateAction {
    /// Look the directory up by its path.
    LookupByPath,
    /// Insert it with the requested name and both worktree switches off.
    Create,
    /// Write `name` as the name of directory `id`.
    Rename { id: i64, name: String },
    /// Read directory `id` back.
    ReloadById { id: i64 },
    /// Return this directory.
    Done(ProjectDirectory),
    /// Return the insert's own error unchanged.
    PropagateCreateError,
    /// Give up with this error.
    Fail(GetOrCreateError),
}

/// `event` is the kind of answer that `phase` waits for.
pub open spec fn accepts(phase: GetOrCreatePhase, event: GetOrCreateEvent) -> bool {
    match phase {
        GetOrCreatePhase::Start => event is Started,
        GetOrCreatePhase::AwaitLookup => event is Found,
        GetOrCreatePhase::AwaitCreate => event is Created,
        GetOrCreatePhase::AwaitConflictLookup => event is Found,
        GetOrCreatePhase::AwaitRename { .. } => event is Renamed,
        GetOrCreatePhase::AwaitRenameReload => event is Found,
        GetOrCreatePhase::AwaitCreatedReload => event is Found,
        GetOrCreatePhase::Finished => false,
    }
}

/// How many answers `phase` can still wait for at most; every step lowers
/// it, so get-or-create ends after at most five database calls.
pub open spec fn remaining_calls(phase: GetOrCreatePhase) -> nat {
    match phase {
        GetOrCreatePhase::Start => 6,
        GetOrCreatePhase::AwaitLookup => 5,
        GetOrCreatePhase::AwaitCreate => 4,
        GetOrCreatePhase::AwaitConflictLookup => 3,
        GetOrCreatePhase::AwaitRename { .. } => 2,
        GetOrCreatePhase::AwaitRenameReload => 1,
        GetOrCreatePhase::AwaitCreatedReload => 1,
        GetOrCreatePhase::Finished => 0,
    }
}

/// The requested name as a character sequence.
pub open spec fn requested(name: Option<&str>) -> Option<Seq<char>> {
    match name {
        Some(n) => Some(n@),
        None => None,
    }
}

/// After a successful lookup of `d`: rename it when the requested name
/// differs, otherwise return it as found.
pub open spec fn after_found(d: ProjectDirectory, name: Option<&str>, next: (GetOrCreatePhase, GetOrCreateAction)) -> bool {
    if wants_rename(d.name, requested(name)) {
        &&& next.0 == GetOrCreatePhase::AwaitRename { id: d.id }
        &&& next.1 matches GetOrCreateAction::Rename { id, name: new_name }
        &&& id == d.id
        &&& name matches Some(n) && new_name@ == n@
    } else {
        next.0 == GetOrCreatePhase::Finished && next.1 == GetOrCreateAction::Done(d)
    }
}

/// One step of get-or-create for the directory at a path, with an optional
/// requested name: from the phase and the database's answer to the next
/// phase and action. A requested name that differs from the stored one is
/// written (and the row re-read); no requested name never changes the stored
/// name. An insert that loses a race to a concurrent writer (unique
/// constraint) is answered by looking the row up again; any other insert
/// error is returned as it is.
pub fn get_or_create_step(phase: GetOrCreatePhase, event: GetOrCreateEvent, name: Option<&str>) -> (next: (GetOrCreatePhase, GetOrCreateAction))
    requires
        accepts(phase, event),
    ensures
        remaining_calls(next.0) < remaining_calls(phase),
        next.0 is Finished <==> (next.1 is Done || next.1 is PropagateCreateError || next.1 is Fail),
        name is None ==> !(next.1 is Rename),
        phase is Start ==> next.0 is AwaitLookup && next.1 is LookupByPath,
        phase is AwaitLookup ==> match event {
            GetOrCreateEvent::Found(Some(d)) => after_found(d, name, next),
            _ => next.0 is AwaitCreate && next.1 is Create,
        },
        phase is AwaitCreate ==> match event {
            GetOrCreateEvent::Created(Ok(id)) => next.0 is AwaitCreatedReload && next.1
                == (GetOrCreateAction::ReloadById { id }),
            GetOrCreateEvent::Created(Err(e)) => if contains_seq(e@, "UNIQUE constraint failed"@) {
                next.0 is AwaitConflictLookup && next.1 is LookupByPath
            } else {
                next.1 is PropagateCreateError
            },
            _ => false,
        },
        phase is AwaitConflictLookup ==> match event {
            GetOrCreateEvent::Found(Some(d)) => after_found(d, name, next),
            _ => next.1 == GetOrCreateAction::Fail(GetOrCreateError::DisappearedAfterConflict),
        },
        phase matches GetOrCreatePhase::AwaitRename { id } ==> next.0 is AwaitRenameReload && next.1
            == (GetOrCreateAction::ReloadById { id }),
        phase is AwaitRenameReload ==> match event {
            GetOrCreateEvent::Found(Some(d)) => next.1 == GetOrCreateAction::Done(d),
            _ => next.1 == GetOrCreateAction::Fail(GetOrCreateError::DisappearedAfterRename),
        },
        phase is AwaitCreatedReload ==> match event {
            GetOrCreateEvent::Found(Some(d)) => next.1 == GetOrCreateAction::Done(d),
            _ => next.1 == GetOrCreateAction::Fail(GetOrCreateError::CreatedNotFound),
        },
{
    match phase {
        GetOrCreatePhase::Start => (GetOrCreatePhase::AwaitLookup, GetOrCreateAction::LookupByPath),
        GetOrCreatePhase::AwaitLookup | GetOrCreatePhase::AwaitConflictLookup => {
            match event {
                GetOrCreateEvent::Found(Some(d)) => found_step(d, name),
                _ => {
                    if phase == GetOrCreatePhase::AwaitLookup {
                        (GetOrCreatePhase::AwaitCreate, GetOrCreateAction::Create)
                    } else {
                        (
                            GetOrCreatePhase::Finished,
                            GetOrCreateAction::Fail(GetOrCreateError::DisappearedAfterConflict),
                        )
                    }
                },
            }
        },
        GetOrCreatePhase::AwaitCreate => {
            match event {
                GetOrCreateEvent::Created(Ok(id)) => (
                    GetOrCreatePhase::AwaitCreatedReload,
                    GetOrCreateAction::ReloadById { id },
                ),
                GetOrCreateEvent::Created(Err(e)) => {
                    if is_unique_constraint_error(e.as_str()) {
                        (GetOrCreatePhase::AwaitConflictLookup, GetOrCreateAction::LookupByPath)
                    } else {
                        (GetOrCreatePhase::Finished, GetOrCreateAction::PropagateCreateError)
                    }
                },
                _ => (GetOrCreatePhase::Finished, GetOrCreateAction::PropagateCreateError),
            }
        },
        GetOrCreatePhase::AwaitRename { id } => (
            GetOrCreatePhase::AwaitRenameReload,
            GetOrCreateAction::ReloadById { id },
        ),
        GetOrCreatePhase::AwaitRenameReload => {
            match event {
                GetOrCreateEvent::Found(Some(d)) => (GetOrCreatePhase::Finished, GetOrCreateAction::Done(d)),
                _ => (
                    GetOrCreatePhase::Finished,
                    GetOrCreateAction::Fail(GetOrCreateError::DisappearedAfterRename),
                ),
            }
        },
        GetOrCreatePhase::AwaitCreatedReload => {
            match event {
                GetOrCreateEvent::Found(Some(d)) => (GetOrCreatePhase::Finished, GetOrCreateAction::Done(d)),
                _ => (
                    GetOrCreatePhase::Finished,
                    GetOrCreateAction::Fail(GetOrCreateError::CreatedNotFound),
                ),
            }
        },
        GetOrCreatePhase::Finished => (GetOrCreatePhase::Finished, GetOrCreateAction::PropagateCreateError),
    }
}

fn found_step(d: ProjectDirectory, name: Option<&str>) -> (next: (GetOrCreatePhase, GetOrCreateAction))
    ensures
        after_found(d, name, next),
        next.0 is Finished <==> next.1 is Done,
        next.0 is AwaitRename || next.0 is Finished,
{
    if needs_rename(&d.name, name) {
        match name {
            Some(n) => {
                let id = d.id;
                (GetOrCreatePhase::AwaitRename { id }, GetOrCreateAction::Rename { id, name: String::from_str(n) })
            },
            None => (GetOrCreatePhase::Finished, GetOrCreateAction::Done(d)),
        }
    } else {
        (GetOrCreatePhase::Finished, GetOrCreateAction::Done(d))
    }
}

} // verus!
