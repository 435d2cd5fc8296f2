use ntd_db::project_directory::{
    get_or_create_step, is_unique_constraint_error, name_update, needs_rename, GetOrCreateAction,
    GetOrCreateError, GetOrCreateEvent, GetOrCreatePhase, ProjectDirectory,
};

fn dir(id: i64, name: Option<&str>) -> ProjectDirectory {
    ProjectDirectory {
        id,
        path: "/work/a".to_string(),
        name: name.map(|s| s.to_string()),
        created_at: Some("2024-01-01T00:00:00Z".to_string()),
        updated_at: None,
        git_worktree_enabled: false,
        auto_cleanup: false,
    }
}

fn start(name: Option<&str>) -> GetOrCreatePhase {
    let (p, a) = get_or_create_step(GetOrCreatePhase::Start, GetOrCreateEvent::Started, name);
    assert!(matches!(a, GetOrCreateAction::LookupByPath));
    p
}

#[test]
fn name_update_rule() {
    assert_eq!(name_update(None), None);
    assert_eq!(name_update(Some("")), None);
    assert_eq!(name_update(Some("proj")), Some("proj".to_string()));
}

#[test]
fn unique_constraint_detection() {
    assert!(is_unique_constraint_error(
        "Exec(SqlxError(Database(SqliteError { code: 2067, message: \"UNIQUE constraint failed: project_directories.path\" })))"
    ));
    assert!(!is_unique_constraint_error("Exec(SqlxError(PoolTimedOut))"));
}

#[test]
fn rename_needed_only_for_a_different_name() {
    assert!(!needs_rename(&Some("a".to_string()), None));
    assert!(!needs_rename(&None, None));
    assert!(!needs_rename(&Some("a".to_string()), Some("a")));
    assert!(needs_rename(&Some("a".to_string()), Some("b")));
    assert!(needs_rename(&None, Some("b")));
}

#[test]
fn existing_directory_is_returned_unchanged_without_a_name() {
    let p = start(None);
    let (p, a) = get_or_create_step(p, GetOrCreateEvent::Found(Some(dir(7, Some("old")))), None);
    assert_eq!(p, GetOrCreatePhase::Finished);
    match a {
        GetOrCreateAction::Done(d) => assert_eq!((d.id, d.name.as_deref()), (7, Some("old"))),
        _ => panic!("expected Done"),
    }
}

#[test]
fn existing_directory_is_renamed_and_reloaded() {
    let p = start(Some("new"));
    let (p, a) = get_or_create_step(p, GetOrCreateEvent::Found(Some(dir(7, Some("old")))), Some("new"));
    assert_eq!(p, GetOrCreatePhase::AwaitRename { id: 7 });
    match a {
        GetOrCreateAction::Rename { id, name } => assert_eq!((id, name.as_str()), (7, "new")),
        _ => panic!("expected Rename"),
    }
    let (p, a) = get_or_create_step(p, GetOrCreateEvent::Renamed, Some("new"));
    assert_eq!(p, GetOrCreatePhase::AwaitRenameReload);
    assert!(matches!(a, GetOrCreateAction::ReloadById { id: 7 }));
    let (p, a) = get_or_create_step(p, GetOrCreateEvent::Found(None), Some("new"));
    assert_eq!(p, GetOrCreatePhase::Finished);
    assert!(matches!(a, GetOrCreateAction::Fail(GetOrCreateError::DisappearedAfterRename)));
    assert_eq!(GetOrCreateError::DisappearedAfterRename.message(), "Directory disappeared after rename");
}

#[test]
fn missing_directory_is_created_and_read_back() {
    let p = start(Some("n"));
    let (p, a) = get_or_create_step(p, GetOrCreateEvent::Found(None), Some("n"));
    assert_eq!(p, GetOrCreatePhase::AwaitCreate);
    assert!(matches!(a, GetOrCreateAction::Create));
    let (p, a) = get_or_create_step(p, GetOrCreateEvent::Created(Ok(11)), Some("n"));
    assert_eq!(p, GetOrCreatePhase::AwaitCreatedReload);
    assert!(matches!(a, GetOrCreateAction::ReloadById { id: 11 }));
    let (p, a) = get_or_create_step(p, GetOrCreateEvent::Found(Some(dir(11, Some("n")))), Some("n"));
    assert_eq!(p, GetOrCreatePhase::Finished);
    assert!(matches!(a, GetOrCreateAction::Done(d) if d.id == 11));
    assert_eq!(GetOrCreateError::CreatedNotFound.message(), "Failed to retrieve created directory");
}

#[test]
fn lost_creation_race_looks_up_again() {
    let p = start(Some("n"));
    let (p, _) = get_or_create_step(p, GetOrCreateEvent::Found(None), Some("n"));
    let err = "UNIQUE constraint failed: project_directories.path".to_string();
    let (p, a) = get_or_create_step(p, GetOrCreateEvent::Created(Err(err)), Some("n"));
    assert_eq!(p, GetOrCreatePhase::AwaitConflictLookup);
    assert!(matches!(a, GetOrCreateAction::LookupByPath));
    // the winner's row has another name: it is renamed
    let (p, a) = get_or_create_step(p, GetOrCreateEvent::Found(Some(dir(3, None))), Some("n"));
    assert_eq!(p, GetOrCreatePhase::AwaitRename { id: 3 });
    assert!(matches!(a, GetOrCreateAction::Rename { id: 3, .. }));
}

#[test]
fn conflict_without_row_fails_and_other_errors_propagate() {
    let p = start(None);
    let (p, _) = get_or_create_step(p, GetOrCreateEvent::Found(None), None);
    let (q, a) = get_or_create_step(p, GetOrCreateEvent::Created(Err("disk I/O error".to_string())), None);
    assert_eq!(q, GetOrCreatePhase::Finished);
    assert!(matches!(a, GetOrCreateAction::PropagateCreateError));
    let (p, _) = get_or_create_step(
        p,
        GetOrCreateEvent::Created(Err("UNIQUE constraint failed: x".to_string())),
        None,
    );
    let (p, a) = get_or_create_step(p, GetOrCreateEvent::Found(None), None);
    assert_eq!(p, GetOrCreatePhase::Finished);
    assert!(matches!(a, GetOrCreateAction::Fail(GetOrCreateError::DisappearedAfterConflict)));
    assert_eq!(GetOrCreateError::DisappearedAfterConflict.message(), "Directory disappeared after conflict");
}
