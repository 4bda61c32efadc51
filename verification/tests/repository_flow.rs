use autocommit::commit::commit_changes;
use autocommit::diff::extract_diff;
use autocommit::errors::PipelineError;
use autocommit::pipeline::{Pipeline, PipelineState, Stage};
use autocommit::response::JsonValue;

fn open_test_repo(dir: &tempfile::TempDir) -> git2::Repository {
    let repo = git2::Repository::init(dir.path()).unwrap();
    let mut config = repo.config().unwrap();
    config.set_str("user.name", "Tester").unwrap();
    config.set_str("user.email", "tester@example.com").unwrap();
    repo
}

fn initial_commit(repo: &git2::Repository) -> git2::Oid {
    let mut index = repo.index().unwrap();
    let tree_id = index.write_tree().unwrap();
    let tree = repo.find_tree(tree_id).unwrap();
    let signature = repo.signature().unwrap();
    repo.commit(Some("HEAD"), &signature, &signature, "initial", &tree, &[]).unwrap()
}

fn stage_file(repo: &git2::Repository, path: &str, data: &[u8]) {
    let mut index = repo.index().unwrap();
    let entry = git2::IndexEntry {
        ctime: git2::IndexTime::new(0, 0),
        mtime: git2::IndexTime::new(0, 0),
        dev: 0,
        ino: 0,
        mode: 0o100644,
        uid: 0,
        gid: 0,
        file_size: data.len() as u32,
        id: git2::Oid::ZERO_SHA1,
        flags: 0,
        flags_extended: 0,
        path: path.as_bytes().to_vec(),
    };
    index.add_frombuffer(&entry, data).unwrap();
    index.write().unwrap();
}

fn reply_doc(message: &str) -> JsonValue {
    JsonValue::Object(vec![(
        "choices".to_string(),
        JsonValue::List(vec![JsonValue::Object(vec![(
            "message".to_string(),
            JsonValue::Object(vec![(
                "content".to_string(),
                JsonValue::Text(message.to_string()),
            )]),
        )])]),
    )])
}

#[test]
fn no_changes_gives_an_empty_diff_and_the_pipeline_proceeds() {
    let dir = tempfile::tempdir().unwrap();
    let repo = open_test_repo(&dir);
    let prior = initial_commit(&repo);

    assert_eq!(extract_diff(&repo).unwrap(), "");

    let mut pipeline = Pipeline::new("gpt-4o".to_string());
    pipeline.compute_diff(&repo);
    match &pipeline.state {
        PipelineState::DiffComputed(diff) => assert_eq!(diff, ""),
        _ => panic!("diff stage did not complete"),
    }

    let request = pipeline.pending_request().unwrap();
    assert_eq!(request.messages.len(), 1);
    assert!(request.messages[0].content.ends_with(" change diff: "));

    pipeline.absorb_generation(Ok(reply_doc("chore: noop")));
    match &pipeline.state {
        PipelineState::MessageGenerated(message) => assert_eq!(message, "chore: noop"),
        _ => panic!("generation stage did not complete"),
    }

    pipeline.commit(&repo);
    let commit_id = match &pipeline.state {
        PipelineState::Committed(id) => id.clone(),
        _ => panic!("commit stage did not complete"),
    };

    let head = repo.head().unwrap().peel_to_commit().unwrap();
    assert_eq!(head.id().to_string(), commit_id);
    assert_eq!(head.parent_count(), 1);
    assert_eq!(head.parent_id(0).unwrap(), prior);
    assert_eq!(head.message().unwrap(), "chore: noop");
}

#[test]
fn commit_advances_head_with_one_parent_and_the_index_tree() {
    let dir = tempfile::tempdir().unwrap();
    let repo = open_test_repo(&dir);
    stage_file(&repo, "a.txt", b"hello\n");
    let prior = initial_commit(&repo);

    let commit_id = commit_changes(&repo, "chore: update").unwrap();

    let head = repo.head().unwrap().peel_to_commit().unwrap();
    assert_eq!(head.id().to_string(), commit_id);
    assert_eq!(head.parent_count(), 1);
    assert_eq!(head.parent_id(0).unwrap(), prior);
    assert_eq!(head.message().unwrap(), "chore: update");
    let mut index = repo.index().unwrap();
    assert_eq!(head.tree_id(), index.write_tree().unwrap());
}

#[test]
fn commit_on_an_unborn_head_fails_with_commit_creation_error() {
    let dir = tempfile::tempdir().unwrap();
    let repo = open_test_repo(&dir);

    let result = commit_changes(&repo, "chore: update");
    assert!(matches!(result, Err(PipelineError::CommitCreationError(_))));

    assert!(repo.head().is_err());
}

#[test]
fn diff_on_a_bare_repository_fails_with_repository_access_error() {
    let dir = tempfile::tempdir().unwrap();
    let repo = git2::Repository::init_bare(dir.path()).unwrap();

    let result = extract_diff(&repo);
    assert!(matches!(result, Err(PipelineError::RepositoryAccessError(_))));
}

#[test]
fn transport_failure_stops_the_run_before_any_commit() {
    let dir = tempfile::tempdir().unwrap();
    let repo = open_test_repo(&dir);
    let prior = initial_commit(&repo);

    let mut pipeline = Pipeline::new("gpt-4o".to_string());
    pipeline.compute_diff(&repo);
    pipeline.absorb_generation(Err("connection reset".to_string()));
    match &pipeline.state {
        PipelineState::Failed(Stage::Generate, PipelineError::GenerationError(cause)) => {
            assert_eq!(cause, "connection reset")
        },
        _ => panic!("transport failure was not recorded at the generation stage"),
    }
    if let PipelineState::Failed(_, cause) = &pipeline.state {
        assert_eq!(cause.message(), "connection reset");
    }

    let head = repo.head().unwrap().peel_to_commit().unwrap();
    assert_eq!(head.id(), prior);
}

#[test]
fn one_modified_tracked_file_ends_in_one_commit_with_the_stubbed_message() {
    let dir = tempfile::tempdir().unwrap();
    let repo = open_test_repo(&dir);
    stage_file(&repo, "a.txt", b"hello\n");
    let prior = initial_commit(&repo);

    let diff = extract_diff(&repo).unwrap();
    assert!(diff.contains("-hello\n"));

    let mut pipeline = Pipeline::new("gpt-4o".to_string());
    pipeline.compute_diff(&repo);
    match &pipeline.state {
        PipelineState::DiffComputed(stored) => assert_eq!(stored, &diff),
        _ => panic!("diff stage did not complete"),
    }

    let request = pipeline.pending_request().unwrap();
    assert!(request.messages[0].content.contains("-hello\n"));

    pipeline.absorb_generation(Ok(reply_doc("fix: restore greeting")));
    pipeline.commit(&repo);
    let commit_id = match &pipeline.state {
        PipelineState::Committed(id) => id.clone(),
        _ => panic!("commit stage did not complete"),
    };

    let head = repo.head().unwrap().peel_to_commit().unwrap();
    assert_eq!(head.id().to_string(), commit_id);
    assert_eq!(head.message().unwrap(), "fix: restore greeting");
    assert_eq!(head.parent_count(), 1);
    assert_eq!(head.parent_id(0).unwrap(), prior);
}

#[test]
fn an_empty_generated_message_is_still_committed() {
    let dir = tempfile::tempdir().unwrap();
    let repo = open_test_repo(&dir);
    let prior = initial_commit(&repo);

    let mut pipeline = Pipeline::new("gpt-4o".to_string());
    pipeline.compute_diff(&repo);
    pipeline.absorb_generation(Ok(JsonValue::Object(vec![])));
    match &pipeline.state {
        PipelineState::MessageGenerated(message) => assert_eq!(message, ""),
        _ => panic!("generation stage did not complete"),
    }

    pipeline.commit(&repo);
    assert!(matches!(pipeline.state, PipelineState::Committed(_)));
    let head = repo.head().unwrap().peel_to_commit().unwrap();
    assert_eq!(head.message().unwrap_or("missing"), "");
    assert_eq!(head.parent_id(0).unwrap(), prior);
}
