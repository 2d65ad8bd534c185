use meilisearch_bridge::errors::{BridgeError, BridgeErrorCode};
use meilisearch_bridge::task::{
    now_string, task_decode_failed, task_encode_failed, task_file, task_not_found, task_read_failed,
    task_uid_of_file_name, tasks_dir, timestamp_text, TaskDetails, TaskInfo, TaskProgress, TaskStore,
};

fn names(list: &[&str]) -> Vec<String> {
    list.iter().map(|s| s.to_string()).collect()
}

#[test]
fn an_empty_store_starts_at_uid_one() {
    let store = TaskStore::new("/data", &Vec::new());
    assert_eq!(store.next_uid(), 1);
    assert_eq!(store.dir(), "/data/.tasks");
    assert_eq!(tasks_dir("/data/"), "/data/.tasks");
}

#[test]
fn a_recovered_store_continues_above_the_largest_stored_uid() {
    let store = TaskStore::new("d", &names(&["1.json", "7.json", "3.json", "notes.txt", "9.tmp", ".json", "x.json"]));
    assert_eq!(store.next_uid(), 8);
    let saturated = TaskStore::new("d", &names(&["4294967295.json"]));
    assert_eq!(saturated.next_uid(), u32::MAX);
}

#[test]
fn task_files_are_recognised_by_stem_and_extension() {
    assert_eq!(task_uid_of_file_name("12.json"), Some(12));
    assert_eq!(task_uid_of_file_name("+12.json"), Some(12));
    assert_eq!(task_uid_of_file_name("a.12.json"), None);
    assert_eq!(task_uid_of_file_name("12.json.bak"), None);
    assert_eq!(task_uid_of_file_name(".json"), None);
    assert_eq!(task_uid_of_file_name("12"), None);
    assert_eq!(task_uid_of_file_name("4294967296.json"), None);
    for uid in [0u32, 5, 123456] {
        assert_eq!(task_uid_of_file_name(&task_file(uid)), Some(uid));
    }
}

#[test]
fn task_paths_join_directory_and_file() {
    let store = TaskStore::new("/srv/engine", &Vec::new());
    assert_eq!(store.task_path(42), "/srv/engine/.tasks/42.json");
}

#[test]
fn enqueued_tasks_get_consecutive_uids() {
    let mut store = TaskStore::new("d", &names(&["4.json"]));
    let a = store.create_enqueued_task(Some("movies".into()), "settingsUpdate".into(), None);
    let b = store.create_enqueued_task(None, "documentAdditionOrUpdate".into(), None);
    assert_eq!(a.uid, 5);
    assert_eq!(b.uid, 6);
    assert_eq!(a.status, "enqueued");
    assert_eq!(a.index_uid.as_deref(), Some("movies"));
    assert_eq!(a.task_type, "settingsUpdate");
    assert!(a.started_at.is_none() && a.finished_at.is_none() && a.error.is_none());
    assert!(a.enqueued_at.chars().all(|c| c.is_ascii_digit()));
    assert_eq!(store.next_uid(), 7);
}

#[test]
fn the_uid_counter_wraps_like_an_atomic() {
    let mut store = TaskStore::new("d", &names(&["4294967294.json"]));
    assert_eq!(store.create_enqueued_task(None, "t".into(), None).uid, u32::MAX);
    assert_eq!(store.create_enqueued_task(None, "t".into(), None).uid, 0);
}

fn sample() -> TaskInfo {
    TaskInfo::enqueued_at_time(
        3,
        Some("docs".into()),
        "documentAdditionOrUpdate".into(),
        Some(TaskDetails { received_documents: Some(2), indexed_documents: None, searchable_attributes: None }),
        "100".into(),
    )
}

#[test]
fn the_lifecycle_keeps_identity_and_start_time() {
    let p = sample().processing_at("200".into());
    assert_eq!(p.status, "processing");
    assert_eq!(p.started_at.as_deref(), Some("200"));
    let again = p.clone().processing_at("250".into());
    assert_eq!(again.started_at.as_deref(), Some("200"));
    let s = p.clone().succeeded_at(
        Some(TaskDetails { received_documents: Some(2), indexed_documents: Some(2), searchable_attributes: None }),
        "300".into(),
    );
    assert_eq!(s.status, "succeeded");
    assert_eq!(s.uid, 3);
    assert_eq!(s.enqueued_at, "100");
    assert_eq!(s.started_at.as_deref(), Some("200"));
    assert_eq!(s.finished_at.as_deref(), Some("300"));
    assert_eq!(s.details.as_ref().unwrap().indexed_documents, Some(2));
    assert!(s.error.is_none());
    let kept = p.clone().succeeded_at(None, "300".into());
    assert_eq!(kept.details.as_ref().unwrap().received_documents, Some(2));
    let f = sample().failed_at("InvalidArgument: nope".into(), "400".into());
    assert_eq!(f.status, "failed");
    assert_eq!(f.error.as_deref(), Some("InvalidArgument: nope"));
    assert_eq!(f.started_at.as_deref(), Some("400"));
    assert_eq!(f.finished_at.as_deref(), Some("400"));
}

#[test]
fn only_succeeded_and_failed_are_terminal() {
    let t = sample();
    assert!(!TaskStore::is_terminal(&t));
    let p = t.processing_at("1".into());
    assert!(!TaskStore::is_terminal(&p));
    assert!(TaskStore::is_terminal(&p.clone().succeeded_at(None, "2".into())));
    assert!(TaskStore::is_terminal(&p.failed_at("e".into(), "2".into())));
}

#[test]
fn store_marks_stamp_the_time() {
    let store = TaskStore::new("d", &Vec::new());
    let p = store.mark_processing(sample());
    assert!(p.started_at.as_deref().unwrap().chars().all(|c| c.is_ascii_digit()));
    let s = store.mark_succeeded(p.clone(), None);
    assert_eq!(s.status, "succeeded");
    assert_eq!(s.started_at, p.started_at);
    let f = store.mark_failed(p, "boom".into());
    assert_eq!(f.status, "failed");
    assert_eq!(f.error.as_deref(), Some("boom"));
}

#[test]
fn finishing_a_task_records_its_outcome() {
    let store = TaskStore::new("d", &Vec::new());
    let ok = store.finish_task(
        sample(),
        Ok(TaskDetails { received_documents: Some(2), indexed_documents: Some(1), searchable_attributes: None }),
    );
    assert_eq!(ok.status, "succeeded");
    assert_eq!(ok.details.unwrap().indexed_documents, Some(1));
    let err = store.finish_task(sample(), Err(BridgeError::new(BridgeErrorCode::InvalidArgument, "bad".into())));
    assert_eq!(err.status, "failed");
    assert_eq!(err.error.as_deref(), Some("InvalidArgument: bad"));
    assert!(TaskStore::is_terminal(&err));
}

#[test]
fn timestamps_are_decimal_milliseconds() {
    assert_eq!(timestamp_text(None), "0");
    assert_eq!(timestamp_text(Some(1725029869123)), "1725029869123");
    let now = now_string();
    assert!(now.parse::<u128>().unwrap() > 1_600_000_000_000);
}

#[test]
fn task_lookup_errors() {
    let e = task_not_found(9);
    assert_eq!(e.code, BridgeErrorCode::TaskNotFound);
    assert_eq!(e.message, "Task 9 does not exist");
    assert_eq!(task_read_failed(9, true, "x".into()).code, BridgeErrorCode::TaskNotFound);
    let io = task_read_failed(9, false, "permission denied".into());
    assert_eq!(io.code, BridgeErrorCode::IoError);
    assert_eq!(io.message, "permission denied");
    let d = task_decode_failed(4, "EOF while parsing");
    assert_eq!(d.code, BridgeErrorCode::Internal);
    assert_eq!(d.message, "failed to deserialize task 4: EOF while parsing");
    assert_eq!(task_encode_failed(4, "x").message, "failed to serialize task 4: x");
}

#[test]
fn every_uid_before_the_wrap_is_above_the_stored_ones() {
    let stored = names(&["3.json", "41.json", "17.json"]);
    let mut store = TaskStore::new("d", &stored);
    for k in 0..50u32 {
        let t = store.create_enqueued_task(None, "t".into(), None);
        assert_eq!(t.uid, 42 + k);
        assert!(t.uid > 41);
    }
}

#[test]
fn a_run_moves_forward_and_stays_finished() {

    let run = TaskProgress::new(sample()).start();
    assert_eq!(run.task().status, "processing");
    let started = run.task().started_at.clone();
    let run = run.start();
    assert_eq!(run.task().started_at, started);
    let run = run.finish(Ok(TaskDetails { received_documents: Some(2), indexed_documents: Some(2), searchable_attributes: None }));
    assert_eq!(run.task().status, "succeeded");
    assert_eq!(run.task().details.as_ref().unwrap().indexed_documents, Some(2));
    let finished_at = run.task().finished_at.clone();
    let run = run.start().finish(Err(BridgeError::new(BridgeErrorCode::Internal, "late".into())));
    assert_eq!(run.task().status, "succeeded");
    assert_eq!(run.task().finished_at, finished_at);
    assert!(run.task().error.is_none());
    let failed = TaskProgress::new(sample()).start().finish(Err(BridgeError::new(BridgeErrorCode::IoError, "disk".into())));
    assert_eq!(failed.task().status, "failed");
    assert_eq!(failed.task().error.as_deref(), Some("IoError: disk"));
}
