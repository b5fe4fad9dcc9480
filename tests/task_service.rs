use chunkmydocs::config::Config;
use chunkmydocs::ids::is_valid_task_id;
use chunkmydocs::queue::WorkQueue;
use chunkmydocs::repository::{InsertError, TaskRepository};
use chunkmydocs::service::{TaskError, TaskService};
use chunkmydocs::status::Status;
use chunkmydocs::store::{ObjectStore, StoreError};
use chunkmydocs::task::{Model, Task, UpdateError};

fn config(expiration: Option<u64>) -> Config {
    Config {
        version: "1".to_string(),
        extraction_queue: "extraction".to_string(),
        grobid_url: "http://grobid".to_string(),
        pdla_url: "http://pdla".to_string(),
        pdla_fast_url: "http://pdla-fast".to_string(),
        table_ocr_url: "http://table-ocr".to_string(),
        task_expiration: expiration,
        s3_bucket: "bucket".to_string(),
        batch_size: 10,
        base_url: "http://localhost:8000".to_string(),
    }
}

fn service(store_capacity: usize, queue_capacity: usize) -> TaskService {
    TaskService::new(
        config(Some(3600)),
        ObjectStore::new(store_capacity),
        TaskRepository::new(),
        WorkQueue::new(queue_capacity),
    )
}

fn doc_5kb() -> Vec<u8> {
    vec![7u8; 5 * 1024]
}

const ID_A: &str = "550e8400-e29b-41d4-a716-446655440000";
const ID_B: &str = "6ba7b810-9dad-11d1-80b4-00c04fd430c8";

#[test]
fn scenario_a_create_then_get_is_starting() {
    let mut s = service(10, 10);
    let id = s.create_task("u1", Model::Fast, doc_5kb(), 100).unwrap();
    assert_eq!(id.len(), 36);
    assert!(is_valid_task_id(&id));
    assert_eq!(&id[8..9], "-");
    assert_eq!(s.config().task_expiration, Some(3600));
    let t = s.get_task("u1", &id).unwrap();
    assert_eq!(t.id, id);
    let checked = s.get_task_checked("u1", &id).unwrap();
    assert_eq!(checked.status, Status::Starting);
    assert_eq!(t.owner, "u1");
    assert_eq!(t.model, Model::Fast);
    assert_eq!(t.status, Status::Starting);
    assert_eq!(t.input_location, format!("input/{}", id));
    assert!(t.output_location.is_none());
    assert!(t.error.is_none());
    assert_eq!(t.created_at, 100);
    assert_eq!(t.expires_at, Some(3700));
    assert_eq!(s.objects().get(&t.input_location).unwrap(), &doc_5kb());
    assert_eq!(s.queue().len(), 1);
}

#[test]
fn created_ids_differ() {
    let mut s = service(10, 10);
    let a = s.create_task("u1", Model::Fast, vec![1], 0).unwrap();
    let b = s.create_task("u1", Model::HighQuality, vec![2], 0).unwrap();
    assert_ne!(a, b);
    assert_eq!(s.get_task("u1", &b).unwrap().model, Model::HighQuality);
}

#[test]
fn create_with_id_enqueues_the_id() {
    let mut s = service(10, 10);
    let id = s.create_task_with_id("u1", Model::Fast, vec![1, 2, 3], ID_A.to_string(), 5).unwrap();
    assert_eq!(id, ID_A);
    assert_eq!(s.queue().len(), 1);
    assert_eq!(s.next_message(), Some(ID_A.to_string()));
    assert_eq!(s.next_message(), None);
}

#[test]
fn scenario_b_worker_moves_task_to_succeeded() {
    let mut s = service(10, 10);
    let t = s.create_task("u1", Model::Fast, doc_5kb(), 0).unwrap();
    assert_eq!(s.update_status(&t, Status::Starting, Status::Processing, None), Ok(()));
    assert_eq!(s.get_task("u1", &t).unwrap().status, Status::Processing);
    let out = format!("o/{}", t);
    assert_eq!(s.update_status(&t, Status::Processing, Status::Succeeded, Some(out.clone())), Ok(()));
    let r = s.get_task("u1", &t).unwrap();
    assert_eq!(r.status, Status::Succeeded);
    assert_eq!(r.output_location, Some(out));
    assert!(r.error.is_none());
}

#[test]
fn scenario_c_unknown_id_is_not_found() {
    let mut s = service(10, 10);
    assert_eq!(s.get_task("u1", "nonexistent-id").err(), Some(TaskError::NotFound));
    s.create_task("u1", Model::Fast, vec![1], 0).unwrap();
    assert_eq!(s.get_task("u1", "nonexistent-id").err(), Some(TaskError::NotFound));
    assert_eq!(s.get_task("u1", ID_B).err(), Some(TaskError::NotFound));
}

#[test]
fn malformed_id_is_a_validation_error() {
    let s = service(10, 10);
    assert_eq!(s.get_task_checked("u1", "nonexistent-id").err(), Some(TaskError::Validation));
    assert_eq!(s.get_task_checked("u1", "").err(), Some(TaskError::Validation));
    assert_eq!(s.get_task_checked("u1", ID_B).err(), Some(TaskError::NotFound));
    assert!(is_valid_task_id("URN:UUID:550E8400-E29B-41D4-A716-446655440000"));
    assert!(!is_valid_task_id("urn:uuid:550e8400e29b41d4a716446655440000"));
    assert!(!is_valid_task_id("550e8400-e29b41d4-a716-4466554400000"));
    assert!(!is_valid_task_id("nonexistent-id"));
    assert!(is_valid_task_id(ID_A));
    assert!(is_valid_task_id("550e8400e29b41d4a716446655440000"));
    assert!(is_valid_task_id("{550e8400-e29b-41d4-a716-446655440000}"));
    assert!(is_valid_task_id("urn:uuid:550e8400-e29b-41d4-a716-446655440000"));
    assert!(!is_valid_task_id("550e8400-e29b-41d4-a716-44665544000g"));
}

#[test]
fn scenario_d_store_failure_leaves_no_record() {
    let mut s = service(0, 10);
    assert_eq!(s.create_task("u1", Model::Fast, doc_5kb(), 0), Err(TaskError::Transient));
    let r = s.create_task_with_id("u1", Model::Fast, doc_5kb(), ID_A.to_string(), 0);
    assert_eq!(r, Err(TaskError::Transient));
    assert!(!s.tasks().contains(&ID_A.to_string()));
    assert_eq!(s.get_task("u1", ID_A).err(), Some(TaskError::NotFound));
    assert_eq!(s.queue().len(), 0);
}

#[test]
fn queue_failure_leaves_visible_starting_record() {
    let mut s = service(10, 0);
    let r = s.create_task_with_id("u1", Model::Fast, vec![9], ID_A.to_string(), 0);
    assert_eq!(r, Err(TaskError::Transient));
    assert_eq!(s.get_task("u1", ID_A).unwrap().status, Status::Starting);
    assert_eq!(s.queue().len(), 0);
}

#[test]
fn duplicate_id_is_a_conflict() {
    let mut s = service(10, 10);
    assert!(s.create_task_with_id("u1", Model::Fast, vec![1], ID_A.to_string(), 0).is_ok());
    let r = s.create_task_with_id("u2", Model::Fast, vec![2], ID_A.to_string(), 0);
    assert_eq!(r, Err(TaskError::Conflict));
    assert_eq!(s.get_task("u1", ID_A).unwrap().owner, "u1");
    assert_eq!(s.objects().get(&format!("input/{}", ID_A)).unwrap(), &vec![1u8]);
}

#[test]
fn empty_owner_is_a_validation_error() {
    let mut s = service(10, 10);
    let r = s.create_task_with_id("", Model::Fast, vec![1], ID_A.to_string(), 0);
    assert_eq!(r, Err(TaskError::Validation));
    assert!(!s.tasks().contains(&ID_A.to_string()));
    assert!(s.objects().get(&format!("input/{}", ID_A)).is_none());
}

#[test]
fn scenario_e_racing_terminal_updates() {
    let mut s = service(10, 10);
    let t = s.create_task("u1", Model::Fast, vec![1], 0).unwrap();
    s.update_status(&t, Status::Starting, Status::Processing, None).unwrap();
    let first = s.update_status(&t, Status::Processing, Status::Failed, Some("bad pdf".to_string()));
    let second = s.update_status(&t, Status::Processing, Status::Succeeded, Some("o/x".to_string()));
    assert_eq!(first, Ok(()));
    assert_eq!(second, Err(UpdateError::Conflict));
    let r = s.get_task("u1", &t).unwrap();
    assert_eq!(r.status, Status::Failed);
    assert_eq!(r.error, Some("bad pdf".to_string()));
    assert!(r.output_location.is_none());
}

#[test]
fn redelivered_update_changes_nothing() {
    let mut s = service(10, 10);
    let t = s.create_task("u1", Model::Fast, vec![1], 0).unwrap();
    assert_eq!(s.update_status(&t, Status::Starting, Status::Processing, None), Ok(()));
    assert_eq!(
        s.update_status(&t, Status::Starting, Status::Processing, None),
        Err(UpdateError::Conflict)
    );
    assert_eq!(s.get_task("u1", &t).unwrap().status, Status::Processing);
    let d = Some("o/1".to_string());
    assert_eq!(s.update_status(&t, Status::Processing, Status::Succeeded, d.clone()), Ok(()));
    assert_eq!(
        s.update_status(&t, Status::Processing, Status::Succeeded, d.clone()),
        Err(UpdateError::Conflict)
    );
    let r = s.get_task("u1", &t).unwrap();
    assert_eq!(r.status, Status::Succeeded);
    assert_eq!(r.output_location, d);
}

#[test]
fn statuses_never_move_backwards() {
    let mut s = service(10, 10);
    let t = s.create_task("u1", Model::Fast, vec![1], 0).unwrap();
    s.update_status(&t, Status::Starting, Status::Processing, None).unwrap();
    s.update_status(&t, Status::Processing, Status::Succeeded, Some("o".to_string())).unwrap();
    for (from, to) in [
        (Status::Succeeded, Status::Processing),
        (Status::Processing, Status::Starting),
        (Status::Starting, Status::Processing),
        (Status::Processing, Status::Failed),
    ] {
        assert!(s.update_status(&t, from, to, Some("x".to_string())).is_err());
        assert_eq!(s.get_task("u1", &t).unwrap().status, Status::Succeeded);
    }
}

#[test]
fn invalid_update_requests_are_rejected() {
    let mut s = service(10, 10);
    let t = s.create_task("u1", Model::Fast, vec![1], 0).unwrap();
    assert_eq!(
        s.update_status(&t, Status::Starting, Status::Succeeded, Some("o".to_string())),
        Err(UpdateError::InvalidTransition)
    );
    s.update_status(&t, Status::Starting, Status::Processing, None).unwrap();
    assert_eq!(
        s.update_status(&t, Status::Processing, Status::Failed, None),
        Err(UpdateError::MissingDetail)
    );
    assert_eq!(
        s.update_status(ID_B, Status::Starting, Status::Processing, None),
        Err(UpdateError::NotFound)
    );
    assert_eq!(s.get_task("u1", &t).unwrap().status, Status::Processing);
}

#[test]
fn other_owner_cannot_read_task() {
    let mut s = service(10, 10);
    let t = s.create_task("u1", Model::Fast, vec![1], 0).unwrap();
    assert_eq!(s.get_task("u2", &t).err(), Some(TaskError::NotFound));
    assert!(s.get_task("u1", &t).is_ok());
    assert_eq!(s.get_task_checked("u2", &t).err(), Some(TaskError::NotFound));
}

#[test]
fn expiry_is_computed_and_capped() {
    assert_eq!(config(None).expires_at(10), None);
    assert_eq!(config(Some(60)).expires_at(10), Some(70));
    assert_eq!(config(Some(5)).expires_at(u64::MAX - 2), Some(u64::MAX));
    let mut s = TaskService::new(
        config(None),
        ObjectStore::new(1),
        TaskRepository::new(),
        WorkQueue::new(1),
    );
    let t = s.create_task("u1", Model::Fast, vec![1], 42).unwrap();
    assert_eq!(s.get_task("u1", &t).unwrap().expires_at, None);
}

fn record(id: &str, owner: &str) -> Task {
    Task {
        id: id.to_string(),
        owner: owner.to_string(),
        model: Model::Fast,
        status: Status::Starting,
        input_location: format!("input/{}", id),
        output_location: None,
        error: None,
        created_at: 0,
        expires_at: None,
    }
}

#[test]
fn repository_rejects_duplicate_ids() {
    let mut repo = TaskRepository::new();
    assert_eq!(repo.insert(record(ID_A, "u1")), Ok(()));
    assert_eq!(repo.insert(record(ID_A, "u2")), Err(InsertError::DuplicateId));
    assert_eq!(repo.get(&"u1".to_string(), &ID_A.to_string()).unwrap().owner, "u1");
    assert!(repo.get(&"u2".to_string(), &ID_A.to_string()).is_none());
}

#[test]
fn object_store_writes_each_key_once() {
    let mut store = ObjectStore::new(2);
    assert_eq!(store.put("k".to_string(), vec![1]), Ok(()));
    assert_eq!(store.put("k".to_string(), vec![2]), Err(StoreError::KeyExists));
    assert_eq!(store.get(&"k".to_string()), Some(&vec![1u8]));
    assert_eq!(store.put("j".to_string(), vec![3]), Ok(()));
    assert!(store.is_full());
    assert_eq!(store.put("l".to_string(), vec![4]), Err(StoreError::Unavailable));
    assert!(store.get(&"l".to_string()).is_none());
}

#[test]
fn status_order_and_transitions() {
    assert!(Status::Starting.can_transition(Status::Processing));
    assert!(Status::Processing.can_transition(Status::Succeeded));
    assert!(Status::Processing.can_transition(Status::Failed));
    assert!(!Status::Starting.can_transition(Status::Succeeded));
    assert!(!Status::Succeeded.can_transition(Status::Failed));
    assert!(!Status::Failed.can_transition(Status::Processing));
    assert!(Status::Failed.is_terminal());
    assert!(!Status::Processing.is_terminal());
    assert_eq!(Status::Starting.as_str(), "Starting");
    assert_eq!(Status::Processing.as_str(), "Processing");
    assert_eq!(Status::Succeeded.as_str(), "Succeeded");
    assert_eq!(Status::Failed.as_str(), "Failed");
}
