use vstd::prelude::*;
use vstd::string::*;

use crate::config::{expiry_spec, Config};
use crate::ids::{is_hyphenated_form, is_valid_task_id, new_uuid_string, uuid_text_form};
use crate::queue::WorkQueue;
use crate::repository::{after_update, update_outcome, visible_record, TaskRepository};
use crate::status::Status;
use crate::store::{ObjectStore, StoreError};
use crate::task::{lemma_update_keeps_wf, Model, Task, UpdateError};

verus! {

/// Failure of a task operation, by who can act on it.
#[derive(Clone, Copy, Debug, PartialEq, Eq, Structural)]
pub enum TaskError {
    /// The request is malformed; nothing was touched.
    Validation,
    /// The caller has no task with that id.
    NotFound,
    /// A store or the queue is unavailable; safe to retry.
    Transient,
    /// The id or its blob key is already taken.
    Conflict,
}

/// Object-store key of a task's uploaded document.
pub open spec fn input_key(id: Seq<char>) -> Seq<char> {
    "input/"@ + id
}

/// `t` is the record that creation inserts for these arguments.
pub open spec fn is_new_record(
    t: Task,
    id: Seq<char>,
    owner: Seq<char>,
    model: Model,
    created_at: u64,
    expires_at: Option<u64>,
) -> bool {
    &&& t.id@ == id
    &&& t.owner@ == owner
    &&& t.model == model
    &&& t.is_fresh()
    &&& t.input_location@ == input_key(id)
    &&& t.created_at == created_at
    &&& t.expires_at == expires_at
}

/// Outcome of a task lookup by `owner` on the records `m`: the record if it
/// exists and is theirs, else not found.
pub open spec fn get_outcome(m: Map<Seq<char>, Task>, owner: Seq<char>, id: Seq<char>) -> Result<
    Task,
    TaskError,
> {
    match visible_record(m, owner, id) {
        Some(t) => Ok(t),
        None => Err(TaskError::NotFound),
    }
}

/// Outcome of a lookup whose id arrives as untrusted text: a malformed id is
/// rejected before any record is read.
pub open spec fn checked_get_outcome(
    m: Map<Seq<char>, Task>,
    owner: Seq<char>,
    id: Seq<char>,
) -> Result<Task, TaskError> {
    if !uuid_text_form(id) {
        Err(TaskError::Validation)
    } else {
        get_outcome(m, owner, id)
    }
}

/// Creation store, repository and queue, each keyed by one task id.
///
/// The fields are private: records change only through creation and the
/// conditional status update.
pub struct TaskService {
    config: Config,
    objects: ObjectStore,
    tasks: TaskRepository,
    queue: WorkQueue,
}

/// No store changed between `pre` and `post`.
pub open spec fn unchanged(pre: TaskService, post: TaskService) -> bool {
    &&& post.objects_view() == pre.objects_view()
    &&& post.tasks_view() == pre.tasks_view()
    &&& post.queue_view() == pre.queue_view()
}

/// Creating task `id` for `owner` took `pre` to `post` with result `r`.
///
/// The steps run in order, each only after the previous one succeeded:
/// store the document, insert the record, enqueue the id.
pub open spec fn create_spec(
    pre: TaskService,
    post: TaskService,
    owner: Seq<char>,
    model: Model,
    doc: Seq<u8>,
    id: Seq<char>,
    now: u64,
    r: Result<String, TaskError>,
) -> bool {
    let key = input_key(id);
    let expires = expiry_spec(pre.config_view().task_expiration, now);
    if owner.len() == 0 {
        r == Err::<String, TaskError>(TaskError::Validation) && unchanged(pre, post)
    } else if pre.store_full() {
        r == Err::<String, TaskError>(TaskError::Transient) && unchanged(pre, post)
    } else if pre.objects_view().contains_key(key) {
        r == Err::<String, TaskError>(TaskError::Conflict) && unchanged(pre, post)
    } else if pre.tasks_view().contains_key(id) {
        &&& r == Err::<String, TaskError>(TaskError::Conflict)
        &&& post.objects_view() == pre.objects_view().insert(key, doc)
        &&& post.tasks_view() == pre.tasks_view()
        &&& post.queue_view() == pre.queue_view()
    } else {
        &&& post.objects_view() == pre.objects_view().insert(key, doc)
        &&& post.tasks_view() == pre.tasks_view().insert(id, post.tasks_view()[id])
        &&& is_new_record(post.tasks_view()[id], id, owner, model, now, expires)
        &&& if pre.queue_full() {
            r == Err::<String, TaskError>(TaskError::Transient) && post.queue_view()
                == pre.queue_view()
        } else {
            r matches Ok(s) && s@ == id && post.queue_view() == pre.queue_view().push(id)
        }
    }
}

impl TaskService {
    pub closed spec fn config_view(&self) -> Config {
        self.config
    }

    /// The stored documents, by key.
    pub closed spec fn objects_view(&self) -> Map<Seq<char>, Seq<u8>> {
        self.objects@
    }

    /// The task records, by id.
    pub closed spec fn tasks_view(&self) -> Map<Seq<char>, Task> {
        self.tasks@
    }

    /// The pending queue messages, oldest first.
    pub closed spec fn queue_view(&self) -> Seq<Seq<char>> {
        self.queue@
    }

    pub closed spec fn store_full(&self) -> bool {
        self.objects.is_full_spec()
    }

    pub closed spec fn queue_full(&self) -> bool {
        self.queue.is_full_spec()
    }

    /// The stores are well formed, and every record's document is stored.
    pub closed spec fn wf(&self) -> bool {
        &&& self.objects.wf()
        &&& self.tasks.wf()
        &&& forall|k: Seq<char>| #[trigger]
            self.tasks@.contains_key(k) ==> self.objects@.contains_key(
                self.tasks@[k].input_location@,
            )
    }

    pub fn new(config: Config, objects: ObjectStore, tasks: TaskRepository, queue: WorkQueue) -> (r:
        TaskService)
        requires
            objects.wf(),
            tasks.wf(),
            forall|k: Seq<char>| #[trigger]
                tasks@.contains_key(k) ==> objects@.contains_key(tasks@[k].input_location@),
        ensures
            r.wf(),
            r.config_view() == config,
            r.objects_view() == objects@,
            r.tasks_view() == tasks@,
            r.queue_view() == queue@,
            r.store_full() == objects.is_full_spec(),
            r.queue_full() == queue.is_full_spec(),
    {
        TaskService { config, objects, tasks, queue }
    }

    pub fn config(&self) -> (r: &Config)
        ensures
            *r == self.config_view(),
    {
        &self.config
    }

    /// Read access to the stored documents.
    pub fn objects(&self) -> (r: &ObjectStore)
        requires
            self.wf(),
        ensures
            r.wf(),
            r@ == self.objects_view(),
            r.is_full_spec() == self.store_full(),
    {
        &self.objects
    }

    /// Read access to the task records.
    pub fn tasks(&self) -> (r: &TaskRepository)
        requires
            self.wf(),
        ensures
            r.wf(),
            r@ == self.tasks_view(),
    {
        &self.tasks
    }

    /// Read access to the pending messages.
    pub fn queue(&self) -> (r: &WorkQueue)
        ensures
            r@ == self.queue_view(),
            r.is_full_spec() == self.queue_full(),
    {
        &self.queue
    }

    /// Hands the oldest pending message to a worker.
    pub fn next_message(&mut self) -> (r: Option<String>)
        requires
            old(self).wf(),
        ensures
            final(self).wf(),
            final(self).config_view() == old(self).config_view(),
            final(self).objects_view() == old(self).objects_view(),
            final(self).tasks_view() == old(self).tasks_view(),
            old(self).queue_view().len() == 0 ==> r is None && final(self).queue_view() == old(
                self,
            ).queue_view(),
            old(self).queue_view().len() > 0 ==> (r matches Some(id) && id@ == old(
                self,
            ).queue_view()[0]) && final(self).queue_view() == old(self).queue_view().drop_first(),
    {
        self.queue.dequeue()
    }

    /// Creates task `id`: stores `doc`, inserts the record as `Starting`,
    /// then enqueues `id`. A failed step stops the sequence, so no record
    /// exists unless its document was stored first.
    pub fn create_task_with_id(
        &mut self,
        owner: &str,
        model: Model,
        doc: Vec<u8>,
        id: String,
        now: u64,
    ) -> (r: Result<String, TaskError>)
        requires
            old(self).wf(),
        ensures
            final(self).wf(),
            final(self).config_view() == old(self).config_view(),
            create_spec(*old(self), *final(self), owner@, model, doc@, id@, now, r),
    {
        if owner.unicode_len() == 0 {
            return Err(TaskError::Validation);
        }
        let key = "input/".to_owned().concat(id.as_str());
        proof {
            reveal_strlit("input/");
        }
        assert(key@ == input_key(id@));
        let ghost doc_view = doc@;
        match self.objects.put(key.clone(), doc) {
            Ok(()) => {},
            Err(StoreError::Unavailable) => {
                return Err(TaskError::Transient);
            },
            Err(StoreError::KeyExists) => {
                return Err(TaskError::Conflict);
            },
        }
        let task = Task {
            id: id.clone(),
            owner: owner.to_owned(),
            model,
            status: Status::Starting,
            input_location: key,
            output_location: None,
            error: None,
            created_at: now,
            expires_at: self.config.expires_at(now),
        };
        let ghost record = task;
        if self.tasks.insert(task).is_err() {
            return Err(TaskError::Conflict);
        }
        assert(self.tasks@[id@] == record);
        assert(self.tasks@ == old(self).tasks@.insert(id@, self.tasks@[id@]));
        proof {
            self.tasks.lemma_wf_records();
            assert forall|k: Seq<char>| #[trigger] self.tasks@.contains_key(k) implies
                self.objects@.contains_key(self.tasks@[k].input_location@) by {
                if k != id@ {
                    assert(old(self).tasks@.contains_key(k));
                }
            }
        }
        if self.queue.enqueue(id.clone()).is_err() {
            return Err(TaskError::Transient);
        }
        Ok(id)
    }

    /// Creates a task under a freshly generated UUID and returns that id.
    pub fn create_task(&mut self, owner: &str, model: Model, doc: Vec<u8>, now: u64) -> (r: Result<
        String,
        TaskError,
    >)
        requires
            old(self).wf(),
        ensures
            final(self).wf(),
            final(self).config_view() == old(self).config_view(),
            exists|id: Seq<char>|
                #![trigger create_spec(*old(self), *final(self), owner@, model, doc@, id, now, r)]
                is_hyphenated_form(id) && create_spec(
                    *old(self),
                    *final(self),
                    owner@,
                    model,
                    doc@,
                    id,
                    now,
                    r,
                ),
    {
        let id = new_uuid_string();
        self.create_task_with_id(owner, model, doc, id, now)
    }

    /// Worker-side conditional update of task `id`; see
    /// `TaskRepository::update_status`. The stored documents are untouched.
    pub fn update_status(
        &mut self,
        id: &str,
        expected: Status,
        new_status: Status,
        detail: Option<String>,
    ) -> (r: Result<(), UpdateError>)
        requires
            old(self).wf(),
        ensures
            final(self).wf(),
            final(self).config_view() == old(self).config_view(),
            final(self).objects_view() == old(self).objects_view(),
            final(self).queue_view() == old(self).queue_view(),
            final(self).tasks_view() == after_update(
                old(self).tasks_view(),
                id@,
                expected,
                new_status,
                detail,
            ),
            r matches Ok(_) <==> update_outcome(
                old(self).tasks_view(),
                id@,
                expected,
                new_status,
                detail,
            ) is Ok,
            r matches Err(e) ==> update_outcome(
                old(self).tasks_view(),
                id@,
                expected,
                new_status,
                detail,
            ) == Err::<Task, UpdateError>(e),
    {
        let ghost d = detail;
        let r = self.tasks.update_status(&id.to_owned(), expected, new_status, detail);
        proof {
            old(self).tasks.lemma_wf_records();
            if update_outcome(old(self).tasks@, id@, expected, new_status, d) is Ok {
                lemma_update_keeps_wf(old(self).tasks@[id@], expected, new_status, d);
            }
            assert forall|k: Seq<char>| #[trigger] self.tasks@.contains_key(k) implies
                self.objects@.contains_key(self.tasks@[k].input_location@) by {
                assert(old(self).tasks@.contains_key(k));
            }
        }
        r
    }

    /// The current record of task `id`, if `owner` created it; not found
    /// for every other id.
    pub fn get_task(&self, owner: &str, id: &str) -> (r: Result<Task, TaskError>)
        requires
            self.wf(),
        ensures
            r == get_outcome(self.tasks_view(), owner@, id@),
    {
        match self.tasks.get(&owner.to_owned(), &id.to_owned()) {
            Some(t) => Ok(t),
            None => Err(TaskError::NotFound),
        }
    }

    /// Lookup of an id received as text: one that is not a UUID is a
    /// validation error and reaches no store.
    pub fn get_task_checked(&self, owner: &str, id: &str) -> (r: Result<Task, TaskError>)
        requires
            self.wf(),
        ensures
            r == checked_get_outcome(self.tasks_view(), owner@, id@),
    {
        if !is_valid_task_id(id) {
            return Err(TaskError::Validation);
        }
        self.get_task(owner, id)
    }
}

} // verus!
