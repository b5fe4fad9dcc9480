use vstd::prelude::*;

use crate::status::Status;
use crate::task::{
    apply_update, apply_update_spec, check_update_request, update_request_error, Task, UpdateError,
};

verus! {

/// Why a record could not be inserted.
#[derive(Clone, Copy, Debug, PartialEq, Eq, Structural)]
pub enum InsertError {
    /// A record with that id already exists; ids are never reused.
    DuplicateId,
}

/// The record that `owner` sees under `id`: none unless the task is theirs.
pub open spec fn visible_record(m: Map<Seq<char>, Task>, owner: Seq<char>, id: Seq<char>) -> Option<
    Task,
> {
    if m.contains_key(id) && m[id].owner@ == owner {
        Some(m[id])
    } else {
        None
    }
}

/// Outcome of a conditional status update on the records `m`.
pub open spec fn update_outcome(
    m: Map<Seq<char>, Task>,
    id: Seq<char>,
    expected: Status,
    new_status: Status,
    detail: Option<String>,
) -> Result<Task, UpdateError> {
    match update_request_error(expected, new_status, detail) {
        Some(e) => Err(e),
        None => if !m.contains_key(id) {
            Err(UpdateError::NotFound)
        } else {
            apply_update_spec(m[id], expected, new_status, detail)
        },
    }
}

/// The records after that update: changed only where it was applied.
pub open spec fn after_update(
    m: Map<Seq<char>, Task>,
    id: Seq<char>,
    expected: Status,
    new_status: Status,
    detail: Option<String>,
) -> Map<Seq<char>, Task> {
    match update_outcome(m, id, expected, new_status, detail) {
        Ok(t) => m.insert(id, t),
        Err(_) => m,
    }
}

/// Every record of `m` is well formed and stored under its own id.
pub open spec fn records_wf(m: Map<Seq<char>, Task>) -> bool {
    forall|k: Seq<char>| #[trigger] m.contains_key(k) ==> m[k].wf() && m[k].id@ == k
}

/// The relational store of task records, keyed by task id.
pub struct TaskRepository {
    tasks: Vec<Task>,
    records: Ghost<Map<Seq<char>, Task>>,
}

impl View for TaskRepository {
    type V = Map<Seq<char>, Task>;

    closed spec fn view(&self) -> Map<Seq<char>, Task> {
        self.records@
    }
}

impl TaskRepository {
    pub closed spec fn wf(&self) -> bool {
        &&& records_wf(self.records@)
        &&& forall|i: int|
            0 <= i < self.tasks@.len() ==> {
                &&& #[trigger] self.records@.contains_key(self.tasks@[i].id@)
                &&& self.records@[self.tasks@[i].id@] == self.tasks@[i]
            }
        &&& forall|k: Seq<char>| #[trigger]
            self.records@.contains_key(k) ==> exists|i: int|
                0 <= i < self.tasks@.len() && #[trigger] self.tasks@[i].id@ == k
        &&& forall|i: int, j: int|
            0 <= i < self.tasks@.len() && 0 <= j < self.tasks@.len() && i != j
                ==> #[trigger] self.tasks@[i].id@ != #[trigger] self.tasks@[j].id@
    }

    pub proof fn lemma_wf_records(&self)
        requires
            self.wf(),
        ensures
            records_wf(self@),
    {
    }

    pub fn new() -> (r: TaskRepository)
        ensures
            r.wf(),
            r@ == Map::<Seq<char>, Task>::empty(),
    {
        TaskRepository { tasks: Vec::new(), records: Ghost(Map::empty()) }
    }

    /// Index of the record stored under `id`, if any.
    fn find(&self, id: &String) -> (r: Option<usize>)
        requires
            self.wf(),
        ensures
            match r {
                Some(i) => i < self.tasks@.len() && self.tasks@[i as int].id@ == id@,
                None => !self@.contains_key(id@),
            },
    {
        let mut i: usize = 0;
        while i < self.tasks.len()
            invariant
                i <= self.tasks@.len(),
                forall|j: int| 0 <= j < i ==> self.tasks@[j].id@ != id@,
            decreases self.tasks@.len() - i,
        {
            if self.tasks[i].id == *id {
                return Some(i);
            }
            i = i + 1;
        }
        None
    }

    /// Whether a record is stored under `id`, whoever owns it.
    pub fn contains(&self, id: &String) -> (r: bool)
        requires
            self.wf(),
        ensures
            r == self@.contains_key(id@),
    {
        match self.find(id) {
            Some(i) => true,
            None => false,
        }
    }

    /// Inserts a new record; fails, changing nothing, when its id is taken.
    pub fn insert(&mut self, task: Task) -> (r: Result<(), InsertError>)
        requires
            old(self).wf(),
            task.wf(),
        ensures
            final(self).wf(),
            old(self)@.contains_key(task.id@) ==> r == Err::<(), InsertError>(
                InsertError::DuplicateId,
            ) && final(self)@ == old(self)@,
            !old(self)@.contains_key(task.id@) ==> r is Ok && final(self)@ == old(self)@.insert(
                task.id@,
                task,
            ),
    {
        if self.contains(&task.id) {
            return Err(InsertError::DuplicateId);
        }
        let ghost key = task.id@;
        let ghost t = task;
        self.records = Ghost(self.records@.insert(key, t));
        self.tasks.push(task);
        proof {
            let n = self.tasks@.len() - 1;
            assert(self.tasks@[n as int] == t);
            assert forall|i: int| 0 <= i < n implies #[trigger] self.tasks@[i].id@ != key by {
                assert(old(self).records@.contains_key(old(self).tasks@[i].id@));
            }
            assert forall|k: Seq<char>| #[trigger]
                self.records@.contains_key(k) implies exists|i: int|
                    0 <= i < self.tasks@.len() && #[trigger] self.tasks@[i].id@ == k by {
                if k == key {
                    assert(self.tasks@[n as int].id@ == k);
                } else {
                    assert(old(self).records@.contains_key(k));
                    let i = choose|i: int|
                        0 <= i < old(self).tasks@.len() && #[trigger] old(self).tasks@[i].id@
                            == k;
                    assert(self.tasks@[i] == old(self).tasks@[i]);
                }
            }
        }
        Ok(())
    }

    /// The record under `id`, if `owner` created it.
    pub fn get(&self, owner: &String, id: &String) -> (r: Option<Task>)
        requires
            self.wf(),
        ensures
            r == visible_record(self@, owner@, id@),
    {
        match self.find(id) {
            Some(i) => {
                proof {
                    assert(self.records@.contains_key(self.tasks@[i as int].id@));
                }
                if self.tasks[i].owner == *owner {
                    Some(self.tasks[i].copy())
                } else {
                    None
                }
            },
            None => None,
        }
    }

    /// Conditional update: moves the record under `id` from `expected` to
    /// `new_status` only if `expected` is its current status.
    pub fn update_status(
        &mut self,
        id: &String,
        expected: Status,
        new_status: Status,
        detail: Option<String>,
    ) -> (r: Result<(), UpdateError>)
        requires
            old(self).wf(),
        ensures
            final(self).wf(),
            final(self)@ == after_update(old(self)@, id@, expected, new_status, detail),
            r matches Ok(_) <==> update_outcome(old(self)@, id@, expected, new_status, detail) is Ok,
            r matches Err(e) ==> update_outcome(old(self)@, id@, expected, new_status, detail)
                == Err::<Task, UpdateError>(e),
    {
        if let Some(e) = check_update_request(expected, new_status, &detail) {
            return Err(e);
        }
        let i = match self.find(id) {
            Some(i) => i,
            None => {
                return Err(UpdateError::NotFound);
            },
        };
        proof {
            assert(self.records@[id@] == self.tasks@[i as int]);
        }
        match apply_update(&self.tasks[i], expected, new_status, detail) {
            Ok(next) => {
                proof {
                    crate::task::lemma_update_keeps_wf(
                        self.tasks@[i as int],
                        expected,
                        new_status,
                        detail,
                    );
                }
                let ghost key = id@;
                let ghost t = next;
                self.records = Ghost(self.records@.insert(key, t));
                self.tasks[i] = next;
                proof {
                    assert forall|j: int| 0 <= j < self.tasks@.len() implies {
                        &&& #[trigger] self.records@.contains_key(self.tasks@[j].id@)
                        &&& self.records@[self.tasks@[j].id@] == self.tasks@[j]
                    } by {
                        if j != i {
                            assert(self.tasks@[j] == old(self).tasks@[j]);
                            assert(old(self).tasks@[j].id@ != old(self).tasks@[i as int].id@);
                            assert(old(self).records@.contains_key(old(self).tasks@[j].id@));
                        }
                    }
                    assert forall|k: Seq<char>| #[trigger]
                        self.records@.contains_key(k) implies exists|j: int|
                            0 <= j < self.tasks@.len() && #[trigger] self.tasks@[j].id@ == k by {
                        if k == key {
                            assert(self.tasks@[i as int].id@ == k);
                        } else {
                            let j = choose|j: int|
                                0 <= j < old(self).tasks@.len() && #[trigger] old(
                                    self,
                                ).tasks@[j].id@ == k;
                            assert(self.tasks@[j].id@ == k);
                        }
                    }
                }
                Ok(())
            },
            Err(e) => Err(e),
        }
    }
}

} // verus!
