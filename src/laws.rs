use vstd::prelude::*;

use crate::repository::{after_update, records_wf, update_outcome, visible_record};
use crate::service::{create_spec, get_outcome, input_key, TaskError, TaskService};
use crate::status::{lemma_transition_advances, Status};
use crate::task::{lemma_update_keeps_wf, Model, Task, UpdateError};

verus! {

/// A successful creation is visible at once: its owner reads the task as
/// `Starting`, and the document it points to is stored.
pub proof fn lemma_created_task_visible(
    pre: TaskService,
    post: TaskService,
    owner: Seq<char>,
    model: Model,
    doc: Seq<u8>,
    id: Seq<char>,
    now: u64,
    r: Result<String, TaskError>,
)
    requires
        create_spec(pre, post, owner, model, doc, id, now, r),
        r is Ok,
    ensures
        get_outcome(post.tasks_view(), owner, id) == Ok::<Task, TaskError>(post.tasks_view()[id]),
        post.tasks_view()[id].status == Status::Starting,
        post.tasks_view()[id].output_location.is_none(),
        post.objects_view().contains_key(post.tasks_view()[id].input_location@),
        post.objects_view()[post.tasks_view()[id].input_location@] == doc,
{
}

/// When the document cannot be stored, creation fails and leaves no record:
/// the records are exactly those from before.
pub proof fn lemma_no_residue_on_store_failure(
    pre: TaskService,
    post: TaskService,
    owner: Seq<char>,
    model: Model,
    doc: Seq<u8>,
    id: Seq<char>,
    now: u64,
    r: Result<String, TaskError>,
)
    requires
        create_spec(pre, post, owner, model, doc, id, now, r),
        pre.store_full() || pre.objects_view().contains_key(input_key(id)),
    ensures
        r is Err,
        post.tasks_view() == pre.tasks_view(),
        !pre.tasks_view().contains_key(id) ==> !post.tasks_view().contains_key(id),
{
}

/// Creation never alters or removes an existing record.
pub proof fn lemma_create_evolves(
    pre: TaskService,
    post: TaskService,
    owner: Seq<char>,
    model: Model,
    doc: Seq<u8>,
    id: Seq<char>,
    now: u64,
    r: Result<String, TaskError>,
)
    requires
        create_spec(pre, post, owner, model, doc, id, now, r),
    ensures
        forall|k: Seq<char>| #[trigger]
            pre.tasks_view().contains_key(k) ==> post.tasks_view().contains_key(k)
                && post.tasks_view()[k] == pre.tasks_view()[k],
        evolves(pre.tasks_view(), post.tasks_view()),
{
}

/// `later` is a later state of the records `earlier`: no record disappears
/// or changes owner, statuses only move forward, and a record in a terminal
/// status stays exactly as it was.
pub open spec fn evolves(earlier: Map<Seq<char>, Task>, later: Map<Seq<char>, Task>) -> bool {
    forall|k: Seq<char>| #[trigger]
        earlier.contains_key(k) ==> {
            &&& later.contains_key(k)
            &&& later[k].owner == earlier[k].owner
            &&& earlier[k].status.rank() <= later[k].status.rank()
            &&& earlier[k].status.is_terminal_spec() ==> later[k] == earlier[k]
        }
}

/// Every conditional status update is a step forward.
pub proof fn lemma_update_evolves(
    m: Map<Seq<char>, Task>,
    id: Seq<char>,
    expected: Status,
    new_status: Status,
    detail: Option<String>,
)
    ensures
        evolves(m, after_update(m, id, expected, new_status, detail)),
{
    if update_outcome(m, id, expected, new_status, detail) is Ok {
        lemma_transition_advances(expected, new_status);
    }
}

/// Evolving twice is evolving.
pub proof fn lemma_evolves_transitive(
    a: Map<Seq<char>, Task>,
    b: Map<Seq<char>, Task>,
    c: Map<Seq<char>, Task>,
)
    requires
        evolves(a, b),
        evolves(b, c),
    ensures
        evolves(a, c),
{
    assert forall|k: Seq<char>| #[trigger] a.contains_key(k) implies {
        &&& c.contains_key(k)
        &&& c[k].owner == a[k].owner
        &&& a[k].status.rank() <= c[k].status.rank()
        &&& a[k].status.is_terminal_spec() ==> c[k] == a[k]
    } by {
        assert(b.contains_key(k));
    }
}

/// Over a history of record states in which each step evolves, every state
/// evolves into every later one.
pub proof fn lemma_history_evolves(h: Seq<Map<Seq<char>, Task>>, i: int, j: int)
    requires
        forall|n: int| 0 <= n < h.len() - 1 ==> evolves(#[trigger] h[n], h[n + 1]),
        0 <= i <= j < h.len(),
    ensures
        evolves(h[i], h[j]),
    decreases j - i,
{
    if i == j {
        assert(evolves(h[i], h[i]));
    } else {
        lemma_history_evolves(h, i, j - 1);
        assert(evolves(h[j - 1], h[j]));
        lemma_evolves_transitive(h[i], h[j - 1], h[j]);
    }
}

/// Two reads of a task by its owner, the second on a later state: the task
/// is still found, its status has not moved back, and a terminal record reads
/// the same, result fields included.
pub proof fn lemma_reads_monotonic(
    earlier: Map<Seq<char>, Task>,
    later: Map<Seq<char>, Task>,
    owner: Seq<char>,
    id: Seq<char>,
)
    requires
        evolves(earlier, later),
        get_outcome(earlier, owner, id) is Ok,
    ensures
        get_outcome(later, owner, id) is Ok,
        get_outcome(earlier, owner, id)->Ok_0.status.rank() <= get_outcome(
            later,
            owner,
            id,
        )->Ok_0.status.rank(),
        get_outcome(earlier, owner, id)->Ok_0.status.is_terminal_spec() ==> get_outcome(
            later,
            owner,
            id,
        ) == get_outcome(earlier, owner, id),
{
    assert(earlier.contains_key(id));
}

/// A status update never moves a record backwards, and a record in a
/// terminal status never changes.
pub proof fn lemma_update_monotonic(
    m: Map<Seq<char>, Task>,
    id: Seq<char>,
    expected: Status,
    new_status: Status,
    detail: Option<String>,
)
    requires
        records_wf(m),
    ensures
        after_update(m, id, expected, new_status, detail).dom() == m.dom(),
        forall|k: Seq<char>| #[trigger]
            m.contains_key(k) ==> {
                let n = after_update(m, id, expected, new_status, detail)[k];
                &&& m[k].status.rank() <= n.status.rank()
                &&& m[k].status.is_terminal_spec() ==> n == m[k]
                &&& n.wf()
            },
{
    if update_outcome(m, id, expected, new_status, detail) is Ok {
        lemma_update_keeps_wf(m[id], expected, new_status, detail);
        assert(after_update(m, id, expected, new_status, detail).dom() =~= m.dom());
    }
}

/// Applying the same update twice, as a redelivered message would, leaves
/// the records as applying it once does; the second application fails.
pub proof fn lemma_redelivery_idempotent(
    m: Map<Seq<char>, Task>,
    id: Seq<char>,
    expected: Status,
    new_status: Status,
    detail: Option<String>,
)
    ensures
        ({
            let once = after_update(m, id, expected, new_status, detail);
            &&& after_update(once, id, expected, new_status, detail) == once
            &&& update_outcome(once, id, expected, new_status, detail) is Err
        }),
{
    if update_outcome(m, id, expected, new_status, detail) is Ok {
        lemma_transition_advances(expected, new_status);
    }
}

/// A caller never reads a task that someone else created.
pub proof fn lemma_ownership_isolation(m: Map<Seq<char>, Task>, owner: Seq<char>, id: Seq<char>)
    requires
        m.contains_key(id),
        m[id].owner@ != owner,
    ensures
        get_outcome(m, owner, id) == Err::<Task, TaskError>(TaskError::NotFound),
        visible_record(m, owner, id) is None,
{
}

/// Of two updates racing from `Processing` to terminal statuses, the first
/// to commit wins and the second reports a conflict and changes nothing.
pub proof fn lemma_single_winner(
    m: Map<Seq<char>, Task>,
    id: Seq<char>,
    first: Status,
    first_detail: Option<String>,
    second: Status,
    second_detail: Option<String>,
)
    requires
        m.contains_key(id),
        m[id].status == Status::Processing,
        first.is_terminal_spec(),
        second.is_terminal_spec(),
        first_detail is Some,
        second_detail is Some,
    ensures
        ({
            let m1 = after_update(m, id, Status::Processing, first, first_detail);
            &&& update_outcome(m, id, Status::Processing, first, first_detail) is Ok
            &&& m1[id].status == first
            &&& first == Status::Succeeded ==> m1[id].output_location == first_detail
                && m1[id].error is None
            &&& first == Status::Failed ==> m1[id].error == first_detail
                && m1[id].output_location is None
            &&& get_outcome(m1, m[id].owner@, id) == Ok::<Task, TaskError>(m1[id])
            &&& update_outcome(m1, id, Status::Processing, second, second_detail) == Err::<
                Task,
                UpdateError,
            >(UpdateError::Conflict)
            &&& after_update(m1, id, Status::Processing, second, second_detail) == m1
        }),
{
}

} // verus!
