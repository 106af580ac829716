//! The tasks submitted against one resource, and their lifecycles.

use vstd::prelude::*;
use crate::decimal::{decimal, decimal_string, lemma_decimal_injective};
use crate::error::{reported, ErrorKind, QrmiError};
use crate::models::{copy_bytes, Payload, TaskResult};
use crate::task_status::{step, terminal, TaskStatus};

verus! {

/// The identifier of the `k`-th submitted task: `job-1`, `job-2`, ...
pub open spec fn job_text(k: nat) -> Seq<char> {
    seq!['j', 'o', 'b', '-'] + decimal(k)
}

/// Identifiers of distinct submissions differ.
pub proof fn lemma_jobs_distinct(j: nat, k: nat)
    ensures
        j != k ==> job_text(j) != job_text(k),
{
    if job_text(j) == job_text(k) {
        assert(decimal(j) == job_text(j).subrange(4, job_text(j).len() as int));
        assert(decimal(k) == job_text(k).subrange(4, job_text(k).len() as int));
        lemma_decimal_injective(j, k);
    }
}

/// One task as the board records it.
pub struct TaskView {
    pub id: Seq<char>,
    pub status: TaskStatus,
    pub payload: Seq<u8>,
    pub output: Seq<u8>,
}

/// Position `i` of `v` records the task `id`.
pub open spec fn slot_of(v: Seq<TaskView>, id: Seq<char>, i: int) -> bool {
    0 <= i < v.len() && v[i].id == id
}

/// Some position of `v` records the task `id`.
pub open spec fn known(v: Seq<TaskView>, id: Seq<char>) -> bool {
    exists|i: int| slot_of(v, id, i)
}

/// Every status in `after` equals the one at the same position in `before` or is
/// one lifecycle step on from it.
pub open spec fn moves_by_steps(before: Seq<TaskView>, after: Seq<TaskView>) -> bool {
    &&& after.len() == before.len()
    &&& forall|i: int|
        0 <= i < before.len() ==> after[i].id == before[i].id && (after[i].status
            == before[i].status || step(before[i].status, after[i].status))
}

/// Every task that is terminal in `before` is still there in `after`, with the same
/// status.
pub open spec fn keeps_terminal(before: Seq<TaskView>, after: Seq<TaskView>) -> bool {
    &&& before.len() <= after.len()
    &&& forall|i: int|
        0 <= i < before.len() && terminal(#[trigger] before[i].status) ==> after[i].id
            == before[i].id && after[i].status == before[i].status
}

/// Moves by lifecycle steps never leave a terminal status.
pub proof fn lemma_steps_keep_terminal(before: Seq<TaskView>, after: Seq<TaskView>)
    requires
        moves_by_steps(before, after),
    ensures
        keeps_terminal(before, after),
{
}

/// Over any sequence of operations that each keep terminal tasks, terminal tasks are
/// kept: no transition leaves a terminal status, however many calls come between.
pub proof fn lemma_keeps_terminal_chain(a: Seq<TaskView>, b: Seq<TaskView>, c: Seq<TaskView>)
    requires
        keeps_terminal(a, b),
        keeps_terminal(b, c),
    ensures
        keeps_terminal(a, c),
{
    assert forall|i: int| 0 <= i < a.len() && terminal(#[trigger] a[i].status) implies c[i].id
        == a[i].id && c[i].status == a[i].status by {
        assert(terminal(b[i].status));
    }
}

/// What a submission does: the task is recorded as `Queued` under the next
/// identifier, which names no earlier task and is returned. Only when no identifier
/// is left does it fail, and then nothing changes.
pub open spec fn started(
    before: Seq<TaskView>,
    after: Seq<TaskView>,
    payload: Seq<u8>,
    r: Result<String, QrmiError>,
) -> bool {
    if before.len() < u64::MAX {
        &&& r is Ok
        &&& r->Ok_0@ == job_text(before.len() + 1)
        &&& !known(before, r->Ok_0@)
        &&& after == before.push(
            (TaskView { id: r->Ok_0@, status: TaskStatus::Queued, payload, output: Seq::empty() }),
        )
    } else {
        r is Err && r->Err_0.kind == ErrorKind::Backend && after == before
    }
}

/// The answer to a status query: the recorded status, or not found.
pub open spec fn status_reply(v: Seq<TaskView>, id: Seq<char>, r: Result<TaskStatus, QrmiError>) -> bool {
    &&& !known(v, id) ==> r is Err && r->Err_0.kind == ErrorKind::NotFound
    &&& forall|i: int| #[trigger] slot_of(v, id, i) ==> r == Ok::<TaskStatus, QrmiError>(v[i].status)
}

/// What a stop request does: a queued or running task becomes `Cancelled`; a terminal
/// one stays as it is and the request still succeeds; an unknown one is not found.
pub open spec fn stopped(
    before: Seq<TaskView>,
    after: Seq<TaskView>,
    id: Seq<char>,
    r: Result<(), QrmiError>,
) -> bool {
    &&& !known(before, id) ==> r is Err && r->Err_0.kind == ErrorKind::NotFound && after == before
    &&& forall|i: int|
        #[trigger] slot_of(before, id, i) ==> r is Ok && after == (if terminal(before[i].status) {
            before
        } else {
            before.update(i, TaskView { status: TaskStatus::Cancelled, ..before[i] })
        })
}

/// The answer to a result query: what a terminal task produced; not ready before that.
pub open spec fn result_reply(v: Seq<TaskView>, id: Seq<char>, r: Result<TaskResult, QrmiError>) -> bool {
    &&& !known(v, id) ==> r is Err && r->Err_0.kind == ErrorKind::NotFound
    &&& forall|i: int|
        #[trigger] slot_of(v, id, i) ==> (if terminal(v[i].status) {
            r is Ok && r->Ok_0.data@ == v[i].output
        } else {
            r is Err && r->Err_0.kind == ErrorKind::NotReady
        })
}

/// What a progress report does: a lifecycle step other than cancellation is recorded
/// with the task's output; any other move is refused. A refused report changes nothing.
pub open spec fn advanced(
    before: Seq<TaskView>,
    after: Seq<TaskView>,
    id: Seq<char>,
    next: TaskStatus,
    output: Seq<u8>,
    r: Result<(), QrmiError>,
) -> bool {
    &&& r is Err ==> after == before
    &&& !known(before, id) ==> r is Err && r->Err_0.kind == ErrorKind::NotFound
    &&& forall|i: int|
        #[trigger] slot_of(before, id, i) ==> (if step(before[i].status, next) && !(next is Cancelled) {
            r is Ok && after == before.update(i, TaskView { status: next, output, ..before[i] })
        } else {
            r is Err && r->Err_0.kind == ErrorKind::Backend
        })
}

/// Stopping a task that is already terminal succeeds and changes nothing, whichever
/// terminal status it holds.
pub proof fn lemma_stop_terminal_is_noop(
    before: Seq<TaskView>,
    after: Seq<TaskView>,
    id: Seq<char>,
    i: int,
    r: Result<(), QrmiError>,
)
    requires
        slot_of(before, id, i),
        terminal(before[i].status),
        stopped(before, after, id, r),
    ensures
        r is Ok,
        after == before,
        after[i].status == before[i].status,
{
}

struct TaskEntry {
    id: String,
    status: TaskStatus,
    payload: Vec<u8>,
    output: Vec<u8>,
}

impl TaskEntry {
    spec fn view(&self) -> TaskView {
        TaskView { id: self.id@, status: self.status, payload: self.payload@, output: self.output@ }
    }
}

/// The tasks of one resource, in order of submission.
pub struct TaskBoard {
    entries: Vec<TaskEntry>,
}

impl TaskBoard {
    pub closed spec fn view(&self) -> Seq<TaskView> {
        self.entries@.map_values(|e: TaskEntry| e.view())
    }

    /// The task at position `i` carries the identifier of the `i + 1`-th submission.
    pub open spec fn wf(&self) -> bool {
        forall|i: int| 0 <= i < self.view().len() ==> #[trigger] self.view()[i].id == job_text(
            (i + 1) as nat,
        )
    }

    /// On a well-formed board an identifier names at most one position.
    pub proof fn lemma_unique(&self, id: Seq<char>, i: int, j: int)
        requires
            self.wf(),
            slot_of(self.view(), id, i),
            slot_of(self.view(), id, j),
        ensures
            i == j,
    {
        assert(self.view()[i].id == job_text((i + 1) as nat));
        assert(self.view()[j].id == job_text((j + 1) as nat));
        lemma_jobs_distinct((i + 1) as nat, (j + 1) as nat);
    }

    pub fn new() -> (r: TaskBoard)
        ensures
            r.wf(),
            r.view() == Seq::<TaskView>::empty(),
    {
        let r = TaskBoard { entries: Vec::new() };
        assert(r.view() =~= Seq::<TaskView>::empty());
        r
    }

    fn find(&self, id: &str) -> (r: Option<usize>)
        requires
            self.wf(),
        ensures
            match r {
                Some(i) => slot_of(self.view(), id@, i as int),
                None => !known(self.view(), id@),
            },
    {
        let wanted = String::from_str(id);
        let mut i: usize = 0;
        while i < self.entries.len()
            invariant
                i <= self.entries@.len(),
                wanted@ == id@,
                forall|j: int| 0 <= j < i ==> self.view()[j].id != id@,
            decreases self.entries@.len() - i,
        {
            if self.entries[i].id == wanted {
                return Some(i);
            }
            i = i + 1;
        }
        None
    }

    /// Records a new task as `Queued` and returns its identifier.
    pub fn task_start(&mut self, payload: Payload) -> (r: Result<String, QrmiError>)
        requires
            old(self).wf(),
        ensures
            final(self).wf(),
            reported(r),
            started(old(self).view(), final(self).view(), payload.data@, r),
            keeps_terminal(old(self).view(), final(self).view()),
    {
        let n = self.entries.len() as u64;
        if n == u64::MAX {
            return Err(QrmiError::new(ErrorKind::Backend, "no task identifiers are left"));
        }
        let mut id = String::from_str("job-");
        id.append(decimal_string(n + 1).as_str());
        proof {
            reveal_strlit("job-");
            assert(id@ =~= job_text((n + 1) as nat));
            assert forall|i: int| 0 <= i < old(self).view().len() implies old(self).view()[i].id
                != id@ by {
                assert(old(self).view()[i].id == job_text((i + 1) as nat));
                lemma_jobs_distinct((i + 1) as nat, (n + 1) as nat);
            }
        }
        let r = id.clone();
        let ghost data = payload.data@;
        self.entries.push(
            TaskEntry { id, status: TaskStatus::Queued, payload: payload.data, output: Vec::new() },
        );
        assert(self.view() =~= old(self).view().push(
            (TaskView { id: r@, status: TaskStatus::Queued, payload: data, output: Seq::empty() }),
        ));
        Ok(r)
    }

    /// The current status of task `id`.
    pub fn task_status(&self, id: &str) -> (r: Result<TaskStatus, QrmiError>)
        requires
            self.wf(),
        ensures
            reported(r),
            status_reply(self.view(), id@, r),
    {
        match self.find(id) {
            None => Err(QrmiError::new(ErrorKind::NotFound, "unknown task")),
            Some(i) => {
                proof {
                    assert forall|j: int| slot_of(self.view(), id@, j) implies j == i by {
                        self.lemma_unique(id@, i as int, j);
                    }
                }
                Ok(self.entries[i].status)
            },
        }
    }

    /// Cancels task `id` if it is still `Queued` or `Running`; a terminal task is left
    /// as it is, and that is a success.
    pub fn task_stop(&mut self, id: &str) -> (r: Result<(), QrmiError>)
        requires
            old(self).wf(),
        ensures
            final(self).wf(),
            moves_by_steps(old(self).view(), final(self).view()),
            reported(r),
            stopped(old(self).view(), final(self).view(), id@, r),
            keeps_terminal(old(self).view(), final(self).view()),
    {
        match self.find(id) {
            None => Err(QrmiError::new(ErrorKind::NotFound, "unknown task")),
            Some(i) => {
                proof {
                    assert forall|j: int| slot_of(old(self).view(), id@, j) implies j == i by {
                        old(self).lemma_unique(id@, i as int, j);
                    }
                }
                if !self.entries[i].status.is_terminal() {
                    let e = TaskEntry {
                        id: self.entries[i].id.clone(),
                        status: TaskStatus::Cancelled,
                        payload: copy_bytes(&self.entries[i].payload),
                        output: copy_bytes(&self.entries[i].output),
                    };
                    self.entries.set(i, e);
                    assert(self.view() =~= old(self).view().update(
                        i as int,
                        TaskView { status: TaskStatus::Cancelled, ..old(self).view()[i as int] },
                    ));
                }
                Ok(())
            },
        }
    }

    /// The result of task `id`, once it is terminal.
    pub fn task_result(&self, id: &str) -> (r: Result<TaskResult, QrmiError>)
        requires
            self.wf(),
        ensures
            reported(r),
            result_reply(self.view(), id@, r),
    {
        match self.find(id) {
            None => Err(QrmiError::new(ErrorKind::NotFound, "unknown task")),
            Some(i) => {
                proof {
                    assert forall|j: int| slot_of(self.view(), id@, j) implies j == i by {
                        self.lemma_unique(id@, i as int, j);
                    }
                }
                if self.entries[i].status.is_terminal() {
                    Ok(TaskResult { data: copy_bytes(&self.entries[i].output) })
                } else {
                    Err(QrmiError::new(ErrorKind::NotReady, "the task has not finished"))
                }
            },
        }
    }

    /// Records the backend's progress on task `id`: a lifecycle step to `next` other
    /// than cancellation, which only `task_stop` makes, with what the task produced.
    pub fn advance(&mut self, id: &str, next: TaskStatus, output: Vec<u8>) -> (r: Result<
        (),
        QrmiError,
    >)
        requires
            old(self).wf(),
        ensures
            final(self).wf(),
            moves_by_steps(old(self).view(), final(self).view()),
            reported(r),
            advanced(old(self).view(), final(self).view(), id@, next, output@, r),
            keeps_terminal(old(self).view(), final(self).view()),
    {
        let ghost out = output@;
        match self.find(id) {
            None => Err(QrmiError::new(ErrorKind::NotFound, "unknown task")),
            Some(i) => {
                proof {
                    assert forall|j: int| slot_of(old(self).view(), id@, j) implies j == i by {
                        old(self).lemma_unique(id@, i as int, j);
                    }
                }
                if self.entries[i].status.can_move_to(next) && !matches!(next, TaskStatus::Cancelled) {
                    let e = TaskEntry {
                        id: self.entries[i].id.clone(),
                        status: next,
                        payload: copy_bytes(&self.entries[i].payload),
                        output,
                    };
                    self.entries.set(i, e);
                    assert(self.view() =~= old(self).view().update(
                        i as int,
                        TaskView { status: next, output: out, ..old(self).view()[i as int] },
                    ));
                    Ok(())
                } else {
                    Err(QrmiError::new(ErrorKind::Backend, "the lifecycle does not allow this move"))
                }
            },
        }
    }
}

} // verus!
