use vstd::prelude::*;
use tokio::task::JoinHandle;

verus! {

#[verifier::external_type_specification]
#[verifier::external_body]
#[verifier::reject_recursive_types(T)]
pub struct ExJoinHandle<T>(JoinHandle<T>);

#[verifier::external_type_specification]
#[verifier::external_body]
pub struct ExJoinError(tokio::task::JoinError);

/// How a background task ended abnormally.
#[derive(Debug, PartialEq, Eq)]
pub enum TaskError {
    /// The task ran to its end and reported this failure.
    Failed(String),
    /// The task panicked or was cancelled before its end.
    Aborted(String),
}

impl Clone for TaskError {
    fn clone(&self) -> (r: Self)
        ensures
            r == *self,
    {
        match self {
            TaskError::Failed(m) => TaskError::Failed(m.clone()),
            TaskError::Aborted(m) => TaskError::Aborted(m.clone()),
        }
    }
}

/// What a background task hands back when it ends.
pub type TaskResult = Result<(), TaskError>;

/// The first failure among `outcomes`, in order, or success when there is
/// none.
pub open spec fn first_failure(outcomes: Seq<TaskResult>) -> TaskResult
    decreases outcomes.len(),
{
    if outcomes.len() == 0 {
        Ok(())
    } else if outcomes[0] is Err {
        outcomes[0]
    } else {
        first_failure(outcomes.drop_first())
    }
}

/// The background tasks owned by one VM instance.
pub struct TaskRegistry {
    handles: Vec<JoinHandle<TaskResult>>,
}

impl View for TaskRegistry {
    type V = Seq<JoinHandle<TaskResult>>;

    closed spec fn view(&self) -> Seq<JoinHandle<TaskResult>> {
        self.handles@
    }
}

impl TaskRegistry {
    /// An empty registry.
    pub fn new() -> (r: Self)
        ensures
            r@.len() == 0,
    {
        TaskRegistry { handles: Vec::new() }
    }

    /// Takes ownership of `handle`.
    pub fn register(&mut self, handle: JoinHandle<TaskResult>)
        ensures
            final(self)@ == old(self)@.push(handle),
    {
        self.handles.push(handle);
    }

    /// Hands out every registered handle, in the order of registration, and
    /// leaves the registry empty: each handle is joined once.
    pub fn take_all(&mut self) -> (r: Vec<JoinHandle<TaskResult>>)
        ensures
            r@ == old(self)@,
            final(self)@.len() == 0,
    {
        let mut out: Vec<JoinHandle<TaskResult>> = Vec::new();
        core::mem::swap(&mut self.handles, &mut out);
        out
    }

    /// Number of registered handles.
    pub fn len(&self) -> (r: usize)
        ensures
            r == self@.len(),
    {
        self.handles.len()
    }

    /// Whether no handle is registered.
    pub fn is_empty(&self) -> (r: bool)
        ensures
            r == (self@.len() == 0),
    {
        self.handles.len() == 0
    }
}

/// Folds one more outcome into the result of a join: the first failure seen
/// stays.
pub fn record_outcome(sofar: TaskResult, next: TaskResult) -> (r: TaskResult)
    ensures
        r == (if sofar is Err { sofar } else { next }),
{
    match sofar {
        Err(e) => Err(e),
        Ok(()) => next,
    }
}

/// The result of joining tasks that ended with `outcomes`: the first failure,
/// or success when every task succeeded.
pub fn join_result(outcomes: &Vec<TaskResult>) -> (r: TaskResult)
    ensures
        r == first_failure(outcomes@),
{
    let mut i: usize = 0;
    assert(outcomes@.subrange(0, outcomes@.len() as int) =~= outcomes@);
    while i < outcomes.len()
        invariant
            0 <= i <= outcomes@.len(),
            forall|j: int| 0 <= j < i ==> outcomes@[j] is Ok,
            first_failure(outcomes@.subrange(i as int, outcomes@.len() as int))
                == first_failure(outcomes@),
        decreases outcomes@.len() - i,
    {
        proof {
            let tail = outcomes@.subrange(i as int, outcomes@.len() as int);
            assert(tail.drop_first() =~= outcomes@.subrange(i + 1, outcomes@.len() as int));
        }
        match &outcomes[i] {
            Err(e) => {
                return Err(e.clone());
            },
            Ok(()) => {},
        }
        i = i + 1;
    }
    assert(outcomes@.subrange(i as int, outcomes@.len() as int).len() == 0);
    Ok(())
}

/// When the `k`-th task is the first to fail, joining reports its failure,
/// whatever the later tasks did.
pub proof fn lemma_first_failure_reported(outcomes: Seq<TaskResult>, k: int)
    requires
        0 <= k < outcomes.len(),
        outcomes[k] is Err,
        forall|j: int| 0 <= j < k ==> outcomes[j] is Ok,
    ensures
        first_failure(outcomes) == outcomes[k],
    decreases k,
{
    if k > 0 {
        lemma_first_failure_reported(outcomes.drop_first(), k - 1);
    }
}

/// Joining tasks that all succeeded succeeds.
pub proof fn lemma_all_ok(outcomes: Seq<TaskResult>)
    requires
        forall|j: int| 0 <= j < outcomes.len() ==> outcomes[j] is Ok,
    ensures
        first_failure(outcomes) == Ok::<(), TaskError>(()),
    decreases outcomes.len(),
{
    if outcomes.len() > 0 {
        lemma_all_ok(outcomes.drop_first());
    }
}

} // verus!
