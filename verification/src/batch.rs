//! A command applied to every stack that a pattern matches.
//!
//! The stacks are matched on the outside; for each name, in the order in
//! which the names come, the single-stack command is built here. Each
//! command runs for itself: what one of them comes to is recorded as its
//! own entry of the response and has no bearing on the others.

use vstd::prelude::*;
use vstd::string::StringExecFns;
use crate::command::{
    BatchDeployStack, BatchDeployStackIfChanged, BatchDestroyStack, BatchPullStack, CommandError,
    CommandErrorView, DeployStack, DeployStackIfChanged, DeployStackIfChangedView,
    DeployStackView, DestroyStack, DestroyStackView, ExecuteRequest, ExecuteRequestView,
    PermissionLevel, PullStack, PullStackView,
};
use crate::protocol::outcome_view;
use crate::update::{Update, UpdateView};

verus! {

/// The commands that can be applied to many stacks at once.
#[derive(Clone, Copy, Debug, PartialEq, Eq, Structural)]
pub enum BatchKind {
    Deploy,
    DeployIfChanged,
    Pull,
    Destroy,
}

/// The single-stack command of a batch for the stack `stack`: for all
/// services, with no stop time, and without removing orphans.
pub open spec fn spec_single_request(kind: BatchKind, stack: Seq<char>) -> ExecuteRequestView {
    match kind {
        BatchKind::Deploy => ExecuteRequestView::DeployStack(
            DeployStackView { stack, services: Seq::empty(), stop_time: None },
        ),
        BatchKind::DeployIfChanged => ExecuteRequestView::DeployStackIfChanged(
            DeployStackIfChangedView { stack, stop_time: None },
        ),
        BatchKind::Pull => ExecuteRequestView::PullStack(
            PullStackView { stack, services: Seq::empty() },
        ),
        BatchKind::Destroy => ExecuteRequestView::DestroyStack(
            DestroyStackView {
                stack,
                services: Seq::empty(),
                remove_orphans: false,
                stop_time: None,
            },
        ),
    }
}

/// Every service of a stack.
fn all_services() -> (services: Vec<String>)
    ensures
        services.deep_view() == Seq::<Seq<char>>::empty(),
{
    let services: Vec<String> = Vec::new();
    assert(services.deep_view() =~= Seq::empty());
    services
}

impl BatchDeployStack {
    /// The deploy of one matched stack.
    pub fn single_request(stack: String) -> (request: ExecuteRequest)
        ensures
            request@ == spec_single_request(BatchKind::Deploy, stack@),
    {
        ExecuteRequest::DeployStack(
            DeployStack { stack, services: all_services(), stop_time: None },
        )
    }
}

impl BatchDeployStackIfChanged {
    /// The conditional deploy of one matched stack.
    pub fn single_request(stack: String) -> (request: ExecuteRequest)
        ensures
            request@ == spec_single_request(BatchKind::DeployIfChanged, stack@),
    {
        ExecuteRequest::DeployStackIfChanged(DeployStackIfChanged { stack, stop_time: None })
    }
}

impl BatchPullStack {
    /// The pull of one matched stack.
    pub fn single_request(stack: String) -> (request: ExecuteRequest)
        ensures
            request@ == spec_single_request(BatchKind::Pull, stack@),
    {
        ExecuteRequest::PullStack(PullStack { stack, services: all_services() })
    }
}

impl BatchDestroyStack {
    /// The destroy of one matched stack.
    pub fn single_request(stack: String) -> (request: ExecuteRequest)
        ensures
            request@ == spec_single_request(BatchKind::Destroy, stack@),
    {
        ExecuteRequest::DestroyStack(
            DestroyStack {
                stack,
                services: all_services(),
                remove_orphans: false,
                stop_time: None,
            },
        )
    }
}

/// The single-stack command of a batch for the stack `stack`.
pub fn single_request(kind: BatchKind, stack: String) -> (request: ExecuteRequest)
    ensures
        request@ == spec_single_request(kind, stack@),
{
    match kind {
        BatchKind::Deploy => BatchDeployStack::single_request(stack),
        BatchKind::DeployIfChanged => BatchDeployStackIfChanged::single_request(stack),
        BatchKind::Pull => BatchPullStack::single_request(stack),
        BatchKind::Destroy => BatchDestroyStack::single_request(stack),
    }
}

/// A stack on which the command failed, and why.
#[derive(Debug, PartialEq, Eq)]
pub struct BatchExecutionResponseItemErr {
    pub name: String,
    pub error: CommandError,
}

/// What the command came to on one stack.
#[derive(Debug, PartialEq, Eq)]
pub enum BatchExecutionResponseItem {
    /// The command went through; this is its execution record.
    Done(Update),
    /// The command failed.
    Failed(BatchExecutionResponseItemErr),
}

/// Mathematical view of [`BatchExecutionResponseItem`].
pub enum BatchItemView {
    Done(UpdateView),
    Failed { name: Seq<char>, error: CommandErrorView },
}

impl DeepView for BatchExecutionResponseItem {
    type V = BatchItemView;

    open spec fn deep_view(&self) -> BatchItemView {
        match self {
            BatchExecutionResponseItem::Done(update) => BatchItemView::Done(update@),
            BatchExecutionResponseItem::Failed(failed) => BatchItemView::Failed {
                name: failed.name@,
                error: failed.error@,
            },
        }
    }
}

impl View for BatchExecutionResponseItem {
    type V = BatchItemView;

    open spec fn view(&self) -> BatchItemView {
        self.deep_view()
    }
}

/// What the command came to on every matched stack, in the order in which
/// the stacks were matched.
pub type BatchExecutionResponse = Vec<BatchExecutionResponseItem>;

/// The entry for the stack `name`, on which the command came to `outcome`.
pub open spec fn item_of(name: Seq<char>, outcome: Result<UpdateView, CommandErrorView>) -> BatchItemView {
    match outcome {
        Ok(update) => BatchItemView::Done(update),
        Err(error) => BatchItemView::Failed { name, error },
    }
}

/// The number of stacks that have both a name and an outcome.
pub open spec fn paired(names: Seq<Seq<char>>, outcomes: Seq<Result<UpdateView, CommandErrorView>>) -> nat {
    if names.len() <= outcomes.len() {
        names.len()
    } else {
        outcomes.len()
    }
}

/// The response of a batch: one entry for each stack, made of its name and
/// its outcome alone. A name without an outcome, or an outcome without a
/// name, gives no entry.
pub open spec fn spec_batch_response(
    names: Seq<Seq<char>>,
    outcomes: Seq<Result<UpdateView, CommandErrorView>>,
) -> Seq<BatchItemView> {
    Seq::new(paired(names, outcomes), |i: int| item_of(names[i], outcomes[i]))
}

/// The outcomes as their mathematical views.
pub open spec fn outcome_views(outcomes: Seq<Result<Update, CommandError>>) -> Seq<
    Result<UpdateView, CommandErrorView>,
> {
    Seq::new(outcomes.len(), |i: int| outcome_view(outcomes[i]))
}

/// The single-stack commands of a batch, one for each name, in the order of
/// the names.
pub open spec fn spec_batch_requests(kind: BatchKind, names: Seq<Seq<char>>) -> Seq<
    ExecuteRequestView,
> {
    Seq::new(names.len(), |i: int| spec_single_request(kind, names[i]))
}

/// Builds the single-stack command for each name, in the order of the names.
pub fn batch_requests(kind: BatchKind, names: &Vec<String>) -> (requests: Vec<ExecuteRequest>)
    ensures
        requests.deep_view() == spec_batch_requests(kind, names.deep_view()),
{
    let mut requests: Vec<ExecuteRequest> = Vec::new();
    let mut i: usize = 0;
    while i < names.len()
        invariant
            i <= names.len(),
            requests.len() == i,
            forall|k: int|
                0 <= k < i ==> (#[trigger] requests[k])@ == spec_single_request(
                    kind,
                    names[k]@,
                ),
        decreases names.len() - i,
    {
        requests.push(single_request(kind, names[i].clone()));
        i += 1;
    }
    assert(requests.deep_view() =~= spec_batch_requests(kind, names.deep_view()));
    requests
}

/// Builds the response of a batch from the names of the stacks and what the
/// command came to on each.
pub fn batch_response(names: Vec<String>, outcomes: Vec<Result<Update, CommandError>>) -> (response:
    BatchExecutionResponse)
    ensures
        response.deep_view() == spec_batch_response(names.deep_view(), outcome_views(outcomes@)),
{
    let mut names = names;
    let mut outcomes = outcomes;
    let ghost all_names = names.deep_view();
    let ghost all_outcomes = outcome_views(outcomes@);
    let count = if names.len() <= outcomes.len() {
        names.len()
    } else {
        outcomes.len()
    };
    names.truncate(count);
    outcomes.truncate(count);
    let mut reversed: Vec<BatchExecutionResponseItem> = Vec::new();
    while names.len() > 0
        invariant
            names.len() == outcomes.len(),
            names.len() + reversed.len() == count,
            count == paired(all_names, all_outcomes),
            forall|k: int| 0 <= k < names.len() ==> (#[trigger] names[k])@ == all_names[k],
            forall|k: int|
                0 <= k < outcomes.len() ==> outcome_view(#[trigger] outcomes[k])
                    == all_outcomes[k],
            forall|k: int|
                0 <= k < reversed.len() ==> (#[trigger] reversed[k])@ == item_of(
                    all_names[count - 1 - k],
                    all_outcomes[count - 1 - k],
                ),
        decreases names.len(),
    {
        let name = names.pop();
        let outcome = outcomes.pop();
        match (name, outcome) {
            (Some(name), Some(Ok(update))) => {
                reversed.push(BatchExecutionResponseItem::Done(update));
            },
            (Some(name), Some(Err(error))) => {
                reversed.push(
                    BatchExecutionResponseItem::Failed(BatchExecutionResponseItemErr { name, error }),
                );
            },
            _ => {},
        }
    }
    let mut response: Vec<BatchExecutionResponseItem> = Vec::new();
    while reversed.len() > 0
        invariant
            reversed.len() + response.len() == count,
            count == paired(all_names, all_outcomes),
            forall|k: int|
                0 <= k < reversed.len() ==> (#[trigger] reversed[k])@ == item_of(
                    all_names[count - 1 - k],
                    all_outcomes[count - 1 - k],
                ),
            forall|k: int|
                0 <= k < response.len() ==> (#[trigger] response[k])@ == item_of(
                    all_names[k],
                    all_outcomes[k],
                ),
        decreases reversed.len(),
    {
        match reversed.pop() {
            Some(item) => {
                response.push(item);
            },
            None => {},
        }
    }
    assert(response.deep_view() =~= spec_batch_response(all_names, all_outcomes));
    response
}

/// What one stack comes to has no bearing on the entry of any other: with
/// the outcome of one stack replaced, every other entry stays as it was.
pub proof fn lemma_outcomes_are_kept_apart(
    names: Seq<Seq<char>>,
    outcomes: Seq<Result<UpdateView, CommandErrorView>>,
    k: int,
    other: Result<UpdateView, CommandErrorView>,
)
    requires
        0 <= k < outcomes.len(),
    ensures
        spec_batch_response(names, outcomes.update(k, other)).len() == spec_batch_response(
            names,
            outcomes,
        ).len(),
        forall|i: int|
            0 <= i < spec_batch_response(names, outcomes).len() && i != k ==> (
            #[trigger] spec_batch_response(names, outcomes.update(k, other))[i])
                == spec_batch_response(names, outcomes)[i],
{
}

/// An entry tells of a failure exactly where the command failed on that
/// stack, and then names the stack; the entries come in the order of the
/// stacks.
pub proof fn lemma_entries_follow_outcomes(
    names: Seq<Seq<char>>,
    outcomes: Seq<Result<UpdateView, CommandErrorView>>,
    i: int,
)
    requires
        0 <= i < names.len(),
        names.len() == outcomes.len(),
    ensures
        spec_batch_response(names, outcomes).len() == names.len(),
        spec_batch_response(names, outcomes)[i] is Failed <==> outcomes[i] is Err,
        outcomes[i] matches Err(error) ==> spec_batch_response(names, outcomes)[i]
            == (BatchItemView::Failed { name: names[i], error }),
        outcomes[i] matches Ok(update) ==> spec_batch_response(names, outcomes)[i]
            == BatchItemView::Done(update),
{
}

} // verus!
