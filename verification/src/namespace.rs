//! Making sure a namespace exists: fetch it, create it when it is missing,
//! and fetch it again when someone else created it in between.
use vstd::prelude::*;

verus! {

/// The call that is under way.
#[derive(PartialEq, Eq, Structural, Clone, Copy, Debug)]
pub enum NamespaceStep {
    /// Fetching the namespace.
    Fetch,
    /// Creating it after it was not found.
    Create,
    /// Fetching it after the creation found it already there.
    Refetch,
}

/// How a call to the Kubernetes API ended.
#[derive(PartialEq, Eq, Structural, Clone, Copy, Debug)]
pub enum CallOutcome {
    Success,
    /// The API server answered with this status code.
    ApiError { code: u16 },
    /// The call failed otherwise.
    OtherError,
}

/// What to do next.
#[derive(PartialEq, Eq, Structural, Clone, Copy, Debug)]
pub enum NamespaceAction {
    /// The namespace exists: the call's result is it.
    Done,
    /// Issue this call next.
    Next(NamespaceStep),
    /// Report the call's error.
    Fail,
}

/// What follows a call: a missing namespace (404) is created, a creation
/// that collides with an existing namespace (409) is followed by a new
/// fetch, any other error is reported.
pub open spec fn namespace_transition(step: NamespaceStep, outcome: CallOutcome) -> NamespaceAction {
    match outcome {
        CallOutcome::Success => NamespaceAction::Done,
        CallOutcome::ApiError { code } => match step {
            NamespaceStep::Fetch => if code == 404 {
                NamespaceAction::Next(NamespaceStep::Create)
            } else {
                NamespaceAction::Fail
            },
            NamespaceStep::Create => if code == 409 {
                NamespaceAction::Next(NamespaceStep::Refetch)
            } else {
                NamespaceAction::Fail
            },
            NamespaceStep::Refetch => NamespaceAction::Fail,
        },
        CallOutcome::OtherError => NamespaceAction::Fail,
    }
}

/// Decides what follows a call while ensuring a namespace.
pub fn next_namespace_action(step: NamespaceStep, outcome: CallOutcome) -> (a: NamespaceAction)
    ensures
        a == namespace_transition(step, outcome),
{
    match outcome {
        CallOutcome::Success => NamespaceAction::Done,
        CallOutcome::ApiError { code } => match step {
            NamespaceStep::Fetch => if code == 404 {
                NamespaceAction::Next(NamespaceStep::Create)
            } else {
                NamespaceAction::Fail
            },
            NamespaceStep::Create => if code == 409 {
                NamespaceAction::Next(NamespaceStep::Refetch)
            } else {
                NamespaceAction::Fail
            },
            NamespaceStep::Refetch => NamespaceAction::Fail,
        },
        CallOutcome::OtherError => NamespaceAction::Fail,
    }
}

/// The rank of a step in the order fetch, create, refetch.
pub open spec fn step_rank(s: NamespaceStep) -> nat {
    match s {
        NamespaceStep::Fetch => 0,
        NamespaceStep::Create => 1,
        NamespaceStep::Refetch => 2,
    }
}

/// Every call that follows another comes next in the order fetch, create,
/// refetch, so ensuring a namespace takes at most three calls; and the
/// namespace is reported only after a call that succeeded.
pub proof fn lemma_namespace_calls_progress(step: NamespaceStep, outcome: CallOutcome)
    ensures
        namespace_transition(step, outcome) matches NamespaceAction::Next(n) ==> step_rank(n)
            == step_rank(step) + 1,
        namespace_transition(step, outcome) == NamespaceAction::Done <==> outcome
            == CallOutcome::Success,
{
}

/// How an API server on which nobody else touches the namespace answers a
/// call, given whether the namespace exists: fetching finds it or answers
/// 404, creating makes it or answers 409.
pub open spec fn cluster_answer(step: NamespaceStep, present: bool) -> CallOutcome {
    match step {
        NamespaceStep::Create => if present {
            CallOutcome::ApiError { code: 409 }
        } else {
            CallOutcome::Success
        },
        _ => if present {
            CallOutcome::Success
        } else {
            CallOutcome::ApiError { code: 404 }
        },
    }
}

/// Ensuring a namespace from `step` on such a server: the calls made, how it
/// ends, and whether the namespace exists afterwards (at most `calls` calls
/// are followed).
pub open spec fn ensure_run(step: NamespaceStep, present: bool, calls: nat) -> (
    Seq<NamespaceStep>,
    NamespaceAction,
    bool,
)
    decreases calls,
{
    let present_after = present || step == NamespaceStep::Create;
    let action = namespace_transition(step, cluster_answer(step, present));
    match action {
        NamespaceAction::Next(n) => if calls <= 1 {
            (seq![step], action, present_after)
        } else {
            let run = ensure_run(n, present_after, (calls - 1) as nat);
            (seq![step] + run.0, run.1, run.2)
        },
        _ => (seq![step], action, present_after),
    }
}

/// Ensuring a namespace succeeds whether or not it existed and leaves it in
/// place; ensuring it once more, when it present, only fetches it: it creates
/// nothing.
pub proof fn lemma_ensure_namespace_idempotent(present: bool)
    ensures
        ensure_run(NamespaceStep::Fetch, present, 3).1 == NamespaceAction::Done,
        ensure_run(NamespaceStep::Fetch, present, 3).2,
        ensure_run(NamespaceStep::Fetch, true, 3).0 == seq![NamespaceStep::Fetch],
        ensure_run(NamespaceStep::Fetch, true, 3).1 == NamespaceAction::Done,
        ensure_run(NamespaceStep::Fetch, true, 3).2,
{
    assert(ensure_run(NamespaceStep::Fetch, true, 3).0 =~= seq![NamespaceStep::Fetch]);
    if !present {
        assert(ensure_run(NamespaceStep::Create, false, 2).1 == NamespaceAction::Done);
        assert(ensure_run(NamespaceStep::Create, false, 2).2);
        assert(ensure_run(NamespaceStep::Fetch, false, 3).1 == NamespaceAction::Done);
        assert(ensure_run(NamespaceStep::Fetch, false, 3).2);
    }
}

/// Which API errors lead on: a namespace that is not found (404) is
/// created, and a creation that finds it already there (409) is followed by a
/// new fetch; every other error code, any error of a refetch, and any error
/// that is not an API answer end the procedure in failure.
pub proof fn lemma_namespace_error_codes(code: u16)
    ensures
        code == 404 ==> namespace_transition(NamespaceStep::Fetch, CallOutcome::ApiError { code })
            == NamespaceAction::Next(NamespaceStep::Create),
        code != 404 ==> namespace_transition(NamespaceStep::Fetch, CallOutcome::ApiError { code })
            == NamespaceAction::Fail,
        code == 409 ==> namespace_transition(NamespaceStep::Create, CallOutcome::ApiError { code })
            == NamespaceAction::Next(NamespaceStep::Refetch),
        code != 409 ==> namespace_transition(NamespaceStep::Create, CallOutcome::ApiError { code })
            == NamespaceAction::Fail,
        namespace_transition(NamespaceStep::Refetch, CallOutcome::ApiError { code })
            == NamespaceAction::Fail,
        forall|step: NamespaceStep|
            #[trigger] namespace_transition(step, CallOutcome::OtherError) == NamespaceAction::Fail,
{
}

} // verus!
