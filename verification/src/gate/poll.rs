use crate::error::{CoralGateError, ErrorView};
use vstd::prelude::*;

verus! {

/// How long and how often the signed certificate is waited for.
#[derive(Clone, Copy, Debug)]
pub struct PollPolicy {
    /// How many fetches are made before the wait is given up.
    pub max_attempts: u32,
    /// The seconds slept after each fetch that brought no certificate.
    pub interval_secs: u64,
    /// The seconds slept once more after the last fetch, before the wait fails.
    pub cooldown_secs: u64,
}

impl PollPolicy {
    /// 32 fetches, one second apart, and a cooldown of 30 seconds.
    pub fn standard() -> (policy: PollPolicy)
        ensures
            policy.max_attempts == 32,
            policy.interval_secs == 1,
            policy.cooldown_secs == 30,
    {
        PollPolicy { max_attempts: 32, interval_secs: 1, cooldown_secs: 30 }
    }
}

impl Default for PollPolicy {
    fn default() -> (policy: PollPolicy)
        ensures
            policy.max_attempts == 32,
            policy.interval_secs == 1,
            policy.cooldown_secs == 30,
    {
        PollPolicy::standard()
    }
}

/// What one fetch of the record brought.
#[derive(Clone, Debug)]
pub enum FetchOutcome {
    /// The fetch itself failed.
    Failed,
    /// The record came without a certificate.
    Pending,
    /// The record came with this certificate.
    Signed(Vec<u8>),
}

impl View for FetchOutcome {
    type V = Outcome;

    open spec fn view(&self) -> Outcome {
        match *self {
            FetchOutcome::Failed => Outcome::Failed,
            FetchOutcome::Pending => Outcome::Pending,
            FetchOutcome::Signed(certificate) => Outcome::Signed(certificate@),
        }
    }
}

/// What the wait is told of.
#[derive(Clone, Debug)]
pub enum PollEvent {
    /// A fetch has ended.
    Fetched(FetchOutcome),
    /// A sleep has ended.
    Woke,
}

impl View for PollEvent {
    type V = Signal;

    open spec fn view(&self) -> Signal {
        match *self {
            PollEvent::Fetched(outcome) => Signal::Fetched(outcome@),
            PollEvent::Woke => Signal::Woke,
        }
    }
}

/// What the wait asks for next.
#[derive(Debug)]
pub enum PollAction {
    /// Fetch the record.
    Fetch,
    /// Sleep for so many seconds.
    Sleep(u64),
    /// Hand out this certificate; the wait is over.
    Issue(Vec<u8>),
    /// Fail with this error; the wait is over.
    TimeOut(CoralGateError),
    /// Nothing: the event was not the one awaited.
    Wait,
}

impl View for PollAction {
    type V = Step;

    open spec fn view(&self) -> Step {
        match *self {
            PollAction::Fetch => Step::Fetch,
            PollAction::Sleep(secs) => Step::Sleep(secs),
            PollAction::Issue(certificate) => Step::Issue(certificate@),
            PollAction::TimeOut(error) => Step::TimeOut(error@),
            PollAction::Wait => Step::Wait,
        }
    }
}

/// The error of a wait that has run out; it names what was waited for.
pub open spec fn poll_timeout() -> ErrorView {
    ErrorView::TimeoutError("Timed out getting signed certificate"@)
}

/// Where the wait for the signed certificate stands.
#[derive(Clone, Copy, Debug, PartialEq, Eq, Structural)]
pub enum PollState {
    /// A fetch is under way; it is one of `left` that may still be made.
    Fetching { left: u32 },
    /// The interval after a fetch without certificate is slept; `left` fetches
    /// may still be made.
    Resting { left: u32 },
    /// All fetches were made in vain; the cooldown is slept.
    CoolingDown,
    /// A certificate was handed out.
    Issued,
    /// The wait has failed.
    TimedOut,
}

/// What one fetch of the record brought, as contracts see it.
pub enum Outcome {
    /// The fetch itself failed.
    Failed,
    /// The record came without a certificate.
    Pending,
    /// The record came with this certificate.
    Signed(Seq<u8>),
}

/// What the wait is told of, as contracts see it.
pub enum Signal {
    /// A fetch has ended.
    Fetched(Outcome),
    /// A sleep has ended.
    Woke,
}

/// What the wait asks for next, as contracts see it.
pub enum Step {
    /// Fetch the record.
    Fetch,
    /// Sleep for so many seconds.
    Sleep(u64),
    /// Hand out this certificate; the wait is over.
    Issue(Seq<u8>),
    /// Fail with this error; the wait is over.
    TimeOut(ErrorView),
    /// Nothing: the signal was not the one awaited.
    Wait,
}

/// The state that follows a sleep or the start, with `left` fetches to make.
pub open spec fn resume(policy: PollPolicy, left: u32) -> (PollState, Step) {
    if left > 0 {
        (PollState::Fetching { left }, Step::Fetch)
    } else {
        (PollState::CoolingDown, Step::Sleep(policy.cooldown_secs))
    }
}

/// How the wait begins.
pub open spec fn poll_start(policy: PollPolicy) -> (PollState, Step) {
    resume(policy, policy.max_attempts)
}

/// One transition of the wait. A certificate ends it at once; a fetch without
/// one, failed or not, uses up an attempt and is followed by the interval;
/// when no attempt is left the cooldown follows, and then the timeout.
pub open spec fn poll_next(policy: PollPolicy, state: PollState, signal: Signal) -> (
    PollState,
    Step,
) {
    match (state, signal) {
        (PollState::Fetching { left }, Signal::Fetched(Outcome::Signed(certificate))) => (
            PollState::Issued,
            Step::Issue(certificate),
        ),
        (PollState::Fetching { left }, Signal::Fetched(_)) => (
            PollState::Resting {
                left: if left > 0 {
                    (left - 1) as u32
                } else {
                    0
                },
            },
            Step::Sleep(policy.interval_secs),
        ),
        (PollState::Resting { left }, Signal::Woke) => resume(policy, left),
        (PollState::CoolingDown, Signal::Woke) => (
            PollState::TimedOut,
            Step::TimeOut(poll_timeout()),
        ),
        _ => (state, Step::Wait),
    }
}

/// How far a state is from a fetch or from the end, counted in sleeps.
pub open spec fn sleeps_ahead(state: PollState) -> nat {
    match state {
        PollState::Resting { .. } => 2,
        PollState::CoolingDown => 1,
        _ => 0,
    }
}

/// What the wait asks for, in order, from `state` on, when the fetches bring
/// `outcomes` one after the other and every sleep is slept to its end. It ends
/// with the wait, or where a fetch is asked for and no outcome is left.
pub open spec fn trace_from(policy: PollPolicy, state: PollState, outcomes: Seq<Outcome>) -> Seq<
    Step,
>
    decreases outcomes.len(), sleeps_ahead(state),
{
    match state {
        PollState::Fetching { .. } => if outcomes.len() == 0 {
            Seq::empty()
        } else {
            let next = poll_next(policy, state, Signal::Fetched(outcomes[0]));
            seq![next.1] + trace_from(policy, next.0, outcomes.drop_first())
        },
        PollState::Resting { .. } | PollState::CoolingDown => {
            let next = poll_next(policy, state, Signal::Woke);
            seq![next.1] + trace_from(policy, next.0, outcomes)
        },
        PollState::Issued | PollState::TimedOut => Seq::empty(),
    }
}

/// Everything the wait asks for, from its start.
pub open spec fn poll_trace(policy: PollPolicy, outcomes: Seq<Outcome>) -> Seq<Step> {
    seq![poll_start(policy).1] + trace_from(policy, poll_start(policy).0, outcomes)
}

/// `count` fetches, each followed by the interval.
pub open spec fn retries(policy: PollPolicy, count: nat) -> Seq<Step>
    decreases count,
{
    if count == 0 {
        Seq::empty()
    } else {
        seq![Step::Fetch, Step::Sleep(policy.interval_secs)] + retries(
            policy,
            (count - 1) as nat,
        )
    }
}

/// Whether the first `count` outcomes all came without a certificate.
pub open spec fn none_signed(outcomes: Seq<Outcome>, count: int) -> bool {
    forall|i: int| 0 <= i < count ==> !(#[trigger] outcomes[i] is Signed)
}

proof fn lemma_issued_from(
    policy: PollPolicy,
    left: u32,
    outcomes: Seq<Outcome>,
    k: int,
    certificate: Seq<u8>,
)
    requires
        0 <= k < left,
        k < outcomes.len(),
        none_signed(outcomes, k),
        outcomes[k] == Outcome::Signed(certificate),
    ensures
        seq![Step::Fetch] + trace_from(policy, PollState::Fetching { left }, outcomes) == retries(
            policy,
            k as nat,
        ) + seq![Step::Fetch, Step::Issue(certificate)],
    decreases k,
{
    let state = PollState::Fetching { left };
    let rest = outcomes.drop_first();
    if k == 0 {
        assert(trace_from(policy, PollState::Issued, rest) =~= Seq::<Step>::empty());
        assert(seq![Step::Fetch] + trace_from(policy, state, outcomes) =~= retries(policy, 0)
            + seq![Step::Fetch, Step::Issue(certificate)]);
    } else {
        assert(!(outcomes[0] is Signed));
        let lower = (left - 1) as u32;
        assert(poll_next(policy, state, Signal::Fetched(outcomes[0])) == (
            PollState::Resting { left: lower },
            Step::Sleep(policy.interval_secs),
        ));
        assert(trace_from(policy, PollState::Resting { left: lower }, rest) == seq![Step::Fetch]
            + trace_from(policy, PollState::Fetching { left: lower }, rest));
        assert forall|i: int| 0 <= i < k - 1 implies !(#[trigger] rest[i] is Signed) by {
            assert(rest[i] == outcomes[i + 1]);
        }
        lemma_issued_from(policy, lower, rest, k - 1, certificate);
        assert(seq![Step::Fetch] + trace_from(policy, state, outcomes) =~= seq![
            Step::Fetch,
            Step::Sleep(policy.interval_secs),
        ] + (seq![Step::Fetch] + trace_from(policy, PollState::Fetching { left: lower }, rest)));
        assert(retries(policy, k as nat) + seq![Step::Fetch, Step::Issue(certificate)] =~= seq![
            Step::Fetch,
            Step::Sleep(policy.interval_secs),
        ] + (retries(policy, (k - 1) as nat) + seq![Step::Fetch, Step::Issue(certificate)]));
    }
}

proof fn lemma_timeout_from(policy: PollPolicy, left: u32, outcomes: Seq<Outcome>)
    requires
        left >= 1,
        outcomes.len() >= left,
        none_signed(outcomes, left as int),
    ensures
        seq![Step::Fetch] + trace_from(policy, PollState::Fetching { left }, outcomes) == retries(
            policy,
            left as nat,
        ) + seq![Step::Sleep(policy.cooldown_secs), Step::TimeOut(poll_timeout())],
    decreases left,
{
    let state = PollState::Fetching { left };
    let rest = outcomes.drop_first();
    let lower = (left - 1) as u32;
    let tail = seq![Step::Sleep(policy.cooldown_secs), Step::TimeOut(poll_timeout())];
    assert(!(outcomes[0] is Signed));
    assert(poll_next(policy, state, Signal::Fetched(outcomes[0])) == (
        PollState::Resting { left: lower },
        Step::Sleep(policy.interval_secs),
    ));
    if left == 1 {
        assert(trace_from(policy, PollState::TimedOut, rest) =~= Seq::<Step>::empty());
        assert(trace_from(policy, PollState::CoolingDown, rest) =~= seq![Step::TimeOut(poll_timeout())]);
        assert(trace_from(policy, PollState::Resting { left: 0 }, rest) =~= tail);
        assert(retries(policy, 0) =~= Seq::<Step>::empty());
        assert(seq![Step::Fetch] + trace_from(policy, state, outcomes) =~= retries(policy, 1)
            + tail);
    } else {
        assert(trace_from(policy, PollState::Resting { left: lower }, rest) == seq![Step::Fetch]
            + trace_from(policy, PollState::Fetching { left: lower }, rest));
        assert forall|i: int| 0 <= i < lower implies !(#[trigger] rest[i] is Signed) by {
            assert(rest[i] == outcomes[i + 1]);
        }
        lemma_timeout_from(policy, lower, rest);
        assert(seq![Step::Fetch] + trace_from(policy, state, outcomes) =~= seq![
            Step::Fetch,
            Step::Sleep(policy.interval_secs),
        ] + (seq![Step::Fetch] + trace_from(policy, PollState::Fetching { left: lower }, rest)));
        assert(retries(policy, left as nat) + tail =~= seq![
            Step::Fetch,
            Step::Sleep(policy.interval_secs),
        ] + (retries(policy, lower as nat) + tail));
    }
}

/// The certificate is handed out at the first fetch that brings one, with no
/// sleep behind it, however many fetches before it brought none or failed, so
/// long as they were fewer than the attempts allowed.
pub proof fn lemma_issued_at_first_certificate(
    policy: PollPolicy,
    outcomes: Seq<Outcome>,
    k: int,
    certificate: Seq<u8>,
)
    requires
        0 <= k < policy.max_attempts,
        k < outcomes.len(),
        none_signed(outcomes, k),
        outcomes[k] == Outcome::Signed(certificate),
    ensures
        poll_trace(policy, outcomes) == retries(policy, k as nat) + seq![
            Step::Fetch,
            Step::Issue(certificate),
        ],
{
    lemma_issued_from(policy, policy.max_attempts, outcomes, k, certificate);
}

/// When as many fetches as are allowed bring no certificate, whether they
/// fail or find none, the timeout is reported, and not before the cooldown
/// has been slept in full after the last interval.
pub proof fn lemma_timeout_after_all_attempts(policy: PollPolicy, outcomes: Seq<Outcome>)
    requires
        outcomes.len() >= policy.max_attempts,
        none_signed(outcomes, policy.max_attempts as int),
    ensures
        poll_trace(policy, outcomes) == retries(policy, policy.max_attempts as nat) + seq![
            Step::Sleep(policy.cooldown_secs),
            Step::TimeOut(poll_timeout()),
        ],
{
    if policy.max_attempts == 0 {
        assert(trace_from(policy, PollState::TimedOut, outcomes) =~= Seq::<Step>::empty());
        assert(trace_from(policy, PollState::CoolingDown, outcomes) =~= seq![Step::TimeOut(poll_timeout())]);
        assert(poll_trace(policy, outcomes) =~= retries(policy, 0) + seq![
            Step::Sleep(policy.cooldown_secs),
            Step::TimeOut(poll_timeout()),
        ]);
    } else {
        lemma_timeout_from(policy, policy.max_attempts, outcomes);
    }
}

} // verus!
