use vstd::prelude::*;
use vstd::string::*;

use crate::error::Error;

verus! {

/// What the caller asked for when it opened the connection.
#[derive(Debug, Clone, Copy, PartialEq, Eq, Structural)]
pub enum Intent {
    /// Reuse existing trust; no human interaction.
    Resume,
    /// Establish new trust through the verification ceremony.
    Pair,
}

/// The phase in which a workflow failed.
#[derive(Debug, Clone, Copy, PartialEq, Eq, Structural)]
pub enum FailReason {
    Connect,
    KeyExchange,
    Persist,
}

/// The states of one attempt to reach an authenticated session.
#[derive(Debug, Clone, Copy, PartialEq, Eq, Structural)]
pub enum PairingState {
    Idle,
    Connecting(Intent),
    KeyExchanging(Intent),
    AwaitingConfirmation,
    /// Confirmed by the user; the handshake is being finalized.
    Completing,
    /// The finalized state is being written.
    Persisting,
    /// Resumed over existing trust.
    Authenticated,
    Paired,
    Rejected,
    /// A resume found no shared trust.
    NotPaired,
    Failed(FailReason),
}

/// What the outside world reports back to the workflow.
#[derive(Debug, Clone, Copy, PartialEq, Eq, Structural)]
pub enum PairingEvent {
    Start(Intent),
    Connected,
    ConnectFailed,
    /// The peer already trusts us: the session is open.
    Resumed,
    /// The peer does not trust us yet.
    NotTrusted,
    /// The handshake produced a verification phrase.
    PhraseReady,
    ExchangeFailed,
    /// The user's answer to the verification phrase.
    Answered(bool),
    /// The handshake finished and produced the new session state.
    Finalized,
    Persisted,
    PersistFailed,
}

/// What the workflow asks the outside world to do next.
#[derive(Debug, Clone, Copy, PartialEq, Eq, Structural)]
pub enum PairingAction {
    Connect,
    /// Try to open a session over the current session state.
    ExchangeKeys,
    /// Start a handshake that establishes new trust.
    BeginPairing,
    /// Show the verification phrase and collect the answer.
    AskConfirmation,
    /// Let the handshake finish.
    ContinueHandshake,
    /// Drop the handshake without keeping anything.
    Abandon,
    /// Overwrite the session file with the finalized state.
    Persist,
    Nothing,
}

/// The transition table of the workflow. Events that do not apply to a
/// state leave it as it is and ask for nothing; terminal states take no
/// event.
pub open spec fn step_spec(s: PairingState, e: PairingEvent) -> (PairingState, PairingAction) {
    match (s, e) {
        (PairingState::Idle, PairingEvent::Start(i)) => (PairingState::Connecting(i), PairingAction::Connect),
        (PairingState::Connecting(i), PairingEvent::Connected) => (
            PairingState::KeyExchanging(i),
            if i == Intent::Resume { PairingAction::ExchangeKeys } else { PairingAction::BeginPairing },
        ),
        (PairingState::Connecting(_), PairingEvent::ConnectFailed) => (
            PairingState::Failed(FailReason::Connect),
            PairingAction::Nothing,
        ),
        (PairingState::KeyExchanging(Intent::Resume), PairingEvent::Resumed) => (
            PairingState::Authenticated,
            PairingAction::Nothing,
        ),
        (PairingState::KeyExchanging(Intent::Resume), PairingEvent::NotTrusted) => (
            PairingState::NotPaired,
            PairingAction::Nothing,
        ),
        (PairingState::KeyExchanging(Intent::Pair), PairingEvent::PhraseReady) => (
            PairingState::AwaitingConfirmation,
            PairingAction::AskConfirmation,
        ),
        (PairingState::KeyExchanging(_), PairingEvent::ExchangeFailed) => (
            PairingState::Failed(FailReason::KeyExchange),
            PairingAction::Nothing,
        ),
        (PairingState::AwaitingConfirmation, PairingEvent::Answered(yes)) => if yes {
            (PairingState::Completing, PairingAction::ContinueHandshake)
        } else {
            (PairingState::Rejected, PairingAction::Abandon)
        },
        (PairingState::AwaitingConfirmation, PairingEvent::ExchangeFailed) => (
            PairingState::Failed(FailReason::KeyExchange),
            PairingAction::Nothing,
        ),
        (PairingState::Completing, PairingEvent::Finalized) => (
            PairingState::Persisting,
            PairingAction::Persist,
        ),
        (PairingState::Completing, PairingEvent::ExchangeFailed) => (
            PairingState::Failed(FailReason::KeyExchange),
            PairingAction::Nothing,
        ),
        (PairingState::Persisting, PairingEvent::Persisted) => (PairingState::Paired, PairingAction::Nothing),
        (PairingState::Persisting, PairingEvent::PersistFailed) => (
            PairingState::Failed(FailReason::Persist),
            PairingAction::Nothing,
        ),
        _ => (s, PairingAction::Nothing),
    }
}

/// Whether a state ends the attempt.
pub open spec fn is_terminal_spec(s: PairingState) -> bool {
    match s {
        PairingState::Authenticated | PairingState::Paired | PairingState::Rejected
        | PairingState::NotPaired | PairingState::Failed(_) => true,
        _ => false,
    }
}

/// The final state and the actions asked for when `evs` arrive in order,
/// starting from `s`.
pub open spec fn run(s: PairingState, evs: Seq<PairingEvent>) -> (PairingState, Seq<PairingAction>)
    decreases evs.len(),
{
    if evs.len() == 0 {
        (s, Seq::empty())
    } else {
        let (s1, a) = step_spec(s, evs[0]);
        let (sn, acts) = run(s1, evs.drop_first());
        (sn, seq![a] + acts)
    }
}

/// How many of `acts` write the session file.
pub open spec fn persist_count(acts: Seq<PairingAction>) -> nat
    decreases acts.len(),
{
    if acts.len() == 0 {
        0
    } else {
        (if acts[0] == PairingAction::Persist { 1nat } else { 0nat }) + persist_count(acts.drop_first())
    }
}

/// Whether the session file has been written on the way to `s`.
pub open spec fn persisted_mark(s: PairingState) -> nat {
    match s {
        PairingState::Persisting | PairingState::Paired | PairingState::Failed(FailReason::Persist) => 1,
        _ => 0,
    }
}

proof fn lemma_step_mark(s: PairingState, e: PairingEvent)
    ensures
        ({
            let (s1, a) = step_spec(s, e);
            persisted_mark(s) + (if a == PairingAction::Persist { 1nat } else { 0nat }) == persisted_mark(s1)
        }),
{
}

proof fn lemma_run_count(s: PairingState, evs: Seq<PairingEvent>)
    ensures
        persisted_mark(s) + persist_count(run(s, evs).1) == persisted_mark(run(s, evs).0),
    decreases evs.len(),
{
    if evs.len() > 0 {
        let (s1, a) = step_spec(s, evs[0]);
        lemma_step_mark(s, evs[0]);
        lemma_run_count(s1, evs.drop_first());
        let acts = run(s1, evs.drop_first()).1;
        assert((seq![a] + acts).drop_first() =~= acts);
    }
}

proof fn lemma_terminal_stays(s: PairingState, evs: Seq<PairingEvent>)
    requires
        is_terminal_spec(s),
    ensures
        run(s, evs).0 == s,
    decreases evs.len(),
{
    if evs.len() > 0 {
        lemma_terminal_stays(s, evs.drop_first());
    }
}

proof fn lemma_count_zero_no_persist(acts: Seq<PairingAction>)
    requires
        persist_count(acts) == 0,
    ensures
        !acts.contains(PairingAction::Persist),
    decreases acts.len(),
{
    if acts.len() > 0 {
        lemma_count_zero_no_persist(acts.drop_first());
        assert forall|i: int| 0 <= i < acts.len() implies acts[i] != PairingAction::Persist by {
            if i > 0 {
                assert(acts[i] == acts.drop_first()[i - 1]);
            }
        }
    }
}

/// A declined verification ends the attempt for good and never writes the
/// session file, whatever is reported afterwards.
pub proof fn lemma_rejection_never_persists(evs: Seq<PairingEvent>)
    ensures
        ({
            let (sn, acts) = run(
                PairingState::AwaitingConfirmation,
                seq![PairingEvent::Answered(false)] + evs,
            );
            &&& sn == PairingState::Rejected
            &&& persist_count(acts) == 0
            &&& !acts.contains(PairingAction::Persist)
        }),
{
    let all = seq![PairingEvent::Answered(false)] + evs;
    assert(all.drop_first() =~= evs);
    lemma_terminal_stays(PairingState::Rejected, evs);
    lemma_run_count(PairingState::AwaitingConfirmation, all);
    lemma_count_zero_no_persist(run(PairingState::AwaitingConfirmation, all).1);
}

/// An attempt that ends paired has asked exactly once to write the session
/// file.
pub proof fn lemma_pairing_persists_once(evs: Seq<PairingEvent>)
    requires
        run(PairingState::Idle, evs).0 == PairingState::Paired,
    ensures
        persist_count(run(PairingState::Idle, evs).1) == 1,
{
    lemma_run_count(PairingState::Idle, evs);
}

/// The states reached only after the user accepted the verification phrase.
pub open spec fn confirmed(s: PairingState) -> bool {
    match s {
        PairingState::Completing | PairingState::Persisting | PairingState::Paired
        | PairingState::Failed(FailReason::Persist) => true,
        _ => false,
    }
}

proof fn lemma_persist_needs_answer(s: PairingState, evs: Seq<PairingEvent>)
    requires
        !confirmed(s),
        persist_count(run(s, evs).1) > 0,
    ensures
        evs.contains(PairingEvent::Answered(true)),
    decreases evs.len(),
{
    let (s1, a) = step_spec(s, evs[0]);
    let acts = run(s1, evs.drop_first()).1;
    assert((seq![a] + acts).drop_first() =~= acts);
    if confirmed(s1) {
        assert(evs[0] == PairingEvent::Answered(true));
    } else {
        lemma_persist_needs_answer(s1, evs.drop_first());
        let i = choose|i: int| 0 <= i < evs.drop_first().len() && evs.drop_first()[i] == PairingEvent::Answered(true);
        assert(evs[i + 1] == PairingEvent::Answered(true));
    }
}

/// No attempt writes the session file unless the user accepted the
/// verification phrase along the way.
pub proof fn lemma_persist_only_after_confirmation(evs: Seq<PairingEvent>)
    requires
        run(PairingState::Idle, evs).1.contains(PairingAction::Persist),
    ensures
        evs.contains(PairingEvent::Answered(true)),
{
    let acts = run(PairingState::Idle, evs).1;
    if persist_count(acts) == 0 {
        lemma_count_zero_no_persist(acts);
    }
    lemma_persist_needs_answer(PairingState::Idle, evs);
}

/// The states a resume can pass through.
pub open spec fn on_resume_path(s: PairingState) -> bool {
    match s {
        PairingState::Connecting(Intent::Resume) | PairingState::KeyExchanging(Intent::Resume)
        | PairingState::Authenticated | PairingState::NotPaired
        | PairingState::Failed(FailReason::Connect) | PairingState::Failed(FailReason::KeyExchange) => true,
        _ => false,
    }
}

proof fn lemma_resume_path_closed(s: PairingState, evs: Seq<PairingEvent>)
    requires
        on_resume_path(s),
    ensures
        on_resume_path(run(s, evs).0),
        persist_count(run(s, evs).1) == 0,
    decreases evs.len(),
{
    lemma_run_count(s, evs);
    if evs.len() > 0 {
        lemma_resume_path_closed(step_spec(s, evs[0]).0, evs.drop_first());
    }
}

/// A resume against a peer with no shared trust ends as not paired, and no
/// resume ever writes the session file or asks the user anything.
pub proof fn lemma_resume_untrusted_not_paired(evs: Seq<PairingEvent>)
    ensures
        step_spec(PairingState::KeyExchanging(Intent::Resume), PairingEvent::NotTrusted).0
            == PairingState::NotPaired,
        run(
            PairingState::Idle,
            seq![PairingEvent::Start(Intent::Resume), PairingEvent::Connected, PairingEvent::NotTrusted],
        ).0 == PairingState::NotPaired,
        persist_count(run(PairingState::Idle, seq![PairingEvent::Start(Intent::Resume)] + evs).1) == 0,
{
    let evs3 = seq![PairingEvent::Start(Intent::Resume), PairingEvent::Connected, PairingEvent::NotTrusted];
    assert(evs3.drop_first().drop_first().drop_first() =~= Seq::<PairingEvent>::empty());
    assert(evs3.drop_first().drop_first() =~= seq![PairingEvent::NotTrusted]);
    assert(evs3.drop_first() =~= seq![PairingEvent::Connected, PairingEvent::NotTrusted]);
    reveal_with_fuel(run, 4);
    let all = seq![PairingEvent::Start(Intent::Resume)] + evs;
    assert(all[0] == PairingEvent::Start(Intent::Resume));
    assert(all.drop_first() =~= evs);
    assert(run(PairingState::Idle, all).0 == run(PairingState::Connecting(Intent::Resume), evs).0);
    lemma_resume_path_closed(PairingState::Connecting(Intent::Resume), evs);
    lemma_run_count(PairingState::Idle, all);
}

/// One attempt to connect to a peer, resumed or paired.
#[derive(Debug, Clone, Copy, PartialEq, Eq)]
pub struct PairingWorkflow {
    pub state: PairingState,
}

impl PairingWorkflow {
    /// A workflow that has not started.
    pub fn new() -> (r: PairingWorkflow)
        ensures
            r.state == PairingState::Idle,
    {
        PairingWorkflow { state: PairingState::Idle }
    }

    /// Feeds one event to the workflow and returns what to do next.
    pub fn advance(&mut self, e: PairingEvent) -> (a: PairingAction)
        ensures
            (final(self).state, a) == step_spec(old(self).state, e),
    {
        let (s, a) = match (self.state, e) {
            (PairingState::Idle, PairingEvent::Start(i)) => (PairingState::Connecting(i), PairingAction::Connect),
            (PairingState::Connecting(i), PairingEvent::Connected) => (
                PairingState::KeyExchanging(i),
                match i {
                    Intent::Resume => PairingAction::ExchangeKeys,
                    Intent::Pair => PairingAction::BeginPairing,
                },
            ),
            (PairingState::Connecting(_), PairingEvent::ConnectFailed) => (
                PairingState::Failed(FailReason::Connect),
                PairingAction::Nothing,
            ),
            (PairingState::KeyExchanging(Intent::Resume), PairingEvent::Resumed) => (
                PairingState::Authenticated,
                PairingAction::Nothing,
            ),
            (PairingState::KeyExchanging(Intent::Resume), PairingEvent::NotTrusted) => (
                PairingState::NotPaired,
                PairingAction::Nothing,
            ),
            (PairingState::KeyExchanging(Intent::Pair), PairingEvent::PhraseReady) => (
                PairingState::AwaitingConfirmation,
                PairingAction::AskConfirmation,
            ),
            (PairingState::KeyExchanging(_), PairingEvent::ExchangeFailed)
            | (PairingState::AwaitingConfirmation, PairingEvent::ExchangeFailed)
            | (PairingState::Completing, PairingEvent::ExchangeFailed) => (
                PairingState::Failed(FailReason::KeyExchange),
                PairingAction::Nothing,
            ),
            (PairingState::AwaitingConfirmation, PairingEvent::Answered(yes)) => {
                if yes {
                    (PairingState::Completing, PairingAction::ContinueHandshake)
                } else {
                    (PairingState::Rejected, PairingAction::Abandon)
                }
            },
            (PairingState::Completing, PairingEvent::Finalized) => (
                PairingState::Persisting,
                PairingAction::Persist,
            ),
            (PairingState::Persisting, PairingEvent::Persisted) => (PairingState::Paired, PairingAction::Nothing),
            (PairingState::Persisting, PairingEvent::PersistFailed) => (
                PairingState::Failed(FailReason::Persist),
                PairingAction::Nothing,
            ),
            _ => (self.state, PairingAction::Nothing),
        };
        self.state = s;
        a
    }

    /// Whether the attempt has ended.
    pub fn is_terminal(&self) -> (r: bool)
        ensures
            r == is_terminal_spec(self.state),
    {
        match self.state {
            PairingState::Authenticated | PairingState::Paired | PairingState::Rejected
            | PairingState::NotPaired | PairingState::Failed(_) => true,
            _ => false,
        }
    }

    /// The error the attempt ends with where the workflow itself decided it:
    /// a resume without trust, or a declined verification.
    pub fn refusal(&self) -> (r: Option<Error>)
        ensures
            self.state == PairingState::NotPaired ==> r == Some(Error::NotPaired),
            self.state == PairingState::Rejected ==> r == Some(Error::PairingRejected),
            self.state != PairingState::NotPaired && self.state != PairingState::Rejected ==> r is None,
    {
        match self.state {
            PairingState::NotPaired => Some(Error::NotPaired),
            PairingState::Rejected => Some(Error::PairingRejected),
            _ => None,
        }
    }
}

/// Whether two texts hold the same characters.
fn same_text(a: &str, b: &str) -> (r: bool)
    ensures
        r == (a@ == b@),
{
    let n = a.unicode_len();
    if n != b.unicode_len() {
        return false;
    }
    let mut i: usize = 0;
    while i < n
        invariant
            n == a@.len(),
            n == b@.len(),
            i <= n,
            a@.subrange(0, i as int) == b@.subrange(0, i as int),
        decreases n - i,
    {
        if a.get_char(i) != b.get_char(i) {
            return false;
        }
        assert(a@.subrange(0, i + 1) =~= a@.subrange(0, i as int).push(a@[i as int]));
        assert(b@.subrange(0, i + 1) =~= b@.subrange(0, i as int).push(b@[i as int]));
        i = i + 1;
    }
    assert(a@ =~= a@.subrange(0, n as int));
    assert(b@ =~= b@.subrange(0, n as int));
    true
}

/// Whether a line typed in answer to the verification phrase accepts it:
/// only an explicit `y` or `yes` does; anything else, end of input
/// included, declines.
pub fn is_affirmative(answer: Option<&str>) -> (r: bool)
    ensures
        r == (answer matches Some(a) && (a@ == "y"@ || a@ == "yes"@)),
{
    match answer {
        Some(a) => same_text(a, "y") || same_text(a, "yes"),
        None => false,
    }
}

} // verus!
