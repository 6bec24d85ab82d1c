//! Epoch supervisor.
//!
//! An epoch is one full life of the pipeline: one credential, one set of
//! channels, one registry. The supervisor asks for a credential until it gets
//! one, runs the stages, waits until all of them and the restart signal have
//! come in, and then starts over with nothing kept. It never stops by itself.
//!
//! The supervisor is a function from a phase and a signal to the next phase and
//! an action. The caller performs the action (asks the provider, starts the
//! stages) and hands back what came of it as the next signal.

use vstd::prelude::*;

verus! {

/// Capacity of each channel that links two stages.
pub const STAGE_CHANNEL_CAPACITY: usize = 10;

/// Capacity of the channel that carries restart requests: a single slot, so
/// that a second request waits until the first is taken.
pub const RESTART_CHANNEL_CAPACITY: usize = 1;

/// The code that asks for a restart.
pub const RESTART_CODE: u8 = 1;

/// The stages of an epoch, in the order in which they are started.
#[derive(Clone, Copy, Debug, PartialEq, Eq, Structural)]
pub enum Stage {
    /// Reads the snapshot and emits ids and configurations.
    Feed,
    /// Subscribes to the remote service and produces notifications.
    Transport,
    /// Resolves notifications into launch instructions.
    Router,
    /// Opens and closes viewers.
    Launcher,
    /// Watches viewers exit and produces notifications of its own.
    ExitMonitor,
}

/// What the supervisor is waiting for.
#[derive(Clone, Copy, Debug, PartialEq, Eq, Structural)]
pub enum Phase {
    /// Waiting for the credential provider's answer.
    AcquireCredential,
    /// Waiting for the stages and the restart signal.
    Running,
}

/// How an epoch ended: which stages ended in failure, and what the restart
/// channel yielded (`None` when it closed without a code).
#[derive(Clone, Copy, Debug, PartialEq, Eq)]
pub struct EpochOutcome {
    pub feed_failed: bool,
    pub transport_failed: bool,
    pub router_failed: bool,
    pub launcher_failed: bool,
    pub exit_monitor_failed: bool,
    pub restart: Option<u8>,
}

/// What the outside world reports to the supervisor.
#[derive(Clone, Copy, Debug, PartialEq, Eq)]
pub enum Signal {
    /// The provider handed out a credential.
    CredentialGranted,
    /// The provider failed.
    CredentialRefused,
    /// All stages and the restart signal have come in.
    EpochEnded(EpochOutcome),
}

/// Mathematical content of an [`Action`].
pub enum ActionView {
    RetryCredential,
    StartEpoch,
    RenewCredential { failed: Seq<Stage>, restart_requested: bool },
}

/// What the caller does next.
#[derive(Clone, Debug, PartialEq, Eq)]
pub enum Action {
    /// Tell the operator that the provider failed, and ask it again.
    RetryCredential,
    /// Hold the credential for the epoch, create the channels, start the
    /// stages and wait for all of them together with the restart signal.
    StartEpoch,
    /// Tell the operator which stages failed, drop the credential and the
    /// channels, and ask the provider for a fresh credential.
    RenewCredential { failed: Vec<Stage>, restart_requested: bool },
}

impl View for Action {
    type V = ActionView;

    open spec fn view(&self) -> ActionView {
        match *self {
            Action::RetryCredential => ActionView::RetryCredential,
            Action::StartEpoch => ActionView::StartEpoch,
            Action::RenewCredential { failed, restart_requested } => ActionView::RenewCredential {
                failed: failed@,
                restart_requested,
            },
        }
    }
}

impl DeepView for Action {
    type V = ActionView;

    open spec fn deep_view(&self) -> ActionView {
        self@
    }
}

/// `seq![stage]` if `failed`, else the empty sequence.
pub open spec fn stage_if(failed: bool, stage: Stage) -> Seq<Stage> {
    if failed {
        seq![stage]
    } else {
        Seq::empty()
    }
}

/// The stages that ended in failure, in starting order.
pub open spec fn failed_stages(outcome: EpochOutcome) -> Seq<Stage> {
    stage_if(outcome.feed_failed, Stage::Feed) + stage_if(
        outcome.transport_failed,
        Stage::Transport,
    ) + stage_if(outcome.router_failed, Stage::Router) + stage_if(
        outcome.launcher_failed,
        Stage::Launcher,
    ) + stage_if(outcome.exit_monitor_failed, Stage::ExitMonitor)
}

/// Whether the restart channel yielded the restart code.
pub open spec fn restart_requested(outcome: EpochOutcome) -> bool {
    outcome.restart == Some(RESTART_CODE)
}

/// The supervisor's transition relation: the next phase and the action for a
/// signal that the phase expects, `None` for any other signal.
pub open spec fn transition(phase: Phase, signal: Signal) -> Option<(Phase, ActionView)> {
    match (phase, signal) {
        (Phase::AcquireCredential, Signal::CredentialGranted) => Some(
            (Phase::Running, ActionView::StartEpoch),
        ),
        (Phase::AcquireCredential, Signal::CredentialRefused) => Some(
            (Phase::AcquireCredential, ActionView::RetryCredential),
        ),
        (Phase::Running, Signal::EpochEnded(outcome)) => Some(
            (
                Phase::AcquireCredential,
                ActionView::RenewCredential {
                    failed: failed_stages(outcome),
                    restart_requested: restart_requested(outcome),
                },
            ),
        ),
        _ => None,
    }
}

/// The supervisor played over `signals` from `phase`: the phase it ends in and
/// its action for each signal, or `None` if some signal came out of turn.
pub open spec fn supervise(phase: Phase, signals: Seq<Signal>) -> Option<(Phase, Seq<ActionView>)>
    decreases signals.len(),
{
    if signals.len() == 0 {
        Some((phase, Seq::empty()))
    } else {
        match supervise(phase, signals.drop_last()) {
            None => None,
            Some((reached, actions)) => match transition(reached, signals.last()) {
                None => None,
                Some((next, action)) => Some((next, actions.push(action))),
            },
        }
    }
}

/// Mathematical content of what [`step`] returns.
pub open spec fn transition_view(next: Option<(Phase, Action)>) -> Option<(Phase, ActionView)> {
    match next {
        Some((phase, action)) => Some((phase, action@)),
        None => None,
    }
}

/// The phase in which every run begins.
pub fn initial_phase() -> (phase: Phase)
    ensures
        phase == Phase::AcquireCredential,
{
    Phase::AcquireCredential
}

/// Lists the stages of `outcome` that ended in failure, in starting order.
pub fn report_failures(outcome: &EpochOutcome) -> (failed: Vec<Stage>)
    ensures
        failed@ == failed_stages(*outcome),
{
    let mut failed: Vec<Stage> = Vec::new();
    if outcome.feed_failed {
        failed.push(Stage::Feed);
    }
    if outcome.transport_failed {
        failed.push(Stage::Transport);
    }
    if outcome.router_failed {
        failed.push(Stage::Router);
    }
    if outcome.launcher_failed {
        failed.push(Stage::Launcher);
    }
    if outcome.exit_monitor_failed {
        failed.push(Stage::ExitMonitor);
    }
    assert(failed@ =~= failed_stages(*outcome));
    failed
}

/// Tells whether `outcome` carries the restart code.
pub fn is_restart_requested(outcome: &EpochOutcome) -> (requested: bool)
    ensures
        requested == restart_requested(*outcome),
{
    match outcome.restart {
        Some(code) => code == RESTART_CODE,
        None => false,
    }
}

/// One step of the supervisor.
///
/// Returns the next phase and the action to perform when `phase` expects
/// `signal`: a credential answer while acquiring, the end of the epoch while
/// running. Returns `None` for a signal that comes out of turn.
pub fn step(phase: Phase, signal: &Signal) -> (next: Option<(Phase, Action)>)
    ensures
        transition_view(next) == transition(phase, *signal),
{
    match phase {
        Phase::AcquireCredential => match signal {
            Signal::CredentialGranted => Some((Phase::Running, Action::StartEpoch)),
            Signal::CredentialRefused => Some((Phase::AcquireCredential, Action::RetryCredential)),
            Signal::EpochEnded(_) => None,
        },
        Phase::Running => match signal {
            Signal::EpochEnded(outcome) => {
                let failed = report_failures(outcome);
                let restart_requested = is_restart_requested(outcome);
                Some((Phase::AcquireCredential, Action::RenewCredential { failed, restart_requested }))
            },
            _ => None,
        },
    }
}

/// A run that went wrong at some signal stays wrong whatever follows.
proof fn lemma_out_of_turn_is_final(phase: Phase, signals: Seq<Signal>, k: int)
    requires
        0 <= k <= signals.len(),
        supervise(phase, signals.take(k)) is None,
    ensures
        supervise(phase, signals) is None,
    decreases signals.len(),
{
    if k == signals.len() {
        assert(signals.take(k) =~= signals);
    } else {
        assert(signals.drop_last().take(k) =~= signals.take(k));
        lemma_out_of_turn_is_final(phase, signals.drop_last(), k);
    }
}

/// Plays the supervisor over a recorded run.
///
/// Starts in the initial phase and takes the signals in order. Returns the
/// phase reached and the action taken for each signal, or `None` if some
/// signal came out of turn.
pub fn run(signals: &Vec<Signal>) -> (outcome: Option<(Phase, Vec<Action>)>)
    ensures
        match supervise(Phase::AcquireCredential, signals@) {
            Some((phase, actions)) => outcome matches Some((reached, taken)) && reached == phase
                && taken.deep_view() == actions,
            None => outcome is None,
        },
{
    let mut phase = initial_phase();
    let mut taken: Vec<Action> = Vec::new();
    let mut i: usize = 0;
    assert(taken.deep_view() =~= Seq::<ActionView>::empty());
    while i < signals.len()
        invariant
            i <= signals.len(),
            supervise(Phase::AcquireCredential, signals@.take(i as int)) == Some(
                (phase, taken.deep_view()),
            ),
        decreases signals.len() - i,
    {
        let ghost before = taken.deep_view();
        assert(signals@.take(i + 1).drop_last() =~= signals@.take(i as int));
        match step(phase, &signals[i]) {
            None => {
                proof {
                    lemma_out_of_turn_is_final(Phase::AcquireCredential, signals@, i + 1);
                }
                return None;
            },
            Some((next, action)) => {
                phase = next;
                taken.push(action);
                assert(taken.deep_view() =~= before.push(action@));
            },
        }
        i += 1;
    }
    assert(signals@.take(i as int) =~= signals@);
    Some((phase, taken))
}

/// However an epoch ends, the supervisor starts over: with the restart code,
/// with any other code or with none, and whichever stages failed, the next
/// phase is the acquisition of a fresh credential.
pub proof fn lemma_epoch_end_starts_over(outcome: EpochOutcome)
    ensures
        transition(Phase::Running, Signal::EpochEnded(outcome)) matches Some((next, action))
            && next == Phase::AcquireCredential && action is RenewCredential,
{
}

/// A refused credential is asked for again, without a limit: after any number
/// of refusals in a row the supervisor is still acquiring, and has answered
/// each refusal with a retry.
pub proof fn lemma_refusals_are_retried(refusals: Seq<Signal>)
    requires
        forall|i: int| 0 <= i < refusals.len() ==> refusals[i] == Signal::CredentialRefused,
    ensures
        supervise(Phase::AcquireCredential, refusals) == Some(
            (
                Phase::AcquireCredential,
                Seq::new(refusals.len(), |i: int| ActionView::RetryCredential),
            ),
        ),
    decreases refusals.len(),
{
    if refusals.len() > 0 {
        lemma_refusals_are_retried(refusals.drop_last());
        assert(Seq::new(refusals.len(), |i: int| ActionView::RetryCredential) =~= Seq::new(
            refusals.drop_last().len(),
            |i: int| ActionView::RetryCredential,
        ).push(ActionView::RetryCredential));
    } else {
        assert(Seq::new(refusals.len(), |i: int| ActionView::RetryCredential) =~= Seq::empty());
    }
}

/// A run can be taken in parts: the supervisor goes on over the later
/// signals from the phase that the earlier ones led to, and its actions are
/// those for the earlier signals followed by those for the later.
pub proof fn lemma_run_in_parts(phase: Phase, earlier: Seq<Signal>, later: Seq<Signal>)
    ensures
        supervise(phase, earlier + later) == match supervise(phase, earlier) {
            None => None,
            Some((reached, actions)) => match supervise(reached, later) {
                None => None,
                Some((end, more)) => Some((end, actions + more)),
            },
        },
    decreases later.len(),
{
    let whole = earlier + later;
    if later.len() == 0 {
        assert(whole =~= earlier);
        match supervise(phase, earlier) {
            None => {},
            Some((reached, actions)) => {
                assert(actions + Seq::<ActionView>::empty() =~= actions);
            },
        }
    } else {
        lemma_run_in_parts(phase, earlier, later.drop_last());
        assert(whole.drop_last() =~= earlier + later.drop_last());
        assert(whole.last() == later.last());
        match supervise(phase, earlier) {
            None => {},
            Some((reached, actions)) => match supervise(reached, later.drop_last()) {
                None => {},
                Some((before, more)) => match transition(before, later.last()) {
                    None => {},
                    Some((end, action)) => {
                        assert((actions + more).push(action) =~= actions + more.push(action));
                    },
                },
            },
        }
    }
}

/// Refusals are retried in every epoch, not only in the first: whenever a run
/// has led back to the acquisition of a credential, any number of refusals
/// after it leave the supervisor acquiring, each answered with a retry.
pub proof fn lemma_refusals_are_retried_in_every_epoch(
    earlier: Seq<Signal>,
    actions: Seq<ActionView>,
    refusals: Seq<Signal>,
)
    requires
        supervise(Phase::AcquireCredential, earlier) == Some((Phase::AcquireCredential, actions)),
        forall|i: int| 0 <= i < refusals.len() ==> refusals[i] == Signal::CredentialRefused,
    ensures
        supervise(Phase::AcquireCredential, earlier + refusals) == Some(
            (
                Phase::AcquireCredential,
                actions + Seq::new(refusals.len(), |i: int| ActionView::RetryCredential),
            ),
        ),
{
    lemma_run_in_parts(Phase::AcquireCredential, earlier, refusals);
    lemma_refusals_are_retried(refusals);
}

/// Every epoch on record ends in a fresh start: whatever came before, a run
/// that is in its running phase and sees the epoch end is acquiring a
/// credential again, whatever the restart channel yielded.
pub proof fn lemma_every_epoch_starts_over(
    earlier: Seq<Signal>,
    actions: Seq<ActionView>,
    outcome: EpochOutcome,
)
    requires
        supervise(Phase::AcquireCredential, earlier) == Some((Phase::Running, actions)),
    ensures
        supervise(Phase::AcquireCredential, earlier.push(Signal::EpochEnded(outcome)))
            matches Some((next, taken)) && next == Phase::AcquireCredential && taken.len()
            == actions.len() + 1 && taken.last() is RenewCredential,
{
    let whole = earlier.push(Signal::EpochEnded(outcome));
    assert(whole.drop_last() =~= earlier);
}

/// The supervisor has no final phase: in each phase some signal is in turn,
/// and every signal in turn leads to a phase again.
pub proof fn lemma_no_final_phase(phase: Phase)
    ensures
        exists|signal: Signal| (#[trigger] transition(phase, signal)) is Some,
{
    match phase {
        Phase::AcquireCredential => {
            assert(transition(phase, Signal::CredentialGranted) is Some);
        },
        Phase::Running => {
            let outcome = EpochOutcome {
                feed_failed: false,
                transport_failed: false,
                router_failed: false,
                launcher_failed: false,
                exit_monitor_failed: false,
                restart: None,
            };
            assert(transition(phase, Signal::EpochEnded(outcome)) is Some);
        },
    }
}

} // verus!
