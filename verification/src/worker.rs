//! The connection worker: when to connect, when to try again and when to give up.
//!
//! The worker decides; whoever runs it carries out its actions and reports back what came of them.

use crate::client::{
    ChannelInfo, ChannelInfoView, Command, CommandView, Status, StatusView, Update, UpdateView,
};
use crate::i18n::{
    arguments, arguments_at, fill, fmt, formatted, formatting_fills_every_placeholder, placeholder,
    placeholders, substitute, substituted, substituting_fills_every_placeholder, woven,
};
use crate::ordering::views;
use crate::text::{decimal, decimal_is_digits, number};
use crate::texts::{english_texts, japanese_texts, Texts};
use vstd::prelude::*;

verus! {

/// Seconds that a handshake may take, from the start of a connection to the first state of the
/// server.
pub const HANDSHAKE_TIMEOUT_SECS: u64 = 15;

/// Seconds to wait for an orderly disconnection before moving on.
pub const DRAIN_TIMEOUT_SECS: u64 = 6;

/// Seconds between a lost connection and the attempt to reconnect.
pub const RECONNECT_INTERVAL_SECS: u64 = 3;

/// The number of attempts to reconnect.
pub const MAX_RECONNECT_ATTEMPTS: u32 = 20;

/// Where to connect and by what name.
#[derive(Debug)]
pub struct Target {
    pub address: String,
    pub nickname: String,
}

pub struct TargetView {
    pub address: Seq<char>,
    pub nickname: Seq<char>,
}

impl View for Target {
    type V = TargetView;

    open spec fn view(&self) -> TargetView {
        TargetView { address: self.address@, nickname: self.nickname@ }
    }
}

impl Clone for Target {
    fn clone(&self) -> (target: Target)
        ensures
            target@ == self@,
    {
        Target { address: self.address.clone(), nickname: self.nickname.clone() }
    }
}

/// Why a connection came to its end.
#[derive(Debug, Clone, Copy, PartialEq, Eq, Structural)]
pub enum LoopEnd {
    /// The interface was closed.
    UiClosed,
    /// The user asked to disconnect.
    UserDisconnect,
    /// The connection was lost, having been established or not.
    Lost { established: bool },
}

/// What the worker is at. `attempts` counts the attempts to reconnect since a connection was last
/// established; it is zero while a command of the user is carried out.
#[derive(Debug)]
pub enum Phase {
    /// Waiting for a command.
    Idle,
    /// Setting up a connection.
    Attempting { target: Target, attempts: u32 },
    /// Leaving the connection to itself until it ends.
    Running { target: Target, attempts: u32 },
    /// Waiting to reconnect.
    Waiting { target: Target, attempts: u32 },
    /// Done for good.
    Stopped,
}

pub enum PhaseView {
    Idle,
    Attempting { target: TargetView, attempts: nat },
    Running { target: TargetView, attempts: nat },
    Waiting { target: TargetView, attempts: nat },
    Stopped,
}

impl View for Phase {
    type V = PhaseView;

    open spec fn view(&self) -> PhaseView {
        match self {
            Phase::Idle => PhaseView::Idle,
            Phase::Attempting { target, attempts } => PhaseView::Attempting {
                target: target@,
                attempts: *attempts as nat,
            },
            Phase::Running { target, attempts } => PhaseView::Running {
                target: target@,
                attempts: *attempts as nat,
            },
            Phase::Waiting { target, attempts } => PhaseView::Waiting {
                target: target@,
                attempts: *attempts as nat,
            },
            Phase::Stopped => PhaseView::Stopped,
        }
    }
}

/// What is reported to the worker.
#[derive(Debug)]
pub enum WorkerEvent {
    Command(Command),
    /// No more commands will come.
    UiClosed,
    /// The connection was set up.
    Built,
    /// The connection could not be set up, for this reason.
    BuildFailed(String),
    SessionEnded(LoopEnd),
    /// The wait before reconnecting is over.
    WaitElapsed,
}

pub enum WorkerEventView {
    Command(CommandView),
    UiClosed,
    Built,
    BuildFailed(Seq<char>),
    SessionEnded(LoopEnd),
    WaitElapsed,
}

impl View for WorkerEvent {
    type V = WorkerEventView;

    open spec fn view(&self) -> WorkerEventView {
        match self {
            WorkerEvent::Command(command) => WorkerEventView::Command(command@),
            WorkerEvent::UiClosed => WorkerEventView::UiClosed,
            WorkerEvent::Built => WorkerEventView::Built,
            WorkerEvent::BuildFailed(reason) => WorkerEventView::BuildFailed(reason@),
            WorkerEvent::SessionEnded(end) => WorkerEventView::SessionEnded(*end),
            WorkerEvent::WaitElapsed => WorkerEventView::WaitElapsed,
        }
    }
}

/// What the worker wants done.
#[derive(Debug)]
pub enum WorkerAction {
    Send(Update),
    /// Set up a connection; report `Built` or `BuildFailed`.
    Build(Target),
    /// Throw away voice packets that piled up while there was no connection.
    DiscardQueuedAudio,
    /// Run the connection; report `SessionEnded`.
    RunSession,
    /// Forget the voices of the connection that ended.
    ResetAudio,
    /// Wait before reconnecting, ready for commands meanwhile; report what comes first.
    Wait,
}

pub enum WorkerActionView {
    Send(UpdateView),
    Build(TargetView),
    DiscardQueuedAudio,
    RunSession,
    ResetAudio,
    Wait,
}

impl View for WorkerAction {
    type V = WorkerActionView;

    open spec fn view(&self) -> WorkerActionView {
        match self {
            WorkerAction::Send(update) => WorkerActionView::Send(update@),
            WorkerAction::Build(target) => WorkerActionView::Build(target@),
            WorkerAction::DiscardQueuedAudio => WorkerActionView::DiscardQueuedAudio,
            WorkerAction::RunSession => WorkerActionView::RunSession,
            WorkerAction::ResetAudio => WorkerActionView::ResetAudio,
            WorkerAction::Wait => WorkerActionView::Wait,
        }
    }
}

pub open spec fn report_status(status: StatusView) -> WorkerActionView {
    WorkerActionView::Send(UpdateView::Status(status))
}

pub open spec fn report_line(line: Seq<char>) -> WorkerActionView {
    WorkerActionView::Send(UpdateView::Log(line))
}

/// The start of an attempt.
pub open spec fn begun(target: TargetView, attempts: nat, texts: Texts) -> (
    PhaseView,
    Seq<WorkerActionView>,
) {
    (
        PhaseView::Attempting { target, attempts },
        seq![
            report_status(StatusView::Connecting),
            report_line(
                substituted(texts.connecting_to@, seq![target.address, target.nickname]),
            ),
            WorkerActionView::Build(target),
        ],
    )
}

/// What follows the end of a connection or of the attempt at one.
///
/// A lost connection is tried again, a first attempt that fails is not: the address may be wrong.
pub open spec fn ended(target: TargetView, attempts: nat, end: LoopEnd, texts: Texts) -> (
    PhaseView,
    Seq<WorkerActionView>,
) {
    match end {
        LoopEnd::UiClosed => (PhaseView::Stopped, Seq::empty()),
        LoopEnd::UserDisconnect => (
            PhaseView::Idle,
            seq![report_status(StatusView::Disconnected)],
        ),
        LoopEnd::Lost { established } => {
            let next: nat = if established {
                1
            } else {
                attempts + 1
            };
            if !established && attempts == 0 {
                (PhaseView::Idle, Seq::empty())
            } else if next > MAX_RECONNECT_ATTEMPTS {
                (
                    PhaseView::Idle,
                    seq![
                        report_status(
                            StatusView::Error(
                                formatted(
                                    texts.reconnect_giveup@,
                                    seq![decimal(MAX_RECONNECT_ATTEMPTS as nat)],
                                ),
                            ),
                        ),
                    ],
                )
            } else {
                (
                    PhaseView::Waiting { target, attempts: next },
                    seq![
                        report_line(
                            formatted(
                                texts.reconnect_in@,
                                seq![
                                    decimal(RECONNECT_INTERVAL_SECS as nat),
                                    decimal(next),
                                    decimal(MAX_RECONNECT_ATTEMPTS as nat),
                                ],
                            ),
                        ),
                        report_status(StatusView::Connecting),
                        WorkerActionView::Wait,
                    ],
                )
            }
        },
    }
}

/// What the worker does on an event. An event that cannot occur in a phase changes nothing.
pub open spec fn worker_step(phase: PhaseView, event: WorkerEventView, texts: Texts) -> (
    PhaseView,
    Seq<WorkerActionView>,
) {
    match (phase, event) {
        (
            PhaseView::Idle,
            WorkerEventView::Command(CommandView::Connect { address, nickname }),
        ) => begun(TargetView { address, nickname }, 0, texts),
        (PhaseView::Idle, WorkerEventView::UiClosed) => (PhaseView::Stopped, Seq::empty()),
        (PhaseView::Attempting { target, attempts }, WorkerEventView::Built) => (
            PhaseView::Running { target, attempts },
            seq![WorkerActionView::DiscardQueuedAudio, WorkerActionView::RunSession],
        ),
        (PhaseView::Attempting { target, attempts }, WorkerEventView::BuildFailed(reason)) => {
            let (next, actions) = ended(
                target,
                attempts,
                LoopEnd::Lost { established: false },
                texts,
            );
            (next, seq![report_status(StatusView::Error(reason))] + actions)
        },
        (PhaseView::Running { target, attempts }, WorkerEventView::SessionEnded(end)) => {
            let (next, actions) = ended(target, attempts, end, texts);
            (
                next,
                seq![
                    WorkerActionView::ResetAudio,
                    WorkerActionView::Send(UpdateView::Snapshot(Seq::empty())),
                ] + actions,
            )
        },
        (PhaseView::Waiting { target, attempts }, WorkerEventView::WaitElapsed) => begun(
            target,
            attempts,
            texts,
        ),
        (PhaseView::Waiting { .. }, WorkerEventView::UiClosed) => (
            PhaseView::Stopped,
            Seq::empty(),
        ),
        (PhaseView::Waiting { .. }, WorkerEventView::Command(CommandView::Disconnect)) => (
            PhaseView::Idle,
            seq![report_line(texts.reconnect_cancel@), report_status(StatusView::Disconnected)],
        ),
        (
            PhaseView::Waiting { .. },
            WorkerEventView::Command(CommandView::Connect { address, nickname }),
        ) => begun(TargetView { address, nickname }, 0, texts),
        _ => (phase, Seq::empty()),
    }
}

/// The attempts counted never pass the limit, and a wait belongs to at least one of them.
pub open spec fn attempts_are_bounded(phase: PhaseView) -> bool {
    match phase {
        PhaseView::Attempting { attempts, .. } => attempts <= MAX_RECONNECT_ATTEMPTS,
        PhaseView::Running { attempts, .. } => attempts <= MAX_RECONNECT_ATTEMPTS,
        PhaseView::Waiting { attempts, .. } => 1 <= attempts <= MAX_RECONNECT_ATTEMPTS,
        _ => true,
    }
}

fn send_line(text: String) -> (action: WorkerAction)
    ensures
        action@ == report_line(text@),
{
    WorkerAction::Send(Update::Log(text))
}

fn send_status(status: Status) -> (action: WorkerAction)
    ensures
        action@ == report_status(status@),
{
    WorkerAction::Send(Update::Status(status))
}

fn begin(target: Target, attempts: u32, texts: &Texts) -> (result: (Phase, Vec<WorkerAction>))
    ensures
        (result.0@, views(result.1@)) == begun(target@, attempts as nat, *texts),
{
    let mut actions: Vec<WorkerAction> = Vec::new();
    actions.push(send_status(Status::Connecting));
    let args: [&str; 2] = [target.address.as_str(), target.nickname.as_str()];
    proof {
        assert(arguments(args@) =~= seq![target@.address, target@.nickname]);
    }
    actions.push(send_line(substitute(texts.connecting_to, &args)));
    actions.push(WorkerAction::Build(target.clone()));
    proof {
        assert(views(actions@) =~= begun(target@, attempts as nat, *texts).1);
    }
    (Phase::Attempting { target, attempts }, actions)
}

/// Adds to `actions` what follows the end of a connection.
fn finish(
    target: Target,
    attempts: u32,
    end: LoopEnd,
    texts: &Texts,
    actions: &mut Vec<WorkerAction>,
) -> (phase: Phase)
    ensures
        phase@ == ended(target@, attempts as nat, end, *texts).0,
        views(final(actions)@) == views(old(actions)@) + ended(
            target@,
            attempts as nat,
            end,
            *texts,
        ).1,
{
    let phase = match end {
        LoopEnd::UiClosed => Phase::Stopped,
        LoopEnd::UserDisconnect => {
            actions.push(send_status(Status::Disconnected));
            Phase::Idle
        },
        LoopEnd::Lost { established } => {
            if !established && attempts == 0 {
                Phase::Idle
            } else {
                let limit = number(MAX_RECONNECT_ATTEMPTS as u64);
                if !established && attempts >= MAX_RECONNECT_ATTEMPTS {
                    let reason = fill(texts.reconnect_giveup, limit.as_str());
                    actions.push(send_status(Status::Error(reason)));
                    Phase::Idle
                } else {
                    let next: u32 = if established {
                        1
                    } else {
                        attempts + 1
                    };
                    let seconds = number(RECONNECT_INTERVAL_SECS);
                    let count = number(next as u64);
                    let args: [&str; 3] = [seconds.as_str(), count.as_str(), limit.as_str()];
                    proof {
                        assert(arguments(args@) =~= seq![
                            decimal(RECONNECT_INTERVAL_SECS as nat),
                            decimal(next as nat),
                            decimal(MAX_RECONNECT_ATTEMPTS as nat),
                        ]);
                    }
                    actions.push(send_line(fmt(texts.reconnect_in, &args)));
                    actions.push(send_status(Status::Connecting));
                    actions.push(WorkerAction::Wait);
                    Phase::Waiting { target, attempts: next }
                }
            }
        },
    };
    proof {
        assert(views(actions@) =~= views(old(actions)@) + ended(
            target@,
            attempts as nat,
            end,
            *texts,
        ).1);
    }
    phase
}

/// The worker.
#[derive(Debug)]
pub struct Worker {
    pub phase: Phase,
}

impl Worker {
    pub fn new() -> (worker: Worker)
        ensures
            worker.phase@ == PhaseView::Idle,
    {
        Worker { phase: Phase::Idle }
    }

    /// Takes note of an event. The result is what is to be done, in that order.
    pub fn step(&mut self, event: WorkerEvent, texts: &Texts) -> (actions: Vec<WorkerAction>)
        ensures
            (final(self).phase@, views(actions@)) == worker_step(
                old(self).phase@,
                event@,
                *texts,
            ),
    {
        let ghost expected = worker_step(old(self).phase@, event@, *texts);
        let mut phase = Phase::Stopped;
        std::mem::swap(&mut phase, &mut self.phase);
        let mut actions: Vec<WorkerAction> = Vec::new();
        let next = match (phase, event) {
            (Phase::Idle, WorkerEvent::Command(Command::Connect { address, nickname })) => {
                let (next, first) = begin(Target { address, nickname }, 0, texts);
                actions = first;
                next
            },
            (Phase::Idle, WorkerEvent::UiClosed) => Phase::Stopped,
            (Phase::Attempting { target, attempts }, WorkerEvent::Built) => {
                actions.push(WorkerAction::DiscardQueuedAudio);
                actions.push(WorkerAction::RunSession);
                Phase::Running { target, attempts }
            },
            (Phase::Attempting { target, attempts }, WorkerEvent::BuildFailed(reason)) => {
                actions.push(send_status(Status::Error(reason)));
                finish(
                    target,
                    attempts,
                    LoopEnd::Lost { established: false },
                    texts,
                    &mut actions,
                )
            },
            (Phase::Running { target, attempts }, WorkerEvent::SessionEnded(how)) => {
                let none: Vec<ChannelInfo> = Vec::new();
                proof {
                    assert(views(none@) =~= Seq::<ChannelInfoView>::empty());
                }
                actions.push(WorkerAction::ResetAudio);
                actions.push(WorkerAction::Send(Update::Snapshot(none)));
                finish(target, attempts, how, texts, &mut actions)
            },
            (Phase::Waiting { target, attempts }, WorkerEvent::WaitElapsed) => {
                let (next, first) = begin(target, attempts, texts);
                actions = first;
                next
            },
            (Phase::Waiting { .. }, WorkerEvent::UiClosed) => Phase::Stopped,
            (Phase::Waiting { .. }, WorkerEvent::Command(Command::Disconnect)) => {
                actions.push(send_line(texts.reconnect_cancel.to_owned()));
                actions.push(send_status(Status::Disconnected));
                Phase::Idle
            },
            (
                Phase::Waiting { .. },
                WorkerEvent::Command(Command::Connect { address, nickname }),
            ) => {
                let (next, first) = begin(Target { address, nickname }, 0, texts);
                actions = first;
                next
            },
            (phase, _) => phase,
        };
        proof {
            assert(views(actions@) =~= expected.1);
        }
        self.phase = next;
        actions
    }
}

/// The status shown after some actions, the one before them being `shown`.
pub open spec fn shown_after(shown: StatusView, actions: Seq<WorkerActionView>) -> StatusView
    decreases actions.len(),
{
    if actions.len() == 0 {
        shown
    } else {
        match actions.last() {
            WorkerActionView::Send(UpdateView::Status(status)) => status,
            _ => shown_after(shown, actions.drop_last()),
        }
    }
}

/// The status says what the worker is at: an idle worker is shown as disconnected or with an error,
/// one that connects or waits to reconnect as connecting.
pub open spec fn status_fits(phase: PhaseView, shown: StatusView) -> bool {
    match phase {
        PhaseView::Idle => shown is Disconnected || shown is Error,
        PhaseView::Attempting { .. } => shown is Connecting,
        PhaseView::Waiting { .. } => shown is Connecting,
        _ => true,
    }
}

/// Whatever happens, the status that is shown fits what the worker is at. A session that is lost
/// leaves an error shown.
pub proof fn shown_status_fits_the_phase(
    phase: PhaseView,
    shown: StatusView,
    event: WorkerEventView,
    texts: Texts,
)
    requires
        status_fits(phase, shown),
        event matches WorkerEventView::SessionEnded(LoopEnd::Lost { .. }) ==> shown is Error,
    ensures
        ({
            let (next, actions) = worker_step(phase, event, texts);
            status_fits(next, shown_after(shown, actions))
        }),
{
    reveal_with_fuel(shown_after, 6);
    let (next, actions) = worker_step(phase, event, texts);
    match (phase, event) {
        (PhaseView::Attempting { target, attempts }, WorkerEventView::BuildFailed(reason)) => {
            let rest = ended(target, attempts, LoopEnd::Lost { established: false }, texts).1;
            if rest.len() == 0 {
                assert(actions =~= seq![report_status(StatusView::Error(reason))]);
            } else {
                assert(actions.last() == rest.last());
                assert(actions.drop_last().last() == if rest.len() == 1 {
                    report_status(StatusView::Error(reason))
                } else {
                    rest[rest.len() - 2]
                });
            }
        },
        (PhaseView::Running { target, attempts }, WorkerEventView::SessionEnded(how)) => {
            let rest = ended(target, attempts, how, texts).1;
            if rest.len() > 0 {
                assert(actions.last() == rest.last());
                if rest.len() > 1 {
                    assert(actions.drop_last().last() == rest[rest.len() - 2]);
                }
            }
        },
        _ => {},
    }
}

/// The attempts that are counted stay within the limit, whatever happens.
pub proof fn attempts_stay_bounded(phase: PhaseView, event: WorkerEventView, texts: Texts)
    requires
        attempts_are_bounded(phase),
    ensures
        attempts_are_bounded(worker_step(phase, event, texts).0),
{
}

/// The phase after one attempt to reconnect that fails: at setting the connection up, or, if
/// `built`, before it is established.
pub open spec fn after_failed_attempt(
    phase: PhaseView,
    built: bool,
    reason: Seq<char>,
    texts: Texts,
) -> PhaseView {
    let attempting = worker_step(phase, WorkerEventView::WaitElapsed, texts).0;
    if built {
        let running = worker_step(attempting, WorkerEventView::Built, texts).0;
        let lost = WorkerEventView::SessionEnded(LoopEnd::Lost { established: false });
        worker_step(running, lost, texts).0
    } else {
        worker_step(attempting, WorkerEventView::BuildFailed(reason), texts).0
    }
}

/// The phase after a succession of failed attempts to reconnect.
pub open spec fn after_failed_attempts(
    phase: PhaseView,
    attempts: Seq<(bool, Seq<char>)>,
    texts: Texts,
) -> PhaseView
    decreases attempts.len(),
{
    if attempts.len() == 0 {
        phase
    } else {
        let before = after_failed_attempts(phase, attempts.drop_last(), texts);
        after_failed_attempt(before, attempts.last().0, attempts.last().1, texts)
    }
}

/// After an established connection is lost, the worker tries to reconnect as often as the limit
/// says, in whatever way the attempts fail, and then gives up.
pub proof fn reconnecting_is_given_up_at_the_limit(
    target: TargetView,
    failed: Seq<(bool, Seq<char>)>,
    texts: Texts,
)
    requires
        failed.len() <= MAX_RECONNECT_ATTEMPTS,
    ensures
        after_failed_attempts(PhaseView::Waiting { target, attempts: 1 }, failed, texts) == (
        if failed.len() < MAX_RECONNECT_ATTEMPTS {
            PhaseView::Waiting { target, attempts: failed.len() + 1 }
        } else {
            PhaseView::Idle
        }),
    decreases failed.len(),
{
    if failed.len() > 0 {
        reconnecting_is_given_up_at_the_limit(target, failed.drop_last(), texts);
    }
}

/// Losing an established connection always leads to a first attempt to reconnect, however many
/// there were before it was established.
pub proof fn established_connection_is_retried(target: TargetView, attempts: nat, texts: Texts)
    ensures
        worker_step(
            PhaseView::Running { target, attempts },
            WorkerEventView::SessionEnded(LoopEnd::Lost { established: true }),
            texts,
        ).0 == (PhaseView::Waiting { target, attempts: 1 }),
{
}

/// A connection that the user asked for and that never came about is not tried again.
pub proof fn first_failure_is_not_retried(target: TargetView, reason: Seq<char>, texts: Texts)
    ensures
        worker_step(
            PhaseView::Attempting { target, attempts: 0 },
            WorkerEventView::BuildFailed(reason),
            texts,
        ) == (PhaseView::Idle, seq![report_status(StatusView::Error(reason))]),
        worker_step(
            PhaseView::Running { target, attempts: 0 },
            WorkerEventView::SessionEnded(LoopEnd::Lost { established: false }),
            texts,
        ).0 == PhaseView::Idle,
{
    assert(seq![report_status(StatusView::Error(reason))] + Seq::empty() =~= seq![
        report_status(StatusView::Error(reason)),
    ]);
}

/// Closing the interface stops the worker wherever it listens for commands, and a stopped worker
/// does nothing any more.
pub proof fn closing_stops_the_worker(phase: PhaseView, event: WorkerEventView, texts: Texts)
    ensures
        phase is Idle || phase is Waiting ==> worker_step(phase, WorkerEventView::UiClosed, texts)
            == (PhaseView::Stopped, Seq::<WorkerActionView>::empty()),
        phase is Running ==> worker_step(
            phase,
            WorkerEventView::SessionEnded(LoopEnd::UiClosed),
            texts,
        ).0 is Stopped,
        worker_step(PhaseView::Stopped, event, texts) == (
            PhaseView::Stopped,
            Seq::<WorkerActionView>::empty(),
        ),
{
}

/// A connection is set up only to where the user last asked for, on the command itself or at the
/// end of a wait to reconnect.
pub proof fn connections_go_where_the_user_asked(
    phase: PhaseView,
    event: WorkerEventView,
    texts: Texts,
    target: TargetView,
)
    requires
        worker_step(phase, event, texts).1.contains(WorkerActionView::Build(target)),
    ensures
        event == WorkerEventView::Command(
            CommandView::Connect { address: target.address, nickname: target.nickname },
        ) || (event is WaitElapsed && (phase matches PhaseView::Waiting { target: asked, .. }
            && asked == target)),
{
    let actions = worker_step(phase, event, texts).1;
    let i = choose|i: int|
        0 <= i < actions.len() && actions[i] == WorkerActionView::Build(target);
    assert(actions[i] is Build);
}

/// The line on connecting names the address and the nickname as they are, whatever they hold.
pub proof fn connecting_line_names_both(address: Seq<char>, nickname: Seq<char>)
    ensures
        substituted(english_texts().connecting_to@, seq![address, nickname])
            == "Connecting to "@ + address + " as "@ + nickname,
        substituted(japanese_texts().connecting_to@, seq![address, nickname])
            == address + " に "@ + nickname + " として接続します"@,
{
    let args = seq![address, nickname];
    let slots = seq![0nat, 1nat];
    let none = Seq::<char>::empty();
    reveal_with_fuel(woven, 3);
    reveal_strlit("Connecting to {0} as {1}");
    reveal_strlit("Connecting to ");
    reveal_strlit(" as ");
    reveal_strlit("{0} に {1} として接続します");
    reveal_strlit(" に ");
    reveal_strlit(" として接続します");
    assert(decimal(0) == seq!['0'] && decimal(1) == seq!['1']);
    assert(placeholder(0) =~= seq!['{', '0', '}'] && placeholder(1) =~= seq!['{', '1', '}']);
    let english = seq!["Connecting to "@, " as "@, none];
    let japanese = seq![none, " に "@, " として接続します"@];
    assert(woven(english, placeholders(slots)) =~= "Connecting to {0} as {1}"@);
    assert(woven(japanese, placeholders(slots)) =~= "{0} に {1} として接続します"@);
    substituting_fills_every_placeholder(english, slots, args);
    substituting_fills_every_placeholder(japanese, slots, args);
    assert(woven(english, arguments_at(slots, args)) =~= "Connecting to "@ + address + " as "@
        + nickname);
    assert(woven(japanese, arguments_at(slots, args)) =~= address + " に "@ + nickname
        + " として接続します"@);
}

/// Every attempt sets up a connection: a step that takes the worker into an attempt shows it as
/// connecting, logs a line and, last, sets up the connection to the target of the attempt, once.
pub proof fn every_attempt_sets_up_a_connection(
    phase: PhaseView,
    event: WorkerEventView,
    texts: Texts,
    target: TargetView,
    attempts: nat,
)
    requires
        !(phase is Attempting),
        worker_step(phase, event, texts).0 == (PhaseView::Attempting { target, attempts }),
    ensures
        ({
            let actions = worker_step(phase, event, texts).1;
            &&& actions.len() == 3
            &&& actions[0] == WorkerActionView::Send(UpdateView::Status(StatusView::Connecting))
            &&& actions[1] == WorkerActionView::Send(
                UpdateView::Log(
                    substituted(texts.connecting_to@, seq![target.address, target.nickname]),
                ),
            )
            &&& actions[2] == WorkerActionView::Build(target)
        }),
{
}

/// A command to connect begins an attempt at its target, counted from zero, whether the worker is
/// idle or waits to reconnect. The end of the wait begins one at the target waited for, the count
/// going on.
pub proof fn attempts_begin_on_command_and_after_the_wait(
    target: TargetView,
    attempts: nat,
    address: Seq<char>,
    nickname: Seq<char>,
    texts: Texts,
)
    ensures
        ({
            let command = WorkerEventView::Command(CommandView::Connect { address, nickname });
            let asked = TargetView { address, nickname };
            let waiting = PhaseView::Waiting { target, attempts };
            &&& worker_step(PhaseView::Idle, command, texts).0 == (PhaseView::Attempting {
                target: asked,
                attempts: 0,
            })
            &&& worker_step(waiting, command, texts).0 == (PhaseView::Attempting {
                target: asked,
                attempts: 0,
            })
            &&& worker_step(waiting, WorkerEventView::WaitElapsed, texts).0 == (
            PhaseView::Attempting { target, attempts })
        }),
{
}

/// A connection that was set up is run, with no stale voice left over, and the count is kept.
pub proof fn built_connection_is_run(target: TargetView, attempts: nat, texts: Texts)
    ensures
        ({
            let (next, actions) = worker_step(
                PhaseView::Attempting { target, attempts },
                WorkerEventView::Built,
                texts,
            );
            &&& next == (PhaseView::Running { target, attempts })
            &&& actions.len() == 2
            &&& actions[0] == WorkerActionView::DiscardQueuedAudio
            &&& actions[1] == WorkerActionView::RunSession
        }),
{
}

/// Whatever ends a session, the voices are reset and the channel tree is emptied first. Leaving on
/// command then shows the worker as disconnected and makes it idle; closing the interface stops it.
pub proof fn ended_session_is_cleared_away(
    target: TargetView,
    attempts: nat,
    end: LoopEnd,
    texts: Texts,
)
    ensures
        ({
            let (next, actions) = worker_step(
                PhaseView::Running { target, attempts },
                WorkerEventView::SessionEnded(end),
                texts,
            );
            &&& actions.len() >= 2
            &&& actions[0] == WorkerActionView::ResetAudio
            &&& actions[1] == WorkerActionView::Send(
                UpdateView::Snapshot(Seq::<ChannelInfoView>::empty()),
            )
            &&& end == LoopEnd::UserDisconnect ==> next is Idle && actions.len() == 3 && actions[2]
                == WorkerActionView::Send(UpdateView::Status(StatusView::Disconnected))
            &&& end == LoopEnd::UiClosed ==> next is Stopped && actions.len() == 2
        }),
{
}

/// What a lost session and a failed attempt lead to, by the attempts that were counted and by
/// whether the connection had been established.
pub proof fn lost_connections_are_counted(
    target: TargetView,
    attempts: nat,
    established: bool,
    reason: Seq<char>,
    texts: Texts,
)
    ensures
        ({
            let lost = worker_step(
                PhaseView::Running { target, attempts },
                WorkerEventView::SessionEnded(LoopEnd::Lost { established }),
                texts,
            );
            let failed = worker_step(
                PhaseView::Attempting { target, attempts },
                WorkerEventView::BuildFailed(reason),
                texts,
            );
            &&& established ==> lost.0 == (PhaseView::Waiting { target, attempts: 1 })
            &&& !established ==> lost.0 == failed.0
            &&& failed.0 == (if 1 <= attempts < MAX_RECONNECT_ATTEMPTS {
                PhaseView::Waiting { target, attempts: attempts + 1 }
            } else {
                PhaseView::Idle
            })
            &&& failed.1.len() > 0
            &&& failed.1[0] == WorkerActionView::Send(
                UpdateView::Status(StatusView::Error(reason)),
            )
            &&& failed.1.len() == (if attempts == 0 {
                1nat
            } else if attempts < MAX_RECONNECT_ATTEMPTS {
                4nat
            } else {
                2nat
            })
            &&& lost.1.len() == (if established {
                5nat
            } else {
                failed.1.len() + 1
            })
            &&& MAX_RECONNECT_ATTEMPTS == 20 && RECONNECT_INTERVAL_SECS == 3
        }),
{
}

/// A step that takes the worker into a wait says so: a line with the seconds, the count and the
/// limit, the status, and, last, the wait itself. One that gives up after the limit shows that as an
/// error.
pub proof fn waiting_and_giving_up_are_told(
    phase: PhaseView,
    event: WorkerEventView,
    texts: Texts,
)
    requires
        phase is Attempting || phase is Running,
        event is BuildFailed || event is SessionEnded,
    ensures
        ({
            let (next, actions) = worker_step(phase, event, texts);
            let n = actions.len();
            &&& next matches PhaseView::Waiting { attempts, .. } ==> {
                &&& n >= 3
                &&& actions[n - 3] == WorkerActionView::Send(
                    UpdateView::Log(
                        formatted(
                            texts.reconnect_in@,
                            seq![
                                decimal(RECONNECT_INTERVAL_SECS as nat),
                                decimal(attempts),
                                decimal(MAX_RECONNECT_ATTEMPTS as nat),
                            ],
                        ),
                    ),
                )
                &&& actions[n - 2] == WorkerActionView::Send(
                    UpdateView::Status(StatusView::Connecting),
                )
                &&& actions[n - 1] == WorkerActionView::Wait
            }
            &&& (phase matches PhaseView::Attempting { attempts, .. } && attempts
                >= MAX_RECONNECT_ATTEMPTS && event is BuildFailed) || (phase matches
                PhaseView::Running { attempts, .. } && attempts >= MAX_RECONNECT_ATTEMPTS && event
                == WorkerEventView::SessionEnded(LoopEnd::Lost { established: false })) ==> n >= 1
                && actions[n - 1] == WorkerActionView::Send(
                UpdateView::Status(
                    StatusView::Error(
                        formatted(
                            texts.reconnect_giveup@,
                            seq![decimal(MAX_RECONNECT_ATTEMPTS as nat)],
                        ),
                    ),
                ),
            )
        }),
{
}

/// Breaking off a wait is logged and shown as disconnected, and nothing else is done.
pub proof fn wait_is_broken_off_on_command(target: TargetView, attempts: nat, texts: Texts)
    ensures
        ({
            let (next, actions) = worker_step(
                PhaseView::Waiting { target, attempts },
                WorkerEventView::Command(CommandView::Disconnect),
                texts,
            );
            &&& next is Idle
            &&& actions.len() == 2
            &&& actions[0] == WorkerActionView::Send(UpdateView::Log(texts.reconnect_cancel@))
            &&& actions[1] == WorkerActionView::Send(
                UpdateView::Status(StatusView::Disconnected),
            )
        }),
{
}

/// An event that the worker does not wait for changes nothing and leads to nothing.
pub proof fn other_events_are_ignored(phase: PhaseView, event: WorkerEventView, texts: Texts)
    requires
        match phase {
            PhaseView::Idle => !(event is UiClosed) && !(event matches WorkerEventView::Command(
                command,
            ) && command is Connect),
            PhaseView::Attempting { .. } => !(event is Built || event is BuildFailed),
            PhaseView::Running { .. } => !(event is SessionEnded),
            PhaseView::Waiting { .. } => !(event is WaitElapsed || event is UiClosed || event
                is Command),
            PhaseView::Stopped => true,
        },
    ensures
        worker_step(phase, event, texts).0 == phase,
        worker_step(phase, event, texts).1.len() == 0,
{
}

/// What the worker is at, what it is told and what it wants done are seen as they are.
pub proof fn worker_is_seen_as_it_is(
    target: Target,
    attempts: u32,
    update: Update,
    command: Command,
    reason: String,
    end: LoopEnd,
)
    ensures
        target@.address == target.address@ && target@.nickname == target.nickname@,
        Phase::Idle@ == PhaseView::Idle && Phase::Stopped@ == PhaseView::Stopped,
        (Phase::Attempting { target, attempts })@ == (PhaseView::Attempting {
            target: target@,
            attempts: attempts as nat,
        }),
        (Phase::Running { target, attempts })@ == (PhaseView::Running {
            target: target@,
            attempts: attempts as nat,
        }),
        (Phase::Waiting { target, attempts })@ == (PhaseView::Waiting {
            target: target@,
            attempts: attempts as nat,
        }),
        WorkerEvent::Command(command)@ == WorkerEventView::Command(command@),
        WorkerEvent::UiClosed@ == WorkerEventView::UiClosed,
        WorkerEvent::Built@ == WorkerEventView::Built,
        WorkerEvent::BuildFailed(reason)@ == WorkerEventView::BuildFailed(reason@),
        WorkerEvent::SessionEnded(end)@ == WorkerEventView::SessionEnded(end),
        WorkerEvent::WaitElapsed@ == WorkerEventView::WaitElapsed,
        WorkerAction::Send(update)@ == WorkerActionView::Send(update@),
        WorkerAction::Build(target)@ == WorkerActionView::Build(target@),
        WorkerAction::DiscardQueuedAudio@ == WorkerActionView::DiscardQueuedAudio,
        WorkerAction::RunSession@ == WorkerActionView::RunSession,
        WorkerAction::ResetAudio@ == WorkerActionView::ResetAudio,
        WorkerAction::Wait@ == WorkerActionView::Wait,
{
}

/// The line on reconnecting tells the seconds, the count and the limit.
pub proof fn reconnecting_line_tells_the_count(seconds: nat, count: nat, limit: nat)
    ensures
        formatted(
            english_texts().reconnect_in@,
            seq![decimal(seconds), decimal(count), decimal(limit)],
        ) == "Reconnecting in "@ + decimal(seconds) + "s ("@ + decimal(count) + "/"@ + decimal(
            limit,
        ) + ")"@,
        formatted(
            japanese_texts().reconnect_in@,
            seq![decimal(seconds), decimal(count), decimal(limit)],
        ) == decimal(seconds) + "秒後に再接続します ("@ + decimal(count) + "/"@ + decimal(limit)
            + ")"@,
{
    let args = seq![decimal(seconds), decimal(count), decimal(limit)];
    let slots = seq![0nat, 1nat, 2nat];
    let none = Seq::<char>::empty();
    decimal_is_digits(seconds);
    decimal_is_digits(count);
    decimal_is_digits(limit);
    reveal_with_fuel(woven, 4);
    reveal_strlit("Reconnecting in {0}s ({1}/{2})");
    reveal_strlit("Reconnecting in ");
    reveal_strlit("s (");
    reveal_strlit("/");
    reveal_strlit(")");
    reveal_strlit("{0}秒後に再接続します ({1}/{2})");
    reveal_strlit("秒後に再接続します (");
    assert(decimal(0) == seq!['0'] && decimal(1) == seq!['1'] && decimal(2) == seq!['2']);
    assert(placeholder(0) =~= seq!['{', '0', '}']);
    assert(placeholder(1) =~= seq!['{', '1', '}']);
    assert(placeholder(2) =~= seq!['{', '2', '}']);
    let english = seq!["Reconnecting in "@, "s ("@, "/"@, ")"@];
    let japanese = seq![none, "秒後に再接続します ("@, "/"@, ")"@];
    assert(woven(english, placeholders(slots)) =~= "Reconnecting in {0}s ({1}/{2})"@);
    assert(woven(japanese, placeholders(slots)) =~= "{0}秒後に再接続します ({1}/{2})"@);
    formatting_fills_every_placeholder(english, slots, args);
    formatting_fills_every_placeholder(japanese, slots, args);
    assert(woven(english, arguments_at(slots, args)) =~= "Reconnecting in "@ + decimal(seconds)
        + "s ("@ + decimal(count) + "/"@ + decimal(limit) + ")"@);
    assert(woven(japanese, arguments_at(slots, args)) =~= decimal(seconds)
        + "秒後に再接続します ("@ + decimal(count) + "/"@ + decimal(limit) + ")"@);
}

} // verus!
