//! A connection while it lasts: what becomes of commands, voice and news from the server.
//!
//! The session decides; whoever runs it carries out its actions and reports what happens.

use crate::audio::{audio_speaker, speaker};
use crate::client::{Command, CommandView, Status, StatusView, Update, UpdateView};
use crate::i18n::{fill, formatted};
use crate::ordering::views;
use crate::snapshot::{build_snapshot, snapshot_of, ServerState, ServerStateView};
use crate::texts::Texts;
use crate::volumes::{near_full, volume_changed, VolumeMap};
use crate::worker::LoopEnd;
use vstd::prelude::*;

verus! {

/// What happens in a session.
#[derive(Debug)]
pub enum SessionEvent {
    /// The time for the handshake is over.
    HandshakeTimeout,
    Command(Command),
    /// No more commands will come.
    UiClosed,
    /// There is a voice packet to send.
    AudioToSend,
    /// The voice packet could not be sent, for this reason.
    SendAudioFailed(String),
    /// No more voice packets will come.
    CaptureStopped,
    /// The server sent a voice packet of these bytes.
    AudioReceived(Vec<u8>),
    /// A user began to speak; the name, as far as it is known.
    NewTalker { id: u16, name: Option<String> },
    /// The server sent news, described by these lines; the state of the server, as far as it is
    /// known.
    News { lines: Vec<String>, state: Option<ServerState> },
    /// The server sent something of no concern.
    Other,
    /// The connection failed, for this reason.
    Failed(String),
    /// The server closed the connection.
    Closed,
}

pub enum SessionEventView {
    HandshakeTimeout,
    Command(CommandView),
    UiClosed,
    AudioToSend,
    SendAudioFailed(Seq<char>),
    CaptureStopped,
    AudioReceived(Seq<u8>),
    NewTalker { id: u16, name: Option<Seq<char>> },
    News { lines: Seq<Seq<char>>, state: Option<ServerStateView> },
    Other,
    Failed(Seq<char>),
    Closed,
}

impl View for SessionEvent {
    type V = SessionEventView;

    open spec fn view(&self) -> SessionEventView {
        match self {
            SessionEvent::HandshakeTimeout => SessionEventView::HandshakeTimeout,
            SessionEvent::Command(command) => SessionEventView::Command(command@),
            SessionEvent::UiClosed => SessionEventView::UiClosed,
            SessionEvent::AudioToSend => SessionEventView::AudioToSend,
            SessionEvent::SendAudioFailed(reason) => SessionEventView::SendAudioFailed(reason@),
            SessionEvent::CaptureStopped => SessionEventView::CaptureStopped,
            SessionEvent::AudioReceived(raw) => SessionEventView::AudioReceived(raw@),
            SessionEvent::NewTalker { id, name } => SessionEventView::NewTalker {
                id: *id,
                name: match name {
                    Some(name) => Some(name@),
                    None => None,
                },
            },
            SessionEvent::News { lines, state } => SessionEventView::News {
                lines: views(lines@),
                state: match state {
                    Some(state) => Some(state@),
                    None => None,
                },
            },
            SessionEvent::Other => SessionEventView::Other,
            SessionEvent::Failed(reason) => SessionEventView::Failed(reason@),
            SessionEvent::Closed => SessionEventView::Closed,
        }
    }
}

/// What the session wants done.
#[derive(Debug)]
pub enum SessionAction {
    Send(Update),
    /// Send the voice packet; report `SendAudioFailed` if that fails.
    SendAudio,
    /// Hand the received packet to the decoder as the voice of this user; report `NewTalker` if the
    /// user begins to speak.
    Decode { from: u16 },
    /// Play this user at this volume, a single-precision number given by its bit pattern.
    SetVolume { id: u16, volume: u32 },
    /// Disconnect in order, waiting only so long.
    Drain,
    /// Leave the session.
    End(LoopEnd),
}

pub enum SessionActionView {
    Send(UpdateView),
    SendAudio,
    Decode { from: u16 },
    SetVolume { id: u16, volume: u32 },
    Drain,
    End(LoopEnd),
}

impl View for SessionAction {
    type V = SessionActionView;

    open spec fn view(&self) -> SessionActionView {
        match self {
            SessionAction::Send(update) => SessionActionView::Send(update@),
            SessionAction::SendAudio => SessionActionView::SendAudio,
            SessionAction::Decode { from } => SessionActionView::Decode { from: *from },
            SessionAction::SetVolume { id, volume } => SessionActionView::SetVolume {
                id: *id,
                volume: *volume,
            },
            SessionAction::Drain => SessionActionView::Drain,
            SessionAction::End(end) => SessionActionView::End(*end),
        }
    }
}

pub open spec fn tell_status(status: StatusView) -> SessionActionView {
    SessionActionView::Send(UpdateView::Status(status))
}

pub open spec fn tell_line(line: Seq<char>) -> SessionActionView {
    SessionActionView::Send(UpdateView::Log(line))
}

/// One log line for each line of news.
pub open spec fn tell_lines(lines: Seq<Seq<char>>) -> Seq<SessionActionView> {
    lines.map_values(|line: Seq<char>| tell_line(line))
}

/// The way out of a session that is left on purpose.
pub open spec fn farewell(end: LoopEnd, texts: Texts) -> Seq<SessionActionView> {
    seq![
        tell_line(texts.disconnecting@),
        SessionActionView::Drain,
        tell_line(texts.disconnected_done@),
        SessionActionView::End(end),
    ]
}

/// What is done on an event in a session, `established` being whether the state of the server was
/// known before; with it, whether it is known afterwards. The handshake is over once it is known,
/// and can run out of time no more.
pub open spec fn session_step(
    established: bool,
    event: SessionEventView,
    texts: Texts,
    volumes: Map<Seq<char>, u32>,
) -> (bool, Seq<SessionActionView>) {
    match event {
        SessionEventView::HandshakeTimeout => (
            established,
            if established {
                Seq::empty()
            } else {
                seq![
                    tell_line(texts.handshake_timeout_log@),
                    tell_status(StatusView::Error(texts.handshake_timeout_status@)),
                    SessionActionView::Drain,
                    SessionActionView::End(LoopEnd::Lost { established: false }),
                ]
            },
        ),
        SessionEventView::Command(CommandView::Connect { .. }) => (
            established,
            seq![tell_line(texts.already_connected@)],
        ),
        SessionEventView::Command(CommandView::Disconnect) => (
            established,
            farewell(LoopEnd::UserDisconnect, texts),
        ),
        SessionEventView::UiClosed => (established, farewell(LoopEnd::UiClosed, texts)),
        SessionEventView::AudioToSend => (established, seq![SessionActionView::SendAudio]),
        SessionEventView::SendAudioFailed(reason) => (
            established,
            seq![tell_line(formatted(texts.send_audio_error@, seq![reason]))],
        ),
        SessionEventView::CaptureStopped => (
            established,
            seq![tell_line(texts.capture_stopped@)],
        ),
        SessionEventView::AudioReceived(raw) => (
            established,
            match audio_speaker(raw) {
                Some(from) => seq![SessionActionView::Decode { from }],
                None => Seq::empty(),
            },
        ),
        SessionEventView::NewTalker { id, name } => (
            established,
            match name {
                Some(name) if volumes.contains_key(name) => seq![
                    SessionActionView::SetVolume { id, volume: volumes[name] },
                ],
                _ => Seq::empty(),
            },
        ),
        SessionEventView::News { lines, state } => match state {
            Some(state) => (
                true,
                tell_lines(lines) + seq![
                    tell_status(StatusView::Connected { server_name: state.name }),
                    SessionActionView::Send(UpdateView::Snapshot(snapshot_of(state))),
                ],
            ),
            None => (established, tell_lines(lines)),
        },
        SessionEventView::Other => (established, Seq::empty()),
        SessionEventView::Failed(reason) => (
            established,
            seq![
                tell_status(StatusView::Error(reason)),
                SessionActionView::End(LoopEnd::Lost { established }),
            ],
        ),
        SessionEventView::Closed => (
            established,
            seq![
                tell_line(texts.server_closed@),
                tell_status(StatusView::Error(texts.connection_lost@)),
                SessionActionView::End(LoopEnd::Lost { established }),
            ],
        ),
    }
}

fn send_line(text: String) -> (action: SessionAction)
    ensures
        action@ == tell_line(text@),
{
    SessionAction::Send(Update::Log(text))
}

fn send_status(status: Status) -> (action: SessionAction)
    ensures
        action@ == tell_status(status@),
{
    SessionAction::Send(Update::Status(status))
}

fn leave(end: LoopEnd, texts: &Texts) -> (actions: Vec<SessionAction>)
    ensures
        views(actions@) == farewell(end, *texts),
{
    let mut actions: Vec<SessionAction> = Vec::new();
    actions.push(send_line(texts.disconnecting.to_owned()));
    actions.push(SessionAction::Drain);
    actions.push(send_line(texts.disconnected_done.to_owned()));
    actions.push(SessionAction::End(end));
    proof {
        assert(views(actions@) =~= farewell(end, *texts));
    }
    actions
}

fn report_lines(lines: &Vec<String>) -> (actions: Vec<SessionAction>)
    ensures
        views(actions@) == tell_lines(views(lines@)),
{
    let mut actions: Vec<SessionAction> = Vec::new();
    let n: usize = lines.len();
    let mut i: usize = 0;
    while i < n
        invariant
            n == lines@.len(),
            i <= n,
            actions@.len() == i,
            forall|j: int| 0 <= j < i ==> (#[trigger] actions@[j])@ == tell_line(lines@[j]@),
        decreases n - i,
    {
        actions.push(send_line(lines[i].clone()));
        i = i + 1;
    }
    proof {
        assert(views(actions@) =~= tell_lines(views(lines@)));
    }
    actions
}

/// The volume to play a user at who begins to speak: the remembered one, if the name is known and
/// there is one.
pub fn talker_volume(name: &Option<String>, volumes: &VolumeMap) -> (volume: Option<u32>)
    ensures
        volume == (match *name {
            Some(name) if volumes@.contains_key(name@) => Some(volumes@[name@]),
            _ => None,
        }),
{
    match name {
        Some(name) => volumes.get(name.as_str()),
        None => None,
    }
}

/// A connection while it lasts.
#[derive(Debug)]
pub struct Session {
    /// Whether the state of the server is known.
    pub established: bool,
}

impl Session {
    pub fn new() -> (session: Session)
        ensures
            !session.established,
    {
        Session { established: false }
    }

    /// Whether the handshake may still run out of time.
    pub fn handshake_pending(&self) -> (pending: bool)
        ensures
            pending == !self.established,
    {
        !self.established
    }

    /// Takes note of an event. The result is what is to be done, in that order.
    pub fn step(&mut self, event: SessionEvent, texts: &Texts, volumes: &VolumeMap) -> (actions:
        Vec<SessionAction>)
        ensures
            (final(self).established, views(actions@)) == session_step(
                old(self).established,
                event@,
                *texts,
                volumes@,
            ),
    {
        let ghost expected = session_step(old(self).established, event@, *texts, volumes@);
        let mut actions: Vec<SessionAction> = Vec::new();
        match event {
            SessionEvent::HandshakeTimeout => {
                if !self.established {
                    actions.push(send_line(texts.handshake_timeout_log.to_owned()));
                    actions.push(
                        send_status(Status::Error(texts.handshake_timeout_status.to_owned())),
                    );
                    actions.push(SessionAction::Drain);
                    actions.push(SessionAction::End(LoopEnd::Lost { established: false }));
                }
            },
            SessionEvent::Command(Command::Connect { .. }) => {
                actions.push(send_line(texts.already_connected.to_owned()));
            },
            SessionEvent::Command(Command::Disconnect) => {
                actions = leave(LoopEnd::UserDisconnect, texts);
            },
            SessionEvent::UiClosed => {
                actions = leave(LoopEnd::UiClosed, texts);
            },
            SessionEvent::AudioToSend => {
                actions.push(SessionAction::SendAudio);
            },
            SessionEvent::SendAudioFailed(reason) => {
                actions.push(send_line(fill(texts.send_audio_error, reason.as_str())));
            },
            SessionEvent::CaptureStopped => {
                actions.push(send_line(texts.capture_stopped.to_owned()));
            },
            SessionEvent::AudioReceived(raw) => {
                if let Some(from) = speaker(raw.as_slice()) {
                    actions.push(SessionAction::Decode { from });
                }
            },
            SessionEvent::NewTalker { id, name } => {
                if let Some(volume) = talker_volume(&name, volumes) {
                    actions.push(SessionAction::SetVolume { id, volume });
                }
            },
            SessionEvent::News { lines, state } => {
                actions = report_lines(&lines);
                if let Some(state) = state {
                    self.established = true;
                    let tree = build_snapshot(&state);
                    actions.push(send_status(Status::Connected { server_name: state.name }));
                    actions.push(SessionAction::Send(Update::Snapshot(tree)));
                }
            },
            SessionEvent::Other => {},
            SessionEvent::Failed(reason) => {
                actions.push(send_status(Status::Error(reason)));
                actions.push(
                    SessionAction::End(LoopEnd::Lost { established: self.established }),
                );
            },
            SessionEvent::Closed => {
                actions.push(send_line(texts.server_closed.to_owned()));
                actions.push(send_status(Status::Error(texts.connection_lost.to_owned())));
                actions.push(
                    SessionAction::End(LoopEnd::Lost { established: self.established }),
                );
            },
        }
        proof {
            assert(views(actions@) =~= expected.1);
        }
        actions
    }
}

/// The status shown after some actions, the one before them being `shown`.
pub open spec fn session_shown_after(
    shown: StatusView,
    actions: Seq<SessionActionView>,
) -> StatusView
    decreases actions.len(),
{
    if actions.len() == 0 {
        shown
    } else {
        match actions.last() {
            SessionActionView::Send(UpdateView::Status(status)) => status,
            _ => session_shown_after(shown, actions.drop_last()),
        }
    }
}

/// The session ends with `end`.
pub open spec fn ends_with(actions: Seq<SessionActionView>, end: LoopEnd) -> bool {
    actions.len() > 0 && actions.last() == SessionActionView::End(end)
}

/// A session that is lost leaves an error shown, and tells truly whether it had been established.
pub proof fn lost_session_shows_an_error(
    established: bool,
    event: SessionEventView,
    texts: Texts,
    volumes: Map<Seq<char>, u32>,
    shown: StatusView,
    told: bool,
)
    requires
        ends_with(
            session_step(established, event, texts, volumes).1,
            LoopEnd::Lost { established: told },
        ),
    ensures
        session_shown_after(
            shown,
            session_step(established, event, texts, volumes).1,
        ) is Error,
        told == established,
{
    reveal_with_fuel(session_shown_after, 5);
    if let SessionEventView::News { lines, state } = event {
        let actions = session_step(established, event, texts, volumes).1;
        if state is None {
            assert(actions == tell_lines(lines));
        }
    }
}

/// The session is left exactly when a pending handshake runs out of time, on a command to
/// disconnect, when the interface is closed, and when the connection fails or is closed; leaving it
/// is the last action.
pub proof fn session_is_left_for_a_reason(
    established: bool,
    event: SessionEventView,
    texts: Texts,
    volumes: Map<Seq<char>, u32>,
)
    ensures
        ({
            let actions = session_step(established, event, texts, volumes).1;
            let reason = (event is HandshakeTimeout && !established) || event
                == SessionEventView::Command(CommandView::Disconnect) || event is UiClosed
                || event is Failed || event is Closed;
            &&& reason <==> exists|end: LoopEnd| #[trigger] ends_with(actions, end)
            &&& forall|i: int| 0 <= i < actions.len() - 1 ==> !((#[trigger] actions[i]) is End)
        }),
{
    let actions = session_step(established, event, texts, volumes).1;
    match event {
        SessionEventView::HandshakeTimeout => {
            if !established {
                assert(ends_with(actions, LoopEnd::Lost { established: false }));
            }
        },
        SessionEventView::Command(CommandView::Disconnect) => {
            assert(ends_with(actions, LoopEnd::UserDisconnect));
        },
        SessionEventView::UiClosed => {
            assert(ends_with(actions, LoopEnd::UiClosed));
        },
        SessionEventView::Failed(_) => {
            assert(ends_with(actions, LoopEnd::Lost { established }));
        },
        SessionEventView::Closed => {
            assert(ends_with(actions, LoopEnd::Lost { established }));
        },
        SessionEventView::News { lines, state } => {
            let told = tell_lines(lines);
            assert forall|i: int| 0 <= i < actions.len() implies !(
            (#[trigger] actions[i]) is End) by {
                if i < told.len() {
                    assert(actions[i] == told[i]);
                }
            }
        },
        _ => {},
    }
}

/// A session becomes established when the state of the server is first known, and stays so.
pub proof fn established_session_stays_so(
    established: bool,
    event: SessionEventView,
    texts: Texts,
    volumes: Map<Seq<char>, u32>,
)
    ensures
        session_step(established, event, texts, volumes).0 == (established || (event matches
            SessionEventView::News { state, .. } && state is Some)),
{
}

/// While a session lasts, a command to connect does nothing but say so.
pub proof fn connecting_twice_is_refused(
    established: bool,
    address: Seq<char>,
    nickname: Seq<char>,
    texts: Texts,
    volumes: Map<Seq<char>, u32>,
)
    ensures
        session_step(
            established,
            SessionEventView::Command(CommandView::Connect { address, nickname }),
            texts,
            volumes,
        ) == (established, seq![tell_line(texts.already_connected@)]),
{
}

/// A user whose volume was changed is played at it when next beginning to speak; a user left at the
/// default is played as the decoder starts out.
pub proof fn changed_volume_reaches_the_talker(
    established: bool,
    volumes: Map<Seq<char>, u32>,
    name: Seq<char>,
    volume: u32,
    id: u16,
    texts: Texts,
)
    ensures
        session_step(
            established,
            SessionEventView::NewTalker { id, name: Some(name) },
            texts,
            volume_changed(volumes, name, volume),
        ).1 == (if near_full(volume) {
            Seq::empty()
        } else {
            seq![SessionActionView::SetVolume { id, volume }]
        }),
{
}

/// Voice is carried both ways in every session, established or not: a packet to send is sent, and a
/// packet received goes to the decoder as the voice of its speaker, if it has one. Nothing else is
/// done.
pub proof fn voice_is_carried_in_every_session(
    established: bool,
    raw: Seq<u8>,
    texts: Texts,
    volumes: Map<Seq<char>, u32>,
)
    ensures
        ({
            let sent = session_step(established, SessionEventView::AudioToSend, texts, volumes).1;
            let received = session_step(
                established,
                SessionEventView::AudioReceived(raw),
                texts,
                volumes,
            ).1;
            &&& sent.len() == 1 && sent[0] == SessionActionView::SendAudio
            &&& match audio_speaker(raw) {
                Some(from) => received.len() == 1 && received[0] == (SessionActionView::Decode {
                    from,
                }),
                None => received.len() == 0,
            }
        }),
{
}

/// What is done does not depend on whether the session is established, save that a handshake that is
/// over cannot run out of time and that the end of a lost session tells which it was.
pub proof fn being_established_changes_nothing_else(
    event: SessionEventView,
    texts: Texts,
    volumes: Map<Seq<char>, u32>,
)
    ensures
        ({
            let before = session_step(false, event, texts, volumes).1;
            let after = session_step(true, event, texts, volumes).1;
            &&& !(event is HandshakeTimeout || event is Failed || event is Closed) ==> before
                == after
            &&& event is Failed || event is Closed ==> before.len() == after.len() && before.len()
                > 0 && before.drop_last() == after.drop_last()
            &&& event is HandshakeTimeout ==> after.len() == 0
        }),
{
}

/// News is logged line by line. If the state of the server is known, the connection is shown as
/// established with the name of the server, and with its channel tree.
pub proof fn news_is_logged_and_shown(
    established: bool,
    lines: Seq<Seq<char>>,
    state: Option<ServerStateView>,
    texts: Texts,
    volumes: Map<Seq<char>, u32>,
)
    ensures
        ({
            let actions = session_step(
                established,
                SessionEventView::News { lines, state },
                texts,
                volumes,
            ).1;
            let n = lines.len();
            &&& actions.len() == n + (if state is Some {
                2nat
            } else {
                0nat
            })
            &&& forall|i: int|
                0 <= i < n ==> #[trigger] actions[i] == SessionActionView::Send(
                    UpdateView::Log(lines[i]),
                )
            &&& state matches Some(state) ==> {
                &&& actions[n as int] == SessionActionView::Send(
                    UpdateView::Status(StatusView::Connected { server_name: state.name }),
                )
                &&& actions[n as int + 1] == SessionActionView::Send(
                    UpdateView::Snapshot(snapshot_of(state)),
                )
            }
        }),
{
}

/// How a session ends. On command and when the interface is closed it disconnects in order between
/// two lines. A handshake that runs out of time is logged and shown, and disconnects in order too. A
/// failure is shown with its reason, the server closing the connection as a lost one.
pub proof fn sessions_end_in_order(
    established: bool,
    reason: Seq<char>,
    texts: Texts,
    volumes: Map<Seq<char>, u32>,
)
    ensures
        ({
            let left = session_step(
                established,
                SessionEventView::Command(CommandView::Disconnect),
                texts,
                volumes,
            ).1;
            let shut = session_step(established, SessionEventView::UiClosed, texts, volumes).1;
            let late = session_step(false, SessionEventView::HandshakeTimeout, texts, volumes).1;
            let failed = session_step(
                established,
                SessionEventView::Failed(reason),
                texts,
                volumes,
            ).1;
            let closed = session_step(established, SessionEventView::Closed, texts, volumes).1;
            &&& left.len() == 4 && shut.len() == 4 && left.take(3) == shut.take(3)
            &&& left[0] == SessionActionView::Send(UpdateView::Log(texts.disconnecting@))
            &&& left[1] == SessionActionView::Drain
            &&& left[2] == SessionActionView::Send(UpdateView::Log(texts.disconnected_done@))
            &&& left[3] == SessionActionView::End(LoopEnd::UserDisconnect)
            &&& shut[3] == SessionActionView::End(LoopEnd::UiClosed)
            &&& late.len() == 4
            &&& late[0] == SessionActionView::Send(
                UpdateView::Log(texts.handshake_timeout_log@),
            )
            &&& late[1] == SessionActionView::Send(
                UpdateView::Status(StatusView::Error(texts.handshake_timeout_status@)),
            )
            &&& late[2] == SessionActionView::Drain
            &&& late[3] == SessionActionView::End(LoopEnd::Lost { established: false })
            &&& failed.len() == 2
            &&& failed[0] == SessionActionView::Send(
                UpdateView::Status(StatusView::Error(reason)),
            )
            &&& failed[1] == SessionActionView::End(LoopEnd::Lost { established })
            &&& closed.len() == 3
            &&& closed[0] == SessionActionView::Send(UpdateView::Log(texts.server_closed@))
            &&& closed[1] == SessionActionView::Send(
                UpdateView::Status(StatusView::Error(texts.connection_lost@)),
            )
            &&& closed[2] == SessionActionView::End(LoopEnd::Lost { established })
        }),
{
}

/// Trouble with the microphone is logged and nothing more, and so is a command to connect while
/// there is a session; what is of no concern is not even logged.
pub proof fn some_events_are_only_logged(
    established: bool,
    reason: Seq<char>,
    address: Seq<char>,
    nickname: Seq<char>,
    texts: Texts,
    volumes: Map<Seq<char>, u32>,
)
    ensures
        ({
            let unsent = session_step(
                established,
                SessionEventView::SendAudioFailed(reason),
                texts,
                volumes,
            ).1;
            let stopped = session_step(
                established,
                SessionEventView::CaptureStopped,
                texts,
                volumes,
            ).1;
            let again = session_step(
                established,
                SessionEventView::Command(CommandView::Connect { address, nickname }),
                texts,
                volumes,
            ).1;
            &&& again.len() == 1 && again[0] == SessionActionView::Send(
                UpdateView::Log(texts.already_connected@),
            )
            &&& unsent.len() == 1 && unsent[0] == SessionActionView::Send(
                UpdateView::Log(formatted(texts.send_audio_error@, seq![reason])),
            )
            &&& stopped.len() == 1 && stopped[0] == SessionActionView::Send(
                UpdateView::Log(texts.capture_stopped@),
            )
            &&& session_step(established, SessionEventView::Other, texts, volumes).1.len() == 0
        }),
{
}

/// A user who begins to speak is given the volume remembered for the name, and only then.
pub proof fn talkers_get_what_is_remembered(
    established: bool,
    id: u16,
    name: Option<Seq<char>>,
    texts: Texts,
    volumes: Map<Seq<char>, u32>,
)
    ensures
        ({
            let actions = session_step(
                established,
                SessionEventView::NewTalker { id, name },
                texts,
                volumes,
            ).1;
            match name {
                Some(name) => if volumes.contains_key(name) {
                    actions.len() == 1 && actions[0] == (SessionActionView::SetVolume {
                        id,
                        volume: volumes[name],
                    })
                } else {
                    actions.len() == 0
                },
                None => actions.len() == 0,
            }
        }),
{
}

/// What happens in a session and what it wants done are seen as they are.
pub proof fn session_is_seen_as_it_is(
    command: Command,
    text: String,
    raw: Vec<u8>,
    id: u16,
    volume: u32,
    lines: Vec<String>,
    state: ServerState,
    update: Update,
    end: LoopEnd,
)
    ensures
        SessionEvent::HandshakeTimeout@ == SessionEventView::HandshakeTimeout,
        SessionEvent::Command(command)@ == SessionEventView::Command(command@),
        SessionEvent::UiClosed@ == SessionEventView::UiClosed,
        SessionEvent::AudioToSend@ == SessionEventView::AudioToSend,
        SessionEvent::SendAudioFailed(text)@ == SessionEventView::SendAudioFailed(text@),
        SessionEvent::CaptureStopped@ == SessionEventView::CaptureStopped,
        SessionEvent::AudioReceived(raw)@ == SessionEventView::AudioReceived(raw@),
        (SessionEvent::NewTalker { id, name: Some(text) })@ == (SessionEventView::NewTalker {
            id,
            name: Some(text@),
        }),
        (SessionEvent::NewTalker { id, name: None })@ == (SessionEventView::NewTalker {
            id,
            name: None,
        }),
        (SessionEvent::News { lines, state: Some(state) })@ == (SessionEventView::News {
            lines: lines@.map_values(|line: String| line@),
            state: Some(state@),
        }),
        (SessionEvent::News { lines, state: None })@ == (SessionEventView::News {
            lines: lines@.map_values(|line: String| line@),
            state: None,
        }),
        SessionEvent::Other@ == SessionEventView::Other,
        SessionEvent::Failed(text)@ == SessionEventView::Failed(text@),
        SessionEvent::Closed@ == SessionEventView::Closed,
        SessionAction::Send(update)@ == SessionActionView::Send(update@),
        SessionAction::SendAudio@ == SessionActionView::SendAudio,
        (SessionAction::Decode { from: id })@ == (SessionActionView::Decode { from: id }),
        (SessionAction::SetVolume { id, volume })@ == (SessionActionView::SetVolume {
            id,
            volume,
        }),
        SessionAction::Drain@ == SessionActionView::Drain,
        SessionAction::End(end)@ == SessionActionView::End(end),
{
    assert(views(lines@) =~= lines@.map_values(|line: String| line@));
}

} // verus!
