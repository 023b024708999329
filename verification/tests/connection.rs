use ts3_client::audio::SoundEffect;
use ts3_client::client::{ChannelInfo, ClientInfo, Command, Sender, Status, Update};
use ts3_client::session::{Session, SessionAction, SessionEvent};
use ts3_client::snapshot::{build_snapshot, ServerChannel, ServerClient, ServerState};
use ts3_client::texts::{english, japanese};
use ts3_client::volumes::VolumeMap;
use ts3_client::worker::{
    LoopEnd, Phase, Worker, WorkerAction, WorkerEvent, DRAIN_TIMEOUT_SECS, HANDSHAKE_TIMEOUT_SECS,
    MAX_RECONNECT_ATTEMPTS, RECONNECT_INTERVAL_SECS,
};

fn connect(address: &str) -> Command {
    Command::Connect { address: address.to_owned(), nickname: "me".to_owned() }
}

fn shown<T: std::fmt::Debug>(value: &T) -> String {
    format!("{value:?}")
}

fn status(status: Status) -> String {
    shown(&WorkerAction::Send(Update::Status(status)))
}

fn line(text: &str) -> String {
    shown(&WorkerAction::Send(Update::Log(text.to_owned())))
}

fn step(worker: &mut Worker, event: WorkerEvent) -> Vec<String> {
    worker.step(event, &english()).iter().map(shown).collect()
}

fn lost(established: bool) -> WorkerEvent {
    WorkerEvent::SessionEnded(LoopEnd::Lost { established })
}

#[test]
fn times_and_limits() {
    assert_eq!(HANDSHAKE_TIMEOUT_SECS, 15);
    assert_eq!(DRAIN_TIMEOUT_SECS, 6);
    assert_eq!(RECONNECT_INTERVAL_SECS, 3);
    assert_eq!(MAX_RECONNECT_ATTEMPTS, 20);
}

#[test]
fn worker_connects_on_command() {
    let mut worker = Worker::new();
    assert!(step(&mut worker, WorkerEvent::Command(Command::Disconnect)).is_empty());
    let actions = worker.step(WorkerEvent::Command(connect("host")), &japanese());
    assert_eq!(actions.len(), 3);
    assert_eq!(shown(&actions[0]), status(Status::Connecting));
    assert_eq!(shown(&actions[1]), line("host に me として接続します"));
    assert!(matches!(&actions[2], WorkerAction::Build(t) if t.address == "host" && t.nickname == "me"));
    let actions = worker.step(WorkerEvent::Built, &english());
    assert!(matches!(actions[..], [WorkerAction::DiscardQueuedAudio, WorkerAction::RunSession]));
    let actions = worker.step(WorkerEvent::SessionEnded(LoopEnd::UserDisconnect), &english());
    assert_eq!(actions.len(), 3);
    assert!(matches!(&actions[0], WorkerAction::ResetAudio));
    assert!(matches!(&actions[1], WorkerAction::Send(Update::Snapshot(tree)) if tree.is_empty()));
    assert_eq!(shown(&actions[2]), status(Status::Disconnected));
    assert!(matches!(worker.phase, Phase::Idle));
}

#[test]
fn connecting_line_names_both_as_they_are() {
    let command = || Command::Connect { address: "{1}".to_owned(), nickname: "{0} me".to_owned() };
    let actions = Worker::new().step(WorkerEvent::Command(command()), &japanese());
    assert_eq!(shown(&actions[1]), line("{1} に {0} me として接続します"));
    let actions = Worker::new().step(WorkerEvent::Command(command()), &english());
    assert_eq!(shown(&actions[1]), line("Connecting to {1} as {0} me"));
}

#[test]
fn first_failure_is_final() {
    let mut worker = Worker::new();
    step(&mut worker, WorkerEvent::Command(connect("nowhere")));
    assert_eq!(
        step(&mut worker, WorkerEvent::BuildFailed("no such host".to_owned())),
        [status(Status::Error("no such host".to_owned()))]
    );
    assert!(matches!(worker.phase, Phase::Idle));
    step(&mut worker, WorkerEvent::Command(connect("nowhere")));
    step(&mut worker, WorkerEvent::Built);
    let actions = step(&mut worker, lost(false));
    assert_eq!(actions.len(), 2);
    assert!(matches!(worker.phase, Phase::Idle));
}

#[test]
fn lost_connection_is_tried_twenty_times() {
    let mut worker = Worker::new();
    step(&mut worker, WorkerEvent::Command(connect("host")));
    step(&mut worker, WorkerEvent::Built);
    let actions = step(&mut worker, lost(true));
    assert_eq!(actions[2], line("Reconnecting in 3s (1/20)"));
    assert_eq!(actions[3], status(Status::Connecting));
    assert_eq!(actions[4], shown(&WorkerAction::Wait));
    for attempt in 1..20 {
        assert_eq!(step(&mut worker, WorkerEvent::WaitElapsed)[0], status(Status::Connecting));
        let actions = if attempt % 2 == 0 {
            step(&mut worker, WorkerEvent::BuildFailed("down".to_owned()))
        } else {
            step(&mut worker, WorkerEvent::Built);
            step(&mut worker, lost(false))
        };
        let expected = line(&format!("Reconnecting in 3s ({}/20)", attempt + 1));
        assert!(actions.contains(&expected), "{actions:?}");
    }
    step(&mut worker, WorkerEvent::WaitElapsed);
    let actions = step(&mut worker, WorkerEvent::BuildFailed("down".to_owned()));
    assert_eq!(
        actions,
        [
            status(Status::Error("down".to_owned())),
            status(Status::Error("Gave up after 20 reconnect attempts".to_owned())),
        ]
    );
    assert!(matches!(worker.phase, Phase::Idle));
}

#[test]
fn established_connection_starts_the_count_anew() {
    let mut worker = Worker::new();
    step(&mut worker, WorkerEvent::Command(connect("host")));
    step(&mut worker, WorkerEvent::Built);
    step(&mut worker, lost(true));
    for _ in 0..5 {
        step(&mut worker, WorkerEvent::WaitElapsed);
        step(&mut worker, WorkerEvent::BuildFailed("down".to_owned()));
    }
    assert!(matches!(worker.phase, Phase::Waiting { attempts: 6, .. }));
    step(&mut worker, WorkerEvent::WaitElapsed);
    step(&mut worker, WorkerEvent::Built);
    step(&mut worker, lost(true));
    assert!(matches!(worker.phase, Phase::Waiting { attempts: 1, .. }));
}

#[test]
fn wait_can_be_broken_off() {
    let waiting = || {
        let mut worker = Worker::new();
        step(&mut worker, WorkerEvent::Command(connect("host")));
        step(&mut worker, WorkerEvent::Built);
        step(&mut worker, lost(true));
        worker
    };
    let mut worker = waiting();
    assert_eq!(
        step(&mut worker, WorkerEvent::Command(Command::Disconnect)),
        [line("Reconnect cancelled"), status(Status::Disconnected)]
    );
    assert!(matches!(worker.phase, Phase::Idle));
    let mut worker = waiting();
    step(&mut worker, WorkerEvent::Command(connect("other")));
    assert!(matches!(&worker.phase, Phase::Attempting { target, attempts: 0 } if target.address == "other"));
    let mut worker = waiting();
    assert!(step(&mut worker, WorkerEvent::UiClosed).is_empty());
    assert!(matches!(worker.phase, Phase::Stopped));
    assert!(step(&mut worker, WorkerEvent::Command(connect("host"))).is_empty());
    assert!(matches!(worker.phase, Phase::Stopped));
}

fn session_step(session: &mut Session, event: SessionEvent) -> Vec<String> {
    session.step(event, &english(), &VolumeMap::new()).iter().map(shown).collect()
}

fn session_line(text: &str) -> String {
    shown(&SessionAction::Send(Update::Log(text.to_owned())))
}

fn session_error(text: &str) -> String {
    shown(&SessionAction::Send(Update::Status(Status::Error(text.to_owned()))))
}

fn end(end: LoopEnd) -> String {
    shown(&SessionAction::End(end))
}

fn lobby() -> ServerState {
    ServerState {
        name: "My Server".to_owned(),
        channels: vec![
            ServerChannel { id: 7, name: "Game".to_owned() },
            ServerChannel { id: 2, name: "Lobby".to_owned() },
        ],
        clients: vec![
            ServerClient { id: 4, channel: 2, name: "zoe".to_owned() },
            ServerClient { id: 9, channel: 7, name: "eve".to_owned() },
            ServerClient { id: 1, channel: 2, name: "bob".to_owned() },
            ServerClient { id: 5, channel: 3, name: "lost".to_owned() },
        ],
    }
}

#[test]
fn handshake_runs_out_of_time() {
    let mut session = Session::new();
    assert!(session.handshake_pending());
    assert_eq!(
        session_step(&mut session, SessionEvent::HandshakeTimeout),
        [
            session_line("Connection timeout: no response from the server"),
            session_error("Connection timeout"),
            shown(&SessionAction::Drain),
            end(LoopEnd::Lost { established: false }),
        ]
    );
}

#[test]
fn news_establishes_the_session() {
    let mut session = Session::new();
    let nothing_known = SessionEvent::News { lines: vec!["hello".to_owned()], state: None };
    assert_eq!(session_step(&mut session, nothing_known), [session_line("hello")]);
    assert!(session.handshake_pending());
    let news = SessionEvent::News {
        lines: vec!["one".to_owned(), "two".to_owned()],
        state: Some(lobby()),
    };
    let actions = session_step(&mut session, news);
    assert_eq!(actions[0], session_line("one"));
    assert_eq!(actions[1], session_line("two"));
    let connected = Status::Connected { server_name: "My Server".to_owned() };
    assert_eq!(actions[2], shown(&SessionAction::Send(Update::Status(connected))));
    let tree = build_snapshot(&lobby());
    assert_eq!(actions[3], shown(&SessionAction::Send(Update::Snapshot(tree))));
    assert!(!session.handshake_pending());
    assert!(session_step(&mut session, SessionEvent::HandshakeTimeout).is_empty());
    assert_eq!(
        session_step(&mut session, SessionEvent::Closed),
        [
            session_line("Disconnected by the server"),
            session_error("Connection lost"),
            end(LoopEnd::Lost { established: true }),
        ]
    );
}

#[test]
fn commands_in_a_session() {
    let mut session = Session::new();
    assert_eq!(
        session_step(&mut session, SessionEvent::Command(connect("host"))),
        [session_line("Already connected. Disconnect first")]
    );
    assert_eq!(
        session_step(&mut session, SessionEvent::Command(Command::Disconnect)),
        [
            session_line("Disconnecting"),
            shown(&SessionAction::Drain),
            session_line("Disconnected"),
            end(LoopEnd::UserDisconnect),
        ]
    );
    let actions = session_step(&mut session, SessionEvent::UiClosed);
    assert_eq!(actions[3], end(LoopEnd::UiClosed));
}

#[test]
fn failing_session_ends() {
    let mut session = Session::new();
    assert_eq!(
        session_step(&mut session, SessionEvent::Failed("reset".to_owned())),
        [session_error("reset"), end(LoopEnd::Lost { established: false })]
    );
    assert!(session_step(&mut session, SessionEvent::Other).is_empty());
    assert_eq!(
        session_step(&mut session, SessionEvent::CaptureStopped),
        [session_line("Audio capture stopped")]
    );
    assert_eq!(
        session_step(&mut session, SessionEvent::SendAudioFailed("full".to_owned())),
        [session_line("Failed to send audio: full")]
    );
    assert_eq!(
        session_step(&mut session, SessionEvent::AudioToSend),
        [shown(&SessionAction::SendAudio)]
    );
}

#[test]
fn new_talkers_get_their_volume() {
    let mut session = Session::new();
    let mut volumes = VolumeMap::new();
    volumes.change("bob", 0.5f32.to_bits());
    let talker = |name: Option<&str>| SessionEvent::NewTalker { id: 3, name: name.map(str::to_owned) };
    let actions = session.step(talker(Some("bob")), &english(), &volumes);
    assert!(matches!(
        actions[..],
        [SessionAction::SetVolume { id: 3, volume }] if f32::from_bits(volume) == 0.5
    ));
    assert!(session.step(talker(Some("eve")), &english(), &volumes).is_empty());
    assert!(session.step(talker(None), &english(), &volumes).is_empty());
}

#[test]
fn tree_is_sorted_by_channel_number_and_user_name() {
    let tree = build_snapshot(&lobby());
    let names: Vec<&str> = tree.iter().map(|c| c.name.as_str()).collect();
    assert_eq!(names, ["Lobby", "Game"]);
    let users: Vec<(u16, &str)> = tree[0].clients.iter().map(|c| (c.id, c.name.as_str())).collect();
    assert_eq!(users, [(1, "bob"), (4, "zoe")]);
    assert_eq!(tree[1].clients[0].name, "eve");
    let mut turned = lobby();
    turned.channels.reverse();
    turned.clients.reverse();
    assert_eq!(shown(&build_snapshot(&turned)), shown(&tree));
}

fn tree(ids: &[u16]) -> Update {
    let clients = ids.iter().map(|id| ClientInfo { id: *id, name: id.to_string() }).collect();
    Update::Snapshot(vec![ChannelInfo { name: "c".to_owned(), clients }])
}

#[test]
fn status_changes_chime() {
    let mut sender = Sender::new();
    let connected = || Update::Status(Status::Connected { server_name: "s".to_owned() });
    assert!(sender.send(&Update::Status(Status::Connecting)).is_empty());
    assert_eq!(sender.send(&connected()), [SoundEffect::Connect]);
    assert!(sender.send(&connected()).is_empty());
    assert_eq!(sender.send(&Update::Status(Status::Error("e".to_owned()))), [SoundEffect::Disconnect]);
    assert!(sender.send(&Update::Status(Status::Disconnected)).is_empty());
    assert_eq!(sender.status, Status::Disconnected);
    assert!(sender.send(&Update::Log("x".to_owned())).is_empty());
}

#[test]
fn others_are_heard_to_come_and_go() {
    let mut sender = Sender::new();
    assert!(sender.send(&tree(&[1, 2])).is_empty());
    assert_eq!(sender.send(&tree(&[1, 2, 3])), [SoundEffect::UserJoined]);
    assert!(sender.send(&tree(&[3, 2, 1])).is_empty());
    assert_eq!(sender.send(&tree(&[1, 3])), [SoundEffect::UserLeft]);
    assert_eq!(sender.send(&tree(&[1, 4])), [SoundEffect::UserJoined, SoundEffect::UserLeft]);
    assert!(sender.send(&Update::Snapshot(Vec::new())).is_empty());
}

#[test]
fn users_of_one_name_stay_in_the_order_listed() {
    let mut state = lobby();
    state.clients.push(ServerClient { id: 3, channel: 2, name: "bob".to_owned() });
    state.clients.push(ServerClient { id: 2, channel: 2, name: "bob".to_owned() });
    let ids: Vec<u16> = build_snapshot(&state)[0].clients.iter().map(|c| c.id).collect();
    assert_eq!(ids, [1, 3, 2, 4]);
}

#[test]
fn window_and_api_tell_one_status() {
    let updates = || {
        vec![
            Update::Status(Status::Connecting),
            Update::Log("line".to_owned()),
            Update::Status(Status::Connected { server_name: "s".to_owned() }),
            tree(&[1]),
        ]
    };
    let mut sender = Sender::new();
    for update in &updates() {
        sender.send(update);
    }
    let mut state = ts3_client::interface::AppState::new();
    state.apply_updates(updates());
    assert_eq!(sender.status, state.status);
    assert_eq!(sender.present, [1]);
}

#[test]
fn clone_of_a_channel_is_the_same() {
    let tree = build_snapshot(&lobby());
    assert_eq!(shown(&tree[0].clone()), shown(&tree[0]));
}
