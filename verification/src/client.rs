//! What the interface, the HTTP API and the connection worker say to each other.

use crate::audio::SoundEffect;
use crate::ordering::views;
use vstd::prelude::*;

verus! {

/// An instruction to the connection worker.
#[derive(Debug)]
pub enum Command {
    Connect { address: String, nickname: String },
    Disconnect,
}

pub enum CommandView {
    Connect { address: Seq<char>, nickname: Seq<char> },
    Disconnect,
}

impl View for Command {
    type V = CommandView;

    open spec fn view(&self) -> CommandView {
        match self {
            Command::Connect { address, nickname } => CommandView::Connect {
                address: address@,
                nickname: nickname@,
            },
            Command::Disconnect => CommandView::Disconnect,
        }
    }
}

/// The state of the connection.
#[derive(Debug, PartialEq)]
pub enum Status {
    Disconnected,
    Connecting,
    Connected { server_name: String },
    Error(String),
}

pub enum StatusView {
    Disconnected,
    Connecting,
    Connected { server_name: Seq<char> },
    Error(Seq<char>),
}

impl View for Status {
    type V = StatusView;

    open spec fn view(&self) -> StatusView {
        match self {
            Status::Disconnected => StatusView::Disconnected,
            Status::Connecting => StatusView::Connecting,
            Status::Connected { server_name } => StatusView::Connected {
                server_name: server_name@,
            },
            Status::Error(error) => StatusView::Error(error@),
        }
    }
}

impl Clone for Status {
    fn clone(&self) -> (status: Status)
        ensures
            status@ == self@,
    {
        match self {
            Status::Disconnected => Status::Disconnected,
            Status::Connecting => Status::Connecting,
            Status::Connected { server_name } => Status::Connected {
                server_name: server_name.clone(),
            },
            Status::Error(error) => Status::Error(error.clone()),
        }
    }
}

/// A user on the server.
#[derive(Debug)]
pub struct ClientInfo {
    pub id: u16,
    pub name: String,
}

pub struct ClientInfoView {
    pub id: u16,
    pub name: Seq<char>,
}

impl View for ClientInfo {
    type V = ClientInfoView;

    open spec fn view(&self) -> ClientInfoView {
        ClientInfoView { id: self.id, name: self.name@ }
    }
}

impl Clone for ClientInfo {
    fn clone(&self) -> (client: ClientInfo)
        ensures
            client@ == self@,
    {
        ClientInfo { id: self.id, name: self.name.clone() }
    }
}

/// A channel and the users in it.
#[derive(Debug)]
pub struct ChannelInfo {
    pub name: String,
    pub clients: Vec<ClientInfo>,
}

pub struct ChannelInfoView {
    pub name: Seq<char>,
    pub clients: Seq<ClientInfoView>,
}

impl View for ChannelInfo {
    type V = ChannelInfoView;

    open spec fn view(&self) -> ChannelInfoView {
        ChannelInfoView { name: self.name@, clients: views(self.clients@) }
    }
}

impl Clone for ChannelInfo {
    fn clone(&self) -> (channel: ChannelInfo)
        ensures
            channel@ == self@,
    {
        let mut clients: Vec<ClientInfo> = Vec::new();
        let n: usize = self.clients.len();
        let mut i: usize = 0;
        while i < n
            invariant
                n == self.clients@.len(),
                i <= n,
                clients@.len() == i,
                forall|j: int| 0 <= j < i ==> (#[trigger] clients@[j])@ == self.clients@[j]@,
            decreases n - i,
        {
            clients.push(self.clients[i].clone());
            i = i + 1;
        }
        proof {
            assert(views(clients@) =~= views(self.clients@));
        }
        ChannelInfo { name: self.name.clone(), clients }
    }
}

/// What the worker reports.
#[derive(Debug)]
pub enum Update {
    Status(Status),
    Snapshot(Vec<ChannelInfo>),
    Log(String),
}

pub enum UpdateView {
    Status(StatusView),
    Snapshot(Seq<ChannelInfoView>),
    Log(Seq<char>),
}

impl View for Update {
    type V = UpdateView;

    open spec fn view(&self) -> UpdateView {
        match self {
            Update::Status(status) => UpdateView::Status(status@),
            Update::Snapshot(channels) => UpdateView::Snapshot(views(channels@)),
            Update::Log(line) => UpdateView::Log(line@),
        }
    }
}

/// The chime for a change of status: one when a connection comes into being, another when one
/// ceases.
pub open spec fn status_chime(from: StatusView, to: StatusView) -> Option<SoundEffect> {
    if to is Connected && !(from is Connected) {
        Some(SoundEffect::Connect)
    } else if from is Connected && !(to is Connected) {
        Some(SoundEffect::Disconnect)
    } else {
        None
    }
}

/// Whether a user with this number is in one of the channels.
pub open spec fn is_present(channels: Seq<ChannelInfoView>, id: u16) -> bool {
    exists|c: int, k: int|
        0 <= c < channels.len() && 0 <= k < channels[c].clients.len()
            && #[trigger] channels[c].clients[k].id == id
}

/// The users in the channels.
pub open spec fn present_in(channels: Seq<ChannelInfoView>) -> Set<u16> {
    Set::new(|id: u16| is_present(channels, id))
}

/// Somebody is in `a` who is not in `b`.
pub open spec fn someone_only_in(a: Set<u16>, b: Set<u16>) -> bool {
    exists|id: u16| #[trigger] a.contains(id) && !b.contains(id)
}

/// The sounds for users who came and went between two channel trees of one connection. The tree of
/// no connection is empty, and nobody comes or goes with respect to it.
pub open spec fn presence_sounds(before: Set<u16>, after: Set<u16>) -> Seq<SoundEffect> {
    if before == Set::<u16>::empty() || after == Set::<u16>::empty() {
        Seq::empty()
    } else {
        (if someone_only_in(after, before) {
            seq![SoundEffect::UserJoined]
        } else {
            Seq::empty()
        }) + (if someone_only_in(before, after) {
            seq![SoundEffect::UserLeft]
        } else {
            Seq::empty()
        })
    }
}

/// What every update of the worker passes through: it keeps the status that the HTTP API tells, and
/// knows who is on the server.
pub struct Sender {
    pub status: Status,
    pub present: Vec<u16>,
}

pub struct SenderView {
    pub status: StatusView,
    pub present: Set<u16>,
}

impl View for Sender {
    type V = SenderView;

    open spec fn view(&self) -> SenderView {
        SenderView { status: self.status@, present: self.present@.to_set() }
    }
}

/// What is known after an update, and the sounds that go with it.
pub open spec fn after_update(sender: SenderView, update: UpdateView) -> (
    SenderView,
    Seq<SoundEffect>,
) {
    match update {
        UpdateView::Status(status) => (
            SenderView { status, ..sender },
            match status_chime(sender.status, status) {
                Some(chime) => seq![chime],
                None => Seq::empty(),
            },
        ),
        UpdateView::Snapshot(channels) => (
            SenderView { present: present_in(channels), ..sender },
            presence_sounds(sender.present, present_in(channels)),
        ),
        UpdateView::Log(_) => (sender, Seq::empty()),
    }
}

/// Whether `ids` has `id`.
fn lists(ids: &Vec<u16>, id: u16) -> (found: bool)
    ensures
        found == ids@.contains(id),
{
    let mut i: usize = 0;
    while i < ids.len()
        invariant
            i <= ids@.len(),
            forall|j: int| 0 <= j < i ==> ids@[j] != id,
        decreases ids.len() - i,
    {
        if ids[i] == id {
            return true;
        }
        i = i + 1;
    }
    false
}

/// Whether somebody is in `a` who is not in `b`.
fn has_other(a: &Vec<u16>, b: &Vec<u16>) -> (other: bool)
    ensures
        other == someone_only_in(a@.to_set(), b@.to_set()),
{
    let mut i: usize = 0;
    while i < a.len()
        invariant
            i <= a@.len(),
            forall|j: int| 0 <= j < i ==> b@.contains(#[trigger] a@[j]),
        decreases a.len() - i,
    {
        if !lists(b, a[i]) {
            proof {
                assert(a@.contains(a@[i as int]));
                assert(a@.to_set().contains(a@[i as int]));
            }
            return true;
        }
        i = i + 1;
    }
    proof {
        assert forall|id: u16| #[trigger] a@.to_set().contains(id) implies b@.to_set().contains(
            id,
        ) by {
            let j = choose|j: int| 0 <= j < a@.len() && a@[j] == id;
            assert(b@.contains(a@[j]));
        }
    }
    false
}

/// The users in the channels.
fn users_in(channels: &Vec<ChannelInfo>) -> (ids: Vec<u16>)
    ensures
        ids@.to_set() == present_in(views(channels@)),
{
    let mut ids: Vec<u16> = Vec::new();
    let ghost tree = views(channels@);
    let mut c: usize = 0;
    while c < channels.len()
        invariant
            c <= channels@.len(),
            tree == views(channels@),
            forall|i: int| 0 <= i < ids@.len() ==> is_present(tree, #[trigger] ids@[i]),
            forall|n: int, k: int|
                0 <= n < c && 0 <= k < tree[n].clients.len() ==> ids@.contains(
                    (#[trigger] tree[n].clients[k]).id,
                ),
        decreases channels.len() - c,
    {
        let clients = &channels[c].clients;
        proof {
            assert(tree[c as int] == channels@[c as int]@);
            assert(tree[c as int].clients == views(clients@));
        }
        let mut k: usize = 0;
        while k < clients.len()
            invariant
                c < channels@.len(),
                k <= clients@.len(),
                tree == views(channels@),
                tree[c as int].clients == views(clients@),
                forall|i: int| 0 <= i < ids@.len() ==> is_present(tree, #[trigger] ids@[i]),
                forall|n: int, m: int|
                    0 <= n < c && 0 <= m < tree[n].clients.len() ==> ids@.contains(
                        (#[trigger] tree[n].clients[m]).id,
                    ),
                forall|m: int|
                    0 <= m < k ==> ids@.contains((#[trigger] tree[c as int].clients[m]).id),
            decreases clients.len() - k,
        {
            let ghost before = ids@;
            let id: u16 = clients[k].id;
            ids.push(id);
            proof {
                assert(tree[c as int].clients[k as int].id == id);
                assert(is_present(tree, id));
                assert(ids@[before.len() as int] == id);
                assert forall|i: int| 0 <= i < ids@.len() implies is_present(
                    tree,
                    #[trigger] ids@[i],
                ) by {
                    if i < before.len() {
                        assert(before[i] == ids@[i]);
                    }
                }
                assert forall|x: u16| before.contains(x) implies #[trigger] ids@.contains(x) by {
                    let j = choose|j: int| 0 <= j < before.len() && before[j] == x;
                    assert(ids@[j] == x);
                }
            }
            k = k + 1;
        }
        c = c + 1;
    }
    proof {
        assert forall|id: u16| #[trigger] present_in(tree).contains(id) implies ids@.contains(
            id,
        ) by {
            let (n, k) = choose|n: int, k: int|
                0 <= n < tree.len() && 0 <= k < tree[n].clients.len()
                    && #[trigger] tree[n].clients[k].id == id;
            assert(ids@.contains(tree[n].clients[k].id));
        }
        assert(ids@.to_set() =~= present_in(tree));
    }
    ids
}

fn is_connected(status: &Status) -> (connected: bool)
    ensures
        connected == (status@ is Connected),
{
    match status {
        Status::Connected { .. } => true,
        _ => false,
    }
}

impl Sender {
    /// Before any update: not connected, nobody known.
    pub fn new() -> (sender: Sender)
        ensures
            sender@ == (SenderView { status: StatusView::Disconnected, present: Set::empty() }),
    {
        let sender = Sender { status: Status::Disconnected, present: Vec::new() };
        proof {
            assert(sender@.present =~= Set::empty());
        }
        sender
    }

    /// Takes note of an update. The result is the sounds that go with it.
    pub fn send(&mut self, update: &Update) -> (sounds: Vec<SoundEffect>)
        ensures
            (final(self)@, sounds@) == after_update(old(self)@, update@),
    {
        let mut sounds: Vec<SoundEffect> = Vec::new();
        match update {
            Update::Status(status) => {
                let was_connected = is_connected(&self.status);
                let now_connected = is_connected(status);
                if now_connected && !was_connected {
                    sounds.push(SoundEffect::Connect);
                } else if was_connected && !now_connected {
                    sounds.push(SoundEffect::Disconnect);
                }
                self.status = status.clone();
            },
            Update::Snapshot(channels) => {
                let now = users_in(channels);
                proof {
                    assert(self.present@.len() == 0 <==> self@.present == Set::<u16>::empty()) by {
                        if self.present@.len() == 0 {
                            assert(self@.present =~= Set::empty());
                        } else {
                            assert(self.present@.contains(self.present@[0]));
                            assert(self@.present.contains(self.present@[0]));
                        }
                    }
                    assert(now@.len() == 0 <==> now@.to_set() == Set::<u16>::empty()) by {
                        if now@.len() == 0 {
                            assert(now@.to_set() =~= Set::empty());
                        } else {
                            assert(now@.contains(now@[0]));
                            assert(now@.to_set().contains(now@[0]));
                        }
                    }
                }
                if self.present.len() > 0 && now.len() > 0 {
                    if has_other(&now, &self.present) {
                        sounds.push(SoundEffect::UserJoined);
                    }
                    if has_other(&self.present, &now) {
                        sounds.push(SoundEffect::UserLeft);
                    }
                }
                self.present = now;
            },
            Update::Log(_) => {},
        }
        proof {
            assert(sounds@ =~= after_update(old(self)@, update@).1);
        }
        sounds
    }
}

/// The chimes of a succession of statuses, from a first one on.
pub open spec fn chimes(first: StatusView, statuses: Seq<StatusView>) -> Seq<SoundEffect>
    decreases statuses.len(),
{
    if statuses.len() == 0 {
        Seq::empty()
    } else {
        let before = statuses.drop_last();
        let last = if before.len() == 0 {
            first
        } else {
            before.last()
        };
        match status_chime(last, statuses.last()) {
            Some(chime) => chimes(first, before).push(chime),
            None => chimes(first, before),
        }
    }
}

/// Connect and disconnect chimes alternate, beginning with connect when there is no connection at
/// first; there is a connection exactly when the last chime was connect.
pub proof fn chimes_alternate(first: StatusView, statuses: Seq<StatusView>)
    requires
        !(first is Connected),
    ensures
        forall|i: int|
            0 <= i < chimes(first, statuses).len() ==> #[trigger] chimes(first, statuses)[i] == (
            if i % 2 == 0 {
                SoundEffect::Connect
            } else {
                SoundEffect::Disconnect
            }),
        statuses.len() > 0 ==> (statuses.last() is Connected <==> chimes(first, statuses).len() % 2
            == 1),
    decreases statuses.len(),
{
    if statuses.len() > 0 {
        chimes_alternate(first, statuses.drop_last());
    }
}

/// While there is a connection, whoever comes is heard and whoever goes is heard; a tree with the
/// same users makes no sound.
pub proof fn comings_and_goings_are_heard(
    sender: SenderView,
    channels: Seq<ChannelInfoView>,
    id: u16,
)
    requires
        sender.present != Set::<u16>::empty(),
        present_in(channels) != Set::<u16>::empty(),
    ensures
        ({
            let sounds = after_update(sender, UpdateView::Snapshot(channels)).1;
            &&& is_present(channels, id) && !sender.present.contains(id) ==> sounds.contains(
                SoundEffect::UserJoined,
            )
            &&& sender.present.contains(id) && !is_present(channels, id) ==> sounds.contains(
                SoundEffect::UserLeft,
            )
            &&& present_in(channels) == sender.present ==> sounds.len() == 0
        }),
{
    let after = present_in(channels);
    let sounds = presence_sounds(sender.present, after);
    if is_present(channels, id) && !sender.present.contains(id) {
        assert(after.contains(id));
        assert(someone_only_in(after, sender.present));
        assert(sounds[0] == SoundEffect::UserJoined);
    }
    if sender.present.contains(id) && !is_present(channels, id) {
        assert(!after.contains(id));
        assert(someone_only_in(sender.present, after));
        assert(sounds.last() == SoundEffect::UserLeft);
    }
}

/// A new status is what is told from then on. It sounds as a connection exactly when one comes into
/// being, and as a disconnection exactly when one ceases; a log line changes nothing and makes no
/// sound.
pub proof fn status_is_told_and_heard(sender: SenderView, status: StatusView, line: Seq<char>)
    ensures
        ({
            let (next, sounds) = after_update(sender, UpdateView::Status(status));
            let came = status is Connected && !(sender.status is Connected);
            let went = sender.status is Connected && !(status is Connected);
            &&& next.status == status
            &&& next.present == sender.present
            &&& came ==> sounds.len() == 1 && sounds[0] == SoundEffect::Connect
            &&& went ==> sounds.len() == 1 && sounds[0] == SoundEffect::Disconnect
            &&& !came && !went ==> sounds.len() == 0
        }),
        after_update(sender, UpdateView::Log(line)).0 == sender,
        after_update(sender, UpdateView::Log(line)).1.len() == 0,
{
}

/// A new tree leaves the status as it is, and those in it are who is known from then on. It sounds
/// for somebody who came exactly when a user in it was not known before, and for somebody who went
/// exactly when a user known before is not in it; not at all where nobody was known or nobody is in
/// it.
pub proof fn tree_is_known_and_heard(sender: SenderView, channels: Seq<ChannelInfoView>)
    ensures
        ({
            let (next, sounds) = after_update(sender, UpdateView::Snapshot(channels));
            let came = exists|c: int, k: int|
                0 <= c < channels.len() && 0 <= k < channels[c].clients.len()
                    && !sender.present.contains(#[trigger] channels[c].clients[k].id);
            let went = exists|id: u16| #[trigger]
                sender.present.contains(id) && !next.present.contains(id);
            let someone_before = exists|id: u16| #[trigger] sender.present.contains(id);
            let someone_after = exists|id: u16| #[trigger] next.present.contains(id);
            &&& next.status == sender.status
            &&& forall|id: u16| #[trigger]
                next.present.contains(id) <==> exists|c: int, k: int|
                    0 <= c < channels.len() && 0 <= k < channels[c].clients.len()
                        && #[trigger] channels[c].clients[k].id == id
            &&& sounds.contains(SoundEffect::UserJoined) <==> someone_before && came
            &&& sounds.contains(SoundEffect::UserLeft) <==> someone_before && someone_after && went
            &&& sounds.len() == (if someone_before && came {
                1nat
            } else {
                0nat
            }) + (if someone_before && someone_after && went {
                1nat
            } else {
                0nat
            })
            &&& sounds.len() == 2 ==> sounds[0] == SoundEffect::UserJoined
        }),
{
    let (next, sounds) = after_update(sender, UpdateView::Snapshot(channels));
    let before = sender.present;
    let after = present_in(channels);
    assert(next.present == after);
    assert(before == Set::<u16>::empty() <==> !exists|id: u16| #[trigger] before.contains(id)) by {
        if !exists|id: u16| #[trigger] before.contains(id) {
            assert(before =~= Set::empty());
        }
    }
    assert(after == Set::<u16>::empty() <==> !exists|id: u16| #[trigger] after.contains(id)) by {
        if !exists|id: u16| #[trigger] after.contains(id) {
            assert(after =~= Set::empty());
        }
    }
    let came = exists|c: int, k: int|
        0 <= c < channels.len() && 0 <= k < channels[c].clients.len() && !before.contains(
            #[trigger] channels[c].clients[k].id,
        );
    assert(came <==> someone_only_in(after, before)) by {
        if came {
            let (c, k) = choose|c: int, k: int|
                0 <= c < channels.len() && 0 <= k < channels[c].clients.len() && !before.contains(
                    #[trigger] channels[c].clients[k].id,
                );
            let id = channels[c].clients[k].id;
            assert(is_present(channels, id));
            assert(after.contains(id));
        }
        if someone_only_in(after, before) {
            let id = choose|id: u16| #[trigger] after.contains(id) && !before.contains(id);
            assert(is_present(channels, id));
            let (c, k) = choose|c: int, k: int|
                0 <= c < channels.len() && 0 <= k < channels[c].clients.len()
                    && #[trigger] channels[c].clients[k].id == id;
            assert(!before.contains(channels[c].clients[k].id));
        }
    }
    if someone_only_in(after, before) {
        let id = choose|id: u16| #[trigger] after.contains(id) && !before.contains(id);
        assert(after.contains(id));
    }
    let joined = if someone_only_in(after, before) {
        seq![SoundEffect::UserJoined]
    } else {
        Seq::empty()
    };
    if before != Set::<u16>::empty() && after != Set::<u16>::empty() {
        if someone_only_in(after, before) {
            assert(sounds[0] == SoundEffect::UserJoined);
        }
        if someone_only_in(before, after) {
            assert(sounds[sounds.len() - 1] == SoundEffect::UserLeft);
        }
    }
    assert forall|sound: SoundEffect| #[trigger] sounds.contains(sound) implies (sound
        == SoundEffect::UserJoined && someone_only_in(after, before)) || (sound
        == SoundEffect::UserLeft && someone_only_in(before, after)) by {
        let i = choose|i: int| 0 <= i < sounds.len() && sounds[i] == sound;
        assert(i < joined.len() || i >= joined.len());
    }
}

/// What is said between the interface, the HTTP API and the worker is seen as it is.
pub proof fn messages_are_seen_as_they_are(
    address: String,
    nickname: String,
    status: Status,
    client: ClientInfo,
    channel: ChannelInfo,
    channels: Vec<ChannelInfo>,
    sender: Sender,
)
    ensures
        (Command::Connect { address, nickname })@ == (CommandView::Connect {
            address: address@,
            nickname: nickname@,
        }),
        Command::Disconnect@ == CommandView::Disconnect,
        Status::Disconnected@ == StatusView::Disconnected,
        Status::Connecting@ == StatusView::Connecting,
        (Status::Connected { server_name: address })@ == (StatusView::Connected {
            server_name: address@,
        }),
        Status::Error(address)@ == StatusView::Error(address@),
        client@.id == client.id && client@.name == client.name@,
        channel@.name == channel.name@,
        channel@.clients == channel.clients@.map_values(|c: ClientInfo| c@),
        Update::Status(status)@ == UpdateView::Status(status@),
        Update::Snapshot(channels)@ == UpdateView::Snapshot(
            channels@.map_values(|c: ChannelInfo| c@),
        ),
        Update::Log(address)@ == UpdateView::Log(address@),
        sender@.status == sender.status@,
        forall|id: u16| #[trigger] sender@.present.contains(id) <==> sender.present@.contains(id),
{
    assert(views(channel.clients@) =~= channel.clients@.map_values(|c: ClientInfo| c@));
    assert(views(channels@) =~= channels@.map_values(|c: ChannelInfo| c@));
}

} // verus!
