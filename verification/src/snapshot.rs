//! The channel tree that is shown, made from what the server is known to hold.

use crate::client::{is_present, ChannelInfo, ChannelInfoView, ClientInfo, ClientInfoView};
use crate::ordering::{
    filter_has_what_it_keeps, is_preorder, is_stable_ordering, levels_are_single, ordered,
    ordering_ignores_listing, ordering_is_stable, ordering_keeps_elements, placed,
    placing_is_inserting, same_elements, views,
};
use crate::text::{
    at_or_before, in_order, text_order_is_antisymmetric, text_order_is_total,
    text_order_is_transitive,
};
use vstd::prelude::*;

verus! {

/// A channel that the server has.
#[derive(Debug)]
pub struct ServerChannel {
    pub id: u64,
    pub name: String,
}

pub struct ServerChannelView {
    pub id: u64,
    pub name: Seq<char>,
}

impl View for ServerChannel {
    type V = ServerChannelView;

    open spec fn view(&self) -> ServerChannelView {
        ServerChannelView { id: self.id, name: self.name@ }
    }
}

/// A user on the server and the channel the user is in.
#[derive(Debug)]
pub struct ServerClient {
    pub id: u16,
    pub channel: u64,
    pub name: String,
}

pub struct ServerClientView {
    pub id: u16,
    pub channel: u64,
    pub name: Seq<char>,
}

impl View for ServerClient {
    type V = ServerClientView;

    open spec fn view(&self) -> ServerClientView {
        ServerClientView { id: self.id, channel: self.channel, name: self.name@ }
    }
}

/// What is known of a server: its name, its channels and its users, in any order.
#[derive(Debug)]
pub struct ServerState {
    pub name: String,
    pub channels: Vec<ServerChannel>,
    pub clients: Vec<ServerClient>,
}

pub struct ServerStateView {
    pub name: Seq<char>,
    pub channels: Seq<ServerChannelView>,
    pub clients: Seq<ServerClientView>,
}

impl View for ServerState {
    type V = ServerStateView;

    open spec fn view(&self) -> ServerStateView {
        ServerStateView {
            name: self.name@,
            channels: views(self.channels@),
            clients: views(self.clients@),
        }
    }
}

/// Channels stand by their number.
pub open spec fn channel_before() -> spec_fn(ServerChannelView, ServerChannelView) -> bool {
    |a: ServerChannelView, b: ServerChannelView| a.id <= b.id
}

/// Users stand by their name.
pub open spec fn client_before() -> spec_fn(ClientInfoView, ClientInfoView) -> bool {
    |a: ClientInfoView, b: ClientInfoView| at_or_before(a.name, b.name)
}

/// What is shown of a user.
pub open spec fn shown_client(client: ServerClientView) -> ClientInfoView {
    ClientInfoView { id: client.id, name: client.name }
}

/// The users in a channel, as the server lists them.
pub open spec fn clients_in(clients: Seq<ServerClientView>, channel: u64) -> Seq<ClientInfoView> {
    clients.filter(|c: ServerClientView| c.channel == channel).map_values(
        |c: ServerClientView| shown_client(c),
    )
}

/// What is shown of a channel: its users by name.
pub open spec fn shown_channel(
    clients: Seq<ServerClientView>,
    channel: ServerChannelView,
) -> ChannelInfoView {
    ChannelInfoView {
        name: channel.name,
        clients: ordered(clients_in(clients, channel.id), client_before()),
    }
}

/// The channel tree: the channels by number, in each its users by name.
pub open spec fn snapshot_of(state: ServerStateView) -> Seq<ChannelInfoView> {
    ordered(state.channels, channel_before()).map_values(
        |c: ServerChannelView| shown_channel(state.clients, c),
    )
}

/// Puts a user behind all those whose name stands at or before.
fn place_client(list: &mut Vec<ClientInfo>, client: ClientInfo)
    ensures
        views(final(list)@) == placed(views(old(list)@), client@, client_before()),
{
    let mut k: usize = list.len();
    while k > 0 && !in_order(list[k - 1].name.as_str(), client.name.as_str())
        invariant
            k <= list@.len(),
            *list == *old(list),
            forall|j: int|
                k <= j < list@.len() ==> !client_before()(#[trigger] views(list@)[j], client@),
        decreases k,
    {
        k = k - 1;
        proof {
            assert(views(list@)[k as int] == list@[k as int]@);
        }
    }
    proof {
        if k > 0 {
            assert(views(list@)[k - 1] == list@[k - 1]@);
        }
        placing_is_inserting(views(list@), client@, client_before(), k as int);
        assert(views(list@.insert(k as int, client)) =~= views(list@).insert(k as int, client@));
    }
    list.insert(k, client);
}

/// The users in a channel, by name.
fn channel_clients(clients: &Vec<ServerClient>, channel: u64) -> (list: Vec<ClientInfo>)
    ensures
        views(list@) == ordered(clients_in(views(clients@), channel), client_before()),
{
    let mut list: Vec<ClientInfo> = Vec::new();
    let n: usize = clients.len();
    let mut i: usize = 0;
    let ghost all = views(clients@);
    let ghost here = |c: ServerClientView| c.channel == channel;
    proof {
        reveal(Seq::filter);
        assert(clients_in(all.take(0), channel) =~= Seq::<ClientInfoView>::empty());
        assert(views(list@) =~= Seq::<ClientInfoView>::empty());
    }
    while i < n
        invariant
            n == clients@.len(),
            i <= n,
            all == views(clients@),
            here == (|c: ServerClientView| c.channel == channel),
            views(list@) == ordered(clients_in(all.take(i as int), channel), client_before()),
        decreases n - i,
    {
        let client = &clients[i];
        let ghost upper = all.take(i + 1);
        proof {
            reveal(Seq::filter);
            assert(upper.drop_last() =~= all.take(i as int));
            assert(upper.last() == client@);
        }
        if client.channel == channel {
            place_client(&mut list, ClientInfo { id: client.id, name: client.name.clone() });
            proof {
                let so_far = clients_in(all.take(i as int), channel);
                assert(clients_in(upper, channel) =~= so_far.push(shown_client(client@)));
                assert(clients_in(upper, channel).drop_last() =~= so_far);
            }
        } else {
            proof {
                assert(clients_in(upper, channel) =~= clients_in(all.take(i as int), channel));
            }
        }
        i = i + 1;
    }
    proof {
        assert(all.take(n as int) =~= all);
    }
    list
}

/// Puts the index of a channel behind those of all channels whose number is not above its own.
fn place_channel(list: &mut Vec<usize>, channels: &Vec<ServerChannel>, index: usize)
    requires
        index < channels@.len(),
        forall|j: int| 0 <= j < old(list)@.len() ==> #[trigger] old(list)@[j] < channels@.len(),
    ensures
        forall|j: int| 0 <= j < final(list)@.len() ==> #[trigger] final(list)@[j] < channels@.len(),
        picked(channels@, final(list)@) == placed(
            picked(channels@, old(list)@),
            channels@[index as int]@,
            channel_before(),
        ),
{
    let mut k: usize = list.len();
    while k > 0 && channels[list[k - 1]].id > channels[index].id
        invariant
            k <= list@.len(),
            *list == *old(list),
            index < channels@.len(),
            forall|j: int| 0 <= j < list@.len() ==> #[trigger] list@[j] < channels@.len(),
            forall|j: int|
                k <= j < list@.len() ==> !channel_before()(
                    #[trigger] picked(channels@, list@)[j],
                    channels@[index as int]@,
                ),
        decreases k,
    {
        k = k - 1;
    }
    let ghost before = list@;
    proof {
        placing_is_inserting(
            picked(channels@, list@),
            channels@[index as int]@,
            channel_before(),
            k as int,
        );
    }
    list.insert(k, index);
    proof {
        assert(picked(channels@, list@) =~= picked(channels@, before).insert(
            k as int,
            channels@[index as int]@,
        ));
    }
}

/// The channels at the given positions.
pub open spec fn picked(
    channels: Seq<ServerChannel>,
    positions: Seq<usize>,
) -> Seq<ServerChannelView> {
    positions.map_values(|p: usize| channels[p as int]@)
}

/// The positions of the channels, by the number of the channel.
fn channel_order(channels: &Vec<ServerChannel>) -> (list: Vec<usize>)
    ensures
        forall|j: int| 0 <= j < list@.len() ==> #[trigger] list@[j] < channels@.len(),
        picked(channels@, list@) == ordered(views(channels@), channel_before()),
{
    let mut list: Vec<usize> = Vec::new();
    let n: usize = channels.len();
    let mut i: usize = 0;
    let ghost all = views(channels@);
    proof {
        assert(picked(channels@, list@) =~= Seq::<ServerChannelView>::empty());
        assert(all.take(0) =~= Seq::<ServerChannelView>::empty());
    }
    while i < n
        invariant
            n == channels@.len(),
            i <= n,
            all == views(channels@),
            forall|j: int| 0 <= j < list@.len() ==> #[trigger] list@[j] < channels@.len(),
            picked(channels@, list@) == ordered(all.take(i as int), channel_before()),
        decreases n - i,
    {
        place_channel(&mut list, channels, i);
        proof {
            let upper = all.take(i + 1);
            assert(upper.drop_last() =~= all.take(i as int));
            assert(upper.last() == channels@[i as int]@);
        }
        i = i + 1;
    }
    proof {
        assert(all.take(n as int) =~= all);
    }
    list
}

/// The channel tree of what is known of the server.
pub fn build_snapshot(state: &ServerState) -> (tree: Vec<ChannelInfo>)
    ensures
        views(tree@) == snapshot_of(state@),
{
    let order = channel_order(&state.channels);
    let n: usize = order.len();
    let mut tree: Vec<ChannelInfo> = Vec::new();
    let mut i: usize = 0;
    while i < n
        invariant
            n == order@.len(),
            i <= n,
            tree@.len() == i,
            forall|j: int| 0 <= j < order@.len() ==> #[trigger] order@[j] < state.channels@.len(),
            picked(state.channels@, order@) == ordered(state@.channels, channel_before()),
            forall|j: int|
                0 <= j < i ==> #[trigger] views(tree@)[j] == shown_channel(
                    state@.clients,
                    picked(state.channels@, order@)[j],
                ),
        decreases n - i,
    {
        let channel = &state.channels[order[i]];
        let clients = channel_clients(&state.clients, channel.id);
        let ghost before = tree@;
        tree.push(ChannelInfo { name: channel.name.clone(), clients });
        proof {
            assert forall|j: int| 0 <= j < i + 1 implies #[trigger] views(tree@)[j]
                == shown_channel(state@.clients, picked(state.channels@, order@)[j]) by {
                if j < i {
                    assert(views(tree@)[j] == views(before)[j]);
                }
            }
        }
        i = i + 1;
    }
    proof {
        assert(views(tree@) =~= snapshot_of(state@));
    }
    tree
}

proof fn channels_form_a_preorder()
    ensures
        is_preorder(channel_before()),
{
}

proof fn clients_form_a_preorder()
    ensures
        is_preorder(client_before()),
{
    let before = client_before();
    assert forall|a: ClientInfoView, b: ClientInfoView| #[trigger] before(a, b) || before(b, a) by {
        text_order_is_total(a.name, b.name);
    }
    assert forall|a: ClientInfoView, b: ClientInfoView, c: ClientInfoView| #[trigger]
        before(a, b) && #[trigger] before(b, c) implies before(a, c) by {
        text_order_is_transitive(a.name, b.name, c.name);
    }
}

/// The tree shows every channel once, by number; channels of one number stay as listed.
pub proof fn tree_shows_every_channel_by_number(state: ServerStateView)
    ensures
        snapshot_of(state).len() == state.channels.len(),
        is_stable_ordering(
            state.channels,
            ordered(state.channels, channel_before()),
            channel_before(),
        ),
        forall|i: int|
            0 <= i < state.channels.len() ==> (#[trigger] snapshot_of(state)[i]).name == ordered(
                state.channels,
                channel_before(),
            )[i].name,
{
    channels_form_a_preorder();
    ordering_is_stable(state.channels, channel_before());
}

/// A shown channel holds the users who are in it and no others, by name; users of one name stay as
/// listed.
pub proof fn channel_shows_its_users_by_name(
    clients: Seq<ServerClientView>,
    channel: ServerChannelView,
)
    ensures
        is_stable_ordering(
            clients_in(clients, channel.id),
            shown_channel(clients, channel).clients,
            client_before(),
        ),
        forall|user: ClientInfoView| #[trigger]
            shown_channel(clients, channel).clients.contains(user) <==> exists|c: ServerClientView|
                #![trigger clients.contains(c)]
                clients.contains(c) && c.channel == channel.id && shown_client(c) == user,
{
    clients_form_a_preorder();
    let listed = clients_in(clients, channel.id);
    let shown = shown_channel(clients, channel).clients;
    let here = |c: ServerClientView| c.channel == channel.id;
    ordering_is_stable(listed, client_before());
    ordering_keeps_elements(listed, client_before());
    filter_has_what_it_keeps(clients, here);
    assert forall|user: ClientInfoView| #[trigger] shown.contains(user) <==> exists|
        c: ServerClientView,
    |
        #![trigger clients.contains(c)]
        clients.contains(c) && c.channel == channel.id && shown_client(c) == user by {
        assert(listed.contains(user) <==> shown.contains(user));
        if listed.contains(user) {
            let i = choose|i: int| 0 <= i < listed.len() && listed[i] == user;
            let c = clients.filter(here)[i];
            assert(clients.filter(here).contains(c));
            assert(clients.contains(c) && here(c) && shown_client(c) == user);
        }
        if exists|c: ServerClientView|
            #![trigger clients.contains(c)]
            clients.contains(c) && c.channel == channel.id && shown_client(c) == user {
            let c = choose|c: ServerClientView|
                #![trigger clients.contains(c)]
                clients.contains(c) && c.channel == channel.id && shown_client(c) == user;
            assert(here(c));
            assert(clients.filter(here).contains(c));
            let i = choose|i: int|
                0 <= i < clients.filter(here).len() && clients.filter(here)[i] == c;
            assert(listed[i] == user);
        }
    }
}

/// A user is somewhere in the tree exactly when the user is in a channel that the server has.
pub proof fn tree_shows_whoever_is_in_a_channel(state: ServerStateView, id: u16)
    ensures
        is_present(snapshot_of(state), id) <==> exists|c: ServerClientView, h: ServerChannelView|
            #![trigger state.clients.contains(c), state.channels.contains(h)]
            state.clients.contains(c) && state.channels.contains(h) && c.channel == h.id && c.id
                == id,
{
    let tree = snapshot_of(state);
    let order = ordered(state.channels, channel_before());
    channels_form_a_preorder();
    ordering_keeps_elements(state.channels, channel_before());
    if is_present(tree, id) {
        let (n, k) = choose|n: int, k: int|
            0 <= n < tree.len() && 0 <= k < tree[n].clients.len()
                && #[trigger] tree[n].clients[k].id == id;
        let h = order[n];
        assert(order.contains(h));
        assert(state.channels.contains(h));
        let user = tree[n].clients[k];
        channel_shows_its_users_by_name(state.clients, h);
        assert(shown_channel(state.clients, h).clients.contains(user));
        let c = choose|c: ServerClientView|
            #![trigger state.clients.contains(c)]
            state.clients.contains(c) && c.channel == h.id && shown_client(c) == user;
        assert(state.clients.contains(c) && state.channels.contains(h));
    }
    if exists|c: ServerClientView, h: ServerChannelView|
        #![trigger state.clients.contains(c), state.channels.contains(h)]
        state.clients.contains(c) && state.channels.contains(h) && c.channel == h.id && c.id
            == id {
        let (c, h) = choose|c: ServerClientView, h: ServerChannelView|
            #![trigger state.clients.contains(c), state.channels.contains(h)]
            state.clients.contains(c) && state.channels.contains(h) && c.channel == h.id && c.id
                == id;
        assert(order.contains(h));
        let n = choose|n: int| 0 <= n < order.len() && order[n] == h;
        channel_shows_its_users_by_name(state.clients, h);
        let shown = shown_channel(state.clients, h).clients;
        assert(shown.contains(shown_client(c)));
        let k = choose|k: int| 0 <= k < shown.len() && shown[k] == shown_client(c);
        assert(tree[n] == shown_channel(state.clients, h));
        assert(tree[n].clients[k].id == id);
    }
}

/// No two channels have one number.
pub open spec fn channels_are_distinct(channels: Seq<ServerChannelView>) -> bool {
    forall|i: int, j: int|
        0 <= i < j < channels.len() ==> (#[trigger] channels[i]).id != (#[trigger] channels[j]).id
}

/// No two users in one channel have one name.
pub open spec fn names_are_distinct(clients: Seq<ServerClientView>) -> bool {
    forall|i: int, j: int|
        0 <= i < j < clients.len() && (#[trigger] clients[i]).channel == (
        #[trigger] clients[j]).channel ==> clients[i].name != clients[j].name
}

proof fn listed_names_are_single(clients: Seq<ServerClientView>, channel: u64)
    requires
        names_are_distinct(clients),
    ensures
        levels_are_single(clients_in(clients, channel), client_before()),
    decreases clients.len(),
{
    let here = |c: ServerClientView| c.channel == channel;
    reveal(Seq::filter);
    if clients.len() > 0 {
        let rest = clients.drop_last();
        let last = clients.last();
        let listed = clients_in(clients, channel);
        let inner = clients_in(rest, channel);
        assert(names_are_distinct(rest)) by {
            assert forall|i: int, j: int|
                0 <= i < j < rest.len() && (#[trigger] rest[i]).channel == (
                #[trigger] rest[j]).channel implies rest[i].name != rest[j].name by {
                assert(clients[i].channel == clients[j].channel);
            }
        }
        listed_names_are_single(rest, channel);
        if here(last) {
            assert(listed =~= inner.push(shown_client(last)));
            assert forall|i: int, j: int| 0 <= i < j < listed.len() implies !(client_before()(
                #[trigger] listed[i],
                #[trigger] listed[j],
            ) && client_before()(listed[j], listed[i])) by {
                if j == inner.len() {
                    filter_has_what_it_keeps(rest, here);
                    let c = rest.filter(here)[i];
                    assert(rest.filter(here).contains(c));
                    let m = choose|m: int| 0 <= m < rest.len() && rest[m] == c;
                    assert(clients[m].channel == clients[clients.len() - 1].channel);
                    if client_before()(listed[i], listed[j]) && client_before()(
                        listed[j],
                        listed[i],
                    ) {
                        text_order_is_antisymmetric(listed[i].name, listed[j].name);
                    }
                } else {
                    assert(inner[i] == listed[i] && inner[j] == listed[j]);
                }
            }
        } else {
            assert(listed =~= inner);
        }
    }
}

proof fn listed_users_are_the_same(
    a: Seq<ServerClientView>,
    b: Seq<ServerClientView>,
    channel: u64,
)
    requires
        same_elements(a, b),
    ensures
        same_elements(clients_in(a, channel), clients_in(b, channel)),
{
    let h = ServerChannelView { id: channel, name: Seq::empty() };
    clients_form_a_preorder();
    channel_shows_its_users_by_name(a, h);
    channel_shows_its_users_by_name(b, h);
    ordering_keeps_elements(clients_in(a, channel), client_before());
    ordering_keeps_elements(clients_in(b, channel), client_before());
    assert forall|user: ClientInfoView| #[trigger]
        clients_in(a, channel).contains(user) <==> clients_in(b, channel).contains(user) by {
        assert(shown_channel(a, h).clients.contains(user) <==> shown_channel(
            b,
            h,
        ).clients.contains(user)) by {
            if shown_channel(a, h).clients.contains(user) {
                let c = choose|c: ServerClientView|
                    #![trigger a.contains(c)]
                    a.contains(c) && c.channel == h.id && shown_client(c) == user;
                assert(b.contains(c));
            }
            if shown_channel(b, h).clients.contains(user) {
                let c = choose|c: ServerClientView|
                    #![trigger b.contains(c)]
                    b.contains(c) && c.channel == h.id && shown_client(c) == user;
                assert(a.contains(c));
            }
        }
    }
}

/// The tree does not depend on the order in which channels and users are listed.
pub proof fn tree_ignores_listing(a: ServerStateView, b: ServerStateView)
    requires
        same_elements(a.channels, b.channels),
        same_elements(a.clients, b.clients),
        channels_are_distinct(a.channels),
        channels_are_distinct(b.channels),
        names_are_distinct(a.clients),
        names_are_distinct(b.clients),
    ensures
        snapshot_of(a) == snapshot_of(b),
{
    channels_form_a_preorder();
    clients_form_a_preorder();
    ordering_ignores_listing(a.channels, b.channels, channel_before());
    assert forall|h: ServerChannelView| #[trigger]
        shown_channel(a.clients, h) == shown_channel(b.clients, h) by {
        listed_names_are_single(a.clients, h.id);
        listed_names_are_single(b.clients, h.id);
        listed_users_are_the_same(a.clients, b.clients, h.id);
        ordering_ignores_listing(
            clients_in(a.clients, h.id),
            clients_in(b.clients, h.id),
            client_before(),
        );
    }
    assert(snapshot_of(a) =~= snapshot_of(b));
}

/// The tree goes by the numbers of the channels and, in each channel, by the names of the users. It
/// shows the channels of the server, under their names, and under each channel those users and only
/// those who are in it, as often as the server lists them.
pub proof fn tree_goes_by_number_and_name(state: ServerStateView)
    ensures
        ({
            let order = ordered(state.channels, channel_before());
            let tree = snapshot_of(state);
            &&& order.to_multiset() == state.channels.to_multiset()
            &&& tree.len() == state.channels.len()
            &&& order.len() == state.channels.len()
            &&& forall|i: int, j: int|
                0 <= i < j < order.len() ==> (#[trigger] order[i]).id <= (#[trigger] order[j]).id
            &&& forall|i: int|
                0 <= i < tree.len() ==> (#[trigger] tree[i]).name == order[i].name
            &&& forall|i: int, a: int, b: int|
                0 <= i < tree.len() && 0 <= a < b < tree[i].clients.len() ==> at_or_before(
                    (#[trigger] tree[i].clients[a]).name,
                    (#[trigger] tree[i].clients[b]).name,
                )
            &&& forall|i: int|
                0 <= i < tree.len() ==> (#[trigger] tree[i]).clients.len()
                    == state.clients.filter(
                    |c: ServerClientView| c.channel == order[i].id,
                ).len()
            &&& forall|i: int, c: ServerClientView|
                0 <= i < tree.len() && #[trigger] state.clients.contains(c) && c.channel
                    == order[i].id ==> (#[trigger] tree[i]).clients.contains(
                    ClientInfoView { id: c.id, name: c.name },
                )
            &&& forall|i: int, user: ClientInfoView|
                0 <= i < tree.len() && #[trigger] tree[i].clients.contains(user)
                    ==> state.clients.contains(
                    ServerClientView { id: user.id, channel: order[i].id, name: user.name },
                )
        }),
{
    broadcast use vstd::seq_lib::group_to_multiset_ensures;

    let order = ordered(state.channels, channel_before());
    let tree = snapshot_of(state);
    channels_form_a_preorder();
    clients_form_a_preorder();
    ordering_is_stable(state.channels, channel_before());
    assert(order.len() == order.to_multiset().len());
    assert(state.channels.len() == state.channels.to_multiset().len());
    assert forall|i: int, j: int| 0 <= i < j < order.len() implies (#[trigger] order[i]).id <= (
    #[trigger] order[j]).id by {
        assert(channel_before()(order[i], order[j]));
    }
    assert forall|i: int| 0 <= i < tree.len() implies (#[trigger] tree[i]).clients.len()
        == state.clients.filter(|c: ServerClientView| c.channel == order[i].id).len() by {
        let listed = clients_in(state.clients, order[i].id);
        ordering_is_stable(listed, client_before());
        assert(listed.len() == listed.to_multiset().len());
        assert(tree[i].clients.len() == tree[i].clients.to_multiset().len());
        let here = |c: ServerClientView| c.channel == order[i].id;
        assert(listed.len() == state.clients.filter(here).len());
    }
    assert forall|i: int, a: int, b: int|
        0 <= i < tree.len() && 0 <= a < b < tree[i].clients.len() implies at_or_before(
        (#[trigger] tree[i].clients[a]).name,
        (#[trigger] tree[i].clients[b]).name,
    ) by {
        ordering_is_stable(clients_in(state.clients, order[i].id), client_before());
        assert(client_before()(tree[i].clients[a], tree[i].clients[b]));
    }
    assert forall|i: int, c: ServerClientView|
        0 <= i < tree.len() && #[trigger] state.clients.contains(c) && c.channel
            == order[i].id implies (#[trigger] tree[i]).clients.contains(
        ClientInfoView { id: c.id, name: c.name },
    ) by {
        channel_shows_its_users_by_name(state.clients, order[i]);
        let user = ClientInfoView { id: c.id, name: c.name };
        assert(shown_client(c) == user);
        assert(shown_channel(state.clients, order[i]).clients.contains(user));
    }
    assert forall|i: int, user: ClientInfoView|
        0 <= i < tree.len() && #[trigger] tree[i].clients.contains(
            user,
        ) implies state.clients.contains(
        ServerClientView { id: user.id, channel: order[i].id, name: user.name },
    ) by {
        channel_shows_its_users_by_name(state.clients, order[i]);
        assert(shown_channel(state.clients, order[i]).clients.contains(user));
        let c = choose|c: ServerClientView|
            #![trigger state.clients.contains(c)]
            state.clients.contains(c) && c.channel == order[i].id && shown_client(c) == user;
        assert(c == (ServerClientView { id: user.id, channel: order[i].id, name: user.name }));
    }
}

/// What the server is known to hold is seen as it is.
pub proof fn server_is_seen_as_it_is(
    channel: ServerChannel,
    client: ServerClient,
    state: ServerState,
)
    ensures
        channel@.id == channel.id && channel@.name == channel.name@,
        client@.id == client.id && client@.channel == client.channel && client@.name
            == client.name@,
        state@.name == state.name@,
        state@.channels == state.channels@.map_values(|c: ServerChannel| c@),
        state@.clients == state.clients@.map_values(|c: ServerClient| c@),
{
    assert(views(state.channels@) =~= state.channels@.map_values(|c: ServerChannel| c@));
    assert(views(state.clients@) =~= state.clients@.map_values(|c: ServerClient| c@));
}

} // verus!
