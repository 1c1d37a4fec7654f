//! How the server answers the events of its clients: the state it keeps, the
//! events it receives and the messages it sends in return.
use vstd::prelude::*;
use vstd::string::StringExecFns;
use crate::models::{
    after_command, display_image_url, duration_ms, payload_of, SpotifyTrackData, ClientType, CommandPayload, PayloadView, PlayerData, PlayerView,
    TrackPayload, initial_player, text_or,
};
use crate::number::{decimal, decimal_string, parse_u16, parse_unsigned};
use crate::registry::{has_client_of_type, ClientRegistry};
use crate::text::{concat, has_prefix};

verus! {

/// The playback commands that web clients send by name.
#[derive(Debug, Clone, Copy, PartialEq, Eq, Structural)]
pub enum ControlCommand {
    PlayPause,
    Next,
    Prev,
    Shuffle,
    Repeat,
}

/// The name under which a playback command is sent to the plugin.
pub open spec fn control_name(c: ControlCommand) -> Seq<char> {
    match c {
        ControlCommand::PlayPause => "PlayPause"@,
        ControlCommand::Next => "Next"@,
        ControlCommand::Prev => "Prev"@,
        ControlCommand::Shuffle => "Shuffle"@,
        ControlCommand::Repeat => "Repeat"@,
    }
}

impl ControlCommand {
    /// Every playback command, in the order their handlers are set up.
    pub fn all() -> (r: Vec<ControlCommand>)
        ensures
            r@ == seq![
                ControlCommand::PlayPause,
                ControlCommand::Next,
                ControlCommand::Prev,
                ControlCommand::Shuffle,
                ControlCommand::Repeat,
            ],
    {
        let mut r: Vec<ControlCommand> = Vec::new();
        r.push(ControlCommand::PlayPause);
        r.push(ControlCommand::Next);
        r.push(ControlCommand::Prev);
        r.push(ControlCommand::Shuffle);
        r.push(ControlCommand::Repeat);
        assert(r@ =~= seq![
            ControlCommand::PlayPause,
            ControlCommand::Next,
            ControlCommand::Prev,
            ControlCommand::Shuffle,
            ControlCommand::Repeat,
        ]);
        r
    }

    /// The name under which this command is sent to the plugin.
    pub fn name(&self) -> (r: String)
        ensures
            r@ == control_name(*self),
    {
        match self {
            ControlCommand::PlayPause => String::from_str("PlayPause"),
            ControlCommand::Next => String::from_str("Next"),
            ControlCommand::Prev => String::from_str("Prev"),
            ControlCommand::Shuffle => String::from_str("Shuffle"),
            ControlCommand::Repeat => String::from_str("Repeat"),
        }
    }
}

/// An event from a client.
#[derive(Debug, Clone)]
pub enum ServerEvent {
    /// `command` from the Spotify plugin: its JSON text and what it holds.
    Command { socket_id: String, raw: String, payload: CommandPayload },
    /// `input` from a web interface: a command for the plugin.
    Input { socket_id: String, command: String },
    /// One of the named playback commands.
    Control(ControlCommand),
    /// `getdata`: a request for the current player data.
    GetData,
    /// `request`: a track that the plugin should play.
    Request { url: String },
    /// A client went away.
    Disconnect { socket_id: String },
}

/// A message that the server sends in answer to an event.
#[derive(Debug, Clone)]
pub enum ServerAction {
    /// An `input` event with this command, to every client; the plugin acts on it.
    SendToSpotify(String),
    /// A `player_data` event to every client.
    BroadcastPlayerData(TrackPayload),
    /// A `player_data` event to the client that asked.
    ReplyPlayerData(TrackPayload),
}

/// The contents of a [`ServerAction`].
pub enum ActionView {
    SendToSpotify(Seq<char>),
    BroadcastPlayerData(PayloadView),
    ReplyPlayerData(PayloadView),
}

impl View for ServerAction {
    type V = ActionView;

    open spec fn view(&self) -> ActionView {
        match self {
            ServerAction::SendToSpotify(c) => ActionView::SendToSpotify(c@),
            ServerAction::BroadcastPlayerData(p) => ActionView::BroadcastPlayerData(p@),
            ServerAction::ReplyPlayerData(p) => ActionView::ReplyPlayerData(p@),
        }
    }
}

/// The contents of a list of actions.
pub open spec fn actions_view(v: Seq<ServerAction>) -> Seq<ActionView> {
    v.map_values(|a: ServerAction| a@)
}

/// The state of the server: the player data and the registered clients.
pub struct ServerState {
    pub player: PlayerData,
    pub clients: ClientRegistry,
}

/// The contents of a [`ServerState`].
#[verifier::ext_equal]
pub struct ServerView {
    pub player: PlayerView,
    pub clients: Map<Seq<char>, ClientType>,
}

impl View for ServerState {
    type V = ServerView;

    open spec fn view(&self) -> ServerView {
        ServerView { player: self.player@, clients: self.clients@ }
    }
}

/// What a command for the plugin turns into: sent where a Spotify client is
/// registered, dropped where none is.
pub open spec fn forwarded(clients: Map<Seq<char>, ClientType>, command: Seq<char>) -> Seq<
    ActionView,
> {
    if has_client_of_type(clients, ClientType::Spotify) {
        seq![ActionView::SendToSpotify(command)]
    } else {
        Seq::empty()
    }
}

/// The registry once `id` is registered as `t`, unless it was registered.
pub open spec fn registered(clients: Map<Seq<char>, ClientType>, id: Seq<char>, t: ClientType) -> Map<
    Seq<char>,
    ClientType,
> {
    if clients.contains_key(id) {
        clients
    } else {
        clients.insert(id, t)
    }
}

/// The state after the event `e`, and the messages sent in answer.
pub open spec fn after_event(s: ServerView, e: ServerEvent) -> (ServerView, Seq<ActionView>) {
    match e {
        ServerEvent::Command { socket_id, raw, payload } => {
            let clients = registered(s.clients, socket_id@, ClientType::Spotify);
            let (player, changed) = after_command(s.player, raw@, payload);
            let actions = if changed {
                seq![ActionView::BroadcastPlayerData(payload_of(player))]
            } else {
                Seq::empty()
            };
            (ServerView { player, clients }, actions)
        },
        ServerEvent::Input { socket_id, command } => {
            let clients = registered(s.clients, socket_id@, ClientType::WebInterface);
            (ServerView { player: s.player, clients }, forwarded(clients, command@))
        },
        ServerEvent::Control(c) => (s, forwarded(s.clients, control_name(c))),
        ServerEvent::GetData => (
            s,
            forwarded(s.clients, "getdata"@).push(ActionView::ReplyPlayerData(payload_of(s.player))),
        ),
        ServerEvent::Request { url } => (s, forwarded(s.clients, "request "@ + url@)),
        ServerEvent::Disconnect { socket_id } => (
            ServerView { player: s.player, clients: s.clients.remove(socket_id@) },
            Seq::empty(),
        ),
    }
}

/// The state of a server that has just started.
pub open spec fn initial_server() -> ServerView {
    ServerView { player: initial_player(), clients: Map::empty() }
}

impl ServerState {
    /// A server with the initial player data and no clients.
    pub fn new() -> (s: ServerState)
        ensures
            s@ == initial_server(),
    {
        ServerState { player: PlayerData::default(), clients: ClientRegistry::new() }
    }

    fn forward(&self, command: String) -> (r: Vec<ServerAction>)
        ensures
            actions_view(r@) == forwarded(self.clients@, command@),
    {
        let mut r: Vec<ServerAction> = Vec::new();
        if self.clients.has_client(ClientType::Spotify) {
            r.push(ServerAction::SendToSpotify(command));
        }
        assert(actions_view(r@) =~= forwarded(self.clients@, command@));
        r
    }

    /// Answers the event `e`: updates the state and returns the messages to
    /// send, in order.
    pub fn handle(&mut self, e: ServerEvent) -> (r: Vec<ServerAction>)
        ensures
            (final(self)@, actions_view(r@)) == after_event(old(self)@, e),
    {
        let ghost e0 = e;
        match e {
            ServerEvent::Command { socket_id, raw, payload } => {
                if !self.clients.contains(&socket_id) {
                    self.clients.register(socket_id, ClientType::Spotify);
                }
                let changed = self.player.apply_command(raw, payload);
                if changed {
                    let mut r = Vec::new();
                    r.push(ServerAction::BroadcastPlayerData(self.player.payload()));
                    assert(actions_view(r@) =~= seq![
                        ActionView::BroadcastPlayerData(payload_of(self.player@)),
                    ]);
                    r
                } else {
                    let r = Vec::new();
                    assert(actions_view(r@) =~= Seq::<ActionView>::empty());
                    r
                }
            },
            ServerEvent::Input { socket_id, command } => {
                self.clients.register(socket_id, ClientType::WebInterface);
                self.forward(command)
            },
            ServerEvent::Control(c) => self.forward(c.name()),
            ServerEvent::GetData => {
                let mut r = self.forward(String::from_str("getdata"));
                let ghost before = r@;
                r.push(ServerAction::ReplyPlayerData(self.player.payload()));
                assert(actions_view(r@) =~= actions_view(before).push(
                    ActionView::ReplyPlayerData(payload_of(self.player@)),
                ));
                r
            },
            ServerEvent::Request { url } => self.forward(concat("request ", url.as_str())),
            ServerEvent::Disconnect { socket_id } => {
                self.clients.remove(&socket_id);
                let r = Vec::new();
                assert(actions_view(r@) =~= Seq::<ActionView>::empty());
                r
            },
        }
    }
}

/// The address that the server listens on: the host from `ip`, else
/// `127.0.0.1`; the port from `port` where it is a `u16`, else 8443 (and 8443
/// where `port` is missing).
pub open spec fn listen_address(ip: Option<String>, port: Option<String>) -> Seq<char> {
    let host = text_or(ip, "127.0.0.1"@);
    let p: int = match parse_unsigned(text_or(port, "8443"@), u16::MAX as int) {
        Some(v) => v,
        None => 8443,
    };
    host + ":"@ + decimal(p as nat)
}

/// The address that the server listens on, from the `IP` and `PORT` settings.
pub fn server_address(ip: Option<String>, port: Option<String>) -> (r: String)
    ensures
        r@ == listen_address(ip, port),
{
    let host = match ip {
        Some(h) => h,
        None => String::from_str("127.0.0.1"),
    };
    let port_text = match port {
        Some(p) => p,
        None => String::from_str("8443"),
    };
    let p: u16 = match parse_u16(port_text.as_str()) {
        Some(v) => v,
        None => 8443,
    };
    let mut r = host;
    r.append(":");
    let digits = decimal_string(p as u64);
    r.append(digits.as_str());
    r
}

/// Once the plugin reports a track with metadata, a `getdata` request is
/// answered with that track: its title, artist and album (or their
/// defaults), its image address and its duration.
pub proof fn getdata_answers_reported_track(
    s: ServerView,
    socket_id: String,
    raw: String,
    t: SpotifyTrackData,
)
    requires
        t.metadata is Some,
    ensures
        ({
            let m = t.metadata->0;
            let s1 = after_event(
                s,
                ServerEvent::Command { socket_id, raw, payload: CommandPayload::Track(t) },
            ).0;
            let answer = after_event(s1, ServerEvent::GetData).1.last();
            &&& answer matches ActionView::ReplyPlayerData(p)
            &&& p.name == text_or(m.title, "Unknown Track"@)
            &&& p.artist == text_or(m.artist_name, "Unknown Artist"@)
            &&& p.album == text_or(m.album_title, "Unknown Album"@)
            &&& p.image_url == display_image_url(text_or(m.image_url, Seq::empty()))
            &&& p.duration_ms == duration_ms(text_or(m.duration, "0"@))
            &&& p.progress_ms == 0
            &&& p.id == text_or(t.uri, s.player.uri)
        }),
{
}

/// Sending the same `command` event twice changes nothing the second time
/// and sends nothing: only a changed track is broadcast.
pub proof fn repeated_command_is_quiet(
    s: ServerView,
    socket_id: String,
    raw: String,
    payload: CommandPayload,
)
    ensures
        ({
            let e = ServerEvent::Command { socket_id, raw, payload };
            let s1 = after_event(s, e).0;
            &&& after_event(s1, e).0 == s1
            &&& after_event(s1, e).1 == Seq::<ActionView>::empty()
        }),
{
    let e = ServerEvent::Command { socket_id, raw, payload };
    let s1 = after_event(s, e).0;
    let s2 = after_event(s1, e).0;
    assert(s2.player =~= s1.player);
    assert(s2.clients =~= s1.clients);
    assert(s2 =~= s1);
}

/// Once a socket that was not registered sends a `command` event, it counts
/// as the Spotify plugin, and every playback command is sent on.
pub proof fn plugin_receives_commands(
    s: ServerView,
    socket_id: String,
    raw: String,
    payload: CommandPayload,
    c: ControlCommand,
)
    requires
        !s.clients.contains_key(socket_id@),
    ensures
        ({
            let s1 = after_event(s, ServerEvent::Command { socket_id, raw, payload }).0;
            &&& s1.clients[socket_id@] == ClientType::Spotify
            &&& after_event(s1, ServerEvent::Control(c)).1 == seq![
                ActionView::SendToSpotify(control_name(c)),
            ]
        }),
{
    let s1 = after_event(s, ServerEvent::Command { socket_id, raw, payload }).0;
    assert(s1.clients.contains_key(socket_id@) && s1.clients[socket_id@] == ClientType::Spotify);
}

/// Where no Spotify plugin is registered, commands for it are dropped.
pub proof fn commands_dropped_without_plugin(s: ServerView, c: ControlCommand, url: String)
    requires
        !has_client_of_type(s.clients, ClientType::Spotify),
    ensures
        after_event(s, ServerEvent::Control(c)).1 == Seq::<ActionView>::empty(),
        after_event(s, ServerEvent::Request { url }).1 == Seq::<ActionView>::empty(),
        after_event(s, ServerEvent::GetData).1 == seq![
            ActionView::ReplyPlayerData(payload_of(s.player)),
        ],
{
    assert(Seq::<ActionView>::empty().push(ActionView::ReplyPlayerData(payload_of(s.player)))
        =~= seq![ActionView::ReplyPlayerData(payload_of(s.player))]);
}

/// A registered client keeps its kind until it disconnects; a disconnected
/// client is no longer registered.
pub proof fn client_kind_is_stable(s: ServerView, e: ServerEvent, id: Seq<char>)
    requires
        s.clients.contains_key(id),
    ensures
        ({
            let s1 = after_event(s, e);
            if e matches ServerEvent::Disconnect { socket_id } && socket_id@ == id {
                !s1.0.clients.contains_key(id)
            } else {
                s1.0.clients.contains_key(id) && s1.0.clients[id] == s.clients[id]
            }
        }),
{
}

/// Only `command` events from the plugin change the player data.
pub proof fn player_changes_only_on_command(s: ServerView, e: ServerEvent)
    requires
        !(e is Command),
    ensures
        after_event(s, e).0.player == s.player,
{
}

/// A web client that was not registered and sends `input`, then
/// disconnects, leaves the registry as it was.
pub proof fn visit_leaves_registry_unchanged(s: ServerView, socket_id: String, command: String)
    requires
        !s.clients.contains_key(socket_id@),
    ensures
        ({
            let s1 = after_event(s, ServerEvent::Input { socket_id, command }).0;
            let s2 = after_event(s1, ServerEvent::Disconnect { socket_id }).0;
            s2.clients == s.clients
        }),
{
    let s1 = after_event(s, ServerEvent::Input { socket_id, command }).0;
    let s2 = after_event(s1, ServerEvent::Disconnect { socket_id }).0;
    assert(s2.clients =~= s.clients);
}

/// The state after the events `es`, handled in order from `s`.
pub open spec fn after_events(s: ServerView, es: Seq<ServerEvent>) -> ServerView
    decreases es.len(),
{
    if es.len() == 0 {
        s
    } else {
        after_event(after_events(s, es.drop_last()), es.last()).0
    }
}

/// The socket that `e` registers: the sender of `command` or `input`.
pub open spec fn registrant(e: ServerEvent) -> Option<Seq<char>> {
    match e {
        ServerEvent::Command { socket_id, .. } => Some(socket_id@),
        ServerEvent::Input { socket_id, .. } => Some(socket_id@),
        _ => None,
    }
}

/// The kind that `e` registers its sender as: the sender of `command` as the
/// plugin, the sender of `input` as a web interface.
pub open spec fn kind_registered_by(e: ServerEvent) -> ClientType {
    match e {
        ServerEvent::Command { .. } => ClientType::Spotify,
        _ => ClientType::WebInterface,
    }
}

/// `e` is the disconnection of the socket `id`.
pub open spec fn disconnects(e: ServerEvent, id: Seq<char>) -> bool {
    e matches ServerEvent::Disconnect { socket_id } && socket_id@ == id
}

/// Event `i` of `es` is a `command` or `input` from `id`, and `id` does not
/// disconnect later in `es`.
pub open spec fn registers_still(es: Seq<ServerEvent>, id: Seq<char>, i: int) -> bool {
    &&& 0 <= i < es.len()
    &&& registrant(es[i]) == Some(id)
    &&& forall|j: int| i < j < es.len() ==> !disconnects(#[trigger] es[j], id)
}

/// Event `i` is the first of `es` that registers `id` for good.
pub open spec fn first_registration(es: Seq<ServerEvent>, id: Seq<char>, i: int) -> bool {
    &&& registers_still(es, id, i)
    &&& forall|j: int| 0 <= j < i ==> !registers_still(es, id, j)
}

spec fn law_at(es: Seq<ServerEvent>, m: Map<Seq<char>, ClientType>, id: Seq<char>) -> bool {
    &&& m.contains_key(id) <==> exists|i: int| registers_still(es, id, i)
    &&& m.contains_key(id) ==> exists|i: int|
        first_registration(es, id, i) && m[id] == kind_registered_by(es[i])
    &&& m.contains_key(id) ==> m[id] != ClientType::Unknown
}

proof fn lemma_registers_step(es: Seq<ServerEvent>, id: Seq<char>, i: int)
    requires
        0 <= i < es.len() - 1,
    ensures
        registers_still(es, id, i) == (registers_still(es.drop_last(), id, i) && !disconnects(
            es.last(),
            id,
        )),
{
    let p = es.drop_last();
    assert(es[i] == p[i]);
    if registers_still(es, id, i) {
        assert(!disconnects(es[es.len() - 1], id));
        assert forall|j: int| i < j < p.len() implies !disconnects(#[trigger] p[j], id) by {
            assert(es[j] == p[j]);
        }
    }
    if registers_still(p, id, i) && !disconnects(es.last(), id) {
        assert forall|j: int| i < j < es.len() implies !disconnects(#[trigger] es[j], id) by {
            if j < p.len() {
                assert(es[j] == p[j]);
            }
        }
    }
}

proof fn lemma_law_step(es: Seq<ServerEvent>, id: Seq<char>)
    requires
        es.len() > 0,
        law_at(es.drop_last(), after_events(initial_server(), es.drop_last()).clients, id),
    ensures
        law_at(es, after_events(initial_server(), es).clients, id),
{
    let p = es.drop_last();
    let e = es.last();
    let n = p.len() as int;
    let mp = after_events(initial_server(), p).clients;
    let m = after_events(initial_server(), es).clients;
    assert(m == after_event(after_events(initial_server(), p), e).0.clients);
    assert(es[n] == e);
    if disconnects(e, id) {
        assert(!m.contains_key(id));
        assert forall|i: int| !registers_still(es, id, i) by {
            if 0 <= i < n {
                lemma_registers_step(es, id, i);
            }
        }
    } else if registrant(e) == Some(id) {
        let t = kind_registered_by(e);
        assert(m == (if mp.contains_key(id) {
            mp
        } else {
            mp.insert(id, t)
        }));
        assert(registers_still(es, id, n));
        if mp.contains_key(id) {
            let f = choose|f: int| first_registration(p, id, f) && mp[id] == kind_registered_by(p[f]);
            lemma_registers_step(es, id, f);
            assert(p[f] == es[f]);
            assert forall|j: int| 0 <= j < f implies !registers_still(es, id, j) by {
                lemma_registers_step(es, id, j);
            }
            assert(first_registration(es, id, f));
        } else {
            assert forall|j: int| 0 <= j < n implies !registers_still(es, id, j) by {
                lemma_registers_step(es, id, j);
            }
            assert(first_registration(es, id, n));
        }
    } else {
        assert(m.contains_key(id) == mp.contains_key(id));
        assert(m.contains_key(id) ==> m[id] == mp[id]);
        assert forall|i: int| #[trigger] registers_still(es, id, i) <==> registers_still(p, id, i) by {
            if 0 <= i < n {
                lemma_registers_step(es, id, i);
            }
        }
        if mp.contains_key(id) {
            let f = choose|f: int| first_registration(p, id, f) && mp[id] == kind_registered_by(p[f]);
            assert(p[f] == es[f]);
            assert(first_registration(es, id, f));
        }
    }
}

proof fn lemma_law(es: Seq<ServerEvent>)
    ensures
        forall|id: Seq<char>| law_at(es, after_events(initial_server(), es).clients, id),
    decreases es.len(),
{
    if es.len() == 0 {
        assert forall|id: Seq<char>| law_at(es, after_events(initial_server(), es).clients, id) by {
            assert(!after_events(initial_server(), es).clients.contains_key(id));
        }
    } else {
        lemma_law(es.drop_last());
        assert forall|id: Seq<char>| law_at(es, after_events(initial_server(), es).clients, id) by {
            lemma_law_step(es, id);
        }
    }
}

/// From a fresh start, whatever events come in, the registry holds exactly
/// the sockets that sent `command` or `input` and have not disconnected
/// since; each is registered as the kind that its first such event (since
/// its last disconnection) gave it, and no client is ever of unknown kind.
pub proof fn registry_follows_events(es: Seq<ServerEvent>)
    ensures
        ({
            let m = after_events(initial_server(), es).clients;
            &&& forall|id: Seq<char>|
                #[trigger] m.contains_key(id) <==> exists|i: int| registers_still(es, id, i)
            &&& forall|id: Seq<char>| #[trigger]
                m.contains_key(id) ==> exists|i: int|
                    first_registration(es, id, i) && m[id] == kind_registered_by(es[i])
            &&& forall|id: Seq<char>| #[trigger] m.contains_key(id) ==> m[id] != ClientType::Unknown
        }),
{
    lemma_law(es);
    let m = after_events(initial_server(), es).clients;
    assert forall|id: Seq<char>| #[trigger] m.contains_key(id) <==> exists|i: int| registers_still(es, id, i) by {
        assert(law_at(es, m, id));
    }
    assert forall|id: Seq<char>| #[trigger] m.contains_key(id) implies exists|i: int|
        first_registration(es, id, i) && m[id] == kind_registered_by(es[i]) by {
        assert(law_at(es, m, id));
    }
    assert forall|id: Seq<char>| #[trigger] m.contains_key(id) implies m[id] != ClientType::Unknown by {
        assert(law_at(es, m, id));
    }
}

/// The host part of the listen address is the `IP` setting whenever it is
/// given, else `127.0.0.1`, whatever `PORT` holds; the port follows a colon.
pub proof fn listen_host(ip: Option<String>, port: Option<String>)
    ensures
        ip matches Some(h) ==> has_prefix(listen_address(ip, port), h@ + ":"@),
        ip is None ==> has_prefix(listen_address(ip, port), "127.0.0.1"@ + ":"@),
{
    let a = listen_address(ip, port);
    let host = text_or(ip, "127.0.0.1"@);
    let pre = host + ":"@;
    assert(a.subrange(0, pre.len() as int) =~= pre);
}

/// With a Spotify plugin registered, every `input` from a web interface is
/// sent on to the plugin, the first from that socket and every later one.
pub proof fn every_input_is_forwarded(s: ServerView, socket_id: String, command: String)
    requires
        has_client_of_type(s.clients, ClientType::Spotify),
    ensures
        after_event(s, ServerEvent::Input { socket_id, command }).1 == seq![
            ActionView::SendToSpotify(command@),
        ],
{
    let k = choose|k: Seq<char>| s.clients.contains_key(k) && s.clients[k] == ClientType::Spotify;
    let c = registered(s.clients, socket_id@, ClientType::WebInterface);
    assert(c.contains_key(k) && c[k] == ClientType::Spotify);
}

/// Without a Spotify plugin registered, `input` is sent nowhere.
pub proof fn input_without_plugin_is_dropped(s: ServerView, socket_id: String, command: String)
    requires
        !has_client_of_type(s.clients, ClientType::Spotify),
    ensures
        after_event(s, ServerEvent::Input { socket_id, command }).1 == Seq::<ActionView>::empty(),
{
    let c = registered(s.clients, socket_id@, ClientType::WebInterface);
    assert forall|k: Seq<char>| c.contains_key(k) implies c[k] != ClientType::Spotify by {
        if k != socket_id@ || s.clients.contains_key(socket_id@) {
            assert(s.clients.contains_key(k));
        }
    }
}

} // verus!
