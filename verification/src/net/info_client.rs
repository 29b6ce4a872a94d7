//! The game discovery relay.
//!
//! The relay asks the remote host for its game, tells the local subnet of the
//! game it hears of, and answers local browse packets with the host's own
//! game-info packet, in which the port is replaced by the port of the local
//! TCP listener.
//!
//! One cycle of the relay sends a browse packet to the remote host, takes in
//! datagrams until none comes before the timeout, and looks at the stop
//! signal.

use vstd::prelude::*;
use crate::warcraft::expansion::Expansion;
use crate::warcraft::game_info::GameInfoView;
use crate::warcraft::little_endian::le_u16;
use crate::warcraft::query_protocol::announce_packet;
use crate::warcraft::query_protocol::browse_packet;
use crate::warcraft::query_protocol::change_game_info_packet_port;
use crate::warcraft::query_protocol::extract_game_info;
use crate::warcraft::query_protocol::game_info_of;
use crate::warcraft::query_protocol::get_browse_packet;
use crate::warcraft::query_protocol::get_game_announce_packet;
use crate::warcraft::query_protocol::lemma_port_rewrite_touches_last_two;
use crate::warcraft::query_protocol::with_port;
use crate::warcraft::query_protocol::EncodeError;
use crate::warcraft::query_protocol::ParseError;
use crate::warcraft::query_protocol::BROWSE;
use crate::warcraft::query_protocol::GAME_INFO;
use crate::warcraft::query_protocol::PACKET_MARK;

verus! {

/// The UDP port of the game: announce packets go to it on the broadcast
/// address, and it is the port of a remote host that names none.
pub const LAN_PORT: u16 = 6112;

/// The version byte of browse packets: game client 1.26.
pub const GAME_VERSION: u8 = 0x1a;

/// The size of the buffer that a datagram is received into.
pub const DATAGRAM_BUFFER_LEN: usize = 256;

/// The seconds after which a receive gives up.
pub const RECEIVE_TIMEOUT_SECS: u64 = 3;

/// The address of a host: an IPv4 address and a port.
#[derive(Clone, Copy, Debug)]
pub struct Endpoint {
    pub ip: [u8; 4],
    pub port: u16,
}

/// The remote host that an address string names. The string is read as an
/// address with a port, and as an address alone: `full` and `bare` are what
/// came of the two readings. An address alone stands for port `LAN_PORT`.
pub open spec fn remote_of(full: Option<Endpoint>, bare: Option<[u8; 4]>) -> Option<Endpoint> {
    match (full, bare) {
        (Some(endpoint), _) => Some(endpoint),
        (None, Some(ip)) => Some(Endpoint { ip, port: LAN_PORT }),
        (None, None) => None,
    }
}

/// Picks the remote host from the two readings of the address string: the
/// one with a port where it was understood, else the address alone with the
/// port of the game. Nothing where neither was understood.
pub fn remote_endpoint(full: Option<Endpoint>, bare: Option<[u8; 4]>) -> (remote: Option<Endpoint>)
    ensures
        remote == remote_of(full, bare),
{
    match full {
        Some(endpoint) => Some(endpoint),
        None => match bare {
            Some(ip) => Some(Endpoint { ip, port: LAN_PORT }),
            None => None,
        },
    }
}

/// Why the relay dropped a datagram that began like a game-info packet.
#[derive(Clone, Copy, Debug, PartialEq, Eq, Structural)]
pub enum Rejection {
    /// The packet could not be read.
    Parse(ParseError),
    /// No announce packet can be built for the game.
    Encode(EncodeError),
}

/// What happened on the socket or on the stop signal.
#[derive(Debug)]
pub enum RelayEvent {
    /// The packet of the last action was sent, or the drop was noted.
    Done,
    /// A datagram came in.
    Datagram(Vec<u8>),
    /// No datagram came before the timeout.
    Quiet,
    /// The stop signal is not set.
    KeepRunning,
    /// The stop signal is set, or its sender is gone.
    StopRequested,
}

/// What the relay wants done next.
#[derive(Debug)]
pub enum RelayAction {
    /// Send this browse packet to the remote host.
    SendBrowse([u8; 16]),
    /// Wait for a datagram.
    Receive,
    /// Send this announce packet to the broadcast address, port `LAN_PORT`.
    /// The game of that name was heard of.
    Announce { packet: [u8; 16], name: String },
    /// Send this game-info packet to the sender of the last datagram.
    Reply(Vec<u8>),
    /// Note that the last datagram was dropped.
    Discard(Rejection),
    /// Look at the stop signal.
    PollStop,
    /// Leave the loop.
    Halt,
}

/// The relay: the port it stands for, the browse packet it sends, the last
/// game-info packet it heard, and whether it was stopped.
#[derive(Debug)]
pub struct DiscoveryRelay {
    own_port: u16,
    expansion: Expansion,
    version: u8,
    last_game_info_packet: Option<Vec<u8>>,
    stopped: bool,
}

/// The mathematical content of a relay.
pub ghost struct RelayModel {
    pub own_port: u16,
    pub expansion: Expansion,
    pub version: u8,
    pub cache: Option<Seq<u8>>,
    pub stopped: bool,
}

/// The mathematical content of an event.
pub ghost enum EventModel {
    Done,
    Datagram(Seq<u8>),
    Quiet,
    KeepRunning,
    StopRequested,
}

/// The mathematical content of an action.
pub ghost enum ActionModel {
    SendBrowse(Seq<u8>),
    Receive,
    Announce { packet: Seq<u8>, name: Seq<char> },
    Reply(Seq<u8>),
    Discard(Rejection),
    PollStop,
    Halt,
}

impl View for RelayEvent {
    type V = EventModel;

    open spec fn view(&self) -> EventModel {
        match self {
            RelayEvent::Done => EventModel::Done,
            RelayEvent::Datagram(bytes) => EventModel::Datagram(bytes@),
            RelayEvent::Quiet => EventModel::Quiet,
            RelayEvent::KeepRunning => EventModel::KeepRunning,
            RelayEvent::StopRequested => EventModel::StopRequested,
        }
    }
}

impl View for RelayAction {
    type V = ActionModel;

    open spec fn view(&self) -> ActionModel {
        match self {
            RelayAction::SendBrowse(packet) => ActionModel::SendBrowse(packet@),
            RelayAction::Receive => ActionModel::Receive,
            RelayAction::Announce { packet, name } => ActionModel::Announce {
                packet: packet@,
                name: name@,
            },
            RelayAction::Reply(packet) => ActionModel::Reply(packet@),
            RelayAction::Discard(why) => ActionModel::Discard(*why),
            RelayAction::PollStop => ActionModel::PollStop,
            RelayAction::Halt => ActionModel::Halt,
        }
    }
}

impl View for DiscoveryRelay {
    type V = RelayModel;

    closed spec fn view(&self) -> RelayModel {
        RelayModel {
            own_port: self.own_port,
            expansion: self.expansion,
            version: self.version,
            cache: match self.last_game_info_packet {
                Some(packet) => Some(packet@),
                None => None,
            },
            stopped: self.stopped,
        }
    }
}

/// The datagram begins with the two header bytes of a game-info packet.
pub open spec fn begins_as_game_info(datagram: Seq<u8>) -> bool {
    datagram.len() >= 2 && datagram[0] == PACKET_MARK && datagram[1] == GAME_INFO
}

/// The datagram begins with the two header bytes of a browse packet.
pub open spec fn begins_as_browse(datagram: Seq<u8>) -> bool {
    datagram.len() >= 2 && datagram[0] == PACKET_MARK && datagram[1] == BROWSE
}

/// The game that a datagram tells of, where the relay can pass it on: the
/// datagram reads as a game-info packet and its player count fits an announce
/// packet.
pub open spec fn heard_game(datagram: Seq<u8>) -> Result<GameInfoView, Rejection> {
    match game_info_of(datagram) {
        Err(e) => Err(Rejection::Parse(e)),
        Ok(info) => if info.player_count_fits() {
            Ok(info)
        } else {
            Err(Rejection::Encode(EncodeError::FieldRange))
        },
    }
}

impl RelayModel {
    /// A stopped relay holds no packet, and a packet that it holds tells of a
    /// game.
    pub open spec fn well_formed(self) -> bool {
        &&& self.stopped ==> self.cache is None
        &&& self.cache matches Some(packet) ==> heard_game(packet) is Ok
    }

    /// The relay as it is first made.
    pub open spec fn initial(own_port: u16, expansion: Expansion, version: u8) -> RelayModel {
        RelayModel { own_port, expansion, version, cache: None, stopped: false }
    }

    /// The browse packet of this relay.
    pub open spec fn browse(self) -> Seq<u8> {
        browse_packet(self.expansion, self.version)
    }

    /// The relay after a datagram.
    ///
    /// A game-info packet that tells of a game becomes the packet held; any
    /// other datagram changes nothing.
    pub open spec fn after_datagram(self, datagram: Seq<u8>) -> RelayModel {
        if begins_as_game_info(datagram) && heard_game(datagram) is Ok {
            RelayModel { cache: Some(datagram), ..self }
        } else {
            self
        }
    }

    /// What the relay does about a datagram.
    ///
    /// A game-info packet is announced, or dropped where it tells of no game.
    /// A browse packet is answered with the packet held, the port in it
    /// replaced by the relay's own; with no packet held it is passed over, as
    /// is every other datagram.
    pub open spec fn answer_to_datagram(self, datagram: Seq<u8>) -> ActionModel {
        if begins_as_game_info(datagram) {
            match heard_game(datagram) {
                Ok(info) => ActionModel::Announce {
                    packet: announce_packet(info),
                    name: info.name,
                },
                Err(why) => ActionModel::Discard(why),
            }
        } else if begins_as_browse(datagram) {
            match self.cache {
                Some(packet) => ActionModel::Reply(with_port(packet, self.own_port)),
                None => ActionModel::Receive,
            }
        } else {
            ActionModel::Receive
        }
    }

    /// The relay after an event. Only a datagram and a request to stop change
    /// it; a stopped relay does not change any more, and holds no packet.
    pub open spec fn next(self, event: EventModel) -> RelayModel {
        if self.stopped {
            self
        } else {
            match event {
                EventModel::Datagram(datagram) => self.after_datagram(datagram),
                EventModel::StopRequested => RelayModel { cache: None, stopped: true, ..self },
                _ => self,
            }
        }
    }

    /// What the relay wants done after an event.
    ///
    /// After a send it receives. When nothing comes in it looks at the stop
    /// signal, and where that is not set it begins the next cycle with a
    /// browse packet. A stopped relay halts whatever happens.
    pub open spec fn reaction(self, event: EventModel) -> ActionModel {
        if self.stopped {
            ActionModel::Halt
        } else {
            match event {
                EventModel::Done => ActionModel::Receive,
                EventModel::Datagram(datagram) => self.answer_to_datagram(datagram),
                EventModel::Quiet => ActionModel::PollStop,
                EventModel::KeepRunning => ActionModel::SendBrowse(self.browse()),
                EventModel::StopRequested => ActionModel::Halt,
            }
        }
    }
}

/// A relay that is told to stop halts, holds no packet any more, and from
/// then on halts at every event and does not change.
pub proof fn lemma_stop_is_final(relay: RelayModel, event: EventModel)
    ensures
        relay.reaction(EventModel::StopRequested) == ActionModel::Halt,
        relay.next(EventModel::StopRequested).stopped,
        relay.well_formed() ==> relay.next(EventModel::StopRequested).cache is None,
        relay.stopped ==> relay.next(event) == relay && relay.reaction(event) == ActionModel::Halt,
{
}

/// Whatever happens, a well-formed relay stays well formed, and its port and
/// its browse packet stay what they were.
pub proof fn lemma_step_keeps_well_formed(relay: RelayModel, event: EventModel)
    requires
        relay.well_formed(),
    ensures
        relay.next(event).well_formed(),
        relay.next(event).own_port == relay.own_port,
        relay.next(event).browse() == relay.browse(),
{
}

/// A game-info packet that tells of a game is announced and held from then
/// on, byte for byte as it came.
pub proof fn lemma_game_heard_is_held(relay: RelayModel, datagram: Seq<u8>)
    requires
        !relay.stopped,
        heard_game(datagram) is Ok,
    ensures
        relay.next(EventModel::Datagram(datagram)).cache == Some(datagram),
        relay.reaction(EventModel::Datagram(datagram)) == (ActionModel::Announce {
            packet: announce_packet(heard_game(datagram)->Ok_0),
            name: heard_game(datagram)->Ok_0.name,
        }),
{
}

/// A browse packet is answered with the packet held, in which only the last
/// two bytes are replaced: they hold the relay's own port. The relay itself
/// does not change.
pub proof fn lemma_browse_is_answered(relay: RelayModel, datagram: Seq<u8>)
    requires
        !relay.stopped,
        relay.well_formed(),
        begins_as_browse(datagram),
        relay.cache is Some,
    ensures
        relay.next(EventModel::Datagram(datagram)) == relay,
        relay.reaction(EventModel::Datagram(datagram)) matches ActionModel::Reply(reply) && {
            let held = relay.cache->Some_0;
            &&& reply.len() == held.len()
            &&& forall|i: int| 0 <= i < held.len() - 2 ==> reply[i] == held[i]
            &&& le_u16(reply.subrange(reply.len() - 2, reply.len() as int)) == relay.own_port
        },
{
    lemma_port_rewrite_touches_last_two(relay.cache->Some_0, relay.own_port);
}

/// Only a game-info packet changes what the relay holds, and only a browse
/// packet is answered.
pub proof fn lemma_other_datagrams_pass(relay: RelayModel, datagram: Seq<u8>)
    requires
        !relay.stopped,
    ensures
        !begins_as_game_info(datagram) ==> relay.next(EventModel::Datagram(datagram)) == relay,
        !begins_as_browse(datagram) ==> !(relay.reaction(EventModel::Datagram(datagram)) is Reply),
        !begins_as_game_info(datagram) && !begins_as_browse(datagram) ==> relay.reaction(
            EventModel::Datagram(datagram),
        ) == ActionModel::Receive,
{
}

impl DiscoveryRelay {
    /// What holds of every relay: its content is well formed.
    #[verifier::type_invariant]
    spec fn sound(&self) -> bool {
        self@.well_formed()
    }

    /// A relay that stands for the local TCP listener on `port` and asks for
    /// games of the base game, version 1.26.
    pub fn new(port: u16) -> (relay: DiscoveryRelay)
        ensures
            relay@ == RelayModel::initial(port, Expansion::ROC, GAME_VERSION),
            relay@.well_formed(),
    {
        DiscoveryRelay::with_browse(port, Expansion::ROC, GAME_VERSION)
    }

    /// A relay that stands for the local TCP listener on `port` and asks for
    /// games of the given edition and version.
    pub fn with_browse(port: u16, expansion: Expansion, version: u8) -> (relay: DiscoveryRelay)
        ensures
            relay@ == RelayModel::initial(port, expansion, version),
            relay@.well_formed(),
    {
        DiscoveryRelay {
            own_port: port,
            expansion,
            version,
            last_game_info_packet: None,
            stopped: false,
        }
    }

    /// The first action of the relay: the browse packet of the first cycle.
    pub fn begin(&self) -> (action: RelayAction)
        ensures
            action@ == self@.reaction(EventModel::KeepRunning),
            self@.well_formed(),
    {
        proof {
            use_type_invariant(self);
        }
        if self.stopped {
            RelayAction::Halt
        } else {
            RelayAction::SendBrowse(get_browse_packet(self.expansion, self.version))
        }
    }

    /// Takes an event in and says what to do next.
    pub fn step(&mut self, event: RelayEvent) -> (action: RelayAction)
        ensures
            final(self)@ == old(self)@.next(event@),
            action@ == old(self)@.reaction(event@),
            old(self)@.well_formed(),
            final(self)@.well_formed(),
    {
        proof {
            use_type_invariant(&*self);
        }
        if self.stopped {
            return RelayAction::Halt;
        }
        match event {
            RelayEvent::Done => RelayAction::Receive,
            RelayEvent::Datagram(datagram) => self.on_datagram(datagram),
            RelayEvent::Quiet => RelayAction::PollStop,
            RelayEvent::KeepRunning => RelayAction::SendBrowse(
                get_browse_packet(self.expansion, self.version),
            ),
            RelayEvent::StopRequested => {
                self.last_game_info_packet = None;
                self.stopped = true;
                RelayAction::Halt
            },
        }
    }

    /// Takes a datagram in: announces a game heard of, or answers a browse
    /// packet.
    fn on_datagram(&mut self, datagram: Vec<u8>) -> (action: RelayAction)
        requires
            !old(self)@.stopped,
        ensures
            final(self)@ == old(self)@.after_datagram(datagram@),
            action@ == old(self)@.answer_to_datagram(datagram@),
    {
        if datagram.len() >= 2 && datagram[0] == PACKET_MARK && datagram[1] == GAME_INFO {
            let game_info = match extract_game_info(datagram.as_slice()) {
                Ok(game_info) => game_info,
                Err(e) => {
                    return RelayAction::Discard(Rejection::Parse(e));
                },
            };
            let name = game_info.name.clone();
            match get_game_announce_packet(game_info) {
                Ok(packet) => {
                    self.last_game_info_packet = Some(datagram);
                    RelayAction::Announce { packet, name }
                },
                Err(e) => RelayAction::Discard(Rejection::Encode(e)),
            }
        } else if datagram.len() >= 2 && datagram[0] == PACKET_MARK && datagram[1] == BROWSE {
            match &self.last_game_info_packet {
                Some(packet) => {
                    let mut packet = packet.clone();
                    change_game_info_packet_port(self.own_port, &mut packet);
                    RelayAction::Reply(packet)
                },
                None => RelayAction::Receive,
            }
        } else {
            RelayAction::Receive
        }
    }

    /// The port that replies advertise.
    pub fn own_port(&self) -> (port: u16)
        ensures
            port == self@.own_port,
    {
        self.own_port
    }

    /// The last game-info packet heard, as it came in.
    pub fn last_game_info_packet(&self) -> (packet: Option<&Vec<u8>>)
        ensures
            packet is Some <==> self@.cache is Some,
            packet matches Some(bytes) ==> self@.cache == Some(bytes@),
    {
        self.last_game_info_packet.as_ref()
    }

    /// Whether the relay was stopped.
    pub fn is_stopped(&self) -> (stopped: bool)
        ensures
            stopped == self@.stopped,
    {
        self.stopped
    }
}

} // verus!
