//! What the server has to tell its clients.
use vstd::prelude::*;
use crate::keys::PublicKey;
use crate::net::SocketAddrV4;
use crate::udp::messages::{from_server_bytes, from_server_parse, from_server_parse_of_bytes};
use crate::udp::messages::{FromServerMessage, FromServerView, ParseError};

verus! {

/// The content of a notice.
pub enum NoticeView {
    InitiateConnectionRequest {
        peer_pubkey: Seq<u8>,
        peer_address: SocketAddrV4,
        remote_session_id: u32,
        is_listener: bool,
    },
    LostConnectionRequest { peer_pubkey: Seq<u8>, peer_address: SocketAddrV4 },
    NeedNewSession { old_session_id: u32 },
    ErrorSameIp { peer_pubkey: Seq<u8> },
    Pong { payload: u64 },
}

/// A notice from the server to a client.
#[derive(Debug, Clone, Copy)]
pub enum ServerNotice {
    /// Two requests match: the connection to the peer is to be started.
    InitiateConnectionRequest {
        peer_pubkey: PublicKey,
        peer_address: SocketAddrV4,
        remote_session_id: u32,
        is_listener: bool,
    },
    /// A connection request was lost: a new session id is to be generated.
    LostConnectionRequest { peer_pubkey: PublicKey, peer_address: SocketAddrV4 },
    /// The session of a request has served for a connection already.
    NeedNewSession { old_session_id: u32 },
    /// The peer's matching request came from the client's own IP address.
    ErrorSameIp { peer_pubkey: PublicKey },
    /// The answer to a ping.
    Pong { payload: u64 },
}

impl View for ServerNotice {
    type V = NoticeView;

    open spec fn view(&self) -> NoticeView {
        match self {
            ServerNotice::InitiateConnectionRequest {
                peer_pubkey,
                peer_address,
                remote_session_id,
                is_listener,
            } => NoticeView::InitiateConnectionRequest {
                peer_pubkey: peer_pubkey@,
                peer_address: *peer_address,
                remote_session_id: *remote_session_id,
                is_listener: *is_listener,
            },
            ServerNotice::LostConnectionRequest { peer_pubkey, peer_address } =>
                NoticeView::LostConnectionRequest {
                    peer_pubkey: peer_pubkey@,
                    peer_address: *peer_address,
                },
            ServerNotice::NeedNewSession { old_session_id } => NoticeView::NeedNewSession {
                old_session_id: *old_session_id,
            },
            ServerNotice::ErrorSameIp { peer_pubkey } => NoticeView::ErrorSameIp {
                peer_pubkey: peer_pubkey@,
            },
            ServerNotice::Pong { payload } => NoticeView::Pong { payload: *payload },
        }
    }
}

/// The notice that a message of the datagram format carries.
pub open spec fn notice_of(m: FromServerView) -> NoticeView {
    match m {
        FromServerView::InitiateConnectionRequest {
            peer_pubkey,
            peer_address,
            remote_session_id,
            is_listener,
        } => NoticeView::InitiateConnectionRequest {
            peer_pubkey,
            peer_address,
            remote_session_id,
            is_listener,
        },
        FromServerView::LostConnectionRequest { peer_pubkey, peer_address } =>
            NoticeView::LostConnectionRequest { peer_pubkey, peer_address },
    }
}

/// The message of the datagram format that carries a notice. There is none for a refused session,
/// an equal IP address or a pong.
pub open spec fn message_of(n: NoticeView) -> Option<FromServerView> {
    match n {
        NoticeView::InitiateConnectionRequest {
            peer_pubkey,
            peer_address,
            remote_session_id,
            is_listener,
        } => Some(
            FromServerView::InitiateConnectionRequest {
                peer_pubkey,
                peer_address,
                remote_session_id,
                is_listener,
            },
        ),
        NoticeView::LostConnectionRequest { peer_pubkey, peer_address } => Some(
            FromServerView::LostConnectionRequest { peer_pubkey, peer_address },
        ),
        _ => None,
    }
}

impl ServerNotice {
    /// The notice that a message carries.
    pub fn from_message(m: FromServerMessage) -> (r: ServerNotice)
        ensures
            r@ == notice_of(m@),
    {
        match m {
            FromServerMessage::InitiateConnectionRequest {
                peer_pubkey,
                peer_address,
                remote_session_id,
                is_listener,
            } => ServerNotice::InitiateConnectionRequest {
                peer_pubkey,
                peer_address,
                remote_session_id,
                is_listener,
            },
            FromServerMessage::LostConnectionRequest { peer_pubkey, peer_address } =>
                ServerNotice::LostConnectionRequest { peer_pubkey, peer_address },
        }
    }

    /// The message that carries this notice, if the datagram format has one.
    pub fn message(&self) -> (r: Option<FromServerMessage>)
        ensures
            match r {
                Some(m) => message_of(self@) == Some(m@),
                None => message_of(self@) is None,
            },
    {
        match self {
            ServerNotice::InitiateConnectionRequest {
                peer_pubkey,
                peer_address,
                remote_session_id,
                is_listener,
            } => Some(
                FromServerMessage::InitiateConnectionRequest {
                    peer_pubkey: *peer_pubkey,
                    peer_address: *peer_address,
                    remote_session_id: *remote_session_id,
                    is_listener: *is_listener,
                },
            ),
            ServerNotice::LostConnectionRequest { peer_pubkey, peer_address } => Some(
                FromServerMessage::LostConnectionRequest {
                    peer_pubkey: *peer_pubkey,
                    peer_address: *peer_address,
                },
            ),
            _ => None,
        }
    }

    /// The datagram for this notice, if the datagram format has one. A client reads the same
    /// notice from it.
    pub fn datagram(&self) -> (r: Option<Vec<u8>>)
        ensures
            r is Some <==> message_of(self@) is Some,
            r matches Some(bytes) ==> bytes@ == from_server_bytes(message_of(self@)->0) && parsed_notice(
                bytes@,
            ) == Ok::<NoticeView, ParseError>(self@),
    {
        match self.message() {
            Some(m) => {
                proof {
                    from_server_parse_of_bytes(m@, Seq::empty());
                }
                Some(m.to_bytes())
            },
            None => None,
        }
    }

    /// Reads the notice in a datagram from the server.
    pub fn try_parse(bytes: &[u8]) -> (r: Result<ServerNotice, ParseError>)
        ensures
            match r {
                Ok(n) => parsed_notice(bytes@) == Ok::<NoticeView, ParseError>(n@),
                Err(e) => parsed_notice(bytes@) == Err::<NoticeView, ParseError>(e),
            },
    {
        match FromServerMessage::try_parse(bytes) {
            Ok(m) => Ok(ServerNotice::from_message(m)),
            Err(e) => Err(e),
        }
    }
}

/// The notice that a client reads from a datagram.
pub open spec fn parsed_notice(b: Seq<u8>) -> Result<NoticeView, ParseError> {
    match from_server_parse(b) {
        Ok(m) => Ok(notice_of(m)),
        Err(e) => Err(e),
    }
}

/// Introductions and lost requests have a message of the datagram format, which carries the same
/// notice. Other notices have none.
pub proof fn messages_carry_their_notices(
    n: ServerNotice,
    m: Option<FromServerMessage>,
    back: ServerNotice,
    bytes: Option<Vec<u8>>,
)
    requires
        call_ensures(ServerNotice::message, (&n,), m),
        m matches Some(message) ==> call_ensures(ServerNotice::from_message, (message,), back),
        call_ensures(ServerNotice::datagram, (&n,), bytes),
    ensures
        m is Some <==> n is InitiateConnectionRequest || n is LostConnectionRequest,
        m is Some ==> back@ == n@,
        bytes is Some <==> m is Some,
        m matches Some(message) ==> bytes->0@ == from_server_bytes(message@),
        n is InitiateConnectionRequest ==> m->0 is InitiateConnectionRequest,
        n is LostConnectionRequest ==> m->0 is LostConnectionRequest,
{
}

/// A notice is seen with all that it says.
pub proof fn notices_are_seen_in_full(
    key: PublicKey,
    address: SocketAddrV4,
    session_id: u32,
    is_listener: bool,
    payload: u64,
)
    ensures
        (ServerNotice::InitiateConnectionRequest {
            peer_pubkey: key,
            peer_address: address,
            remote_session_id: session_id,
            is_listener,
        })@ == (NoticeView::InitiateConnectionRequest {
            peer_pubkey: key@,
            peer_address: address,
            remote_session_id: session_id,
            is_listener,
        }),
        (ServerNotice::LostConnectionRequest { peer_pubkey: key, peer_address: address })@ == (
        NoticeView::LostConnectionRequest { peer_pubkey: key@, peer_address: address }),
        (ServerNotice::NeedNewSession { old_session_id: session_id })@ == (
        NoticeView::NeedNewSession { old_session_id: session_id }),
        (ServerNotice::ErrorSameIp { peer_pubkey: key })@ == (NoticeView::ErrorSameIp {
            peer_pubkey: key@,
        }),
        (ServerNotice::Pong { payload })@ == (NoticeView::Pong { payload }),
{
}

/// The notice in a datagram is the one whose message the datagram is, whatever bytes follow, and an
/// error that its message has is the error of the notice.
pub proof fn notices_are_read_from_messages(
    bytes: &[u8],
    m: Result<FromServerMessage, ParseError>,
    n: Result<ServerNotice, ParseError>,
)
    requires
        call_ensures(FromServerMessage::try_parse, (bytes,), m),
        call_ensures(ServerNotice::try_parse, (bytes,), n),
    ensures
        match m {
            Err(e) => n == Err::<ServerNotice, ParseError>(e),
            Ok(message) => n is Ok && match message {
                FromServerMessage::InitiateConnectionRequest {
                    peer_pubkey,
                    peer_address,
                    remote_session_id,
                    is_listener,
                } => n->Ok_0@ == (NoticeView::InitiateConnectionRequest {
                    peer_pubkey: peer_pubkey@,
                    peer_address,
                    remote_session_id,
                    is_listener,
                }),
                FromServerMessage::LostConnectionRequest { peer_pubkey, peer_address } => n->Ok_0@
                    == (NoticeView::LostConnectionRequest {
                    peer_pubkey: peer_pubkey@,
                    peer_address,
                }),
            },
        },
{
}

} // verus!
