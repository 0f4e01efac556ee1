//! The datagrams that clients and the rendezvous server exchange.
use vstd::prelude::*;
use vstd::string::StringExecFns;
use crate::keys::{key_views, PublicKey};
use crate::net::{Ipv4Addr, SocketAddrV4};
use crate::outside::{check_public_key, check_signature, date_of_millis, public_key_of};
use crate::outside::{sign, utc_now};
use crate::outside::{ed25519_key_valid, ed25519_public_key, ed25519_signature, ed25519_verifies};
use crate::outside::timestamp_valid;
use crate::text::{decimal, decimal_text};
use crate::time::{UtcTime, NANOS_PER_MILLI, NANOS_PER_SEC};
use crate::wire::{byte_range_values, le_bytes, le_bytes_len, le_read_write, le_value};
use crate::wire::{le_value_bound, le_write_read};
use crate::wire::{push_bytes, push_i64, push_u16, push_u32, read_array, read_i64, read_u16};
use crate::wire::{read_u32, to_signed64, to_unsigned64};

verus! {

/// An Ed25519 signature.
pub type Signature = [u8; 64];

/// An Ed25519 secret key.
pub type SecretKey = [u8; 32];

/// The version that this library speaks. Messages of an earlier version are understood too.
pub const PROTOCOL_VERSION: u8 = 2;

/// The most peers that one connection request can name.
pub const MAX_REQUEST_PEERS: usize = 10;

/// Why a datagram was not understood.
#[derive(Debug, Clone, Copy, PartialEq, Eq, Structural)]
pub enum ParseError {
    InvalidMessageId(u8),
    UnsupportedVersion { cur: u8, remote: u8 },
    /// The message is too short.
    TooShort,
    InvalidTimestamp,
    InvalidContentFormat,
    /// The signature does not belong to the content.
    InvalidSignature,
}

impl ParseError {
    /// The error in words.
    pub open spec fn text(self) -> Seq<char> {
        match self {
            ParseError::InvalidMessageId(id) => "Invalid message id: "@ + decimal(id as nat),
            ParseError::UnsupportedVersion { cur, remote } => {
                "Unsupported protocol version! cur: "@ + decimal(cur as nat) + ", remote: "@
                    + decimal(remote as nat)
            },
            ParseError::TooShort => "Message is too short"@,
            ParseError::InvalidTimestamp => "Invalid timestamp"@,
            ParseError::InvalidContentFormat => "Invalid message content format"@,
            ParseError::InvalidSignature => "Signature verification failed"@,
        }
    }

    /// The error in words.
    pub fn message(&self) -> (r: String)
        ensures
            r@ == self.text(),
    {
        match self {
            ParseError::InvalidMessageId(id) => "Invalid message id: ".to_owned().concat(
                decimal_text(*id as u32).as_str(),
            ),
            ParseError::UnsupportedVersion { cur, remote } => {
                "Unsupported protocol version! cur: ".to_owned().concat(
                    decimal_text(*cur as u32).as_str(),
                ).concat(", remote: ").concat(decimal_text(*remote as u32).as_str())
            },
            ParseError::TooShort => "Message is too short".to_owned(),
            ParseError::InvalidTimestamp => "Invalid timestamp".to_owned(),
            ParseError::InvalidContentFormat => "Invalid message content format".to_owned(),
            ParseError::InvalidSignature => "Signature verification failed".to_owned(),
        }
    }
}

/// What a signed message holds: who sent it, when it was made (in milliseconds since 1970), its
/// payload, and the signature.
pub struct SignedMessageView {
    pub pubkey: Seq<u8>,
    pub timestamp: int,
    pub payload: Seq<u8>,
    pub signature: Seq<u8>,
}

/// A datagram to the server, before its signature is checked.
pub enum ToServerRawMessage {
    /// A message that was made at `timestamp` and is valid for 10 seconds. The signature is formed
    /// for the timestamp followed by the payload.
    SignedMessage { pubkey: PublicKey, timestamp: i64, payload: Vec<u8>, signature: Signature },
}

impl View for ToServerRawMessage {
    type V = SignedMessageView;

    open spec fn view(&self) -> SignedMessageView {
        match self {
            ToServerRawMessage::SignedMessage { pubkey, timestamp, payload, signature } =>
                SignedMessageView {
                    pubkey: pubkey@,
                    timestamp: *timestamp as int,
                    payload: payload@,
                    signature: signature@,
                },
        }
    }
}

/// The eight bytes of a timestamp.
pub open spec fn timestamp_bytes(timestamp: int) -> Seq<u8> {
    le_bytes(to_unsigned64(timestamp), 8)
}

/// The bytes that the signature of a message is formed for.
pub open spec fn signed_part(timestamp: int, payload: Seq<u8>) -> Seq<u8> {
    timestamp_bytes(timestamp) + payload
}

/// The datagram for a signed message: message id and version, timestamp, signature, key, payload.
pub open spec fn raw_bytes(m: SignedMessageView) -> Seq<u8> {
    seq![1u8, PROTOCOL_VERSION] + timestamp_bytes(m.timestamp) + m.signature + m.pubkey + m.payload
}

/// What a datagram to the server means.
pub open spec fn raw_parse(b: Seq<u8>) -> Result<SignedMessageView, ParseError> {
    if b.len() < 3 {
        Err(ParseError::TooShort)
    } else if b[1] > PROTOCOL_VERSION {
        Err(ParseError::UnsupportedVersion { cur: PROTOCOL_VERSION, remote: b[1] })
    } else if b[0] != 1 {
        Err(ParseError::InvalidMessageId(b[0]))
    } else if b.len() < 2 + 8 + 64 + 32 {
        Err(ParseError::TooShort)
    } else if !timestamp_valid(to_signed64(le_value(b.subrange(2, 10)))) {
        Err(ParseError::InvalidTimestamp)
    } else {
        Ok(
            SignedMessageView {
                timestamp: to_signed64(le_value(b.subrange(2, 10))),
                signature: b.subrange(10, 74),
                pubkey: b.subrange(74, 106),
                payload: b.skip(106),
            },
        )
    }
}

impl ToServerRawMessage {
    /// Reads a datagram to the server.
    pub fn try_parse(bytes: &[u8]) -> (r: Result<ToServerRawMessage, ParseError>)
        ensures
            match r {
                Ok(m) => raw_parse(bytes@) == Ok::<SignedMessageView, ParseError>(m@),
                Err(e) => raw_parse(bytes@) == Err::<SignedMessageView, ParseError>(e),
            },
    {
        if bytes.len() < 3 {
            return Err(ParseError::TooShort);
        }
        let msg_id: u8 = bytes[0];
        let remote_ver: u8 = bytes[1];
        if remote_ver > PROTOCOL_VERSION {
            return Err(ParseError::UnsupportedVersion { cur: PROTOCOL_VERSION, remote: remote_ver });
        }
        if msg_id != 1 {
            return Err(ParseError::InvalidMessageId(msg_id));
        }
        if bytes.len() < 2 + 8 + 64 + 32 {
            return Err(ParseError::TooShort);
        }
        let timestamp: i64 = match date_of_millis(read_i64(bytes, 2)) {
            Some(millis) => millis,
            None => {
                return Err(ParseError::InvalidTimestamp);
            },
        };
        let signature: Signature = read_array(bytes, 10);
        let pubkey: PublicKey = read_array(bytes, 74);
        let payload = vstd::slice::slice_to_vec(vstd::slice::slice_subrange(bytes, 106, bytes.len()));
        assert(payload@ =~= bytes@.skip(106));
        Ok(ToServerRawMessage::SignedMessage { pubkey, timestamp, payload, signature })
    }

    /// The datagram for this message.
    pub fn to_bytes(&self) -> (r: Vec<u8>)
        ensures
            r@ == raw_bytes(self@),
    {
        match self {
            ToServerRawMessage::SignedMessage { pubkey, timestamp, payload, signature } => {
                let mut res: Vec<u8> = Vec::new();
                res.push(1);
                res.push(PROTOCOL_VERSION);
                assert(res@ =~= seq![1u8, PROTOCOL_VERSION]);
                push_i64(&mut res, *timestamp);
                push_bytes(&mut res, signature.as_slice());
                push_bytes(&mut res, pubkey.as_slice());
                push_bytes(&mut res, payload.as_slice());
                res
            },
        }
    }
}

/// A timestamp is read back from its bytes.
proof fn timestamp_round_trip(timestamp: int)
    requires
        i64::MIN <= timestamp <= i64::MAX,
    ensures
        timestamp_bytes(timestamp).len() == 8,
        to_signed64(le_value(timestamp_bytes(timestamp))) == timestamp,
{
    byte_range_values();
    le_bytes_len(to_unsigned64(timestamp), 8);
    le_read_write(to_unsigned64(timestamp), 8);
}

/// A signed message is read back from its datagram.
pub proof fn raw_parse_of_bytes(m: SignedMessageView)
    requires
        m.pubkey.len() == 32,
        m.signature.len() == 64,
        timestamp_valid(m.timestamp),
    ensures
        raw_parse(raw_bytes(m)) == Ok::<SignedMessageView, ParseError>(m),
{
    timestamp_round_trip(m.timestamp);
    let b = raw_bytes(m);
    assert(b[0] == 1 && b[1] == PROTOCOL_VERSION);
    assert(b.subrange(2, 10) =~= timestamp_bytes(m.timestamp));
    assert(b.subrange(10, 74) =~= m.signature);
    assert(b.subrange(74, 106) =~= m.pubkey);
    assert(b.skip(106) =~= m.payload);
}

/// A datagram of the current version that is understood is the datagram of what it means.
pub proof fn raw_bytes_of_parse(b: Seq<u8>)
    requires
        raw_parse(b) is Ok,
        b[1] == PROTOCOL_VERSION,
    ensures
        raw_bytes(raw_parse(b)->Ok_0) == b,
{
    let t = b.subrange(2, 10);
    byte_range_values();
    le_value_bound(t);
    le_write_read(t);
    assert(to_unsigned64(to_signed64(le_value(t))) == le_value(t));
    assert(raw_bytes(raw_parse(b)->Ok_0) =~= b);
}

/// What a signed message asks the server for.
pub struct ConnectionRequestView {
    pub peer_pubkeys: Seq<Seq<u8>>,
    pub session_id: u32,
}

/// A message to the server whose sender is proved by a signature.
pub enum ToServerSignedMessage {
    /// Places a temporary connection slot on the server. A connection will be established on a
    /// matching connection request from another peer that is in the list. Earlier requests of the
    /// sender are replaced. At most 10 peers can be named.
    ConnectionRequest { peer_pubkeys: Vec<PublicKey>, session_id: u32 },
}

impl View for ToServerSignedMessage {
    type V = ConnectionRequestView;

    open spec fn view(&self) -> ConnectionRequestView {
        match self {
            ToServerSignedMessage::ConnectionRequest { peer_pubkeys, session_id } =>
                ConnectionRequestView {
                    peer_pubkeys: key_views(peer_pubkeys@),
                    session_id: *session_id,
                },
        }
    }
}

/// The keys of a list, one after the other.
pub open spec fn concat_keys(keys: Seq<Seq<u8>>) -> Seq<u8>
    decreases keys.len(),
{
    if keys.len() == 0 {
        Seq::empty()
    } else {
        concat_keys(keys.drop_last()) + keys.last()
    }
}

/// The payload for a connection request: message id, session id, number of keys, keys.
pub open spec fn request_bytes(m: ConnectionRequestView) -> Seq<u8> {
    seq![1u8] + le_bytes(m.session_id as nat, 4) + seq![m.peer_pubkeys.len() as u8] + concat_keys(
        m.peer_pubkeys,
    )
}

/// The `i`-th key of a connection request.
pub open spec fn request_key(p: Seq<u8>, i: int) -> Seq<u8> {
    p.subrange(6 + 32 * i, 6 + 32 * i + 32)
}

/// What a payload means. Where it announces more keys than it holds, it has no meaning: see
/// `key_list_complete`.
pub open spec fn request_parse(p: Seq<u8>) -> Result<ConnectionRequestView, ParseError> {
    if p.len() == 0 {
        Err(ParseError::TooShort)
    } else if p[0] != 1 {
        Err(ParseError::InvalidMessageId(p[0]))
    } else if p.len() < 1 + 4 + 32 {
        Err(ParseError::InvalidContentFormat)
    } else if p[5] > MAX_REQUEST_PEERS {
        Err(ParseError::InvalidContentFormat)
    } else {
        Ok(
            ConnectionRequestView {
                peer_pubkeys: Seq::new(p[5] as nat, |i: int| request_key(p, i)),
                session_id: le_value(p.subrange(1, 5)) as u32,
            },
        )
    }
}

/// Whether a payload holds all the keys that it announces.
pub open spec fn key_list_complete(p: Seq<u8>) -> bool {
    request_parse(p) is Ok ==> 6 + 32 * p[5] <= p.len()
}

/// A signed message that was understood, the key of its sender, and its timestamp.
pub type Verified = (ConnectionRequestView, Seq<u8>, int);

/// What a signed message means, once it is known whether its key is a key and whether its
/// signature belongs to it.
pub open spec fn signed_outcome(
    m: SignedMessageView,
    key_valid: bool,
    signature_valid: bool,
) -> Result<Verified, ParseError> {
    if !key_valid {
        Err(ParseError::InvalidContentFormat)
    } else if !signature_valid {
        Err(ParseError::InvalidSignature)
    } else {
        match request_parse(m.payload) {
            Err(e) => Err(e),
            Ok(request) => Ok((request, m.pubkey, m.timestamp)),
        }
    }
}

/// Whether the signature of `m` belongs to it.
pub open spec fn signature_valid(m: SignedMessageView) -> bool {
    ed25519_verifies(m.pubkey, signed_part(m.timestamp, m.payload), m.signature)
}

/// What a datagram means as a signed message.
pub open spec fn signed_parse(b: Seq<u8>) -> Result<Verified, ParseError> {
    match raw_parse(b) {
        Err(e) => Err(e),
        Ok(m) => signed_outcome(m, ed25519_key_valid(m.pubkey), signature_valid(m)),
    }
}

/// Whether a datagram carries a valid signature for a payload that announces more keys than it
/// holds.
pub open spec fn overruns(b: Seq<u8>) -> bool {
    raw_parse(b) matches Ok(m) && ed25519_key_valid(m.pubkey) && signature_valid(m)
        && !key_list_complete(m.payload)
}

/// Whether `r` is the outcome `expected`.
pub open spec fn verified_as(
    r: Result<(ToServerSignedMessage, PublicKey, i64), ParseError>,
    expected: Result<Verified, ParseError>,
) -> bool {
    match r {
        Ok((m, pubkey, timestamp)) => expected == Ok::<Verified, ParseError>(
            (m@, pubkey@, timestamp as int),
        ),
        Err(e) => expected == Err::<Verified, ParseError>(e),
    }
}

impl ToServerSignedMessage {
    /// Reads the payload of a signed message.
    pub fn parse_payload(payload: &[u8]) -> (r: Result<ToServerSignedMessage, ParseError>)
        requires
            key_list_complete(payload@),
        ensures
            match r {
                Ok(m) => request_parse(payload@) == Ok::<ConnectionRequestView, ParseError>(m@),
                Err(e) => request_parse(payload@) == Err::<ConnectionRequestView, ParseError>(e),
            },
    {
        if payload.len() == 0 {
            return Err(ParseError::TooShort);
        }
        let msg_id: u8 = payload[0];
        if msg_id != 1 {
            return Err(ParseError::InvalidMessageId(msg_id));
        }
        if payload.len() < 1 + 4 + 32 {
            return Err(ParseError::InvalidContentFormat);
        }
        let session_id: u32 = read_u32(payload, 1);
        let peer_pubkeys_len: usize = payload[5] as usize;
        if peer_pubkeys_len > MAX_REQUEST_PEERS {
            return Err(ParseError::InvalidContentFormat);
        }
        let mut peer_pubkeys: Vec<PublicKey> = Vec::new();
        let mut i: usize = 0;
        while i < peer_pubkeys_len
            invariant
                i <= peer_pubkeys_len <= MAX_REQUEST_PEERS,
                6 + 32 * peer_pubkeys_len <= payload.len(),
                peer_pubkeys@.len() == i,
                forall|j: int| 0 <= j < i ==> (#[trigger] peer_pubkeys@[j])@ == request_key(payload@, j),
            decreases peer_pubkeys_len - i,
        {
            peer_pubkeys.push(read_array(payload, 6 + 32 * i));
            i = i + 1;
        }
        let ghost expected = request_parse(payload@)->Ok_0;
        assert(key_views(peer_pubkeys@) =~= expected.peer_pubkeys);
        Ok(ToServerSignedMessage::ConnectionRequest { peer_pubkeys, session_id })
    }

    /// Decides what a raw message means, given whether its key is a key and whether its signature
    /// belongs to it.
    pub fn accept(
        raw: ToServerRawMessage,
        key_valid: bool,
        signature_valid: bool,
    ) -> (r: Result<(ToServerSignedMessage, PublicKey, i64), ParseError>)
        requires
            key_valid && signature_valid ==> key_list_complete(raw@.payload),
        ensures
            verified_as(r, signed_outcome(raw@, key_valid, signature_valid)),
    {
        match raw {
            ToServerRawMessage::SignedMessage { pubkey, timestamp, payload, signature } => {
                if !key_valid {
                    return Err(ParseError::InvalidContentFormat);
                }
                if !signature_valid {
                    return Err(ParseError::InvalidSignature);
                }
                match ToServerSignedMessage::parse_payload(payload.as_slice()) {
                    Err(e) => Err(e),
                    Ok(msg) => Ok((msg, pubkey, timestamp)),
                }
            },
        }
    }

    /// Whether the key of a raw message is a key, and whether its signature belongs to it. Of a
    /// message without a valid key, no signature is valid.
    fn check(raw: &ToServerRawMessage) -> (r: (bool, bool))
        ensures
            r.0 == ed25519_key_valid(raw@.pubkey),
            r.1 == (r.0 && signature_valid(raw@)),
    {
        match raw {
            ToServerRawMessage::SignedMessage { pubkey, timestamp, payload, signature } => {
                if !check_public_key(pubkey) {
                    return (false, false);
                }
                let mut msg: Vec<u8> = Vec::new();
                push_i64(&mut msg, *timestamp);
                push_bytes(&mut msg, payload.as_slice());
                assert(msg@ =~= signed_part(*timestamp as int, payload@));
                (true, check_signature(pubkey, msg.as_slice(), signature))
            },
        }
    }

    /// Reads a datagram to the server and checks its signature. Returns the message, the key of
    /// its sender and its timestamp.
    pub fn try_parse(bytes: &[u8]) -> (r: Result<
        (ToServerSignedMessage, PublicKey, i64),
        ParseError,
    >)
        requires
            !overruns(bytes@),
        ensures
            verified_as(r, signed_parse(bytes@)),
    {
        match ToServerRawMessage::try_parse(bytes) {
            Err(e) => Err(e),
            Ok(raw) => {
                let (key_valid, signature_valid) = ToServerSignedMessage::check(&raw);
                ToServerSignedMessage::accept(raw, key_valid, signature_valid)
            },
        }
    }

    /// `try_parse`, or `None` if the datagram is signed and announces more keys than it holds.
    pub fn try_parse_checked(bytes: &[u8]) -> (r: Option<
        Result<(ToServerSignedMessage, PublicKey, i64), ParseError>,
    >)
        ensures
            r is None <==> overruns(bytes@),
            r matches Some(outcome) ==> verified_as(outcome, signed_parse(bytes@)),
    {
        if let Ok(raw) = ToServerRawMessage::try_parse(bytes) {
            if !raw.is_key_list_complete() {
                let (key_valid, signature_valid) = ToServerSignedMessage::check(&raw);
                if key_valid && signature_valid {
                    return None;
                }
            }
        }
        Some(ToServerSignedMessage::try_parse(bytes))
    }
}

impl ToServerRawMessage {
    /// Whether the payload holds all the keys that it announces.
    pub fn is_key_list_complete(&self) -> (r: bool)
        ensures
            r == key_list_complete(self@.payload),
    {
        match self {
            ToServerRawMessage::SignedMessage { pubkey, timestamp, payload, signature } => {
                if payload.len() < 1 + 4 + 32 || payload[0] != 1 || payload[5] as usize
                    > MAX_REQUEST_PEERS {
                    return true;
                }
                6 + 32 * (payload[5] as usize) <= payload.len()
            },
        }
    }
}

/// The datagram for a connection request that is signed with `secret` at `timestamp`.
pub open spec fn signed_bytes(m: ConnectionRequestView, secret: Seq<u8>, timestamp: int) -> Seq<u8> {
    raw_bytes(
        SignedMessageView {
            pubkey: ed25519_public_key(secret),
            timestamp,
            payload: request_bytes(m),
            signature: ed25519_signature(secret, signed_part(timestamp, request_bytes(m))),
        },
    )
}

/// Each key stands at its place in the concatenation.
proof fn concat_keys_layout(keys: Seq<Seq<u8>>)
    requires
        forall|i: int| 0 <= i < keys.len() ==> (#[trigger] keys[i]).len() == 32,
    ensures
        concat_keys(keys).len() == 32 * keys.len(),
        forall|i: int|
            0 <= i < keys.len() ==> concat_keys(keys).subrange(32 * i, 32 * i + 32)
                == #[trigger] keys[i],
    decreases keys.len(),
{
    if keys.len() > 0 {
        let front = keys.drop_last();
        concat_keys_layout(front);
        let all = concat_keys(keys);
        assert forall|i: int| 0 <= i < keys.len() implies all.subrange(32 * i, 32 * i + 32)
            == #[trigger] keys[i] by {
            if i < front.len() {
                assert(front[i] == keys[i]);
                assert(all.subrange(32 * i, 32 * i + 32) =~= concat_keys(front).subrange(
                    32 * i,
                    32 * i + 32,
                ));
            } else {
                assert(all.subrange(32 * i, 32 * i + 32) =~= keys.last());
            }
        }
    }
}

/// A connection request is read back from its payload if it names 1 to 10 peers. One that names
/// no peer is too short to be read.
pub proof fn request_parse_of_bytes(m: ConnectionRequestView)
    requires
        m.peer_pubkeys.len() <= MAX_REQUEST_PEERS,
        forall|i: int| 0 <= i < m.peer_pubkeys.len() ==> (#[trigger] m.peer_pubkeys[i]).len() == 32,
    ensures
        m.peer_pubkeys.len() > 0 ==> request_parse(request_bytes(m)) == Ok::<
            ConnectionRequestView,
            ParseError,
        >(m),
        m.peer_pubkeys.len() == 0 ==> request_parse(request_bytes(m)) == Err::<
            ConnectionRequestView,
            ParseError,
        >(ParseError::InvalidContentFormat),
        key_list_complete(request_bytes(m)),
{
    let p = request_bytes(m);
    let id = m.session_id as nat;
    let keys = concat_keys(m.peer_pubkeys);
    byte_range_values();
    le_bytes_len(id, 4);
    le_read_write(id, 4);
    concat_keys_layout(m.peer_pubkeys);
    assert(p.subrange(1, 5) =~= le_bytes(id, 4));
    assert(p[0] == 1);
    assert(p[5] == m.peer_pubkeys.len());
    assert(p.len() == 6 + 32 * m.peer_pubkeys.len());
    if m.peer_pubkeys.len() > 0 {
        let got = request_parse(p)->Ok_0;
        assert forall|i: int| 0 <= i < m.peer_pubkeys.len() implies request_key(p, i)
            == #[trigger] m.peer_pubkeys[i] by {
            assert(request_key(p, i) =~= keys.subrange(32 * i, 32 * i + 32));
        }
        assert(got.peer_pubkeys =~= m.peer_pubkeys);
    }
}

impl ToServerSignedMessage {
    /// The payload for this message.
    fn payload_bytes(&self) -> (r: Vec<u8>)
        requires
            self@.peer_pubkeys.len() <= MAX_REQUEST_PEERS,
        ensures
            r@ == request_bytes(self@),
    {
        match self {
            ToServerSignedMessage::ConnectionRequest { peer_pubkeys, session_id } => {
                let mut payload: Vec<u8> = Vec::new();
                payload.push(1);
                push_u32(&mut payload, *session_id);
                payload.push(peer_pubkeys.len() as u8);
                let ghost head = seq![1u8] + le_bytes(*session_id as nat, 4) + seq![
                    peer_pubkeys@.len() as u8,
                ];
                let ghost keys = self@.peer_pubkeys;
                assert(payload@ =~= head + concat_keys(keys.take(0)));
                let mut i: usize = 0;
                while i < peer_pubkeys.len()
                    invariant
                        i <= peer_pubkeys@.len(),
                        keys == key_views(peer_pubkeys@),
                        payload@ == head + concat_keys(keys.take(i as int)),
                    decreases peer_pubkeys@.len() - i,
                {
                    push_bytes(&mut payload, peer_pubkeys[i].as_slice());
                    proof {
                        let longer = keys.take(i + 1);
                        assert(longer.drop_last() =~= keys.take(i as int));
                        assert(payload@ =~= head + concat_keys(longer));
                    }
                    i = i + 1;
                }
                assert(keys.take(i as int) =~= keys);
                payload
            },
        }
    }

    /// The datagram for this message, signed with `key` at the time `timestamp`. A receiver reads
    /// the same message from it and knows the sender, if the message names a peer and the
    /// timestamp is a date.
    pub fn to_bytes_at(&self, key: &SecretKey, timestamp: i64) -> (r: Vec<u8>)
        requires
            self@.peer_pubkeys.len() <= MAX_REQUEST_PEERS,
        ensures
            r@ == signed_bytes(self@, key@, timestamp as int),
            r@.len() == 112 + 32 * self@.peer_pubkeys.len(),
            timestamp_valid(timestamp as int) ==> !overruns(r@) && signed_parse(r@) == if self@.peer_pubkeys.len()
                > 0 {
                Ok::<Verified, ParseError>((self@, ed25519_public_key(key@), timestamp as int))
            } else {
                Err(ParseError::InvalidContentFormat)
            },
    {
        let payload = self.payload_bytes();
        let mut msg: Vec<u8> = Vec::new();
        push_i64(&mut msg, timestamp);
        push_bytes(&mut msg, payload.as_slice());
        assert(msg@ =~= signed_part(timestamp as int, payload@));
        let signature = sign(key, msg.as_slice());
        let pubkey = public_key_of(key);
        let raw = ToServerRawMessage::SignedMessage { pubkey, timestamp, payload, signature };
        proof {
            assert forall|i: int| 0 <= i < self@.peer_pubkeys.len() implies (
            #[trigger] self@.peer_pubkeys[i]).len() == 32 by {}
            concat_keys_layout(self@.peer_pubkeys);
            le_bytes_len(self@.session_id as nat, 4);
            le_bytes_len(to_unsigned64(timestamp as int), 8);
            if timestamp_valid(timestamp as int) {
                raw_parse_of_bytes(raw@);
                request_parse_of_bytes(self@);
            }
        }
        raw.to_bytes()
    }

    /// The datagram for this message, signed with `key` at the moment `now`, to the millisecond. A
    /// receiver reads the same message from it and knows the sender, if the message names a peer.
    pub fn to_bytes_when(&self, key: &SecretKey, now: UtcTime) -> (r: Vec<u8>)
        requires
            self@.peer_pubkeys.len() <= MAX_REQUEST_PEERS,
            now.nanos < NANOS_PER_SEC,
            timestamp_valid(now.total_millis()),
        ensures
            r@ == signed_bytes(self@, key@, now.total_millis()),
            r@.len() == 112 + 32 * self@.peer_pubkeys.len(),
            !overruns(r@),
            signed_parse(r@) == if self@.peer_pubkeys.len() > 0 {
                Ok::<Verified, ParseError>((self@, ed25519_public_key(key@), now.total_millis()))
            } else {
                Err(ParseError::InvalidContentFormat)
            },
    {
        let timestamp: i64 = now.secs * 1000 + (now.nanos / NANOS_PER_MILLI as u32) as i64;
        self.to_bytes_at(key, timestamp)
    }

    /// The datagram for this message, signed with `key` now.
    pub fn to_bytes(&self, key: &SecretKey) -> (r: Vec<u8>)
        requires
            self@.peer_pubkeys.len() <= MAX_REQUEST_PEERS,
        ensures
            exists|timestamp: i64| #[trigger]
                timestamp_valid(timestamp as int) && 0 <= timestamp && r@ == signed_bytes(
                    self@,
                    key@,
                    timestamp as int,
                ),
            r@.len() == 112 + 32 * self@.peer_pubkeys.len(),
            !overruns(r@),
            match signed_parse(r@) {
                Ok(v) => self@.peer_pubkeys.len() > 0 && v.0 == self@ && v.1 == ed25519_public_key(
                    key@,
                ),
                Err(e) => self@.peer_pubkeys.len() == 0 && e == ParseError::InvalidContentFormat,
            },
    {
        let now = utc_now();
        let r = self.to_bytes_when(key, now);
        assert(timestamp_valid((now.total_millis() as i64) as int));
        r
    }
}

/// What the server tells a client.
pub enum FromServerView {
    InitiateConnectionRequest {
        peer_pubkey: Seq<u8>,
        peer_address: SocketAddrV4,
        remote_session_id: u32,
        is_listener: bool,
    },
    LostConnectionRequest { peer_pubkey: Seq<u8>, peer_address: SocketAddrV4 },
}

/// A datagram from the server.
pub enum FromServerMessage {
    /// Two requests match: the connection to the peer is to be started.
    InitiateConnectionRequest {
        peer_pubkey: PublicKey,
        peer_address: SocketAddrV4,
        remote_session_id: u32,
        is_listener: bool,
    },
    /// Notification about a lost connection request: a new session id is to be generated.
    LostConnectionRequest { peer_pubkey: PublicKey, peer_address: SocketAddrV4 },
}

impl View for FromServerMessage {
    type V = FromServerView;

    open spec fn view(&self) -> FromServerView {
        match self {
            FromServerMessage::InitiateConnectionRequest {
                peer_pubkey,
                peer_address,
                remote_session_id,
                is_listener,
            } => FromServerView::InitiateConnectionRequest {
                peer_pubkey: peer_pubkey@,
                peer_address: *peer_address,
                remote_session_id: *remote_session_id,
                is_listener: *is_listener,
            },
            FromServerMessage::LostConnectionRequest { peer_pubkey, peer_address } =>
                FromServerView::LostConnectionRequest {
                    peer_pubkey: peer_pubkey@,
                    peer_address: *peer_address,
                },
        }
    }
}

/// The six bytes of an address.
pub open spec fn address_bytes(a: SocketAddrV4) -> Seq<u8> {
    a.ip.octets() + le_bytes(a.port as nat, 2)
}

/// The address in six bytes at `at`.
pub open spec fn address_at(b: Seq<u8>, at: int) -> SocketAddrV4 {
    SocketAddrV4 {
        ip: Ipv4Addr { a: b[at], b: b[at + 1], c: b[at + 2], d: b[at + 3] },
        port: le_value(b.subrange(at + 4, at + 6)) as u16,
    }
}

/// The datagram for a message from the server.
pub open spec fn from_server_bytes(m: FromServerView) -> Seq<u8> {
    match m {
        FromServerView::InitiateConnectionRequest {
            peer_pubkey,
            peer_address,
            remote_session_id,
            is_listener,
        } => seq![1u8] + peer_pubkey + address_bytes(peer_address) + le_bytes(
            remote_session_id as nat,
            4,
        ) + seq![if is_listener { 1u8 } else { 0u8 }],
        FromServerView::LostConnectionRequest { peer_pubkey, peer_address } => seq![2u8]
            + peer_pubkey + address_bytes(peer_address),
    }
}

/// What a datagram from the server means.
pub open spec fn from_server_parse(b: Seq<u8>) -> Result<FromServerView, ParseError> {
    if b.len() == 0 {
        Err(ParseError::TooShort)
    } else if b[0] == 1 {
        if b.len() < 1 + 32 + 4 + 2 + 4 + 1 {
            Err(ParseError::TooShort)
        } else {
            Ok(
                FromServerView::InitiateConnectionRequest {
                    peer_pubkey: b.subrange(1, 33),
                    peer_address: address_at(b, 33),
                    remote_session_id: le_value(b.subrange(39, 43)) as u32,
                    is_listener: b[43] == 1,
                },
            )
        }
    } else if b[0] == 2 {
        if b.len() < 1 + 32 + 4 + 2 {
            Err(ParseError::TooShort)
        } else {
            Ok(
                FromServerView::LostConnectionRequest {
                    peer_pubkey: b.subrange(1, 33),
                    peer_address: address_at(b, 33),
                },
            )
        }
    } else {
        Err(ParseError::InvalidMessageId(b[0]))
    }
}

fn read_address(bytes: &[u8], at: usize) -> (r: SocketAddrV4)
    requires
        at + 6 <= bytes@.len(),
    ensures
        r == address_at(bytes@, at as int),
{
    let ip = Ipv4Addr::new(bytes[at], bytes[at + 1], bytes[at + 2], bytes[at + 3]);
    SocketAddrV4 { ip, port: read_u16(bytes, at + 4) }
}

fn push_address(out: &mut Vec<u8>, address: &SocketAddrV4)
    ensures
        final(out)@ == old(out)@ + address_bytes(*address),
{
    out.push(address.ip.a);
    out.push(address.ip.b);
    out.push(address.ip.c);
    out.push(address.ip.d);
    push_u16(out, address.port);
    assert(out@ =~= old(out)@ + address_bytes(*address));
}

impl FromServerMessage {
    /// Reads a datagram from the server.
    pub fn try_parse(bytes: &[u8]) -> (r: Result<FromServerMessage, ParseError>)
        ensures
            match r {
                Ok(m) => from_server_parse(bytes@) == Ok::<FromServerView, ParseError>(m@),
                Err(e) => from_server_parse(bytes@) == Err::<FromServerView, ParseError>(e),
            },
    {
        if bytes.len() == 0 {
            return Err(ParseError::TooShort);
        }
        let msg_id: u8 = bytes[0];
        if msg_id == 1 {
            if bytes.len() < 1 + 32 + 4 + 2 + 4 + 1 {
                return Err(ParseError::TooShort);
            }
            let peer_pubkey: PublicKey = read_array(bytes, 1);
            let peer_address = read_address(bytes, 33);
            let remote_session_id: u32 = read_u32(bytes, 39);
            let is_listener = bytes[43] == 1;
            Ok(
                FromServerMessage::InitiateConnectionRequest {
                    peer_pubkey,
                    peer_address,
                    remote_session_id,
                    is_listener,
                },
            )
        } else if msg_id == 2 {
            if bytes.len() < 1 + 32 + 4 + 2 {
                return Err(ParseError::TooShort);
            }
            let peer_pubkey: PublicKey = read_array(bytes, 1);
            let peer_address = read_address(bytes, 33);
            Ok(FromServerMessage::LostConnectionRequest { peer_pubkey, peer_address })
        } else {
            Err(ParseError::InvalidMessageId(msg_id))
        }
    }

    /// The datagram for this message.
    pub fn to_bytes(&self) -> (r: Vec<u8>)
        ensures
            r@ == from_server_bytes(self@),
    {
        let mut payload: Vec<u8> = Vec::new();
        match self {
            FromServerMessage::InitiateConnectionRequest {
                peer_pubkey,
                peer_address,
                remote_session_id,
                is_listener,
            } => {
                payload.push(1);
                assert(payload@ =~= seq![1u8]);
                push_bytes(&mut payload, peer_pubkey.as_slice());
                push_address(&mut payload, peer_address);
                push_u32(&mut payload, *remote_session_id);
                let ghost before = payload@;
                payload.push(if *is_listener { 1 } else { 0 });
                assert(payload@ =~= before + seq![if *is_listener { 1u8 } else { 0u8 }]);
            },
            FromServerMessage::LostConnectionRequest { peer_pubkey, peer_address } => {
                payload.push(2);
                assert(payload@ =~= seq![2u8]);
                push_bytes(&mut payload, peer_pubkey.as_slice());
                push_address(&mut payload, peer_address);
            },
        }
        payload
    }
}

/// The key of the peer that a message from the server is about.
pub open spec fn subject_of(m: FromServerView) -> Seq<u8> {
    match m {
        FromServerView::InitiateConnectionRequest { peer_pubkey, .. } => peer_pubkey,
        FromServerView::LostConnectionRequest { peer_pubkey, .. } => peer_pubkey,
    }
}

/// A message from the server is read back from its datagram, whatever bytes follow.
pub proof fn from_server_parse_of_bytes(m: FromServerView, tail: Seq<u8>)
    requires
        subject_of(m).len() == 32,
    ensures
        from_server_parse(from_server_bytes(m) + tail) == Ok::<FromServerView, ParseError>(m),
        from_server_parse(from_server_bytes(m)) == Ok::<FromServerView, ParseError>(m),
{
    from_server_bytes_are_read(m, tail);
    from_server_bytes_are_read(m, Seq::empty());
    assert(from_server_bytes(m) + Seq::<u8>::empty() =~= from_server_bytes(m));
}

proof fn from_server_bytes_are_read(m: FromServerView, tail: Seq<u8>)
    requires
        subject_of(m).len() == 32,
    ensures
        from_server_parse(from_server_bytes(m) + tail) == Ok::<FromServerView, ParseError>(m),
{
    let b = from_server_bytes(m) + tail;
    byte_range_values();
    let address = match m {
        FromServerView::InitiateConnectionRequest { peer_address, .. } => peer_address,
        FromServerView::LostConnectionRequest { peer_address, .. } => peer_address,
    };
    le_bytes_len(address.port as nat, 2);
    le_read_write(address.port as nat, 2);
    assert(b.subrange(1, 33) =~= subject_of(m));
    assert(b.subrange(37, 39) =~= le_bytes(address.port as nat, 2));
    assert(address_at(b, 33) == address);
    if let FromServerView::InitiateConnectionRequest { remote_session_id, .. } = m {
        le_bytes_len(remote_session_id as nat, 4);
        le_read_write(remote_session_id as nat, 4);
        assert(b.subrange(39, 43) =~= le_bytes(remote_session_id as nat, 4));
    }
}

/// A datagram to the server is read byte by byte: its kind, which is 1, its version, which is at
/// most 2, eight bytes of timestamp, 64 of signature, 32 of key, and the payload. Each fault has its
/// own error, and the first one counts.
pub proof fn server_reads_datagrams(
    bytes: &[u8],
    r: Result<ToServerRawMessage, ParseError>,
)
    requires
        call_ensures(ToServerRawMessage::try_parse, (bytes,), r),
    ensures
        bytes@.len() < 3 ==> r == Err::<ToServerRawMessage, ParseError>(ParseError::TooShort),
        bytes@.len() >= 3 && bytes@[1] > 2 ==> r == Err::<ToServerRawMessage, ParseError>(
            ParseError::UnsupportedVersion { cur: 2, remote: bytes@[1] },
        ),
        bytes@.len() >= 3 && bytes@[1] <= 2 && bytes@[0] != 1 ==> r == Err::<
            ToServerRawMessage,
            ParseError,
        >(ParseError::InvalidMessageId(bytes@[0])),
        3 <= bytes@.len() < 106 && bytes@[1] <= 2 && bytes@[0] == 1 ==> r == Err::<
            ToServerRawMessage,
            ParseError,
        >(ParseError::TooShort),
        bytes@.len() >= 106 && bytes@[1] <= 2 && bytes@[0] == 1 ==> {
            let stamp = to_signed64(le_value(bytes@.subrange(2, 10)));
            if -8_334_601_228_800_000 <= stamp <= 8_210_266_876_799_999 {
                match r {
                    Ok(
                        ToServerRawMessage::SignedMessage { pubkey, timestamp, payload, signature },
                    ) => {
                        &&& timestamp == stamp
                        &&& bytes@ == bytes@.take(10) + signature@ + pubkey@ + payload@
                    },
                    Err(_) => false,
                }
            } else {
                r == Err::<ToServerRawMessage, ParseError>(ParseError::InvalidTimestamp)
            }
        },
{
    if let Ok(m) = r {
        let m = m@;
        assert(bytes@ =~= bytes@.take(10) + m.signature + m.pubkey + m.payload);
    }
}

/// A datagram to the server holds its parts one after the other, in the order in which they are
/// read.
pub proof fn server_datagram_holds_its_parts(m: ToServerRawMessage, bytes: Vec<u8>)
    requires
        call_ensures(ToServerRawMessage::to_bytes, (&m,), bytes),
    ensures
        m matches ToServerRawMessage::SignedMessage { pubkey, timestamp, payload, signature } ==> {
            &&& bytes@.len() == 106 + payload@.len()
            &&& bytes@[0] == 1 && bytes@[1] == 2
            &&& to_signed64(le_value(bytes@.subrange(2, 10))) == timestamp
            &&& bytes@.subrange(10, 74) == signature@
            &&& bytes@.subrange(74, 106) == pubkey@
            &&& bytes@.skip(106) == payload@
        },
{
    let ToServerRawMessage::SignedMessage { pubkey, timestamp, payload, signature } = m;
    timestamp_round_trip(timestamp as int);
    assert(bytes@.subrange(2, 10) =~= timestamp_bytes(timestamp as int));
    assert(bytes@.subrange(10, 74) =~= signature@);
    assert(bytes@.subrange(74, 106) =~= pubkey@);
    assert(bytes@.skip(106) =~= payload@);
}

/// A request is read from a payload byte by byte: its kind, which is 1, four bytes of session, the
/// number of keys, which is at most 10, and the keys. Each fault has its own error, and the first
/// one counts.
pub proof fn server_reads_requests(
    p: &[u8],
    r: Result<ToServerSignedMessage, ParseError>,
    i: int,
)
    requires
        call_ensures(ToServerSignedMessage::parse_payload, (p,), r),
    ensures
        p@.len() == 0 ==> r == Err::<ToServerSignedMessage, ParseError>(ParseError::TooShort),
        p@.len() > 0 && p@[0] != 1 ==> r == Err::<ToServerSignedMessage, ParseError>(
            ParseError::InvalidMessageId(p@[0]),
        ),
        0 < p@.len() < 37 && p@[0] == 1 ==> r == Err::<ToServerSignedMessage, ParseError>(
            ParseError::InvalidContentFormat,
        ),
        p@.len() >= 37 && p@[0] == 1 && p@[5] > 10 ==> r == Err::<
            ToServerSignedMessage,
            ParseError,
        >(ParseError::InvalidContentFormat),
        p@.len() >= 37 && p@[0] == 1 && p@[5] <= 10 ==> match r {
            Ok(ToServerSignedMessage::ConnectionRequest { peer_pubkeys, session_id }) => {
                &&& session_id == p@[1] + 256 * p@[2] + 65_536 * p@[3] + 16_777_216 * p@[4]
                &&& peer_pubkeys@.len() == p@[5]
                &&& 0 <= i < p@[5] ==> peer_pubkeys@[i]@ == p@.subrange(6 + 32 * i, 38 + 32 * i)
            },
            Err(_) => false,
        },
{
    if p@.len() >= 37 {
        crate::wire::least_significant_byte_comes_first(p@.subrange(1, 5), 0, 1, 0);
    }
    if let Ok(ToServerSignedMessage::ConnectionRequest { peer_pubkeys, session_id }) = r {
        let keys = key_views(peer_pubkeys@);
        assert(keys == Seq::new(p@[5] as nat, |j: int| request_key(p@, j)));
        assert(keys.len() == peer_pubkeys@.len());
        assert(p@.subrange(1, 5)[0] == p@[1]);
        assert(session_id == p@[1] + 256 * p@[2] + 65_536 * p@[3] + 16_777_216 * p@[4]);
        if 0 <= i < p@[5] {
            assert(keys[i] == peer_pubkeys@[i]@);
            assert(keys[i] == request_key(p@, i));
        }
    }
}

/// A payload announces more keys than it holds exactly if it is a request for at most 10 peers
/// whose keys do not all fit into it.
pub proof fn keys_must_fit(raw: ToServerRawMessage, r: bool)
    requires
        call_ensures(ToServerRawMessage::is_key_list_complete, (&raw,), r),
    ensures
        !r <==> {
            let p = raw@.payload;
            p.len() >= 37 && p[0] == 1 && p[5] <= 10 && p.len() < 6 + 32 * p[5]
        },
{
}

/// A message counts only if its key is a key and its signature belongs to its timestamp and its
/// payload under that key. Then it is the request in its payload, from that key and of that
/// time. The key is looked at first, then the signature, then the payload.
pub proof fn signature_is_checked_first(
    raw: ToServerRawMessage,
    key_valid: bool,
    signature_valid: bool,
    r: Result<(ToServerSignedMessage, PublicKey, i64), ParseError>,
    request: Result<ToServerSignedMessage, ParseError>,
    payload: &[u8],
)
    requires
        call_ensures(ToServerSignedMessage::accept, (raw, key_valid, signature_valid), r),
        payload@ == raw@.payload,
        call_ensures(ToServerSignedMessage::parse_payload, (payload,), request),
    ensures
        !key_valid ==> r == Err::<(ToServerSignedMessage, PublicKey, i64), ParseError>(
            ParseError::InvalidContentFormat,
        ),
        key_valid && !signature_valid ==> r == Err::<
            (ToServerSignedMessage, PublicKey, i64),
            ParseError,
        >(ParseError::InvalidSignature),
        key_valid && signature_valid ==> match request {
            Err(e) => r == Err::<(ToServerSignedMessage, PublicKey, i64), ParseError>(e),
            Ok(m) => match r {
                Ok((got, pubkey, timestamp)) => got@ == m@ && pubkey@ == raw@.pubkey && timestamp
                    == raw@.timestamp,
                Err(_) => false,
            },
        },
{
}

/// What is read from a datagram as a signed message is decided by the parts of the datagram, the
/// validity of its key, and whether its signature belongs to the eight bytes of its timestamp
/// followed by its payload.
pub proof fn signature_covers_time_and_payload(bytes: Seq<u8>)
    requires
        raw_parse(bytes) is Ok,
    ensures
        ({
            let key = bytes.subrange(74, 106);
            let message = bytes.subrange(2, 10) + bytes.skip(106);
            let valid = ed25519_verifies(key, message, bytes.subrange(10, 74));
            &&& !ed25519_key_valid(key) ==> signed_parse(bytes) == Err::<Verified, ParseError>(
                ParseError::InvalidContentFormat,
            )
            &&& ed25519_key_valid(key) && !valid ==> signed_parse(bytes) == Err::<
                Verified,
                ParseError,
            >(ParseError::InvalidSignature)
            &&& ed25519_key_valid(key) && valid ==> match request_parse(bytes.skip(106)) {
                Ok(request) => signed_parse(bytes) == Ok::<Verified, ParseError>(
                    (request, key, to_signed64(le_value(bytes.subrange(2, 10)))),
                ),
                Err(e) => signed_parse(bytes) == Err::<Verified, ParseError>(e),
            }
            &&& overruns(bytes) <==> ed25519_key_valid(key) && valid && !key_list_complete(
                bytes.skip(106),
            )
        }),
{
    let t = bytes.subrange(2, 10);
    byte_range_values();
    le_value_bound(t);
    le_write_read(t);
    assert(to_unsigned64(to_signed64(le_value(t))) == le_value(t));
    assert(timestamp_bytes(to_signed64(le_value(t))) == t);
}

/// Reading a signed datagram gives what it means, and nothing if it announces more keys than it
/// holds.
pub proof fn signed_datagrams_are_read(
    bytes: &[u8],
    r: Option<Result<(ToServerSignedMessage, PublicKey, i64), ParseError>>,
)
    requires
        call_ensures(ToServerSignedMessage::try_parse_checked, (bytes,), r),
    ensures
        r is None <==> overruns(bytes@),
        r matches Some(Ok(m)) ==> signed_parse(bytes@) == Ok::<Verified, ParseError>(
            (m.0@, m.1@, m.2 as int),
        ),
        r matches Some(Err(e)) ==> signed_parse(bytes@) == Err::<Verified, ParseError>(e),
{
}

/// A signed request is read back from its datagram, with its sender and its time, by whoever gets
/// it.
pub proof fn signed_requests_are_read_back(
    m: ToServerSignedMessage,
    key: SecretKey,
    timestamp: i64,
    bytes: Vec<u8>,
)
    requires
        call_ensures(ToServerSignedMessage::to_bytes_at, (&m, &key, timestamp), bytes),
        0 < m@.peer_pubkeys.len() <= 10,
        -8_334_601_228_800_000 <= timestamp <= 8_210_266_876_799_999,
    ensures
        !overruns(bytes@),
        signed_parse(bytes@) == Ok::<Verified, ParseError>(
            (m@, ed25519_public_key(key@), timestamp as int),
        ),
        bytes@.len() == 112 + 32 * m@.peer_pubkeys.len(),
{
}

/// A datagram from the server is read byte by byte: its kind, 32 bytes of key, four of address and
/// two of port, and for an introduction, whose kind is 1, four bytes of session and one that tells
/// who listens. Bytes beyond that do not count.
pub proof fn client_reads_datagrams(b: &[u8], r: Result<FromServerMessage, ParseError>)
    requires
        call_ensures(FromServerMessage::try_parse, (b,), r),
    ensures
        b@.len() == 0 ==> r == Err::<FromServerMessage, ParseError>(ParseError::TooShort),
        b@.len() > 0 && b@[0] != 1 && b@[0] != 2 ==> r == Err::<FromServerMessage, ParseError>(
            ParseError::InvalidMessageId(b@[0]),
        ),
        0 < b@.len() < 44 && b@[0] == 1 ==> r == Err::<FromServerMessage, ParseError>(
            ParseError::TooShort,
        ),
        0 < b@.len() < 39 && b@[0] == 2 ==> r == Err::<FromServerMessage, ParseError>(
            ParseError::TooShort,
        ),
        b@.len() >= 44 && b@[0] == 1 ==> match r {
            Ok(
                FromServerMessage::InitiateConnectionRequest {
                    peer_pubkey,
                    peer_address,
                    remote_session_id,
                    is_listener,
                },
            ) => {
                &&& peer_pubkey@ == b@.subrange(1, 33)
                &&& peer_address.ip == (Ipv4Addr { a: b@[33], b: b@[34], c: b@[35], d: b@[36] })
                &&& peer_address.port == b@[37] + 256 * b@[38]
                &&& remote_session_id == b@[39] + 256 * b@[40] + 65_536 * b@[41] + 16_777_216
                    * b@[42]
                &&& is_listener <==> b@[43] == 1
            },
            _ => false,
        },
        b@.len() >= 39 && b@[0] == 2 ==> match r {
            Ok(FromServerMessage::LostConnectionRequest { peer_pubkey, peer_address }) => {
                &&& peer_pubkey@ == b@.subrange(1, 33)
                &&& peer_address.ip == (Ipv4Addr { a: b@[33], b: b@[34], c: b@[35], d: b@[36] })
                &&& peer_address.port == b@[37] + 256 * b@[38]
            },
            _ => false,
        },
{
    if b@.len() >= 39 {
        crate::wire::least_significant_byte_comes_first(b@.subrange(37, 39), 0, 1, 0);
    }
    if b@.len() >= 44 {
        crate::wire::least_significant_byte_comes_first(b@.subrange(39, 43), 0, 1, 0);
    }
}

/// A message from the server is read back from its datagram.
pub proof fn server_messages_are_read_back(
    m: FromServerMessage,
    bytes: Vec<u8>,
    got: &[u8],
    r: Result<FromServerMessage, ParseError>,
)
    requires
        call_ensures(FromServerMessage::to_bytes, (&m,), bytes),
        got@ == bytes@,
        call_ensures(FromServerMessage::try_parse, (got,), r),
    ensures
        r is Ok,
        r->Ok_0@ == m@,
        m is InitiateConnectionRequest ==> bytes@.len() == 44 && bytes@[0] == 1,
        m is LostConnectionRequest ==> bytes@.len() == 39 && bytes@[0] == 2,
{
    from_server_parse_of_bytes(m@, Seq::empty());
    let address = match m {
        FromServerMessage::InitiateConnectionRequest { peer_address, .. } => peer_address,
        FromServerMessage::LostConnectionRequest { peer_address, .. } => peer_address,
    };
    le_bytes_len(address.port as nat, 2);
    if let FromServerMessage::InitiateConnectionRequest { remote_session_id, .. } = m {
        le_bytes_len(remote_session_id as nat, 4);
    }
}

/// Each error is put into words, with the numbers that it holds.
pub proof fn parse_errors_are_named(e: ParseError, r: String)
    requires
        call_ensures(ParseError::message, (&e,), r),
    ensures
        e matches ParseError::InvalidMessageId(id) ==> r@ == "Invalid message id: "@ + decimal(
            id as nat,
        ),
        e matches ParseError::UnsupportedVersion { cur, remote } ==> r@
            == "Unsupported protocol version! cur: "@ + decimal(cur as nat) + ", remote: "@ + decimal(
            remote as nat,
        ),
        e is TooShort ==> r@ == "Message is too short"@,
        e is InvalidTimestamp ==> r@ == "Invalid timestamp"@,
        e is InvalidContentFormat ==> r@ == "Invalid message content format"@,
        e is InvalidSignature ==> r@ == "Signature verification failed"@,
{
}

/// A request that is signed now is read back from its datagram, with its sender and some time since
/// 1970.
pub proof fn requests_signed_now_are_read_back(
    m: ToServerSignedMessage,
    key: SecretKey,
    bytes: Vec<u8>,
)
    requires
        call_ensures(ToServerSignedMessage::to_bytes, (&m, &key), bytes),
        0 < m@.peer_pubkeys.len() <= 10,
    ensures
        !overruns(bytes@),
        signed_parse(bytes@) matches Ok(v) && v.0 == m@ && v.1 == ed25519_public_key(key@),
        bytes@.len() == 112 + 32 * m@.peer_pubkeys.len(),
{
}

/// Messages are seen with all that they say.
pub proof fn messages_are_seen_in_full(
    keys: Vec<PublicKey>,
    session_id: u32,
    i: int,
    key: PublicKey,
    address: SocketAddrV4,
    is_listener: bool,
    timestamp: i64,
    payload: Vec<u8>,
    signature: Signature,
)
    ensures
        ({
            let m = ToServerSignedMessage::ConnectionRequest { peer_pubkeys: keys, session_id };
            &&& m@.session_id == session_id
            &&& m@.peer_pubkeys.len() == keys@.len()
            &&& 0 <= i < keys@.len() ==> m@.peer_pubkeys[i] == keys@[i]@
        }),
        ({
            let m = ToServerRawMessage::SignedMessage {
                pubkey: key,
                timestamp,
                payload,
                signature,
            };
            &&& m@.pubkey == key@
            &&& m@.timestamp == timestamp
            &&& m@.payload == payload@
            &&& m@.signature == signature@
        }),
        (FromServerMessage::InitiateConnectionRequest {
            peer_pubkey: key,
            peer_address: address,
            remote_session_id: session_id,
            is_listener,
        })@ == (FromServerView::InitiateConnectionRequest {
            peer_pubkey: key@,
            peer_address: address,
            remote_session_id: session_id,
            is_listener,
        }),
        (FromServerMessage::LostConnectionRequest { peer_pubkey: key, peer_address: address })@ == (
        FromServerView::LostConnectionRequest { peer_pubkey: key@, peer_address: address }),
{
}

/// A request is signed for the millisecond in which it is made.
pub proof fn requests_carry_their_time(
    m: ToServerSignedMessage,
    key: SecretKey,
    now: UtcTime,
    bytes: Vec<u8>,
)
    requires
        call_ensures(ToServerSignedMessage::to_bytes_when, (&m, &key, now), bytes),
        0 < m@.peer_pubkeys.len() <= 10,
        now.nanos < 1_000_000_000,
    ensures
        !overruns(bytes@),
        signed_parse(bytes@) matches Ok(v) && {
            let nanos = now.secs * 1_000_000_000 + now.nanos;
            v.0 == m@ && v.1 == ed25519_public_key(key@) && v.2 * 1_000_000 <= nanos < v.2
                * 1_000_000 + 1_000_000
        },
{
}

} // verus!
