//! The messages between TCP clients and the server.
use vstd::prelude::*;
use vstd::string::StringExecFns;
use crate::net::SocketAddr;

verus! {

/// What a service says of itself.
#[derive(Debug)]
pub struct ClientAnnouncementData {
    pub session: u64,
    pub app: String,
    pub username: String,
}

impl Clone for ClientAnnouncementData {
    fn clone(&self) -> (r: Self)
        ensures
            r == *self,
    {
        ClientAnnouncementData {
            session: self.session,
            app: self.app.clone(),
            username: self.username.clone(),
        }
    }
}

impl ClientAnnouncementData {
    /// Whether two announcements say the same.
    pub open spec fn says_same(self, other: ClientAnnouncementData) -> bool {
        &&& self.session == other.session
        &&& self.app@ == other.app@
        &&& self.username@ == other.username@
    }

    /// Whether two announcements say the same.
    pub fn same(&self, other: &ClientAnnouncementData) -> (r: bool)
        ensures
            r == self.says_same(*other),
    {
        self.session == other.session && self.app == other.app && self.username == other.username
    }

    /// The service in words: its application in brackets, and its user.
    pub fn label(&self) -> (r: String)
        ensures
            r@ == "["@ + self.app@ + "] "@ + self.username@,
    {
        "[".to_owned().concat(self.app.as_str()).concat("] ").concat(self.username.as_str())
    }
}

/// The question for the services of an application.
#[derive(Debug)]
pub struct GetClients {
    pub app: String,
}

/// The request to be connected to a service.
#[derive(Debug, Clone, Copy, PartialEq, Eq, Structural)]
pub struct ConnectionRequest {
    pub session: u64,
}

/// A message to the server.
#[derive(Debug)]
pub enum ToNatServerMsg {
    AnnounceAndCheck(ClientAnnouncementData),
    GetClients(GetClients),
    ConnectionRequest(ConnectionRequest),
}

/// A service that is known to the server.
#[derive(Debug)]
pub struct ClientAnnouncement {
    pub data: ClientAnnouncementData,
    pub addr: SocketAddr,
    /// How long ago the service announced itself last, in nanoseconds.
    pub tm_ago: u128,
}

impl Clone for ClientAnnouncement {
    fn clone(&self) -> (r: Self)
        ensures
            r == *self,
    {
        ClientAnnouncement { data: self.data.clone(), addr: self.addr, tm_ago: self.tm_ago }
    }
}

/// A message from the server.
#[derive(Debug)]
pub enum ToNatClientMsg {
    Clients(Vec<ClientAnnouncement>),
    /// Where the other side is.
    RemoteAddr(SocketAddr),
    /// In how many nanoseconds both sides start to connect.
    StartCountdown(u128),
}

impl ToNatClientMsg {
    /// The services in this message, if it lists them.
    pub fn clients(self) -> (r: Option<Vec<ClientAnnouncement>>)
        ensures
            r == match self {
                ToNatClientMsg::Clients(clients) => Some(clients),
                _ => None,
            },
    {
        match self {
            ToNatClientMsg::Clients(clients) => Some(clients),
            _ => None,
        }
    }

    /// The address in this message, if it holds one.
    pub fn remote_addr(&self) -> (r: Option<SocketAddr>)
        ensures
            r == match *self {
                ToNatClientMsg::RemoteAddr(addr) => Some(addr),
                _ => None,
            },
    {
        match self {
            ToNatClientMsg::RemoteAddr(addr) => Some(*addr),
            _ => None,
        }
    }

    /// The countdown in this message, if it starts one.
    pub fn countdown(&self) -> (r: Option<u128>)
        ensures
            r == match *self {
                ToNatClientMsg::StartCountdown(nanos) => Some(nanos),
                _ => None,
            },
    {
        match self {
            ToNatClientMsg::StartCountdown(nanos) => Some(*nanos),
            _ => None,
        }
    }
}

/// A message gives what it holds, and nothing of what it does not hold.
pub proof fn messages_give_what_they_hold(
    m: ToNatClientMsg,
    list: Option<Vec<ClientAnnouncement>>,
    addr: Option<SocketAddr>,
    nanos: Option<u128>,
)
    requires
        call_ensures(ToNatClientMsg::clients, (m,), list),
        call_ensures(ToNatClientMsg::remote_addr, (&m,), addr),
        call_ensures(ToNatClientMsg::countdown, (&m,), nanos),
    ensures
        list matches Some(l) ==> m == ToNatClientMsg::Clients(l),
        addr matches Some(a) ==> m == ToNatClientMsg::RemoteAddr(a),
        nanos matches Some(n) ==> m == ToNatClientMsg::StartCountdown(n),
        list is Some || addr is Some || nanos is Some,
{
}

/// Announcements say the same exactly if they agree in session, application and user, which is also
/// when a copy is taken.
pub proof fn announcements_are_compared(
    x: ClientAnnouncementData,
    y: ClientAnnouncementData,
    r: bool,
    copy: ClientAnnouncementData,
)
    requires
        call_ensures(ClientAnnouncementData::same, (&x, &y), r),
        call_ensures(ClientAnnouncementData::clone, (&x,), copy),
    ensures
        r <==> x.session == y.session && x.app@ == y.app@ && x.username@ == y.username@,
        copy.session == x.session && copy.app@ == x.app@ && copy.username@ == x.username@,
{
}

/// A service is put into words with its application in brackets and its user behind it.
pub proof fn services_are_named(x: ClientAnnouncementData, r: String)
    requires
        call_ensures(ClientAnnouncementData::label, (&x,), r),
    ensures
        r@ == "["@ + x.app@ + "] "@ + x.username@,
{
}

} // verus!
