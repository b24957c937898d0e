use vstd::prelude::*;

use crate::sealed::Sealed;

verus! {

/// A server edition. Only this crate defines editions.
///
/// Each edition declares, once and for all, which protocol surfaces it speaks.
pub trait ExchangeServerType: Sealed {
    /// The edition speaks the legacy XML operation protocol (EWS).
    spec fn speaks_ews() -> bool;

    /// The edition speaks the REST operation protocol (Graph).
    spec fn speaks_graph() -> bool;
}

/// On-premises Exchange 2016: speaks both protocols.
#[derive(Debug, Clone, PartialEq, Eq)]
pub struct Exchange2016;

impl Sealed for Exchange2016 {}

impl ExchangeServerType for Exchange2016 {
    open spec fn speaks_ews() -> bool {
        true
    }

    open spec fn speaks_graph() -> bool {
        true
    }
}

/// On-premises Exchange 2019: speaks both protocols.
#[derive(Debug, Clone, PartialEq, Eq)]
pub struct Exchange2019;

impl Sealed for Exchange2019 {}

impl ExchangeServerType for Exchange2019 {
    open spec fn speaks_ews() -> bool {
        true
    }

    open spec fn speaks_graph() -> bool {
        true
    }
}

/// Exchange Online: speaks the REST protocol only.
#[derive(Debug, Clone, PartialEq, Eq)]
pub struct ExchangeOnline;

impl Sealed for ExchangeOnline {}

impl ExchangeServerType for ExchangeOnline {
    open spec fn speaks_ews() -> bool {
        false
    }

    open spec fn speaks_graph() -> bool {
        true
    }
}

/// Session status of a connection.
#[derive(Debug, Clone, PartialEq, Eq, Structural)]
pub enum ExchangeServerState {
    Connected,
    Authenticated,
    Unauthenticated,
    Disconnected,
}

impl Default for ExchangeServerState {
    fn default() -> (r: Self)
        ensures
            r == ExchangeServerState::Disconnected,
    {
        ExchangeServerState::Disconnected
    }
}

/// Why one protocol exchange failed.
#[derive(Debug, Clone, PartialEq, Eq, Structural)]
pub enum ProtocolError {
    /// The transport failed.
    Network,
    /// The server's answer could not be read.
    MalformedResponse,
    /// The server refused the request.
    Rejected,
}

/// One session to a server of edition `ServerType`.
pub struct ExchangeConnection<ServerType: ExchangeServerType> {
    server_type: ServerType,
    server_state: ExchangeServerState,
}

impl<ServerType: ExchangeServerType> ExchangeConnection<ServerType> {
    /// The edition the connection is bound to.
    pub closed spec fn server(&self) -> ServerType {
        self.server_type
    }

    /// The session status.
    pub closed spec fn state(&self) -> ExchangeServerState {
        self.server_state
    }

    pub open spec fn is_connected(&self) -> bool {
        self.state() == ExchangeServerState::Connected
    }

    pub open spec fn is_authenticated(&self) -> bool {
        self.state() == ExchangeServerState::Authenticated
    }

    pub fn new(server_type: ServerType) -> (r: Self)
        ensures
            r.server() == server_type,
            r.state() == ExchangeServerState::Disconnected,
    {
        Self { server_type, server_state: ExchangeServerState::Disconnected }
    }

    pub fn connected(&self) -> (r: bool)
        ensures
            r == self.is_connected(),
    {
        self.server_state == ExchangeServerState::Connected
    }

    pub fn disconnected(&self) -> (r: bool)
        ensures
            r == !self.is_connected(),
    {
        !self.connected()
    }

    pub fn authenticated(&self) -> (r: bool)
        ensures
            r == self.is_authenticated(),
    {
        self.server_state == ExchangeServerState::Authenticated
    }

    pub fn unauthenticated(&self) -> (r: bool)
        ensures
            r == !self.is_authenticated(),
    {
        !self.authenticated()
    }

    /// Marks the session as established; the edition is kept.
    pub(crate) fn establish(&mut self)
        ensures
            final(self).server() == old(self).server(),
            final(self).state() == ExchangeServerState::Connected,
    {
        self.server_state = ExchangeServerState::Connected;
    }

    /// Marks the session as torn down; the edition is kept.
    pub(crate) fn release(&mut self)
        ensures
            final(self).server() == old(self).server(),
            final(self).state() == ExchangeServerState::Disconnected,
    {
        self.server_state = ExchangeServerState::Disconnected;
    }
}

/// Two connections with the same edition and the same status are the same
/// value: the edition and the status are all that a connection holds.
pub proof fn lemma_connection_determined_by_observers<ServerType: ExchangeServerType>(
    a: ExchangeConnection<ServerType>,
    b: ExchangeConnection<ServerType>,
)
    requires
        a.server() == b.server(),
        a.state() == b.state(),
    ensures
        a == b,
{
}

/// An edition that speaks the legacy XML operation protocol (EWS).
pub trait EwsCompatible: ExchangeServerType {
    /// The edition's own declaration agrees.
    proof fn ews_declared()
        ensures
            Self::speaks_ews(),
    ;
}

impl EwsCompatible for Exchange2016 {
    proof fn ews_declared() {
    }
}

impl EwsCompatible for Exchange2019 {
    proof fn ews_declared() {
    }
}

/// An edition that speaks the REST operation protocol (Graph).
pub trait GraphApiCompatible: ExchangeServerType {
    /// The edition's own declaration agrees.
    proof fn graph_declared()
        ensures
            Self::speaks_graph(),
    ;
}

impl GraphApiCompatible for Exchange2016 {
    proof fn graph_declared() {
    }
}

impl GraphApiCompatible for Exchange2019 {
    proof fn graph_declared() {
    }
}

impl GraphApiCompatible for ExchangeOnline {
    proof fn graph_declared() {
    }
}

impl<ServerType: ExchangeServerType + EwsCompatible> ExchangeConnection<ServerType> {
    /// Completes one EWS exchange whose reply the codec produced: the reply is
    /// handed back unchanged and the session status is left as it is.
    pub fn ews_operation<T>(&self, reply: Result<T, ProtocolError>) -> (r: Result<T, ProtocolError>)
        ensures
            ServerType::speaks_ews(),
            r == reply,
    {
        proof {
            ServerType::ews_declared();
        }
        reply
    }
}

impl<ServerType: ExchangeServerType + GraphApiCompatible> ExchangeConnection<ServerType> {
    /// Completes one Graph exchange whose reply the codec produced: the reply is
    /// handed back unchanged and the session status is left as it is.
    pub fn graph_operation<T>(&self, reply: Result<T, ProtocolError>) -> (r: Result<T, ProtocolError>)
        ensures
            ServerType::speaks_graph(),
            r == reply,
    {
        proof {
            ServerType::graph_declared();
        }
        reply
    }
}

/// Every edition on which an EWS operation can be called speaks EWS; so no
/// edition without that protocol ever reaches one.
pub proof fn lemma_ews_needs_capability<ServerType: ExchangeServerType + EwsCompatible>()
    ensures
        ServerType::speaks_ews(),
{
    ServerType::ews_declared();
}

/// Every edition on which a Graph operation can be called speaks Graph; so no
/// edition without that protocol ever reaches one.
pub proof fn lemma_graph_needs_capability<ServerType: ExchangeServerType + GraphApiCompatible>()
    ensures
        ServerType::speaks_graph(),
{
    ServerType::graph_declared();
}

} // verus!
