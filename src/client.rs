use vstd::prelude::*;

use std::marker::PhantomData;

use crate::sealed::Sealed;
use crate::types::exchange::{
    lemma_connection_determined_by_observers, EwsCompatible, ExchangeConnection, ExchangeServerState, ExchangeServerType,
    GraphApiCompatible, ProtocolError,
};

verus! {

/// A lifecycle phase of a client. Only this crate defines phases.
pub trait ClientState: Sealed {
    /// The session status that the connection of a client in this phase has.
    spec fn session_state() -> ExchangeServerState;
}

/// The phase of a client with no live session.
#[derive(Debug, Clone, PartialEq, Eq)]
pub struct Disconnected;

impl Sealed for Disconnected {}

impl ClientState for Disconnected {
    open spec fn session_state() -> ExchangeServerState {
        ExchangeServerState::Disconnected
    }
}

/// The phase of a client whose handshake has completed.
#[derive(Debug, Clone, PartialEq, Eq)]
pub struct Connected;

impl Sealed for Connected {}

impl ClientState for Connected {
    open spec fn session_state() -> ExchangeServerState {
        ExchangeServerState::Connected
    }
}

/// The transport could not establish a session.
#[derive(Debug, Clone, PartialEq, Eq, Structural)]
pub struct HandshakeError;

/// The transport could not tear a session down cleanly.
#[derive(Debug, Clone, PartialEq, Eq, Structural)]
pub struct TeardownError;

/// A handle over one connection, tagged with its lifecycle phase.
///
/// The phase tag and the connection's status agree: a `Client<_, Connected>`
/// holds a connected session, a `Client<_, Disconnected>` a disconnected one.
pub struct Client<ServerType: ExchangeServerType, State: ClientState> {
    connection: ExchangeConnection<ServerType>,
    state: PhantomData<State>,
}

impl<ServerType: ExchangeServerType, State: ClientState> Client<ServerType, State> {
    #[verifier::type_invariant]
    closed spec fn phase_agrees(&self) -> bool {
        self.connection.state() == State::session_state()
    }

    /// The connection the client wraps.
    pub closed spec fn session(&self) -> ExchangeConnection<ServerType> {
        self.connection
    }

    /// Read access to the wrapped connection, whose status is the phase's.
    pub fn connection(&self) -> (r: &ExchangeConnection<ServerType>)
        ensures
            *r == self.session(),
            r.state() == State::session_state(),
    {
        proof {
            use_type_invariant(self);
        }
        &self.connection
    }
}

/// `after` is what a successful `connect` makes of `before`: the same edition,
/// now connected.
pub open spec fn connects_to<ServerType: ExchangeServerType>(
    before: Client<ServerType, Disconnected>,
    after: Client<ServerType, Connected>,
) -> bool {
    &&& after.session().server() == before.session().server()
    &&& after.session().state() == ExchangeServerState::Connected
}

/// `after` is what `disconnect` makes of `before`: the same edition, now
/// disconnected.
pub open spec fn disconnects_to<ServerType: ExchangeServerType>(
    before: Client<ServerType, Connected>,
    after: Client<ServerType, Disconnected>,
) -> bool {
    &&& after.session().server() == before.session().server()
    &&& after.session().state() == ExchangeServerState::Disconnected
}

/// Connecting a fresh client and disconnecting it again gives a client that is
/// observably the fresh one: the same edition, disconnected, and in fact the
/// very same connection value.
pub proof fn lemma_connect_disconnect_restores_fresh<ServerType: ExchangeServerType>(
    server_type: ServerType,
    fresh: Client<ServerType, Disconnected>,
    up: Client<ServerType, Connected>,
    down: Client<ServerType, Disconnected>,
)
    requires
        fresh.session().server() == server_type,
        fresh.session().state() == ExchangeServerState::Disconnected,
        connects_to(fresh, up),
        disconnects_to(up, down),
    ensures
        down.session().server() == server_type,
        down.session().state() == ExchangeServerState::Disconnected,
        down.session() == fresh.session(),
{
    lemma_connection_determined_by_observers(down.session(), fresh.session());
}

impl<ServerType: ExchangeServerType> Client<ServerType, Disconnected> {
    pub fn new(server_type: ServerType) -> (r: Self)
        ensures
            r.session().server() == server_type,
            r.session().state() == ExchangeServerState::Disconnected,
    {
        Self { connection: ExchangeConnection::new(server_type), state: PhantomData }
    }

    /// Takes the client to the connected phase once the transport has reported
    /// the handshake's outcome. On failure the client is consumed and only the
    /// error comes back.
    pub fn connect(self, handshake: Result<(), HandshakeError>) -> (r: Result<
        Client<ServerType, Connected>,
        HandshakeError,
    >)
        ensures
            r is Ok <==> handshake is Ok,
            r matches Ok(c) ==> connects_to(self, c),
            r matches Err(e) ==> handshake == Err::<(), HandshakeError>(e),
    {
        match handshake {
            Ok(()) => {
                let mut connection = self.connection;
                connection.establish();
                Ok(Client { connection, state: PhantomData })
            },
            Err(e) => Err(e),
        }
    }
}

impl<ServerType: ExchangeServerType> Client<ServerType, Connected> {
    /// Takes the client back to the disconnected phase, whatever the transport
    /// reported of the teardown; a teardown failure is handed back beside it.
    pub fn disconnect(self, teardown: Result<(), TeardownError>) -> (r: (
        Client<ServerType, Disconnected>,
        Option<TeardownError>,
    ))
        ensures
            disconnects_to(self, r.0),
            match teardown {
                Ok(()) => r.1 is None,
                Err(e) => r.1 == Some(e),
            },
    {
        let mut connection = self.connection;
        connection.release();
        let report = match teardown {
            Ok(()) => None,
            Err(e) => Some(e),
        };
        (Client { connection, state: PhantomData }, report)
    }
}

impl<ServerType: ExchangeServerType + EwsCompatible> Client<ServerType, Connected> {
    /// One EWS exchange on the live session; the codec's reply comes back
    /// unchanged.
    pub fn ews_operation<T>(&self, reply: Result<T, ProtocolError>) -> (r: Result<
        T,
        ProtocolError,
    >)
        ensures
            r == reply,
            ServerType::speaks_ews(),
            self.session().is_connected(),
    {
        proof {
            use_type_invariant(self);
        }
        self.connection.ews_operation(reply)
    }
}

impl<ServerType: ExchangeServerType + GraphApiCompatible> Client<ServerType, Connected> {
    /// One Graph exchange on the live session; the codec's reply comes back
    /// unchanged.
    pub fn graph_operation<T>(&self, reply: Result<T, ProtocolError>) -> (r: Result<
        T,
        ProtocolError,
    >)
        ensures
            r == reply,
            ServerType::speaks_graph(),
            self.session().is_connected(),
    {
        proof {
            use_type_invariant(self);
        }
        self.connection.graph_operation(reply)
    }
}

} // verus!
