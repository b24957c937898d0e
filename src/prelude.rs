pub use crate::client::{Client, ClientState, Connected, Disconnected, HandshakeError, TeardownError};
pub use crate::types::{
    EwsCompatible, Exchange2016, Exchange2019, ExchangeConnection, ExchangeOnline,
    ExchangeServerState, ExchangeServerType, GraphApiCompatible, ProtocolError,
};
