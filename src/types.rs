pub mod exchange;

pub use exchange::{
    EwsCompatible, Exchange2016, Exchange2019, ExchangeConnection, ExchangeOnline,
    ExchangeServerState, ExchangeServerType, GraphApiCompatible, ProtocolError,
};
