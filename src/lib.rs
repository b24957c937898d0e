//! Typestate client for Exchange servers.
//!
//! A [`client::Client`] carries its lifecycle phase and its server edition in
//! its type: protocol operations exist only on a connected client whose edition
//! declares the matching protocol.
use vstd::prelude::*;

mod sealed;
pub mod types;
pub mod client;
pub mod prelude;

verus! {

/// A named mailbox; by default it has no name.
pub trait Mailbox {
    fn mailbox_name() -> (r: Option<String>) {
        None
    }
}

} // verus!
