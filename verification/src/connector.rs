//! Connector traits: the transport layer that moves opaque byte arrays
//! between a database-like owner and a persistent store (memory, a file, a
//! socket, and anything in between).
//!
//! A connector's job is to take bytes of information produced elsewhere and
//! push them to some storage means, or to pull bytes back out of it.  The
//! traits here are pure interface: no promise can be made about whether an
//! implementor's I/O succeeds, so their methods carry no contracts.

pub mod error;

use vstd::prelude::*;

use crate::connector::error::ConnectorError;

verus! {

/// Trait for establishing and managing the connection between the persistent
/// data store and its owner.
pub trait Connector {
    /// An optional type used for passing options into the `connect` function.
    type Options;

    /// An optional type used for returning information from this connector
    /// once the connector has finished establishing a connection.
    type Connection;

    /// Used to create a connection between this connector and the persistent
    /// data store.
    ///
    /// It is up to the trait implementor whether this function is successful
    /// or not, and what this function does.
    fn connect(&self, options: Self::Options) -> Result<Self::Connection, ConnectorError>;

    /// Checks whether the current connector is connected or not.
    fn connected(&self) -> bool;

    /// Internally sets a "connected" value, stating whether this current
    /// connector was successfully able to establish a data flow or not.
    fn set_connected(&mut self, connected: bool);

    /// Sends data to the underlying storage area.  This pulls from an array
    /// of bytes.
    fn push(&self, bytes: &[u8]) -> Result<usize, ConnectorError>;

    /// Requests data from the underlying storage area.  This pushes to an
    /// array of bytes.
    fn pull(&self, buffer: &mut Vec<u8>) -> Result<usize, ConnectorError>;
}

/// A deferred connector trait.
///
/// This trait is primarily used when communicating with a data source where
/// the result of the operation is dependent on the data source itself, rather
/// than on the connector's owner.
///
/// This is particularly useful in SQL-like connectors, where neither the
/// owner nor the connector is responsible for maintaining ACID compliance or
/// validating the success of any input/output requests.
pub trait DeferredConnector: Connector {
    /// Attempts to push some data to the deferred data source.
    fn try_push(&self, bytes: &[u8]) -> Result<(), ConnectorError>;

    /// Attempts to perform a request on the deferred data source.
    fn try_pull(&self, buffer: &mut Vec<u8>) -> Result<(), ConnectorError>;
}

} // verus!
