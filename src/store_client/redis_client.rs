use crate::errors::ClientErrors;
use crate::store_client::interface::{is_backend_err, is_local_err};
use vstd::prelude::*;

verus! {

/// A Redis client handle: a parsed location, not yet a connection.
#[verifier::external_type_specification]
#[verifier::external_body]
pub struct ExClient(redis::Client);

/// A live connection to a Redis server, shared by cheap clones.
#[verifier::external_type_specification]
#[verifier::external_body]
pub struct ExMultiplexedConnection(redis::aio::MultiplexedConnection);

/// Relies on `Clone` of redis::aio::MultiplexedConnection: a second handle
/// onto the same connection.
pub assume_specification[ <redis::aio::MultiplexedConnection as Clone>::clone ](
    c: &redis::aio::MultiplexedConnection,
) -> redis::aio::MultiplexedConnection;

/// Whether redis::Client::open accepts `url` as a server location.
pub uninterp spec fn redis_url_accepted(url: Seq<char>) -> bool;

/// Relies on redis::Client::open: it parses the location and opens no
/// connection, so whether it succeeds depends on the text alone.
#[verifier::external_body]
fn open_client(url: &str) -> (r: Result<redis::Client, redis::RedisError>)
    ensures
        r is Ok <==> redis_url_accepted(url@),
{
    redis::Client::open(url)
}

/// The message of the error a command gets while no connection is held.
pub open spec fn not_established_message() -> Seq<char> {
    "Connection not established"@
}

/// A store client backed by a Redis server.
///
/// It holds the server's location and, once opened, a connection. Each
/// command goes through `connection`, which fails with a local error while no
/// connection is held; `reply` turns the server's answer into this layer's
/// result. Sending the command and awaiting its answer is left to the caller.
pub struct RedisStoreClient {
    url: String,
    connection: Option<redis::aio::MultiplexedConnection>,
}

impl RedisStoreClient {
    /// The location the client was made with.
    pub closed spec fn spec_url(&self) -> Seq<char> {
        self.url@
    }

    /// Whether a connection is held.
    pub closed spec fn connected(&self) -> bool {
        self.connection is Some
    }

    /// The connection held, if any.
    pub closed spec fn spec_connection(&self) -> Option<redis::aio::MultiplexedConnection> {
        self.connection
    }

    /// A client for `url`, not yet connected.
    pub fn new(url: &str) -> (r: Self)
        ensures
            !r.connected(),
            r.spec_url() == url@,
    {
        RedisStoreClient { url: url.to_owned(), connection: None }
    }

    /// The location the client was made with.
    pub fn url(&self) -> (r: &str)
        ensures
            r@ == self.spec_url(),
    {
        self.url.as_str()
    }

    /// Whether a connection is held.
    pub fn is_connected(&self) -> (r: bool)
        ensures
            r == self.connected(),
    {
        self.connection.is_some()
    }

    /// The first step of opening: a Redis client for the location held, or
    /// the backend's error when the location is not a valid Redis URL.
    pub fn client(&self) -> (r: Result<redis::Client, ClientErrors>)
        ensures
            r is Ok <==> redis_url_accepted(self.spec_url()),
            r is Err ==> is_backend_err(r),
    {
        match open_client(self.url.as_str()) {
            Ok(c) => Ok(c),
            Err(e) => Err(ClientErrors::RedisError(e)),
        }
    }

    /// The last step of opening: records the outcome of the attempt to
    /// connect. A connection is kept; a failure is a backend error and
    /// leaves the client as it was.
    pub fn connection_opened(
        &mut self,
        outcome: Result<redis::aio::MultiplexedConnection, redis::RedisError>,
    ) -> (r: Result<(), ClientErrors>)
        ensures
            r is Ok <==> outcome is Ok,
            r is Ok ==> final(self).connected(),
            outcome matches Ok(h) ==> final(self).spec_connection() == Some(h),
            outcome matches Err(e) ==> r == Err::<(), ClientErrors>(ClientErrors::RedisError(e))
                && *final(self) == *old(self),
            final(self).spec_url() == old(self).spec_url(),
    {
        match outcome {
            Ok(con) => {
                self.connection = Some(con);
                Ok(())
            },
            Err(e) => Err(ClientErrors::RedisError(e)),
        }
    }

    /// The connection to send one command on, or a local error when none is
    /// held.
    pub fn connection(&self) -> (r: Result<redis::aio::MultiplexedConnection, ClientErrors>)
        ensures
            r is Ok <==> self.connected(),
            r is Err ==> is_local_err(r) && r->Err_0->OtherError_0@ == not_established_message(),
    {
        match &self.connection {
            Some(con) => Ok(con.clone()),
            None => {
                let msg = "Connection not established";
                Err(ClientErrors::OtherError(msg.to_owned()))
            },
        }
    }

    /// Turns the server's answer to a command into this layer's result: a
    /// value passes through, an error is tagged as the backend's.
    pub fn reply<V>(outcome: Result<V, redis::RedisError>) -> (r: Result<V, ClientErrors>)
        ensures
            match outcome {
                Ok(v) => r == Ok::<V, ClientErrors>(v),
                Err(e) => r == Err::<V, ClientErrors>(ClientErrors::RedisError(e)),
            },
    {
        match outcome {
            Ok(v) => Ok(v),
            Err(e) => Err(ClientErrors::RedisError(e)),
        }
    }
}

} // verus!
