use vstd::prelude::*;

verus! {

/// The Redis client's own error type, carried through unchanged.
#[verifier::external_type_specification]
#[verifier::external_body]
pub struct ExRedisError(redis::RedisError);

/// Every fallible operation of a store client fails with one of these.
#[derive(Debug)]
pub enum ClientErrors {
    /// An error surfaced by the backing store's client.
    RedisError(redis::RedisError),
    /// A condition local to this layer, described by a message.
    OtherError(String),
}

impl ClientErrors {
    /// Whether this error was raised by this layer rather than by the backend.
    pub open spec fn is_local(self) -> bool {
        self is OtherError
    }

    /// The message of a local error, or `None` for a backend error.
    pub fn message(&self) -> (r: Option<&str>)
        ensures
            match self {
                ClientErrors::OtherError(m) => r is Some && r->Some_0@ == m@,
                ClientErrors::RedisError(_) => r is None,
            },
    {
        match self {
            ClientErrors::OtherError(m) => Some(m.as_str()),
            ClientErrors::RedisError(_) => None,
        }
    }
}

impl From<redis::RedisError> for ClientErrors {
    fn from(err: redis::RedisError) -> Self {
        ClientErrors::RedisError(err)
    }
}

impl vstd::std_specs::convert::FromSpecImpl<redis::RedisError> for ClientErrors {
    open spec fn obeys_from_spec() -> bool {
        true
    }

    open spec fn from_spec(v: redis::RedisError) -> Self {
        ClientErrors::RedisError(v)
    }
}

} // verus!
