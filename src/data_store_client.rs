use crate::errors::ClientErrors;
use crate::store_client::interface::{is_backend_err, is_local_err, lookup, opt_view, StoreClient};
use vstd::prelude::*;

verus! {

/// A caller-facing facade that holds one store client and forwards reads and
/// writes to it, so that calling code depends only on the trait.
pub struct DataStoreClient<T: StoreClient> {
    client: T,
}

impl<T: StoreClient> DataStoreClient<T> {
    /// The client held.
    pub closed spec fn inner(&self) -> T {
        self.client
    }

    /// A facade over `client`.
    pub fn new(client: T) -> (r: Self)
        ensures
            r.inner() == client,
    {
        DataStoreClient { client }
    }

    /// The client held.
    pub fn client(&self) -> (r: &T)
        ensures
            *r == self.inner(),
    {
        &self.client
    }

    /// Gives back the client held.
    pub fn into_inner(self) -> (r: T)
        ensures
            r == self.inner(),
    {
        self.client
    }

    /// Stores `value` under `key` through the held client.
    pub fn set_key_value(&mut self, key: &str, value: &str) -> (r: Result<Option<()>, ClientErrors>)
        requires
            old(self).inner().well_formed(),
        ensures
            final(self).inner().well_formed(),
            !old(self).inner().connected() ==> is_local_err(r) && final(self).inner()
                == old(self).inner(),
            old(self).inner().connected() ==> final(self).inner().connected() && (r is Ok
                || is_backend_err(r)),
            old(self).inner().connected() && T::never_fails_when_connected() ==> r is Ok,
            final(self).inner().lists() == old(self).inner().lists(),
            r is Ok ==> final(self).inner().contents() == old(self).inner().contents().insert(
                key@,
                value@,
            ),
            r is Err ==> final(self).inner().contents() == old(self).inner().contents(),
    {
        self.client.set_key_value(key, value)
    }

    /// Reads the value under `key` through the held client.
    pub fn get_key_value(&mut self, key: &str) -> (r: Result<Option<String>, ClientErrors>)
        requires
            old(self).inner().well_formed(),
        ensures
            final(self).inner().well_formed(),
            !old(self).inner().connected() ==> is_local_err(r) && final(self).inner()
                == old(self).inner(),
            old(self).inner().connected() ==> final(self).inner().connected() && (r is Ok
                || is_backend_err(r)),
            old(self).inner().connected() && T::never_fails_when_connected() ==> r is Ok,
            final(self).inner().contents() == old(self).inner().contents(),
            final(self).inner().lists() == old(self).inner().lists(),
            r matches Ok(o) ==> opt_view(o) == lookup(old(self).inner().contents(), key@),
    {
        self.client.get_key_value(key)
    }
}

} // verus!
