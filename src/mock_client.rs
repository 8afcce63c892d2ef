use crate::errors::ClientErrors;
use crate::store_client::interface::{lookup, StoreClient};
use vstd::hash_map::StringHashMap;
use vstd::prelude::*;

verus! {

/// The texts of the values of `m`, by key.
pub open spec fn texts(m: Map<Seq<char>, String>) -> Map<Seq<char>, Seq<char>> {
    m.map_values(|v: String| v@)
}

/// The message of the error every operation gets before `open_connection`.
pub open spec fn unavailable_message() -> Seq<char> {
    "Store is not available"@
}

/// The message of the error the list operations get once connected.
pub open spec fn unsupported_message() -> Seq<char> {
    "List operations are not supported by the mock store"@
}

/// Whether `r` is a local error carrying the message `msg`.
pub open spec fn fails_with<T>(r: Result<T, ClientErrors>, msg: Seq<char>) -> bool {
    r matches Err(ClientErrors::OtherError(m)) && m@ == msg
}

/// An in-memory store, for running callers without a backing server.
///
/// Its connection is a map created empty by `open_connection`. It holds no
/// lists: the list operations are unsupported and fail with a local error.
pub struct MockStoreClient {
    url: String,
    connection: Option<StringHashMap<String>>,
}

impl MockStoreClient {
    /// The location the client was made with.
    pub closed spec fn spec_url(&self) -> Seq<char> {
        self.url@
    }

    /// A client for `url`, not yet connected.
    pub fn new(url: &str) -> (r: Self)
        ensures
            r.well_formed(),
            !r.connected(),
            r.spec_url() == url@,
            r.contents() == Map::<Seq<char>, Seq<char>>::empty(),
    {
        MockStoreClient { url: url.to_owned(), connection: None }
    }

    /// The location the client was made with.
    pub fn url(&self) -> (r: &str)
        ensures
            r@ == self.spec_url(),
    {
        self.url.as_str()
    }

    /// Whether the connection has been opened.
    pub fn is_connected(&self) -> (r: bool)
        ensures
            r == self.connected(),
    {
        self.connection.is_some()
    }

    /// The error every operation gives before the connection is opened.
    fn unavailable() -> (e: ClientErrors)
        ensures
            e matches ClientErrors::OtherError(m) && m@ == unavailable_message(),
    {
        let msg = "Store is not available";
        ClientErrors::OtherError(msg.to_owned())
    }

    /// The error the list operations give: this store holds no lists.
    fn unsupported() -> (e: ClientErrors)
        ensures
            e matches ClientErrors::OtherError(m) && m@ == unsupported_message(),
    {
        let msg = "List operations are not supported by the mock store";
        ClientErrors::OtherError(msg.to_owned())
    }
}

impl StoreClient for MockStoreClient {
    open spec fn well_formed(&self) -> bool {
        true
    }

    closed spec fn connected(&self) -> bool {
        self.connection is Some
    }

    closed spec fn contents(&self) -> Map<Seq<char>, Seq<char>> {
        match self.connection {
            Some(m) => texts(m@),
            None => Map::empty(),
        }
    }

    open spec fn lists(&self) -> Map<Seq<char>, Seq<Seq<char>>> {
        Map::empty()
    }

    open spec fn never_fails_when_connected() -> bool {
        true
    }

    fn open_connection(&mut self) -> (r: Result<(), ClientErrors>)
        ensures
            r is Ok,
            final(self).contents() == Map::<Seq<char>, Seq<char>>::empty(),
            final(self).spec_url() == old(self).spec_url(),
    {
        let m = StringHashMap::<String>::new();
        assert(texts(m@) =~= Map::<Seq<char>, Seq<char>>::empty());
        self.connection = Some(m);
        Ok(())
    }

    fn set_key_value(&mut self, key: &str, value: &str) -> (r: Result<Option<()>, ClientErrors>)
        ensures
            !old(self).connected() ==> fails_with(r, unavailable_message()),
            old(self).connected() ==> r == Ok::<Option<()>, ClientErrors>(None),
            final(self).spec_url() == old(self).spec_url(),
    {
        match &mut self.connection {
            Some(con) => {
                let ghost before = con@;
                con.insert(key.to_owned(), value.to_owned());
                assert(texts(con@) =~= texts(before).insert(key@, value@));
                Ok(None)
            },
            None => Err(Self::unavailable()),
        }
    }

    fn get_key_value(&mut self, key: &str) -> (r: Result<Option<String>, ClientErrors>)
        ensures
            !old(self).connected() ==> fails_with(r, unavailable_message()),
            old(self).connected() ==> r is Ok,
            old(self).connected() && !old(self).contents().contains_key(key@) ==> r matches Ok(None),
            *final(self) == *old(self),
    {
        match &self.connection {
            Some(con) => {
                match con.get(key) {
                    Some(v) => Ok(Some(v.clone())),
                    None => Ok(None),
                }
            },
            None => Err(Self::unavailable()),
        }
    }

    fn delete_key(&mut self, key: &str) -> (r: Result<Option<String>, ClientErrors>)
        ensures
            !old(self).connected() ==> fails_with(r, unavailable_message()),
            old(self).connected() ==> r is Ok,
            old(self).connected() && !old(self).contents().contains_key(key@) ==> r matches Ok(None),
            final(self).spec_url() == old(self).spec_url(),
    {
        match &mut self.connection {
            Some(con) => {
                let ghost before = con@;
                let removed = match con.get(key) {
                    Some(v) => Some(v.clone()),
                    None => None,
                };
                con.remove(key);
                assert(texts(con@) =~= texts(before).remove(key@));
                Ok(removed)
            },
            None => Err(Self::unavailable()),
        }
    }

    fn append_to_list(&mut self, _key: &str, _value: &str) -> (r: Result<(), ClientErrors>)
        ensures
            old(self).connected() ==> fails_with(r, unsupported_message()),
            !old(self).connected() ==> fails_with(r, unavailable_message()),
            *final(self) == *old(self),
    {
        if self.connection.is_some() {
            Err(Self::unsupported())
        } else {
            Err(Self::unavailable())
        }
    }

    fn get_list(&mut self, _key: &str) -> (r: Result<Vec<String>, ClientErrors>)
        ensures
            old(self).connected() ==> fails_with(r, unsupported_message()),
            !old(self).connected() ==> fails_with(r, unavailable_message()),
            *final(self) == *old(self),
    {
        if self.connection.is_some() {
            Err(Self::unsupported())
        } else {
            Err(Self::unavailable())
        }
    }
}

/// A value just stored under `k` is what a read of `k` gives back: when
/// `stored` is what `set_key_value(k, v)` left of the connected `opened`,
/// `get_key_value(k)` on `stored` returns `Ok(Some(v))`.
pub proof fn lemma_set_then_get(
    opened: MockStoreClient,
    stored: MockStoreClient,
    k: Seq<char>,
    v: Seq<char>,
)
    requires
        opened.connected(),
        stored.connected(),
        stored.contents() == opened.contents().insert(k, v),
    ensures
        lookup(stored.contents(), k) == Some(v),
{
}

/// Deleting a key just stored gives back its value and unsets it: when
/// `stored` is what `set_key_value(k, v)` left of `opened`, and `deleted` what
/// `delete_key(k)` then left, the delete returns `Ok(Some(v))` and
/// `get_key_value(k)` on `deleted` returns `Ok(None)`.
pub proof fn lemma_delete_after_set(
    opened: MockStoreClient,
    stored: MockStoreClient,
    deleted: MockStoreClient,
    k: Seq<char>,
    v: Seq<char>,
)
    requires
        opened.connected(),
        stored.connected(),
        deleted.connected(),
        stored.contents() == opened.contents().insert(k, v),
        deleted.contents() == stored.contents().remove(k),
    ensures
        lookup(stored.contents(), k) == Some(v),
        lookup(deleted.contents(), k) == None::<Seq<char>>,
        !deleted.contents().contains_key(k),
{
}

} // verus!
