use crate::errors::ClientErrors;
use vstd::prelude::*;

verus! {

/// The value stored under `k` in `m`, or `None` when `k` is unset.
pub open spec fn lookup(m: Map<Seq<char>, Seq<char>>, k: Seq<char>) -> Option<Seq<char>> {
    if m.contains_key(k) {
        Some(m[k])
    } else {
        None
    }
}

/// The text of an optional string.
pub open spec fn opt_view(o: Option<String>) -> Option<Seq<char>> {
    match o {
        Some(s) => Some(s@),
        None => None,
    }
}

/// The texts of a sequence of strings.
pub open spec fn strings_view(v: Seq<String>) -> Seq<Seq<char>> {
    v.map_values(|s: String| s@)
}

/// The list stored under `k` in `m`; an unset key reads as the empty list.
pub open spec fn list_of(m: Map<Seq<char>, Seq<Seq<char>>>, k: Seq<char>) -> Seq<Seq<char>> {
    if m.contains_key(k) {
        m[k]
    } else {
        Seq::empty()
    }
}

/// Whether `r` is an error raised by this layer.
pub open spec fn is_local_err<T>(r: Result<T, ClientErrors>) -> bool {
    r matches Err(e) && e.is_local()
}

/// Whether `r` is an error surfaced by the backing store.
pub open spec fn is_backend_err<T>(r: Result<T, ClientErrors>) -> bool {
    r matches Err(e) && e is RedisError
}

/// A key-value store reached through a connection that must be opened first.
///
/// The model of a client is whether its connection is open, the scalar
/// values it holds and the lists it holds. Before the connection is opened,
/// every operation but `open_connection` fails with a local error and changes
/// nothing. Once opened, an operation either succeeds with the effect stated
/// below or fails with an error and leaves the contents as they were.
pub trait StoreClient: Sized {
    /// The client's internal invariant.
    spec fn well_formed(&self) -> bool;

    /// Whether the connection handle is present.
    spec fn connected(&self) -> bool;

    /// The scalar values held, by key.
    spec fn contents(&self) -> Map<Seq<char>, Seq<char>>;

    /// The lists held, by key.
    spec fn lists(&self) -> Map<Seq<char>, Seq<Seq<char>>>;

    /// Whether, once connected, reading, writing and deleting a value always
    /// succeed (as for a store that needs no backend).
    spec fn never_fails_when_connected() -> bool;

    /// Establishes the connection; a failure to connect is a backend error.
    fn open_connection(&mut self) -> (r: Result<(), ClientErrors>)
        requires
            old(self).well_formed(),
        ensures
            final(self).well_formed(),
            r is Ok ==> final(self).connected(),
            r is Err ==> is_backend_err(r),
    ;

    /// Stores `value` under `key`.
    fn set_key_value(&mut self, key: &str, value: &str) -> (r: Result<Option<()>, ClientErrors>)
        requires
            old(self).well_formed(),
        ensures
            final(self).well_formed(),
            !old(self).connected() ==> is_local_err(r) && *final(self) == *old(self),
            old(self).connected() ==> final(self).connected() && (r is Ok || is_backend_err(r)),
            old(self).connected() && Self::never_fails_when_connected() ==> r is Ok,
            final(self).lists() == old(self).lists(),
            r is Ok ==> final(self).contents() == old(self).contents().insert(key@, value@),
            r is Err ==> final(self).contents() == old(self).contents(),
    ;

    /// Reads the value under `key`; an unset key gives `Ok(None)`.
    fn get_key_value(&mut self, key: &str) -> (r: Result<Option<String>, ClientErrors>)
        requires
            old(self).well_formed(),
        ensures
            final(self).well_formed(),
            !old(self).connected() ==> is_local_err(r) && *final(self) == *old(self),
            old(self).connected() ==> final(self).connected() && (r is Ok || is_backend_err(r)),
            old(self).connected() && Self::never_fails_when_connected() ==> r is Ok,
            final(self).contents() == old(self).contents(),
            final(self).lists() == old(self).lists(),
            r matches Ok(o) ==> opt_view(o) == lookup(old(self).contents(), key@),
    ;

    /// Removes `key`, giving the value it held, or `Ok(None)` when it was unset.
    fn delete_key(&mut self, key: &str) -> (r: Result<Option<String>, ClientErrors>)
        requires
            old(self).well_formed(),
        ensures
            final(self).well_formed(),
            !old(self).connected() ==> is_local_err(r) && *final(self) == *old(self),
            old(self).connected() ==> final(self).connected() && (r is Ok || is_backend_err(r)),
            old(self).connected() && Self::never_fails_when_connected() ==> r is Ok,
            final(self).lists() == old(self).lists(),
            r matches Ok(o) ==> opt_view(o) == lookup(old(self).contents(), key@)
                && final(self).contents() == old(self).contents().remove(key@),
            r is Err ==> final(self).contents() == old(self).contents(),
    ;

    /// Appends `value` to the list under `key`.
    fn append_to_list(&mut self, key: &str, value: &str) -> (r: Result<(), ClientErrors>)
        requires
            old(self).well_formed(),
        ensures
            final(self).well_formed(),
            !old(self).connected() ==> is_local_err(r) && *final(self) == *old(self),
            old(self).connected() ==> final(self).connected(),
            final(self).contents() == old(self).contents(),
            r is Ok ==> final(self).lists() == old(self).lists().insert(
                key@,
                list_of(old(self).lists(), key@).push(value@),
            ),
            r is Err ==> final(self).lists() == old(self).lists(),
    ;

    /// Reads the whole list under `key`; an unset key gives the empty list.
    fn get_list(&mut self, key: &str) -> (r: Result<Vec<String>, ClientErrors>)
        requires
            old(self).well_formed(),
        ensures
            final(self).well_formed(),
            !old(self).connected() ==> is_local_err(r) && *final(self) == *old(self),
            old(self).connected() ==> final(self).connected(),
            final(self).contents() == old(self).contents(),
            final(self).lists() == old(self).lists(),
            r matches Ok(v) ==> strings_view(v@) == list_of(old(self).lists(), key@),
    ;
}

} // verus!
