//! A bare expiration record: only the instant after which an item is dead.

use vstd::prelude::*;

use crate::clock::now_millis;
use crate::errors::ShmapError;
use crate::metadata::expiration_at;

verus! {

/// An expiration on its own, without the key or encryption flag.
#[derive(Debug)]
pub struct Index {
    expiration: Option<u64>,
}

impl Index {
    /// The instant this index expires at, if any, in milliseconds since the
    /// epoch.
    pub closed spec fn spec_expiration(self) -> Option<u64> {
        self.expiration
    }

    /// Builds an index expiring the given TTL from now, or never. A TTL that
    /// would push the expiration past the clock type is refused, not wrapped.
    pub fn new(ttl_millis: Option<u64>) -> (r: Result<Index, ShmapError>)
        ensures
            r matches Ok(ix) ==> {
                &&& (ttl_millis is None <==> ix.spec_expiration() is None)
                &&& (ttl_millis matches Some(d) ==> ix.spec_expiration() matches Some(e) && e
                    >= d)
            },
            ttl_millis is None ==> r is Ok,
            r matches Err(e) ==> e == ShmapError::TtlOutOfRange && ttl_millis is Some,
    {
        let expiration = match ttl_millis {
            None => None,
            Some(d) => {
                let now = now_millis();
                match expiration_at(now, d) {
                    Ok(e) => Some(e),
                    Err(e) => {
                        return Err(e);
                    },
                }
            },
        };
        Ok(Index { expiration })
    }
}

} // verus!
