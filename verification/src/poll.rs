//! Poll tokens of resources named by listener-bit identifiers.
use vstd::prelude::*;
use crate::resource_id::{ResourceId, lemma_spec_from, lemma_view_determines};

verus! {

/// An event of the poll: a resource is ready, or the poll was woken with a
/// signal.
pub enum PollEvent<E> {
    Network(ResourceId),
    Waker(E),
}

/// The token of the waker.
pub const WAKER_TOKEN: usize = 0;

/// The token a resource is registered with: its raw id shifted past the
/// reserved bit, with the reserved bit set.
pub fn token_of_resource(id: ResourceId) -> (token: usize)
    ensures
        token == ((id@ as usize) << 1usize) | 1usize,
{
    (id.raw() << 1usize) | 1usize
}

/// The resource a token stands for, or `None` for the waker's token.
pub fn resource_of_token(token: usize) -> (id: Option<ResourceId>)
    ensures
        id == (if token == WAKER_TOKEN {
            None
        } else {
            Some(ResourceId::spec_from((token >> 1usize) as u64))
        }),
{
    if token == WAKER_TOKEN {
        None
    } else {
        Some(ResourceId::from(token >> 1usize))
    }
}

/// An id that fits in a `usize` with the top bit clear (a remote id) gets a
/// token that is not the waker's and that gives the id back. (A listener id,
/// whose top bit is set, loses that bit in its token.)
pub proof fn lemma_token_roundtrip(id: ResourceId)
    requires
        id@ <= usize::MAX,
        (id@ as usize) >> ((usize::BITS - 1) as usize) == 0usize,
    ensures
        ((id@ as usize) << 1usize) | 1usize != WAKER_TOKEN,
        ResourceId::spec_from(((((id@ as usize) << 1usize) | 1usize) >> 1usize) as u64) == id,
{
    let raw = id@ as usize;
    assert((raw << 1usize) | 1usize != 0usize && ((raw << 1usize) | 1usize) >> 1usize == raw)
        by (bit_vector)
        requires
            raw >> ((usize::BITS - 1) as usize) == 0usize,
    ;
    lemma_spec_from(raw as u64);
    lemma_view_determines(ResourceId::spec_from(raw as u64), id);
}

} // verus!
