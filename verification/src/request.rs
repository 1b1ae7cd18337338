//! The requests of the network layer, in internal format.

use std::collections::HashSet;
use vstd::prelude::*;

verus! {

/// The hash of a block header, by which a block is named.
#[derive(Copy, Clone, Debug, PartialEq, Eq, Hash)]
pub struct BlockHeaderHash(pub [u8; 32]);

/// A nonce used in the networking layer to identify messages.
#[derive(Copy, Clone, Debug, PartialEq, Eq)]
pub struct Nonce(pub u64);

/// A network request, represented in internal format.
///
/// The network layer aims to abstract away the details of the Bitcoin wire
/// protocol into a clear request/response API. Each `Request` documents the
/// possible responses it can generate; it is fine (and recommended!) to match
/// on the expected responses and treat the others as unreachable, since their
/// return indicates a bug in the network code.
#[derive(Debug)]
pub enum Request {
    /// Requests additional peers from the server.
    Peers,
    /// Heartbeats triggered on peer connection start.
    ///
    /// This is included as a bit of a hack, it should only be used
    /// internally for connection management. You should not expect to
    /// be firing or handling `Ping` requests or `Pong` responses.
    Ping(Nonce),
    /// Request block data by block hashes.
    ///
    /// This uses a `HashSet` rather than a `Vec` for two reasons. First, it
    /// automatically deduplicates the requested blocks. Second, the internal
    /// protocol layer needs to maintain a `HashSet` anyways, in order to
    /// keep track of which requested blocks have been received and when the
    /// request is ready.
    BlocksByHash(HashSet<BlockHeaderHash>),
    /// Request block hashes of subsequent blocks in the chain, giving hashes of
    /// known blocks.
    FindBlocks {
        /// Hashes of known blocks, ordered from highest height to lowest height.
        known_blocks: Vec<BlockHeaderHash>,
        /// Optionally, the last header to request.
        stop: Option<BlockHeaderHash>,
    },
}

/// `HashSet::clone` of std: a set of its own with the same elements.
#[verifier::external_body]
fn same_hashes(hashes: &HashSet<BlockHeaderHash>) -> (copy: HashSet<BlockHeaderHash>)
    ensures
        copy@ == hashes@,
{
    hashes.clone()
}

impl Request {
    /// Whether two requests ask for the same thing.
    pub open spec fn same_as(self, other: Request) -> bool {
        match (self, other) {
            (Request::Peers, Request::Peers) => true,
            (Request::Ping(nonce), Request::Ping(other_nonce)) => nonce == other_nonce,
            (Request::BlocksByHash(hashes), Request::BlocksByHash(other_hashes)) => hashes@
                == other_hashes@,
            (
                Request::FindBlocks { known_blocks, stop },
                Request::FindBlocks { known_blocks: other_blocks, stop: other_stop },
            ) => known_blocks@ == other_blocks@ && stop == other_stop,
            _ => false,
        }
    }
}

impl Clone for Request {
    fn clone(&self) -> (copy: Self)
        ensures
            copy.same_as(*self),
    {
        match self {
            Request::Peers => Request::Peers,
            Request::Ping(nonce) => Request::Ping(*nonce),
            Request::BlocksByHash(hashes) => Request::BlocksByHash(same_hashes(hashes)),
            Request::FindBlocks { known_blocks, stop } => {
                let mut blocks: Vec<BlockHeaderHash> = Vec::new();
                let mut i: usize = 0;
                while i < known_blocks.len()
                    invariant
                        i <= known_blocks.len(),
                        blocks@ == known_blocks@.subrange(0, i as int),
                    decreases known_blocks.len() - i,
                {
                    blocks.push(known_blocks[i]);
                    i = i + 1;
                }
                proof {
                    assert(blocks@ =~= known_blocks@);
                }
                Request::FindBlocks { known_blocks: blocks, stop: *stop }
            },
        }
    }
}

} // verus!
