//! Data shapes of the BGP session layer, and the summary it reports. The
//! sessions themselves are an external collaborator of the archive; only
//! their reporting lives here.

use vstd::prelude::*;

use crate::types::PeerState;

verus! {

/// One peer, as the control plane lists it.
#[derive(Clone, Debug)]
pub struct PeerInfo {
    pub address: String,
    pub name: Option<String>,
    pub remote_as: u32,
    pub local_as: u32,
    pub remote_port: u16,
    pub passive: bool,
    pub state: PeerState,
    pub last_error: Option<String>,
    pub advertised_prefixes: usize,
    pub established_at: Option<i64>,
}

/// The totals of the RIB summary command.
#[derive(Clone, Copy, Debug)]
pub struct RibSummary {
    pub peers_total: usize,
    pub peers_established: usize,
    pub advertised_prefixes_total: usize,
}

/// How many of the peers are established.
pub open spec fn spec_established_count(peers: Seq<PeerInfo>) -> int
    decreases peers.len(),
{
    if peers.len() == 0 {
        0
    } else {
        spec_established_count(peers.drop_last()) + (if peers.last().state
            == PeerState::Established {
            1int
        } else {
            0int
        })
    }
}

/// The sum of the peers' advertised prefix counts.
pub open spec fn spec_advertised_total(peers: Seq<PeerInfo>) -> int
    decreases peers.len(),
{
    if peers.len() == 0 {
        0
    } else {
        spec_advertised_total(peers.drop_last()) + peers.last().advertised_prefixes
    }
}

/// Summarizes the peers: how many there are, how many are established, and
/// how many prefixes are advertised in total — saturating at the largest
/// representable count, so every peer list can be summarized.
pub fn summarize_peers(peers: &Vec<PeerInfo>) -> (r: RibSummary)
    ensures
        r.peers_total == peers@.len(),
        r.peers_established == spec_established_count(peers@),
        r.advertised_prefixes_total == (if spec_advertised_total(peers@) <= usize::MAX {
            spec_advertised_total(peers@)
        } else {
            usize::MAX as int
        }),
{
    let n = peers.len();
    let mut established: usize = 0;
    let mut advertised: usize = 0;
    let mut i: usize = 0;
    while i < n
        invariant
            i <= n,
            n == peers@.len(),
            established == spec_established_count(peers@.take(i as int)),
            advertised == (if spec_advertised_total(peers@.take(i as int)) <= usize::MAX {
                spec_advertised_total(peers@.take(i as int))
            } else {
                usize::MAX as int
            }),
            established <= i,
        decreases n - i,
    {
        let ghost pre = peers@.take(i as int);
        proof {
            assert(peers@.take(i + 1).drop_last() =~= pre);
            assert(peers@.take(i + 1).last() == peers@[i as int]);
            lemma_established_nonneg(pre);
            lemma_advertised_nonneg(pre);
        }
        if matches!(peers[i].state, PeerState::Established) {
            established = established + 1;
        }
        let more = peers[i].advertised_prefixes;
        advertised = if advertised <= usize::MAX - more {
            advertised + more
        } else {
            usize::MAX
        };
        i = i + 1;
    }
    proof {
        assert(peers@.take(n as int) =~= peers@);
    }
    RibSummary {
        peers_total: n,
        peers_established: established,
        advertised_prefixes_total: advertised,
    }
}

proof fn lemma_established_nonneg(peers: Seq<PeerInfo>)
    ensures
        0 <= spec_established_count(peers) <= peers.len(),
    decreases peers.len(),
{
    if peers.len() > 0 {
        lemma_established_nonneg(peers.drop_last());
    }
}

proof fn lemma_advertised_nonneg(peers: Seq<PeerInfo>)
    ensures
        spec_advertised_total(peers) >= 0,
    decreases peers.len(),
{
    if peers.len() > 0 {
        lemma_advertised_nonneg(peers.drop_last());
    }
}

} // verus!
