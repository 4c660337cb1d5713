//! The iamp2p projects zome: profiles, transactions and the project's metadata.

pub mod profile;
pub mod project_meta;
pub mod trx;

use vstd::prelude::*;

use crate::hashes::AgentPubKey;
use crate::projects::profile::{AgentSignal, Profile};
use crate::projects::project_meta::ProjectMetaSignal;
use crate::projects::trx::TrxSignal;

verus! {

/// Every signal that this zome sends or receives.
pub enum SignalType {
    Agent(AgentSignal),
    Trx(TrxSignal),
    ProjectMeta(ProjectMetaSignal),
}

/// The keys of the agents that a peer signal goes to: the agent of each listed
/// profile, in order, leaving out the caller's own key.
pub open spec fn peer_keys(profiles: Seq<Profile>, me: Seq<u8>) -> Seq<Seq<u8>>
    decreases profiles.len(),
{
    if profiles.len() == 0 {
        Seq::empty()
    } else {
        let rest = peer_keys(profiles.drop_last(), me);
        if profiles.last().address@ == me {
            rest
        } else {
            rest.push(profiles.last().address@)
        }
    }
}

/// The views of a sequence of keys.
pub open spec fn key_views(keys: Seq<AgentPubKey>) -> Seq<Seq<u8>> {
    keys.map_values(|k: AgentPubKey| k@)
}

/// The part of `get_peers` that follows the lookups: from the listed profiles and
/// the caller's key, the keys of every other agent, in order.
pub fn get_peers(profiles: Vec<Profile>, me: &AgentPubKey) -> (r: Vec<AgentPubKey>)
    ensures
        key_views(r@) == peer_keys(profiles@, me@),
        forall|i: int|
            0 <= i < profiles.len() && (#[trigger] profiles@[i]).address@ != me@ ==> key_views(
                r@,
            ).contains(profiles@[i].address@),
        forall|i: int| 0 <= i < r.len() ==> (#[trigger] r@[i])@ != me@,
{
    let ghost s = profiles@;
    let mut out: Vec<AgentPubKey> = Vec::new();
    for p in it: profiles.into_iter()
        invariant
            it.seq() == s,
            key_views(out@) == peer_keys(s.take(it.index() as int), me@),
    {
        proof {
            assert(s.take(it.index() as int + 1).drop_last() =~= s.take(it.index() as int));
        }
        if !p.address.0.same_key(me) {
            let ghost before = out@;
            out.push(AgentPubKey::from(p));
            proof {
                assert(key_views(out@) =~= key_views(before).push(out@.last()@));
            }
        }
    }
    proof {
        assert(s.take(s.len() as int) =~= s);
        assert forall|i: int|
            0 <= i < s.len() && (#[trigger] s[i]).address@ != me@ implies key_views(
                out@,
            ).contains(s[i].address@) by {
            lemma_peers_include_others(s, me@, i);
        }
        lemma_peers_exclude_self(s, me@);
        assert forall|i: int| 0 <= i < out.len() implies (#[trigger] out@[i])@ != me@ by {
            assert(key_views(out@)[i] == out@[i]@);
        }
    }
    out
}

/// No peer is the caller: `get_peers` leaves out every profile of the caller.
pub proof fn lemma_peers_exclude_self(profiles: Seq<Profile>, me: Seq<u8>)
    ensures
        forall|i: int| 0 <= i < peer_keys(profiles, me).len() ==> peer_keys(profiles, me)[i] != me,
    decreases profiles.len(),
{
    if profiles.len() > 0 {
        let rest = peer_keys(profiles.drop_last(), me);
        lemma_peers_exclude_self(profiles.drop_last(), me);
        assert forall|i: int| 0 <= i < peer_keys(profiles, me).len() implies peer_keys(
            profiles,
            me,
        )[i] != me by {
            if i < rest.len() {
                assert(peer_keys(profiles, me)[i] == rest[i]);
            }
        }
    }
}

/// Every other agent is a peer: where no profile is the caller's, the peers are
/// the agents of all profiles, in order.
pub proof fn lemma_peers_keep_others(profiles: Seq<Profile>, me: Seq<u8>)
    requires
        forall|i: int| 0 <= i < profiles.len() ==> (#[trigger] profiles[i]).address@ != me,
    ensures
        peer_keys(profiles, me) == profiles.map_values(|p: Profile| p.address@),
    decreases profiles.len(),
{
    if profiles.len() > 0 {
        let p = profiles.drop_last();
        assert forall|i: int| 0 <= i < p.len() implies (#[trigger] p[i]).address@ != me by {
            assert(p[i] == profiles[i]);
        }
        lemma_peers_keep_others(p, me);
        assert(profiles.map_values(|q: Profile| q.address@) =~= p.map_values(
            |q: Profile| q.address@,
        ).push(profiles.last().address@));
    } else {
        assert(profiles.map_values(|q: Profile| q.address@) =~= Seq::<Seq<u8>>::empty());
    }
}

/// Every listed agent other than the caller is a peer.
pub proof fn lemma_peers_include_others(profiles: Seq<Profile>, me: Seq<u8>, i: int)
    requires
        0 <= i < profiles.len(),
        profiles[i].address@ != me,
    ensures
        peer_keys(profiles, me).contains(profiles[i].address@),
    decreases profiles.len(),
{
    let rest = peer_keys(profiles.drop_last(), me);
    if i == profiles.len() - 1 {
        assert(peer_keys(profiles, me)[rest.len() as int] == profiles[i].address@);
    } else {
        assert(profiles.drop_last()[i] == profiles[i]);
        lemma_peers_include_others(profiles.drop_last(), me, i);
        let k = choose|k: int| 0 <= k < rest.len() && rest[k] == profiles[i].address@;
        assert(peer_keys(profiles, me)[k] == rest[k]);
    }
}

/// Leaving out the caller twice leaves out no more than once.
pub proof fn lemma_peers_idempotent(profiles: Seq<Profile>, me: Seq<u8>)
    ensures
        peer_keys(profiles.filter(|p: Profile| p.address@ != me), me) == peer_keys(profiles, me),
    decreases profiles.len(),
{
    reveal_with_fuel(Seq::filter, 1);
    if profiles.len() > 0 {
        let p = profiles.drop_last();
        lemma_peers_idempotent(p, me);
        let f = profiles.filter(|q: Profile| q.address@ != me);
        if profiles.last().address@ != me {
            assert(f.drop_last() =~= p.filter(|q: Profile| q.address@ != me));
        } else {
            assert(f =~= p.filter(|q: Profile| q.address@ != me));
        }
    }
}

} // verus!
