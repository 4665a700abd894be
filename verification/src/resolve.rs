use vstd::prelude::*;

use crate::budget::ResolutionBudget;
use crate::entities::{ActorEntity, ActorV, CommunityV, PostV};
use crate::errors::FedError;
use crate::store::{
    Store, actor_at, community_at, has_actor, has_community, has_community_id, has_post,
    lemma_actor_lookup_preserved, lemma_community_by_own_id, lemma_post_by_own_id,
    lemma_push_lookup_actor,
    lemma_push_lookup_community, lemma_push_lookup_post, post_at, post_by_id, has_post_id,
};
use crate::wire::{EnvEntryV, FetchEnv, PayloadV, WirePayload, WirePost, has_served, served_at};

verus! {

// ---------------------------------------------------------------------------
// What the transport serves at a URL, by kind
// ---------------------------------------------------------------------------

/// The URL serves an actor object whose declared identifier is the URL
/// itself.
pub open spec fn serves_actor(env: Seq<EnvEntryV>, url: Seq<char>) -> bool {
    has_served(env, url) && match served_at(env, url) {
        PayloadV::Actor { id } => id == url,
        _ => false,
    }
}

/// The URL serves a community object whose declared identifier is the URL
/// itself.
pub open spec fn serves_community(env: Seq<EnvEntryV>, url: Seq<char>) -> bool {
    has_served(env, url) && match served_at(env, url) {
        PayloadV::Community { id, .. } => id == url,
        _ => false,
    }
}

/// The posting restriction that the community object served at the URL
/// declares.
pub open spec fn served_restriction(env: Seq<EnvEntryV>, url: Seq<char>) -> bool {
    match served_at(env, url) {
        PayloadV::Community { posting_restricted, .. } => posting_restricted,
        _ => false,
    }
}

// ---------------------------------------------------------------------------
// Leaf dereferences
// ---------------------------------------------------------------------------

/// Resolves the actor referenced by `ap_id`. A locally cached actor is
/// returned at zero budget cost and without touching the store; otherwise one
/// fetch is charged and the served object is validated (it must be an actor
/// declaring the fetched URL as its identifier) and cached before it is
/// returned. A fresh cache entry for a restricted-membership check carries no
/// local standing.
pub fn deref_actor(
    store: &mut Store,
    env: &FetchEnv,
    budget: &mut ResolutionBudget,
    ap_id: &String,
) -> (r: Result<ActorEntity, FedError>)
    requires
        old(store).wf(),
        env.wf(),
        old(budget).wf(),
        old(store)@.next_id + old(budget).remaining() + 1 <= u64::MAX,
    ensures
        final(store).wf(),
        final(budget).wf(),
        final(budget).ceiling == old(budget).ceiling,
        old(budget).used <= final(budget).used,
        final(store)@.next_id + final(budget).remaining() <= old(store)@.next_id + old(budget).remaining(),
        final(store)@.posts == old(store)@.posts,
        final(store)@.communities == old(store)@.communities,
        final(store)@.replies == old(store)@.replies,
        r matches Ok(a) ==> has_actor(final(store)@.actors, ap_id@) && a@ == actor_at(
            final(store)@.actors,
            ap_id@,
        ) && a@.ap_id == ap_id@,
        forall|apid: Seq<char>| #![trigger has_actor(old(store)@.actors, apid)]
            has_actor(old(store)@.actors, apid) ==> has_actor(final(store)@.actors, apid)
                && actor_at(final(store)@.actors, apid) == actor_at(old(store)@.actors, apid),
        has_actor(old(store)@.actors, ap_id@) ==> final(store)@ == old(store)@ && *final(budget)
            == *old(budget) && r is Ok,
        !has_actor(old(store)@.actors, ap_id@) ==> if old(budget).remaining() == 0 {
            r == Err::<ActorEntity, FedError>(FedError::BudgetExhausted) && final(store)@ == old(
                store,
            )@ && *final(budget) == *old(budget)
        } else {
            final(budget).used == old(budget).used + 1 && if serves_actor(env@, ap_id@) {
                final(store)@.actors == old(store)@.actors.push(
                    ActorV { id: old(store)@.next_id, ap_id: ap_id@ },
                ) && final(store)@.next_id == old(store)@.next_id + 1 && r is Ok
            } else {
                final(store)@ == old(store)@ && r == Err::<ActorEntity, FedError>(
                    if has_served(env@, ap_id@) {
                        FedError::Validation
                    } else {
                        FedError::Transport
                    },
                )
            }
        },
{
    match store.find_actor(ap_id) {
        Some(a) => Ok(a),
        None => {
            if !budget.try_charge() {
                return Err(FedError::BudgetExhausted);
            }
            match env.fetch(ap_id) {
                None => Err(FedError::Transport),
                Some(i) => {
                    proof {
                        assert(env@[i as int] == env.entries@[i as int]@);
                    }
                    let entry = &env.entries[i];
                    match &entry.payload {
                        WirePayload::Actor(wa) => {
                            if wa.id == *ap_id {
                                let ghost oldactors = store@.actors;
                                let id = store.insert_actor(wa.id.clone());
                                let out = ActorEntity { id, ap_id: ap_id.clone() };
                                proof {
                                    lemma_push_lookup_actor(
                                        oldactors,
                                        ActorV { id, ap_id: ap_id@ },
                                    );
                                    lemma_actor_lookup_preserved(
                                        oldactors,
                                        ActorV { id, ap_id: ap_id@ },
                                    );
                                }
                                Ok(out)
                            } else {
                                Err(FedError::Validation)
                            }
                        },
                        _ => Err(FedError::Validation),
                    }
                },
            }
        },
    }
}

/// Resolves the community referenced by `ap_id` and hands back its local id.
/// A cached community is free; otherwise one fetch is charged and the served
/// community object is validated and cached with its declared posting
/// restriction and empty local membership and ban lists.
pub fn deref_community(
    store: &mut Store,
    env: &FetchEnv,
    budget: &mut ResolutionBudget,
    ap_id: &String,
) -> (r: Result<u64, FedError>)
    requires
        old(store).wf(),
        env.wf(),
        old(budget).wf(),
        old(store)@.next_id + old(budget).remaining() + 1 <= u64::MAX,
    ensures
        final(store).wf(),
        final(budget).wf(),
        final(budget).ceiling == old(budget).ceiling,
        old(budget).used <= final(budget).used,
        final(store)@.next_id + final(budget).remaining() <= old(store)@.next_id + old(budget).remaining(),
        final(store)@.posts == old(store)@.posts,
        final(store)@.actors == old(store)@.actors,
        final(store)@.replies == old(store)@.replies,
        r matches Ok(id) ==> has_community_id(final(store)@.communities, id),
        has_community(old(store)@.communities, ap_id@) ==> final(store)@ == old(store)@ && *final(budget) == *old(budget) && r == Ok::<u64, FedError>(
            community_at(old(store)@.communities, ap_id@).id,
        ),
        !has_community(old(store)@.communities, ap_id@) ==> if old(budget).remaining() == 0 {
            r == Err::<u64, FedError>(FedError::BudgetExhausted) && final(store)@ == old(store)@
                && *final(budget) == *old(budget)
        } else {
            final(budget).used == old(budget).used + 1 && if serves_community(env@, ap_id@) {
                final(store)@.communities == old(store)@.communities.push(
                    CommunityV {
                        id: old(store)@.next_id,
                        ap_id: ap_id@,
                        posting_restricted: served_restriction(env@, ap_id@),
                        members: Seq::<u64>::empty(),
                        banned: Seq::<u64>::empty(),
                    },
                ) && final(store)@.next_id == old(store)@.next_id + 1 && r == Ok::<u64, FedError>(
                    old(store)@.next_id,
                )
            } else {
                final(store)@ == old(store)@ && r == Err::<u64, FedError>(
                    if has_served(env@, ap_id@) {
                        FedError::Validation
                    } else {
                        FedError::Transport
                    },
                )
            }
        },
{
    match store.find_community(ap_id) {
        Some(c) => {
            proof {
                let j = choose|j: int|
                    0 <= j < store@.communities.len() && store@.communities[j].ap_id == ap_id@;
                lemma_community_by_own_id(store@, j);
            }
            Ok(c.id)
        },
        None => {
            if !budget.try_charge() {
                return Err(FedError::BudgetExhausted);
            }
            match env.fetch(ap_id) {
                None => Err(FedError::Transport),
                Some(i) => {
                    proof {
                        assert(env@[i as int] == env.entries@[i as int]@);
                    }
                    let entry = &env.entries[i];
                    match &entry.payload {
                        WirePayload::Community(wc) => {
                            if wc.id == *ap_id {
                                let ghost oldcomms = store@.communities;
                                let members: Vec<u64> = Vec::new();
                                let banned: Vec<u64> = Vec::new();
                                let restricted = wc.posting_restricted;
                                let id = store.insert_community(
                                    wc.id.clone(),
                                    restricted,
                                    members,
                                    banned,
                                );
                                proof {
                                    lemma_push_lookup_community(
                                        oldcomms,
                                        CommunityV {
                                            id,
                                            ap_id: ap_id@,
                                            posting_restricted: restricted,
                                            members: Seq::<u64>::empty(),
                                            banned: Seq::<u64>::empty(),
                                        },
                                    );
                                    assert(store@.communities == oldcomms.push(
                                        CommunityV {
                                            id,
                                            ap_id: ap_id@,
                                            posting_restricted: restricted,
                                            members: Seq::<u64>::empty(),
                                            banned: Seq::<u64>::empty(),
                                        },
                                    ));
                                }
                                Ok(id)
                            } else {
                                Err(FedError::Validation)
                            }
                        },
                        _ => Err(FedError::Validation),
                    }
                },
            }
        },
    }
}

/// Converts a fetched post object into a cached post entity: its owning
/// community is resolved first (with the same budget), then the post is
/// cached. The fetch of the post object itself has already been charged by
/// the caller.
pub fn materialize_post(
    store: &mut Store,
    env: &FetchEnv,
    budget: &mut ResolutionBudget,
    wp: &WirePost,
) -> (r: Result<u64, FedError>)
    requires
        old(store).wf(),
        env.wf(),
        old(budget).wf(),
        !has_post(old(store)@.posts, wp.id@),
        old(store)@.next_id + old(budget).remaining() + 2 <= u64::MAX,
    ensures
        final(store).wf(),
        final(budget).wf(),
        final(budget).ceiling == old(budget).ceiling,
        old(budget).used <= final(budget).used,
        final(store)@.next_id + final(budget).remaining() <= old(store)@.next_id + old(budget).remaining() + 1,
        final(store)@.actors == old(store)@.actors,
        final(store)@.replies == old(store)@.replies,
        r matches Ok(id) ==> has_post(final(store)@.posts, wp.id@) && post_at(
            final(store)@.posts,
            wp.id@,
        ) == (PostV {
            id,
            ap_id: wp.id@,
            community_id: post_at(final(store)@.posts, wp.id@).community_id,
            locked: wp.locked,
        }) && has_community_id(
            final(store)@.communities,
            post_at(final(store)@.posts, wp.id@).community_id,
        ) && has_post_id(final(store)@.posts, id) && post_by_id(final(store)@.posts, id)
            == post_at(final(store)@.posts, wp.id@),
        has_community(old(store)@.communities, wp.community@) ==> *final(budget) == *old(budget)
            && final(store)@.communities == old(store)@.communities && final(store)@.posts == old(
            store,
        )@.posts.push(
            PostV {
                id: old(store)@.next_id,
                ap_id: wp.id@,
                community_id: community_at(old(store)@.communities, wp.community@).id,
                locked: wp.locked,
            },
        ) && final(store)@.next_id == old(store)@.next_id + 1 && r == Ok::<u64, FedError>(
            old(store)@.next_id,
        ),
        !has_community(old(store)@.communities, wp.community@) ==> if old(budget).remaining()
            == 0 {
            r == Err::<u64, FedError>(FedError::BudgetExhausted) && final(store)@ == old(store)@
                && *final(budget) == *old(budget)
        } else {
            final(budget).used == old(budget).used + 1 && if serves_community(
                env@,
                wp.community@,
            ) {
                final(store)@.communities == old(store)@.communities.push(
                    CommunityV {
                        id: old(store)@.next_id,
                        ap_id: wp.community@,
                        posting_restricted: served_restriction(env@, wp.community@),
                        members: Seq::<u64>::empty(),
                        banned: Seq::<u64>::empty(),
                    },
                ) && final(store)@.posts == old(store)@.posts.push(
                    PostV {
                        id: (old(store)@.next_id + 1) as u64,
                        ap_id: wp.id@,
                        community_id: old(store)@.next_id,
                        locked: wp.locked,
                    },
                ) && final(store)@.next_id == old(store)@.next_id + 2 && r == Ok::<u64, FedError>(
                    (old(store)@.next_id + 1) as u64,
                )
            } else {
                final(store)@ == old(store)@ && r == Err::<u64, FedError>(
                    if has_served(env@, wp.community@) {
                        FedError::Validation
                    } else {
                        FedError::Transport
                    },
                )
            }
        },
{
    let cid = match deref_community(store, env, budget, &wp.community) {
        Ok(c) => c,
        Err(e) => {
            return Err(e);
        },
    };
    let ghost oldposts = store@.posts;
    let id = store.insert_post(wp.id.clone(), cid, wp.locked);
    proof {
        lemma_push_lookup_post(
            oldposts,
            PostV { id, ap_id: wp.id@, community_id: cid, locked: wp.locked },
        );
        assert(store@.posts[oldposts.len() as int] == (PostV {
            id,
            ap_id: wp.id@,
            community_id: cid,
            locked: wp.locked,
        }));
        lemma_post_by_own_id(store@, oldposts.len() as int);
    }
    Ok(id)
}

} // verus!
