use vstd::prelude::*;

use crate::budget::ResolutionBudget;
use crate::entities::{ActorV, CommunityV, PostV, ReplyForm};
use crate::entities::ReplyEntity;
use crate::errors::FedError;
use crate::ids::{domains_match, same_authority};
use crate::resolve::{deref_actor, materialize_post, serves_actor};
use crate::sanitize::{filter_slurs, filter_spec, markdown_of, normalize, render, render_spec};
use crate::store::{
    Store, StoreV, actor_at, actor_by_id, community_by_id, has_actor, has_actor_id,
    has_community_id, has_post, has_post_id, has_reply, has_reply_id, lemma_post_at_index,
    lemma_post_by_own_id,
    lemma_reply_at_index, lemma_reply_by_own_id, lemma_upsert_reply_link, lemma_wf_push_reply,
    lemma_wf_update_reply, mark_deleted,
    mark_deleted_id, post_at, post_by_id, reply_at, reply_by_id, reply_created, reply_index,
    reply_updated, upsert_store, upserted_reply, wf_store,
};
use crate::entities::FormV;
use crate::trust::{trusted_spec, verify_person_in_community};
use crate::entities::ReplyV;
use crate::wire::{
    EnvEntryV, FetchEnv, KindTag, MediaTag, Note, NoteV, PayloadV, SourceBlock, SourceCompat,
    SourceV, Tombstone, WirePayload, has_served, served_at,
};

verus! {

// ---------------------------------------------------------------------------
// The inbound context, at the spec level
// ---------------------------------------------------------------------------

/// The authoring actor is already known locally.
pub open spec fn author_cached(s: StoreV, n: NoteV) -> bool {
    has_actor(s.actors, n.attributed_to)
}

/// The root post of the reply target: the target itself when it names a
/// post, else the post of the parent reply it names. A post under the target
/// identifier takes precedence over a reply under the same identifier.
pub open spec fn root_post(s: StoreV, n: NoteV) -> PostV {
    if has_post(s.posts, n.in_reply_to) {
        post_at(s.posts, n.in_reply_to)
    } else {
        post_by_id(s.posts, reply_at(s.replies, n.in_reply_to).post_id)
    }
}

/// The parent-reply id the entity will carry: `None` when the reply is
/// attached directly to the post.
pub open spec fn parent_of(s: StoreV, n: NoteV) -> Option<u64> {
    if has_post(s.posts, n.in_reply_to) {
        None
    } else {
        Some(reply_at(s.replies, n.in_reply_to).id)
    }
}

/// The whole reply-target chain is already known locally, down to the owning
/// community.
pub open spec fn target_cached(s: StoreV, n: NoteV) -> bool {
    if has_post(s.posts, n.in_reply_to) {
        has_community_id(s.communities, post_at(s.posts, n.in_reply_to).community_id)
    } else {
        has_reply(s.replies, n.in_reply_to) && has_post_id(
            s.posts,
            reply_at(s.replies, n.in_reply_to).post_id,
        ) && has_community_id(
            s.communities,
            post_by_id(s.posts, reply_at(s.replies, n.in_reply_to).post_id).community_id,
        )
    }
}

/// Everything the inbound conversion needs is already known locally, so the
/// conversion costs no fetch.
pub open spec fn ctx_cached(s: StoreV, n: NoteV) -> bool {
    author_cached(s, n) && target_cached(s, n)
}

/// The cached authoring actor.
pub open spec fn ctx_author(s: StoreV, n: NoteV) -> ActorV {
    actor_at(s.actors, n.attributed_to)
}

/// The cached owning community of the root post.
pub open spec fn ctx_community(s: StoreV, n: NoteV) -> CommunityV {
    community_by_id(s.communities, root_post(s, n).community_id)
}

/// The cached authoring actor has standing in the cached owning community.
pub open spec fn ctx_trusted(s: StoreV, n: NoteV) -> bool {
    trusted_spec(ctx_author(s, n), ctx_community(s, n))
}

/// The body text an inbound wire reply yields: the literal Markdown of a
/// compatible source block, else the lossy re-derivation from the rendered
/// hypertext; slur filtering runs on either.
pub open spec fn inbound_content(n: NoteV, pattern: Seq<char>) -> Seq<char> {
    match n.source {
        SourceV::Exact { content, media_type } => filter_spec(content, pattern),
        SourceV::Derived => filter_spec(markdown_of(n.content), pattern),
    }
}

/// The form the inbound conversion commits for a wire reply whose context is
/// cached in `s`.
pub open spec fn expected_form(s: StoreV, n: NoteV, pattern: Seq<char>) -> FormV {
    FormV {
        ap_id: n.id,
        creator_id: ctx_author(s, n).id,
        post_id: root_post(s, n).id,
        parent_id: parent_of(s, n),
        content: inbound_content(n, pattern),
        published: n.published,
        updated: n.updated,
    }
}

/// What every successful inbound conversion guarantees of the final store,
/// fetch path included: the committed row is keyed by the wire identifier
/// and carries the wire's timestamps and filtered body; the authoring actor
/// is cached and is the row's creator; the row's root post exists, is not
/// locked, and the author holds standing in its owning community; and the
/// reply-target link is consistent — no parent means the root post is the
/// wire target, a parent means a cached reply on the same root post whose
/// identifier is the wire target or at least shares its authority (a fetched
/// parent may declare a different identifier than the URL it was fetched
/// from, as long as the authority matches).
pub open spec fn resolved_facts(fs: StoreV, n: NoteV, pattern: Seq<char>, e: ReplyV) -> bool {
    &&& has_reply(fs.replies, n.id)
    &&& reply_at(fs.replies, n.id) == e
    &&& e.ap_id == n.id
    &&& !e.local
    &&& e.content == inbound_content(n, pattern)
    &&& e.published == n.published
    &&& e.updated == n.updated
    &&& has_actor(fs.actors, n.attributed_to)
    &&& e.creator_id == actor_at(fs.actors, n.attributed_to).id
    &&& has_post_id(fs.posts, e.post_id)
    &&& !post_by_id(fs.posts, e.post_id).locked
    &&& has_community_id(fs.communities, post_by_id(fs.posts, e.post_id).community_id)
    &&& trusted_spec(
        actor_at(fs.actors, n.attributed_to),
        community_by_id(fs.communities, post_by_id(fs.posts, e.post_id).community_id),
    )
    &&& match e.parent_id {
        None => post_by_id(fs.posts, e.post_id).ap_id == n.in_reply_to,
        Some(pid) => has_reply_id(fs.replies, pid) && reply_by_id(fs.replies, pid).id == pid
            && reply_by_id(fs.replies, pid).post_id == e.post_id && (reply_by_id(
            fs.replies,
            pid,
        ).ap_id == n.in_reply_to || same_authority(
            reply_by_id(fs.replies, pid).ap_id,
            n.in_reply_to,
        )),
    }
}

/// No cached lookup of an actor changes across the operation: the actor
/// cache only grows, under fresh identifiers.
pub open spec fn actors_preserved(a: Seq<ActorV>, b: Seq<ActorV>) -> bool {
    forall|apid: Seq<char>| #![trigger has_actor(a, apid)]
        has_actor(a, apid) ==> has_actor(b, apid) && actor_at(b, apid) == actor_at(a, apid)
}

// ---------------------------------------------------------------------------
// Reply-target resolution
// ---------------------------------------------------------------------------

/// The resolved reply target: the local id of the root post and, where the
/// target was a reply, the local id of that parent reply.
pub struct ResolvedTarget {
    pub post_id: u64,
    pub parent_id: Option<u64>,
}

/// The reply target already names a locally known post or reply.
pub open spec fn target_known(s: StoreV, url: Seq<char>) -> bool {
    has_post(s.posts, url) || has_reply(s.replies, url)
}

/// What the one fetch of an unknown reply target must yield for resolution
/// to go on: a reply object, or a post object declaring the fetched URL as
/// its identifier. Anything else is classified at once.
pub open spec fn target_fetch_rejected(env: Seq<EnvEntryV>, url: Seq<char>) -> Option<
    FedError,
> {
    if !has_served(env, url) {
        Some(FedError::Transport)
    } else {
        match served_at(env, url) {
            PayloadV::Actor { .. } => Some(FedError::Validation),
            PayloadV::Community { .. } => Some(FedError::Validation),
            PayloadV::Post { id, .. } => if id != url {
                Some(FedError::Validation)
            } else {
                None
            },
            PayloadV::Reply(_) => None,
        }
    }
}

/// The target linkage a successful target resolution leaves in the store:
/// a post target is a cached post under the target identifier; a reply
/// target is a cached parent reply on the returned root post, keyed by the
/// target identifier or by an identifier of the same authority.
pub open spec fn target_link(fs: StoreV, t: ResolvedTarget, url: Seq<char>) -> bool {
    match t.parent_id {
        None => has_post_id(fs.posts, t.post_id) && post_by_id(fs.posts, t.post_id).ap_id == url,
        Some(pid) => has_reply_id(fs.replies, pid) && reply_by_id(fs.replies, pid).id == pid
            && reply_by_id(fs.replies, pid).post_id == t.post_id && (reply_by_id(
            fs.replies,
            pid,
        ).ap_id == url || same_authority(reply_by_id(fs.replies, pid).ap_id, url)),
    }
}

/// Resolves the reply-target identifier to a root post and an optional
/// parent reply. A cached post or reply under the identifier is free;
/// otherwise one fetch is charged, and a served post is materialized while a
/// served reply is converted through the full inbound path with the same
/// budget.
fn deref_target(
    store: &mut Store,
    env: &FetchEnv,
    budget: &mut ResolutionBudget,
    url: &String,
    pattern: &str,
) -> (r: Result<ResolvedTarget, FedError>)
    requires
        old(store).wf(),
        env.wf(),
        old(budget).wf(),
        old(store)@.next_id + old(budget).remaining() + 1 <= u64::MAX,
    ensures
        final(store).wf(),
        final(budget).wf(),
        final(budget).ceiling == old(budget).ceiling,
        old(budget).used <= final(budget).used,
        final(store)@.next_id + final(budget).remaining() <= old(store)@.next_id + old(budget).remaining(),
        has_post(old(store)@.posts, url@) ==> final(store)@ == old(store)@ && *final(budget)
            == *old(budget) && (r matches Ok(t) && t.post_id == post_at(
            old(store)@.posts,
            url@,
        ).id && t.parent_id is None),
        !has_post(old(store)@.posts, url@) && has_reply(old(store)@.replies, url@) ==> final(store)@ == old(store)@ && *final(budget) == *old(budget) && (r matches Ok(t) && t.post_id
            == reply_at(old(store)@.replies, url@).post_id && t.parent_id == Some(
            reply_at(old(store)@.replies, url@).id,
        )),
        !has_post(old(store)@.posts, url@) && !has_reply(old(store)@.replies, url@) && old(budget).remaining() == 0 ==> r == Err::<ResolvedTarget, FedError>(FedError::BudgetExhausted)
            && final(store)@ == old(store)@ && *final(budget) == *old(budget),
        r matches Ok(t) ==> target_link(final(store)@, t, url@),
        actors_preserved(old(store)@.actors, final(store)@.actors),
        !target_known(old(store)@, url@) && old(budget).remaining() > 0 && (
        target_fetch_rejected(env@, url@) matches Some(err)) ==> final(budget).used == old(
            budget,
        ).used + 1 && final(store)@ == old(store)@ && r == Err::<ResolvedTarget, FedError>(
            target_fetch_rejected(env@, url@)->Some_0,
        ),
    decreases budget.remaining(), 2int,
{
    match store.find_post(url) {
        Some(p) => {
            proof {
                let j = choose|j: int|
                    0 <= j < store@.posts.len() && store@.posts[j].ap_id == url@;
                lemma_post_by_own_id(store@, j);
            }
            return Ok(ResolvedTarget { post_id: p.id, parent_id: None });
        },
        None => {},
    }
    match store.find_reply(url) {
        Some(e) => {
            proof {
                let j = reply_index(store@.replies, url@);
                assert(0 <= j < store@.replies.len() && store@.replies[j].ap_id == url@);
                assert(store@.replies[j] == reply_at(store@.replies, url@));
                lemma_reply_by_own_id(store@, j);
            }
            return Ok(ResolvedTarget { post_id: e.post_id, parent_id: Some(e.id) });
        },
        None => {},
    }
    if !budget.try_charge() {
        return Err(FedError::BudgetExhausted);
    }
    match env.fetch(url) {
        None => Err(FedError::Transport),
        Some(i) => {
            proof {
                assert(env@[i as int] == env.entries@[i as int]@);
            }
            let entry = &env.entries[i];
            match &entry.payload {
                WirePayload::Post(wp) => {
                    if wp.id == *url {
                        match materialize_post(store, env, budget, wp) {
                            Ok(pid) => Ok(ResolvedTarget { post_id: pid, parent_id: None }),
                            Err(e) => Err(e),
                        }
                    } else {
                        Err(FedError::Validation)
                    }
                },
                WirePayload::Reply(parent_note) => {
                    match from_wire_inner(store, env, parent_note, url.as_str(), pattern, budget) {
                        Ok(parent) => {
                            proof {
                                let j = reply_index(store@.replies, parent_note@.id);
                                assert(0 <= j < store@.replies.len() && store@.replies[j].ap_id
                                    == parent_note@.id);
                                assert(store@.replies[j] == reply_at(
                                    store@.replies,
                                    parent_note@.id,
                                ));
                                lemma_reply_by_own_id(store@, j);
                            }
                            Ok(
                                ResolvedTarget {
                                    post_id: parent.post_id,
                                    parent_id: Some(parent.id),
                                },
                            )
                        },
                        Err(e) => Err(e),
                    }
                },
                _ => Err(FedError::Validation),
            }
        },
    }
}

// ---------------------------------------------------------------------------
// Inbound conversion
// ---------------------------------------------------------------------------

/// The inbound conversion proper, working directly on the store it is given.
/// `from_wire` runs it on a scratch copy and commits only on success.
fn from_wire_inner(
    store: &mut Store,
    env: &FetchEnv,
    note: &Note,
    claimed_domain: &str,
    slur_pattern: &str,
    budget: &mut ResolutionBudget,
) -> (r: Result<ReplyEntity, FedError>)
    requires
        old(store).wf(),
        env.wf(),
        old(budget).wf(),
        old(store)@.next_id + old(budget).remaining() + 1 <= u64::MAX,
    ensures
        final(store).wf(),
        final(budget).wf(),
        final(budget).ceiling == old(budget).ceiling,
        old(budget).used <= final(budget).used,
        final(store)@.next_id + final(budget).remaining() <= old(store)@.next_id + old(budget).remaining() + 1,
        !same_authority(note@.id, claimed_domain@) ==> r == Err::<ReplyEntity, FedError>(
            FedError::Validation,
        ) && final(store)@ == old(store)@ && *final(budget) == *old(budget),
        same_authority(note@.id, claimed_domain@) && ctx_cached(old(store)@, note@) ==> *final(budget) == *old(budget) && if !ctx_trusted(old(store)@, note@) {
            r == Err::<ReplyEntity, FedError>(FedError::NotPermitted) && final(store)@ == old(store)@
        } else if root_post(old(store)@, note@).locked {
            r == Err::<ReplyEntity, FedError>(FedError::ThreadClosed) && final(store)@ == old(store)@
        } else {
            final(store)@ == upsert_store(
                old(store)@,
                expected_form(old(store)@, note@, slur_pattern@),
            ) && (r matches Ok(e) && e@ == upserted_reply(
                old(store)@,
                expected_form(old(store)@, note@, slur_pattern@),
            ))
        },
        r matches Ok(e) ==> same_authority(note@.id, claimed_domain@) && resolved_facts(
            final(store)@,
            note@,
            slur_pattern@,
            e@,
        ),
        actors_preserved(old(store)@.actors, final(store)@.actors),
        same_authority(note@.id, claimed_domain@) && !author_cached(old(store)@, note@) ==> (
        if old(budget).remaining() == 0 {
            r == Err::<ReplyEntity, FedError>(FedError::BudgetExhausted) && final(store)@ == old(
                store,
            )@ && *final(budget) == *old(budget)
        } else if !serves_actor(env@, note@.attributed_to) {
            final(budget).used == old(budget).used + 1 && final(store)@ == old(store)@ && r
                == Err::<ReplyEntity, FedError>(
                if has_served(env@, note@.attributed_to) {
                    FedError::Validation
                } else {
                    FedError::Transport
                },
            )
        } else {
            true
        }),
        same_authority(note@.id, claimed_domain@) && author_cached(old(store)@, note@)
            && !target_known(old(store)@, note@.in_reply_to) ==> (
        if old(budget).remaining() == 0 {
            r == Err::<ReplyEntity, FedError>(FedError::BudgetExhausted) && final(store)@ == old(
                store,
            )@ && *final(budget) == *old(budget)
        } else if target_fetch_rejected(env@, note@.in_reply_to) is Some {
            final(budget).used == old(budget).used + 1 && final(store)@ == old(store)@ && r
                == Err::<ReplyEntity, FedError>(
                target_fetch_rejected(env@, note@.in_reply_to)->Some_0,
            )
        } else {
            true
        }),
    decreases budget.remaining(), 3int,
{
    // Step 1: the declared identifier must carry the authority the fetch was
    // performed against.
    if !domains_match(note.id.as_str(), claimed_domain) {
        return Err(FedError::Validation);
    }
    // Step 2: resolve the authoring actor.
    let author = match deref_actor(store, env, budget, &note.attributed_to) {
        Ok(a) => a,
        Err(e) => {
            return Err(e);
        },
    };
    // Step 3: resolve the reply-target chain.
    let target = match deref_target(store, env, budget, &note.in_reply_to, slur_pattern) {
        Ok(t) => t,
        Err(e) => {
            return Err(e);
        },
    };
    proof {
        if ctx_cached(old(store)@, note@) {
            if has_post(old(store)@.posts, note@.in_reply_to) {
                let j = choose|j: int|
                    0 <= j < old(store)@.posts.len() && old(store)@.posts[j].ap_id
                        == note@.in_reply_to;
                lemma_post_by_own_id(old(store)@, j);
            }
        }
    }
    // Step 4: read the root post and its owning community from storage.
    let post = match store.find_post_by_id(target.post_id) {
        Some(p) => p,
        None => {
            return Err(FedError::Storage);
        },
    };
    let community = match store.find_community_by_id(post.community_id) {
        Some(c) => c,
        None => {
            return Err(FedError::Storage);
        },
    };
    // Step 5: the author must have standing in the community.
    match verify_person_in_community(&author, &community) {
        Ok(()) => {},
        Err(e) => {
            return Err(e);
        },
    }
    // Step 6: a locked thread accepts no replies.
    if post.locked {
        return Err(FedError::ThreadClosed);
    }
    // Step 7: determine the body text and filter it.
    let content = match &note.source {
        SourceCompat::Exact(block) => filter_slurs(block.content.as_str(), slur_pattern),
        SourceCompat::Derived => {
            let md = normalize(note.content.as_str());
            filter_slurs(md.as_str(), slur_pattern)
        },
    };
    // Step 8: the idempotent upsert, the single commit point.
    let form = ReplyForm {
        ap_id: note.id.clone(),
        creator_id: author.id,
        post_id: target.post_id,
        parent_id: target.parent_id,
        content,
        published: note.published,
        updated: note.updated,
    };
    let ghost committed = store@;
    proof {
        match target.parent_id {
            Some(pid) => {
                lemma_upsert_reply_link(committed, form@, pid);
            },
            None => {},
        }
    }
    let e = store.upsert_reply(form);
    proof {
        assert(store@.posts == committed.posts);
        assert(store@.communities == committed.communities);
        assert(store@.actors == committed.actors);
    }
    Ok(e)
}

/// Converts an inbound wire reply to a persisted local entity, resolving its
/// authoring actor and its reply-target chain (fetching what is not yet known
/// locally, under the shared budget), verifying the author's standing in the
/// owning community, rejecting replies to locked threads, normalizing and
/// filtering the body, and committing through the idempotent upsert. A
/// failure of any step aborts the whole conversion and persists nothing.
pub fn from_wire(
    store: &mut Store,
    env: &FetchEnv,
    note: &Note,
    claimed_domain: &str,
    slur_pattern: &str,
    budget: &mut ResolutionBudget,
) -> (r: Result<ReplyEntity, FedError>)
    requires
        old(store).wf(),
        env.wf(),
        old(budget).wf(),
        old(store)@.next_id + old(budget).remaining() + 1 <= u64::MAX,
    ensures
        final(store).wf(),
        final(budget).wf(),
        final(budget).ceiling == old(budget).ceiling,
        old(budget).used <= final(budget).used,
        final(budget).used <= final(budget).ceiling,
        final(store)@.next_id + final(budget).remaining() <= old(store)@.next_id + old(budget).remaining() + 1,
        r is Err ==> final(store)@ == old(store)@,
        !same_authority(note@.id, claimed_domain@) ==> r == Err::<ReplyEntity, FedError>(
            FedError::Validation,
        ) && *final(budget) == *old(budget),
        same_authority(note@.id, claimed_domain@) && ctx_cached(old(store)@, note@) ==> *final(budget) == *old(budget) && if !ctx_trusted(old(store)@, note@) {
            r == Err::<ReplyEntity, FedError>(FedError::NotPermitted)
        } else if root_post(old(store)@, note@).locked {
            r == Err::<ReplyEntity, FedError>(FedError::ThreadClosed)
        } else {
            final(store)@ == upsert_store(
                old(store)@,
                expected_form(old(store)@, note@, slur_pattern@),
            ) && (r matches Ok(e) && e@ == upserted_reply(
                old(store)@,
                expected_form(old(store)@, note@, slur_pattern@),
            ))
        },
        r matches Ok(e) ==> same_authority(note@.id, claimed_domain@) && resolved_facts(
            final(store)@,
            note@,
            slur_pattern@,
            e@,
        ),
        r is Ok ==> actors_preserved(old(store)@.actors, final(store)@.actors),
        same_authority(note@.id, claimed_domain@) && !author_cached(old(store)@, note@) ==> (
        if old(budget).remaining() == 0 {
            r == Err::<ReplyEntity, FedError>(FedError::BudgetExhausted) && final(store)@ == old(
                store,
            )@ && *final(budget) == *old(budget)
        } else if !serves_actor(env@, note@.attributed_to) {
            final(budget).used == old(budget).used + 1 && final(store)@ == old(store)@ && r
                == Err::<ReplyEntity, FedError>(
                if has_served(env@, note@.attributed_to) {
                    FedError::Validation
                } else {
                    FedError::Transport
                },
            )
        } else {
            true
        }),
        same_authority(note@.id, claimed_domain@) && author_cached(old(store)@, note@)
            && !target_known(old(store)@, note@.in_reply_to) ==> (
        if old(budget).remaining() == 0 {
            r == Err::<ReplyEntity, FedError>(FedError::BudgetExhausted) && final(store)@ == old(
                store,
            )@ && *final(budget) == *old(budget)
        } else if target_fetch_rejected(env@, note@.in_reply_to) is Some {
            final(budget).used == old(budget).used + 1 && final(store)@ == old(store)@ && r
                == Err::<ReplyEntity, FedError>(
                target_fetch_rejected(env@, note@.in_reply_to)->Some_0,
            )
        } else {
            true
        }),
{
    let mut scratch = store.duplicate();
    match from_wire_inner(&mut scratch, env, note, claimed_domain, slur_pattern, budget) {
        Ok(e) => {
            *store = scratch;
            Ok(e)
        },
        Err(e) => Err(e),
    }
}

// ---------------------------------------------------------------------------
// Outbound conversion
// ---------------------------------------------------------------------------

/// The IRI of the shared public audience collection, which every outbound
/// wire reply is addressed to.
pub open spec fn public_iri() -> Seq<char> {
    "https://www.w3.org/ns/activitystreams#Public"@
}

/// Relies on `activitystreams::public`: the IRI of the public collective
/// audience, a fixed well-known constant.
#[verifier::external_body]
fn public_audience() -> (r: String)
    ensures
        r@ == public_iri(),
{
    activitystreams::public().to_string()
}

/// The storage reads the outbound conversion needs all succeed: the author
/// and the root post are known, and so is the parent reply where one is
/// referenced.
pub open spec fn to_wire_ok(s: StoreV, e: ReplyV) -> bool {
    has_actor_id(s.actors, e.creator_id) && has_post_id(s.posts, e.post_id) && match e.parent_id {
        Some(p) => has_reply_id(s.replies, p),
        None => true,
    }
}

/// The wire object the outbound conversion assembles for the entity: public
/// audience, rendered hypertext body, the untouched Markdown attached as the
/// source block exactly when the entity is locally authored, and the reply
/// target naming the parent reply where there is one, else the root post.
pub open spec fn expected_note(s: StoreV, e: ReplyV) -> NoteV {
    NoteV {
        id: e.ap_id,
        attributed_to: actor_by_id(s.actors, e.creator_id).ap_id,
        to: seq![public_iri()],
        content: render_spec(e.content),
        media_type: Some(MediaTag::Html),
        source: if e.local {
            SourceV::Exact { content: e.content, media_type: MediaTag::Markdown }
        } else {
            SourceV::Derived
        },
        in_reply_to: match e.parent_id {
            Some(p) => reply_by_id(s.replies, p).ap_id,
            None => post_by_id(s.posts, e.post_id).ap_id,
        },
        published: e.published,
        updated: e.updated,
        unparsed: Seq::<(Seq<char>, Seq<char>)>::empty(),
    }
}

/// Converts a local entity to its portable wire form, reading its author and
/// reply target from storage. Pure but for those reads; it fails only when a
/// read fails.
pub fn to_wire(store: &Store, reply: &ReplyEntity) -> (r: Result<Note, FedError>)
    requires
        store.wf(),
    ensures
        r is Ok <==> to_wire_ok(store@, reply@),
        r matches Ok(n) ==> n@ == expected_note(store@, reply@),
        r is Err ==> r == Err::<Note, FedError>(FedError::Storage),
{
    let author = match store.find_actor_by_id(reply.creator_id) {
        Some(a) => a,
        None => {
            return Err(FedError::Storage);
        },
    };
    let post = match store.find_post_by_id(reply.post_id) {
        Some(p) => p,
        None => {
            return Err(FedError::Storage);
        },
    };
    let in_reply_to = match reply.parent_id {
        Some(pid) => match store.find_reply_by_id(pid) {
            Some(parent) => parent.ap_id,
            None => {
                return Err(FedError::Storage);
            },
        },
        None => post.ap_id,
    };
    let source = if reply.local {
        SourceCompat::Exact(
            SourceBlock { content: reply.content.clone(), media_type: MediaTag::Markdown },
        )
    } else {
        SourceCompat::Derived
    };
    let rendered = render(reply.content.as_str());
    let mut to: Vec<String> = Vec::new();
    to.push(public_audience());
    let unparsed: Vec<(String, String)> = Vec::new();
    let note = Note {
        id: reply.ap_id.clone(),
        attributed_to: author.ap_id,
        to,
        content: rendered,
        media_type: Some(MediaTag::Html),
        source,
        in_reply_to,
        published: reply.published,
        updated: reply.updated,
        unparsed,
    };
    proof {
        assert(note@.to =~= seq![public_iri()]);
        assert(note@.unparsed =~= Seq::<(Seq<char>, Seq<char>)>::empty());
        assert(note@ =~= expected_note(store@, reply@));
    }
    Ok(note)
}

/// The timestamp a tombstone carries: the last update where there was one,
/// else the creation time.
pub open spec fn tombstone_time(e: ReplyV) -> i64 {
    match e.updated {
        Some(u) => u,
        None => e.published,
    }
}

/// Builds the minimal deletion marker for an entity that has been deleted or
/// removed. No side effects.
pub fn to_tombstone(reply: &ReplyEntity) -> (t: Tombstone)
    requires
        reply@.deleted || reply@.removed,
    ensures
        t.tag == KindTag::Note,
        t.deleted == tombstone_time(reply@),
{
    let when = match reply.updated {
        Some(u) => u,
        None => reply.published,
    };
    Tombstone { tag: KindTag::Note, deleted: when }
}

// ---------------------------------------------------------------------------
// Tombstones and deletion
// ---------------------------------------------------------------------------

/// Applies an inbound tombstone: the entity imported under the identifier is
/// marked soft-deleted with no other mutation, and a tombstone for an
/// identifier never seen is accepted as a no-op, so deletion is idempotent.
pub fn receive_tombstone(store: &mut Store, ap_id: &String) -> (r: Result<(), FedError>)
    requires
        old(store).wf(),
    ensures
        final(store).wf(),
        r is Ok,
        final(store)@.replies == mark_deleted(old(store)@.replies, ap_id@),
        final(store)@.actors == old(store)@.actors,
        final(store)@.posts == old(store)@.posts,
        final(store)@.communities == old(store)@.communities,
        final(store)@.next_id == old(store)@.next_id,
        has_reply(old(store)@.replies, ap_id@) ==> has_reply(final(store)@.replies, ap_id@)
            && reply_at(final(store)@.replies, ap_id@).deleted,
        !has_reply(old(store)@.replies, ap_id@) ==> final(store)@ == old(store)@,
{
    let ghost olds = store@;
    let _found = store.set_reply_deleted(ap_id);
    proof {
        if has_reply(olds.replies, ap_id@) {
            let j = reply_index(olds.replies, ap_id@);
            assert(store@.replies[j].ap_id == ap_id@);
            lemma_reply_at_index(store@.replies, j);
        } else {
            assert(store@ =~= olds);
        }
    }
    Ok(())
}

/// Soft-deletes the entity with this local id; a row is never hard-deleted
/// by federation. Fails with a storage error when no such row exists.
pub fn delete(store: &mut Store, id: u64) -> (r: Result<(), FedError>)
    requires
        old(store).wf(),
    ensures
        final(store).wf(),
        r is Ok <==> has_reply_id(old(store)@.replies, id),
        r is Err ==> r == Err::<(), FedError>(FedError::Storage) && final(store)@ == old(store)@,
        final(store)@.replies == mark_deleted_id(old(store)@.replies, id),
        final(store)@.actors == old(store)@.actors,
        final(store)@.posts == old(store)@.posts,
        final(store)@.communities == old(store)@.communities,
        final(store)@.next_id == old(store)@.next_id,
{
    let found = store.set_reply_deleted_by_id(id);
    proof {
        if !has_reply_id(old(store)@.replies, id) {
            assert(store@ =~= old(store)@);
        }
    }
    if found {
        Ok(())
    } else {
        Err(FedError::Storage)
    }
}

// ---------------------------------------------------------------------------
// Laws
// ---------------------------------------------------------------------------

/// Tombstone idempotence: marking the row under an identifier soft-deleted
/// twice leaves exactly what marking it once leaves, the row (where there is
/// one) reads deleted afterwards, and an unknown identifier changes nothing.
pub proof fn lemma_tombstone_idempotent(s: Seq<ReplyV>, ap_id: Seq<char>)
    requires
        forall|a: int, b: int| 0 <= a < b < s.len() ==> s[a].ap_id != s[b].ap_id,
    ensures
        mark_deleted(mark_deleted(s, ap_id), ap_id) == mark_deleted(s, ap_id),
        has_reply(s, ap_id) ==> reply_at(mark_deleted(s, ap_id), ap_id).deleted,
        !has_reply(s, ap_id) ==> mark_deleted(s, ap_id) == s,
{
    if has_reply(s, ap_id) {
        let j = reply_index(s, ap_id);
        let s1 = mark_deleted(s, ap_id);
        assert(s1 == s.update(j, ReplyV { deleted: true, ..s[j] }));
        assert forall|a: int, b: int| 0 <= a < b < s1.len() implies s1[a].ap_id
            != s1[b].ap_id by {
            assert(s1[a].ap_id == s[a].ap_id);
            assert(s1[b].ap_id == s[b].ap_id);
        }
        assert(s1[j].ap_id == ap_id);
        lemma_reply_at_index(s1, j);
        assert(reply_at(s1, ap_id).deleted);
        let s2 = mark_deleted(s1, ap_id);
        assert(s2 == s1.update(j, ReplyV { deleted: true, ..s1[j] }));
        assert(ReplyV { deleted: true, ..s1[j] } == s1[j]);
        assert(s2 =~= s1);
    }
}

/// Redelivery idempotence: in a store that already holds the whole resolved
/// context of a wire reply, committing the reply's form leaves exactly one
/// row under its identifier, the context stays resolved with the same
/// verdicts and the same form, and committing the same delivery again leaves
/// the store exactly as it was. Together with the contract of `from_wire`
/// this says that converting the same wire object twice persists one entity:
/// the second call updates and does not duplicate.
pub proof fn lemma_redelivery_idempotent(s: StoreV, n: NoteV, pattern: Seq<char>)
    requires
        wf_store(s),
        ctx_cached(s, n),
        ctx_trusted(s, n),
        !root_post(s, n).locked,
        s.next_id < u64::MAX,
    ensures
        ({
            let f = expected_form(s, n, pattern);
            let s2 = upsert_store(s, f);
            &&& wf_store(s2)
            &&& has_reply(s2.replies, n.id)
            &&& reply_at(s2.replies, n.id) == upserted_reply(s, f)
            &&& ctx_cached(s2, n)
            &&& ctx_trusted(s2, n)
            &&& !root_post(s2, n).locked
            &&& expected_form(s2, n, pattern) == f
            &&& upsert_store(s2, expected_form(s2, n, pattern)) == s2
        }),
{
    let f = expected_form(s, n, pattern);
    let s2 = upsert_store(s, f);

    // The committed row carries the form, keyed by the wire identifier.
    if has_reply(s.replies, n.id) {
        let j = reply_index(s.replies, n.id);
        let upd = reply_updated(s.replies[j], f);
        assert(s2.replies == s.replies.update(j, upd));
        lemma_wf_update_reply(s, s2, j, upd);
        assert(s2.replies[j].ap_id == n.id);
        lemma_reply_at_index(s2.replies, j);
    } else {
        let created = reply_created(s.next_id, f);
        assert(s2.replies == s.replies.push(created));
        lemma_wf_push_reply(s, s2, created);
        assert(s2.replies[s.replies.len() as int].ap_id == n.id);
        lemma_reply_at_index(s2.replies, s.replies.len() as int);
    }

    // The resolved context survives the commit: the upsert touches no actor,
    // post or community, and where it touches the parent reply itself (a
    // self-referencing delivery) it preserves that row's id and root post.
    assert(s2.actors == s.actors);
    assert(s2.posts == s.posts);
    assert(s2.communities == s.communities);
    if !has_post(s.posts, n.in_reply_to) {
        let k = reply_index(s.replies, n.in_reply_to);
        assert(s.replies[k].ap_id == n.in_reply_to);
        if has_reply(s.replies, n.id) {
            let j = reply_index(s.replies, n.id);
            assert(s2.replies[k].ap_id == s.replies[k].ap_id);
            lemma_reply_at_index(s2.replies, k);
            if k == j {
                assert(n.in_reply_to == n.id);
                assert(post_by_id(s.posts, s.replies[k].post_id).id == s.replies[k].post_id);
                assert(reply_at(s2.replies, n.in_reply_to).post_id == s.replies[k].post_id);
                assert(reply_at(s2.replies, n.in_reply_to).id == s.replies[k].id);
            } else {
                assert(reply_at(s2.replies, n.in_reply_to) == s.replies[k]);
            }
        } else {
            assert(s2.replies[k] == s.replies[k]);
            lemma_reply_at_index(s2.replies, k);
        }
        assert(reply_at(s2.replies, n.in_reply_to).post_id == reply_at(
            s.replies,
            n.in_reply_to,
        ).post_id);
        assert(reply_at(s2.replies, n.in_reply_to).id == reply_at(s.replies, n.in_reply_to).id);
    }
    assert(root_post(s2, n) == root_post(s, n));
    assert(parent_of(s2, n) == parent_of(s, n));
    assert(ctx_author(s2, n) == ctx_author(s, n));
    assert(ctx_community(s2, n) == ctx_community(s, n));
    assert(expected_form(s2, n, pattern) =~= f);

    // Committing the same form again rewrites the row with its own value.
    let j2 = reply_index(s2.replies, n.id);
    assert(reply_updated(s2.replies[j2], f) == s2.replies[j2]);
    assert(s2.replies.update(j2, reply_updated(s2.replies[j2], f)) =~= s2.replies);
    assert(upsert_store(s2, expected_form(s2, n, pattern)) =~= s2);
}

/// The cache is the visited-set: a successful inbound conversion leaves the
/// whole resolved context cached, whenever the reply target sits in the
/// store under the target identifier itself — always for post targets, and
/// for parent replies that declared the identifier they were fetched under
/// (a fetched parent may declare another identifier of the same authority,
/// in which case it is cached under that identifier instead). A redelivery
/// of the same wire object then takes the zero-cost cached path of
/// `from_wire`, whose contract makes it succeed and update in place; see
/// `lemma_redelivery_idempotent` for what that commit preserves.
pub proof fn lemma_ok_context_cached(fs: StoreV, n: NoteV, pattern: Seq<char>, e: ReplyV)
    requires
        wf_store(fs),
        resolved_facts(fs, n, pattern, e),
        match e.parent_id {
            None => true,
            Some(pid) => reply_by_id(fs.replies, pid).ap_id == n.in_reply_to && !has_post(
                fs.posts,
                n.in_reply_to,
            ),
        },
    ensures
        ctx_cached(fs, n),
        ctx_trusted(fs, n),
        !root_post(fs, n).locked,
        root_post(fs, n).id == e.post_id,
        parent_of(fs, n) == e.parent_id,
{
    match e.parent_id {
        None => {
            let row = post_by_id(fs.posts, e.post_id);
            let k = choose|k: int| 0 <= k < fs.posts.len() && fs.posts[k].id == e.post_id;
            assert(fs.posts[k] == row);
            assert(fs.posts[k].ap_id == n.in_reply_to);
            lemma_post_at_index(fs.posts, k);
            assert(has_post(fs.posts, n.in_reply_to));
            assert(post_at(fs.posts, n.in_reply_to) == row);
        },
        Some(pid) => {
            let row = reply_by_id(fs.replies, pid);
            let k = choose|k: int| 0 <= k < fs.replies.len() && fs.replies[k].id == pid;
            assert(fs.replies[k] == row);
            assert(fs.replies[k].ap_id == n.in_reply_to);
            lemma_reply_at_index(fs.replies, k);
            assert(has_reply(fs.replies, n.in_reply_to));
            assert(reply_at(fs.replies, n.in_reply_to) == row);
        },
    }
}

/// Round-trip: a locally authored entity travels with its exact Markdown in
/// the source block, and the inbound conversion of that wire object takes
/// the source-block path, so the body it stores equals the original body on
/// every body that the slur filter leaves unchanged.
pub proof fn lemma_round_trip_content(s: StoreV, e: ReplyV, pattern: Seq<char>)
    requires
        e.local,
        filter_spec(e.content, pattern) == e.content,
    ensures
        inbound_content(expected_note(s, e), pattern) == e.content,
{
}

} // verus!
