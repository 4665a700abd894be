use vstd::prelude::*;

use crate::entities::{
    ActorEntity, ActorV, CommunityEntity, CommunityV, FormV, PostEntity, PostV, ReplyEntity,
    ReplyForm, ReplyV,
};

verus! {

// ---------------------------------------------------------------------------
// Spec-level lookups over the stored sequences
// ---------------------------------------------------------------------------

pub open spec fn has_actor(s: Seq<ActorV>, ap_id: Seq<char>) -> bool {
    exists|i: int| 0 <= i < s.len() && s[i].ap_id == ap_id
}

pub open spec fn actor_at(s: Seq<ActorV>, ap_id: Seq<char>) -> ActorV {
    s[choose|i: int| 0 <= i < s.len() && s[i].ap_id == ap_id]
}

pub open spec fn has_actor_id(s: Seq<ActorV>, id: u64) -> bool {
    exists|i: int| 0 <= i < s.len() && s[i].id == id
}

pub open spec fn actor_by_id(s: Seq<ActorV>, id: u64) -> ActorV {
    s[choose|i: int| 0 <= i < s.len() && s[i].id == id]
}

pub open spec fn has_post(s: Seq<PostV>, ap_id: Seq<char>) -> bool {
    exists|i: int| 0 <= i < s.len() && s[i].ap_id == ap_id
}

pub open spec fn post_at(s: Seq<PostV>, ap_id: Seq<char>) -> PostV {
    s[choose|i: int| 0 <= i < s.len() && s[i].ap_id == ap_id]
}

pub open spec fn has_post_id(s: Seq<PostV>, id: u64) -> bool {
    exists|i: int| 0 <= i < s.len() && s[i].id == id
}

pub open spec fn post_by_id(s: Seq<PostV>, id: u64) -> PostV {
    s[choose|i: int| 0 <= i < s.len() && s[i].id == id]
}

pub open spec fn has_community(s: Seq<CommunityV>, ap_id: Seq<char>) -> bool {
    exists|i: int| 0 <= i < s.len() && s[i].ap_id == ap_id
}

pub open spec fn community_at(s: Seq<CommunityV>, ap_id: Seq<char>) -> CommunityV {
    s[choose|i: int| 0 <= i < s.len() && s[i].ap_id == ap_id]
}

pub open spec fn has_community_id(s: Seq<CommunityV>, id: u64) -> bool {
    exists|i: int| 0 <= i < s.len() && s[i].id == id
}

pub open spec fn community_by_id(s: Seq<CommunityV>, id: u64) -> CommunityV {
    s[choose|i: int| 0 <= i < s.len() && s[i].id == id]
}

pub open spec fn has_reply(s: Seq<ReplyV>, ap_id: Seq<char>) -> bool {
    exists|i: int| 0 <= i < s.len() && s[i].ap_id == ap_id
}

pub open spec fn reply_index(s: Seq<ReplyV>, ap_id: Seq<char>) -> int {
    choose|i: int| 0 <= i < s.len() && s[i].ap_id == ap_id
}

pub open spec fn reply_at(s: Seq<ReplyV>, ap_id: Seq<char>) -> ReplyV {
    s[reply_index(s, ap_id)]
}

pub open spec fn has_reply_id(s: Seq<ReplyV>, id: u64) -> bool {
    exists|i: int| 0 <= i < s.len() && s[i].id == id
}

pub open spec fn reply_by_id(s: Seq<ReplyV>, id: u64) -> ReplyV {
    s[choose|i: int| 0 <= i < s.len() && s[i].id == id]
}

// ---------------------------------------------------------------------------
// The store and its view
// ---------------------------------------------------------------------------

/// Mathematical view of the store.
#[verifier::ext_equal]
pub struct StoreV {
    pub actors: Seq<ActorV>,
    pub posts: Seq<PostV>,
    pub communities: Seq<CommunityV>,
    pub replies: Seq<ReplyV>,
    pub next_id: u64,
}

/// Well-formedness of the store: within each kind, protocol identifiers and
/// local numeric ids are unique, and every assigned id is below the id
/// counter.
pub open spec fn wf_store(s: StoreV) -> bool {
    &&& forall|i: int, j: int|
        0 <= i < j < s.actors.len() ==> s.actors[i].ap_id != s.actors[j].ap_id
            && s.actors[i].id != s.actors[j].id
    &&& forall|i: int| 0 <= i < s.actors.len() ==> s.actors[i].id < s.next_id
    &&& forall|i: int, j: int|
        0 <= i < j < s.posts.len() ==> s.posts[i].ap_id != s.posts[j].ap_id
            && s.posts[i].id != s.posts[j].id
    &&& forall|i: int| 0 <= i < s.posts.len() ==> s.posts[i].id < s.next_id
    &&& forall|i: int, j: int|
        0 <= i < j < s.communities.len() ==> s.communities[i].ap_id != s.communities[j].ap_id
            && s.communities[i].id != s.communities[j].id
    &&& forall|i: int| 0 <= i < s.communities.len() ==> s.communities[i].id < s.next_id
    &&& forall|i: int, j: int|
        0 <= i < j < s.replies.len() ==> s.replies[i].ap_id != s.replies[j].ap_id
            && s.replies[i].id != s.replies[j].id
    &&& forall|i: int| 0 <= i < s.replies.len() ==> s.replies[i].id < s.next_id
}

/// The local persistent store: cached actors and communities, posts, and the
/// reply entities themselves, each keyed both by a local numeric id and by
/// protocol identifier. Stands for the storage collaborator; the resolution
/// cache and the persistent rows live here alike.
pub struct Store {
    pub actors: Vec<ActorEntity>,
    pub posts: Vec<PostEntity>,
    pub communities: Vec<CommunityEntity>,
    pub replies: Vec<ReplyEntity>,
    pub next_id: u64,
}

impl View for Store {
    type V = StoreV;

    open spec fn view(&self) -> StoreV {
        StoreV {
            actors: self.actors@.map_values(|a: ActorEntity| a@),
            posts: self.posts@.map_values(|p: PostEntity| p@),
            communities: self.communities@.map_values(|c: CommunityEntity| c@),
            replies: self.replies@.map_values(|r: ReplyEntity| r@),
            next_id: self.next_id,
        }
    }
}

// ---------------------------------------------------------------------------
// Reply upsert, at the spec level
// ---------------------------------------------------------------------------

/// The entity that overwriting an existing row with a form yields: federation
/// rewrites the mutable fields; the local id and the lifecycle flags stay.
pub open spec fn reply_updated(prev: ReplyV, f: FormV) -> ReplyV {
    ReplyV {
        id: prev.id,
        ap_id: f.ap_id,
        creator_id: f.creator_id,
        post_id: f.post_id,
        parent_id: f.parent_id,
        content: f.content,
        removed: prev.removed,
        deleted: prev.deleted,
        read: prev.read,
        published: f.published,
        updated: f.updated,
        local: false,
    }
}

/// The entity that inserting a fresh row for a form yields.
pub open spec fn reply_created(next_id: u64, f: FormV) -> ReplyV {
    ReplyV {
        id: next_id,
        ap_id: f.ap_id,
        creator_id: f.creator_id,
        post_id: f.post_id,
        parent_id: f.parent_id,
        content: f.content,
        removed: false,
        deleted: false,
        read: false,
        published: f.published,
        updated: f.updated,
        local: false,
    }
}

/// The entity an upsert of the form hands back.
pub open spec fn upserted_reply(s: StoreV, f: FormV) -> ReplyV {
    if has_reply(s.replies, f.ap_id) {
        reply_updated(reply_at(s.replies, f.ap_id), f)
    } else {
        reply_created(s.next_id, f)
    }
}

/// The store after an idempotent upsert of the form: the row keyed by the
/// form's protocol identifier is overwritten if present, created otherwise.
pub open spec fn upsert_store(s: StoreV, f: FormV) -> StoreV {
    if has_reply(s.replies, f.ap_id) {
        StoreV {
            replies: s.replies.update(
                reply_index(s.replies, f.ap_id),
                reply_updated(reply_at(s.replies, f.ap_id), f),
            ),
            ..s
        }
    } else {
        StoreV {
            replies: s.replies.push(reply_created(s.next_id, f)),
            next_id: (s.next_id + 1) as u64,
            ..s
        }
    }
}

/// The replies after marking the row keyed by `ap_id` soft-deleted; absent
/// row, no change.
pub open spec fn mark_deleted(s: Seq<ReplyV>, ap_id: Seq<char>) -> Seq<ReplyV> {
    if has_reply(s, ap_id) {
        s.update(
            reply_index(s, ap_id),
            ReplyV { deleted: true, ..s[reply_index(s, ap_id)] },
        )
    } else {
        s
    }
}

/// The position of the reply row with this local id.
pub open spec fn reply_index_id(s: Seq<ReplyV>, id: u64) -> int {
    choose|i: int| 0 <= i < s.len() && s[i].id == id
}

/// The replies after marking the row with this local id soft-deleted; absent
/// row, no change.
pub open spec fn mark_deleted_id(s: Seq<ReplyV>, id: u64) -> Seq<ReplyV> {
    if has_reply_id(s, id) {
        s.update(
            reply_index_id(s, id),
            ReplyV { deleted: true, ..s[reply_index_id(s, id)] },
        )
    } else {
        s
    }
}

// ---------------------------------------------------------------------------
// Lookup lemmas
// ---------------------------------------------------------------------------

/// A freshly pushed actor is found under its own protocol identifier.
pub proof fn lemma_push_lookup_actor(s: Seq<ActorV>, a: ActorV)
    requires
        !has_actor(s, a.ap_id),
    ensures
        has_actor(s.push(a), a.ap_id),
        actor_at(s.push(a), a.ap_id) == a,
{
    let s2 = s.push(a);
    assert(s2[s.len() as int] == a);
    assert(has_actor(s2, a.ap_id));
    let j = choose|j: int| 0 <= j < s2.len() && s2[j].ap_id == a.ap_id;
    if j < s.len() {
        assert(s[j] == s2[j]);
        assert(has_actor(s, a.ap_id));
    }
}

/// A freshly pushed post is found under its own protocol identifier.
pub proof fn lemma_push_lookup_post(s: Seq<PostV>, p: PostV)
    requires
        !has_post(s, p.ap_id),
    ensures
        has_post(s.push(p), p.ap_id),
        post_at(s.push(p), p.ap_id) == p,
{
    let s2 = s.push(p);
    assert(s2[s.len() as int] == p);
    assert(has_post(s2, p.ap_id));
    let j = choose|j: int| 0 <= j < s2.len() && s2[j].ap_id == p.ap_id;
    if j < s.len() {
        assert(s[j] == s2[j]);
        assert(has_post(s, p.ap_id));
    }
}

/// A freshly pushed community is found under its own protocol identifier.
pub proof fn lemma_push_lookup_community(s: Seq<CommunityV>, c: CommunityV)
    requires
        !has_community(s, c.ap_id),
    ensures
        has_community(s.push(c), c.ap_id),
        community_at(s.push(c), c.ap_id) == c,
        has_community_id(s.push(c), c.id),
{
    let s2 = s.push(c);
    assert(s2[s.len() as int] == c);
    assert(has_community(s2, c.ap_id));
    assert(has_community_id(s2, c.id));
    let j = choose|j: int| 0 <= j < s2.len() && s2[j].ap_id == c.ap_id;
    if j < s.len() {
        assert(s[j] == s2[j]);
        assert(has_community(s, c.ap_id));
    }
}

/// In a sequence of replies with pairwise distinct protocol identifiers, a
/// row is the row found when looking its own identifier up.
pub proof fn lemma_reply_at_index(s: Seq<ReplyV>, j: int)
    requires
        forall|a: int, b: int| 0 <= a < b < s.len() ==> s[a].ap_id != s[b].ap_id,
        0 <= j < s.len(),
    ensures
        has_reply(s, s[j].ap_id),
        reply_index(s, s[j].ap_id) == j,
        reply_at(s, s[j].ap_id) == s[j],
{
    assert(has_reply(s, s[j].ap_id));
    let k = reply_index(s, s[j].ap_id);
    assert(0 <= k < s.len() && s[k].ap_id == s[j].ap_id);
    if k < j {
        assert(false);
    }
    if j < k {
        assert(false);
    }
}


/// In a sequence of posts with pairwise distinct protocol identifiers, a row
/// is the row found when looking its own identifier up.
pub proof fn lemma_post_at_index(s: Seq<PostV>, j: int)
    requires
        forall|a: int, b: int| 0 <= a < b < s.len() ==> s[a].ap_id != s[b].ap_id,
        0 <= j < s.len(),
    ensures
        has_post(s, s[j].ap_id),
        post_at(s, s[j].ap_id) == s[j],
{
    assert(has_post(s, s[j].ap_id));
    let k = choose|k: int| 0 <= k < s.len() && s[k].ap_id == s[j].ap_id;
    assert(0 <= k < s.len() && s[k].ap_id == s[j].ap_id);
    if k < j {
        assert(false);
    }
    if j < k {
        assert(false);
    }
}

/// In a well-formed store, a reply row is the row found when looking its own
/// local id up.
pub proof fn lemma_reply_by_own_id(s: StoreV, k: int)
    requires
        wf_store(s),
        0 <= k < s.replies.len(),
    ensures
        has_reply_id(s.replies, s.replies[k].id),
        reply_by_id(s.replies, s.replies[k].id) == s.replies[k],
{
    assert(has_reply_id(s.replies, s.replies[k].id));
    let j = choose|j: int| 0 <= j < s.replies.len() && s.replies[j].id == s.replies[k].id;
    assert(j == k);
}

/// Appending an actor row under a fresh protocol identifier disturbs no
/// existing lookup.
pub proof fn lemma_actor_lookup_preserved(s: Seq<ActorV>, a: ActorV)
    requires
        forall|i: int, j: int| 0 <= i < j < s.len() ==> s[i].ap_id != s[j].ap_id,
        !has_actor(s, a.ap_id),
    ensures
        forall|apid: Seq<char>| #![trigger has_actor(s, apid)]
            has_actor(s, apid) ==> has_actor(s.push(a), apid) && actor_at(s.push(a), apid)
                == actor_at(s, apid),
{
    let s2 = s.push(a);
    assert forall|apid: Seq<char>| has_actor(s, apid) implies has_actor(s2, apid) && actor_at(
        s2,
        apid,
    ) == actor_at(s, apid) by {
        let j = choose|j: int| 0 <= j < s.len() && s[j].ap_id == apid;
        assert(s2[j] == s[j]);
        assert(has_actor(s2, apid));
        let k = choose|k: int| 0 <= k < s2.len() && s2[k].ap_id == apid;
        if k == s.len() {
            assert(s2[k] == a);
            assert(has_actor(s, a.ap_id));
        }
        assert(k < s.len() && s2[k] == s[k]);
        assert(k == j);
        let m = choose|m: int| 0 <= m < s.len() && s[m].ap_id == apid;
        assert(m == j);
    }
}

/// The idempotent upsert never renames a row, never reassigns a local id,
/// and rewrites the root-post link only of the row it commits, to the
/// committed form's link.
pub proof fn lemma_upsert_reply_link(s: StoreV, f: FormV, pid: u64)
    requires
        wf_store(s),
        s.next_id < u64::MAX,
        has_reply_id(s.replies, pid),
    ensures
        ({
            let s2 = upsert_store(s, f);
            &&& has_reply_id(s2.replies, pid)
            &&& reply_by_id(s2.replies, pid).id == pid
            &&& reply_by_id(s2.replies, pid).ap_id == reply_by_id(s.replies, pid).ap_id
            &&& (reply_by_id(s2.replies, pid).post_id == reply_by_id(s.replies, pid).post_id
                || reply_by_id(s2.replies, pid).post_id == f.post_id)
        }),
{
    let s2 = upsert_store(s, f);
    let k = choose|k: int| 0 <= k < s.replies.len() && s.replies[k].id == pid;
    lemma_reply_by_own_id(s, k);
    if has_reply(s.replies, f.ap_id) {
        let j = reply_index(s.replies, f.ap_id);
        let upd = reply_updated(reply_at(s.replies, f.ap_id), f);
        assert(0 <= j < s.replies.len() && s.replies[j].ap_id == f.ap_id);
        assert(s2.replies == s.replies.update(j, upd));
        lemma_wf_update_reply(s, s2, j, upd);
        if j == k {
            assert(s2.replies[k] == upd);
            assert(upd.id == pid);
            lemma_reply_by_own_id(s2, k);
        } else {
            assert(s2.replies[k] == s.replies[k]);
            lemma_reply_by_own_id(s2, k);
        }
    } else {
        let created = reply_created(s.next_id, f);
        assert(s2.replies == s.replies.push(created));
        lemma_wf_push_reply(s, s2, created);
        assert(s2.replies[k] == s.replies[k]);
        lemma_reply_by_own_id(s2, k);
    }
}

/// In a well-formed store, a post row is the row found when looking its own
/// local id up.
pub proof fn lemma_post_by_own_id(s: StoreV, k: int)
    requires
        wf_store(s),
        0 <= k < s.posts.len(),
    ensures
        has_post_id(s.posts, s.posts[k].id),
        post_by_id(s.posts, s.posts[k].id) == s.posts[k],
{
    assert(has_post_id(s.posts, s.posts[k].id));
    let j = choose|j: int| 0 <= j < s.posts.len() && s.posts[j].id == s.posts[k].id;
    assert(j == k);
}

/// In a well-formed store, a community row is the row found when looking its
/// own local id up.
pub proof fn lemma_community_by_own_id(s: StoreV, k: int)
    requires
        wf_store(s),
        0 <= k < s.communities.len(),
    ensures
        has_community_id(s.communities, s.communities[k].id),
        community_by_id(s.communities, s.communities[k].id) == s.communities[k],
{
    assert(has_community_id(s.communities, s.communities[k].id));
    let j = choose|j: int|
        0 <= j < s.communities.len() && s.communities[j].id == s.communities[k].id;
    assert(j == k);
}

// ---------------------------------------------------------------------------
// Well-formedness preservation helpers
// ---------------------------------------------------------------------------

proof fn lemma_wf_push_actor(s: StoreV, s2: StoreV, a: ActorV)
    requires
        wf_store(s),
        !has_actor(s.actors, a.ap_id),
        a.id == s.next_id,
        s.next_id < u64::MAX,
        s2.actors == s.actors.push(a),
        s2.posts == s.posts,
        s2.communities == s.communities,
        s2.replies == s.replies,
        s2.next_id == s.next_id + 1,
    ensures
        wf_store(s2),
{
    assert forall|k: int| 0 <= k < s.actors.len() implies s.actors[k].ap_id != a.ap_id by {
        if s.actors[k].ap_id == a.ap_id {
            assert(has_actor(s.actors, a.ap_id));
        }
    }
    assert forall|i: int, j: int| 0 <= i < j < s2.actors.len() implies s2.actors[i].ap_id
        != s2.actors[j].ap_id && s2.actors[i].id != s2.actors[j].id by {
        if j == s.actors.len() {
            assert(s2.actors[j] == a);
            assert(s2.actors[i] == s.actors[i]);
        }
    }
    assert forall|i: int| 0 <= i < s2.actors.len() implies s2.actors[i].id < s2.next_id by {
        if i < s.actors.len() {
            assert(s2.actors[i] == s.actors[i]);
        } else {
            assert(s2.actors[i] == a);
        }
    }
}

proof fn lemma_wf_push_post(s: StoreV, s2: StoreV, p: PostV)
    requires
        wf_store(s),
        !has_post(s.posts, p.ap_id),
        p.id == s.next_id,
        s.next_id < u64::MAX,
        s2.posts == s.posts.push(p),
        s2.actors == s.actors,
        s2.communities == s.communities,
        s2.replies == s.replies,
        s2.next_id == s.next_id + 1,
    ensures
        wf_store(s2),
{
    assert forall|k: int| 0 <= k < s.posts.len() implies s.posts[k].ap_id != p.ap_id by {
        if s.posts[k].ap_id == p.ap_id {
            assert(has_post(s.posts, p.ap_id));
        }
    }
    assert forall|i: int, j: int| 0 <= i < j < s2.posts.len() implies s2.posts[i].ap_id
        != s2.posts[j].ap_id && s2.posts[i].id != s2.posts[j].id by {
        if j == s.posts.len() {
            assert(s2.posts[j] == p);
            assert(s2.posts[i] == s.posts[i]);
        }
    }
    assert forall|i: int| 0 <= i < s2.posts.len() implies s2.posts[i].id < s2.next_id by {
        if i < s.posts.len() {
            assert(s2.posts[i] == s.posts[i]);
        } else {
            assert(s2.posts[i] == p);
        }
    }
}

proof fn lemma_wf_push_community(s: StoreV, s2: StoreV, c: CommunityV)
    requires
        wf_store(s),
        !has_community(s.communities, c.ap_id),
        c.id == s.next_id,
        s.next_id < u64::MAX,
        s2.communities == s.communities.push(c),
        s2.actors == s.actors,
        s2.posts == s.posts,
        s2.replies == s.replies,
        s2.next_id == s.next_id + 1,
    ensures
        wf_store(s2),
{
    assert forall|k: int| 0 <= k < s.communities.len() implies s.communities[k].ap_id
        != c.ap_id by {
        if s.communities[k].ap_id == c.ap_id {
            assert(has_community(s.communities, c.ap_id));
        }
    }
    assert forall|i: int, j: int| 0 <= i < j < s2.communities.len() implies s2.communities[i].ap_id
        != s2.communities[j].ap_id && s2.communities[i].id != s2.communities[j].id by {
        if j == s.communities.len() {
            assert(s2.communities[j] == c);
            assert(s2.communities[i] == s.communities[i]);
        }
    }
    assert forall|i: int| 0 <= i < s2.communities.len() implies s2.communities[i].id
        < s2.next_id by {
        if i < s.communities.len() {
            assert(s2.communities[i] == s.communities[i]);
        } else {
            assert(s2.communities[i] == c);
        }
    }
}

pub proof fn lemma_wf_push_reply(s: StoreV, s2: StoreV, e: ReplyV)
    requires
        wf_store(s),
        !has_reply(s.replies, e.ap_id),
        e.id == s.next_id,
        s.next_id < u64::MAX,
        s2.replies == s.replies.push(e),
        s2.actors == s.actors,
        s2.posts == s.posts,
        s2.communities == s.communities,
        s2.next_id == s.next_id + 1,
    ensures
        wf_store(s2),
{
    assert forall|k: int| 0 <= k < s.replies.len() implies s.replies[k].ap_id != e.ap_id by {
        if s.replies[k].ap_id == e.ap_id {
            assert(has_reply(s.replies, e.ap_id));
        }
    }
    assert forall|i: int, j: int| 0 <= i < j < s2.replies.len() implies s2.replies[i].ap_id
        != s2.replies[j].ap_id && s2.replies[i].id != s2.replies[j].id by {
        if j == s.replies.len() {
            assert(s2.replies[j] == e);
            assert(s2.replies[i] == s.replies[i]);
        }
    }
    assert forall|i: int| 0 <= i < s2.replies.len() implies s2.replies[i].id < s2.next_id by {
        if i < s.replies.len() {
            assert(s2.replies[i] == s.replies[i]);
        } else {
            assert(s2.replies[i] == e);
        }
    }
}

pub proof fn lemma_wf_update_reply(s: StoreV, s2: StoreV, i: int, e: ReplyV)
    requires
        wf_store(s),
        0 <= i < s.replies.len(),
        e.ap_id == s.replies[i].ap_id,
        e.id == s.replies[i].id,
        s2.replies == s.replies.update(i, e),
        s2.actors == s.actors,
        s2.posts == s.posts,
        s2.communities == s.communities,
        s2.next_id == s.next_id,
    ensures
        wf_store(s2),
{
    assert forall|a: int, b: int| 0 <= a < b < s2.replies.len() implies s2.replies[a].ap_id
        != s2.replies[b].ap_id && s2.replies[a].id != s2.replies[b].id by {
        assert(s2.replies[a].ap_id == s.replies[a].ap_id && s2.replies[a].id == s.replies[a].id);
        assert(s2.replies[b].ap_id == s.replies[b].ap_id && s2.replies[b].id == s.replies[b].id);
    }
    assert forall|a: int| 0 <= a < s2.replies.len() implies s2.replies[a].id < s2.next_id by {
        assert(s2.replies[a].id == s.replies[a].id);
    }
}


/// A value-equal copy of the actor rows.
fn dup_actors(v: &Vec<ActorEntity>) -> (r: Vec<ActorEntity>)
    ensures
        r@.len() == v@.len(),
        forall|i: int| 0 <= i < v@.len() ==> r@[i]@ == v@[i]@,
{
    let mut r: Vec<ActorEntity> = Vec::new();
    let mut i: usize = 0;
    while i < v.len()
        invariant
            i <= v@.len(),
            r@.len() == i,
            forall|k: int| 0 <= k < i ==> r@[k]@ == v@[k]@,
        decreases v@.len() - i,
    {
        r.push(v[i].duplicate());
        i = i + 1;
    }
    r
}

/// A value-equal copy of the post rows.
fn dup_posts(v: &Vec<PostEntity>) -> (r: Vec<PostEntity>)
    ensures
        r@.len() == v@.len(),
        forall|i: int| 0 <= i < v@.len() ==> r@[i]@ == v@[i]@,
{
    let mut r: Vec<PostEntity> = Vec::new();
    let mut i: usize = 0;
    while i < v.len()
        invariant
            i <= v@.len(),
            r@.len() == i,
            forall|k: int| 0 <= k < i ==> r@[k]@ == v@[k]@,
        decreases v@.len() - i,
    {
        r.push(v[i].duplicate());
        i = i + 1;
    }
    r
}

/// A value-equal copy of the community rows.
fn dup_communities(v: &Vec<CommunityEntity>) -> (r: Vec<CommunityEntity>)
    ensures
        r@.len() == v@.len(),
        forall|i: int| 0 <= i < v@.len() ==> r@[i]@ == v@[i]@,
{
    let mut r: Vec<CommunityEntity> = Vec::new();
    let mut i: usize = 0;
    while i < v.len()
        invariant
            i <= v@.len(),
            r@.len() == i,
            forall|k: int| 0 <= k < i ==> r@[k]@ == v@[k]@,
        decreases v@.len() - i,
    {
        r.push(v[i].duplicate());
        i = i + 1;
    }
    r
}

/// A value-equal copy of the reply rows.
fn dup_replies(v: &Vec<ReplyEntity>) -> (r: Vec<ReplyEntity>)
    ensures
        r@.len() == v@.len(),
        forall|i: int| 0 <= i < v@.len() ==> r@[i]@ == v@[i]@,
{
    let mut r: Vec<ReplyEntity> = Vec::new();
    let mut i: usize = 0;
    while i < v.len()
        invariant
            i <= v@.len(),
            r@.len() == i,
            forall|k: int| 0 <= k < i ==> r@[k]@ == v@[k]@,
        decreases v@.len() - i,
    {
        r.push(v[i].duplicate());
        i = i + 1;
    }
    r
}

// ---------------------------------------------------------------------------
// Executable store operations
// ---------------------------------------------------------------------------

impl Store {
    pub open spec fn wf(&self) -> bool {
        wf_store(self@)
    }

    /// An empty store.
    pub fn new() -> (r: Store)
        ensures
            r.wf(),
            r@.actors =~= Seq::<ActorV>::empty(),
            r@.posts =~= Seq::<PostV>::empty(),
            r@.communities =~= Seq::<CommunityV>::empty(),
            r@.replies =~= Seq::<ReplyV>::empty(),
            r@.next_id == 0,
    {
        Store {
            actors: Vec::new(),
            posts: Vec::new(),
            communities: Vec::new(),
            replies: Vec::new(),
            next_id: 0,
        }
    }

    /// Storage read: the actor cached under this protocol identifier.
    pub fn find_actor(&self, ap_id: &String) -> (r: Option<ActorEntity>)
        requires
            self.wf(),
        ensures
            match r {
                Some(a) => has_actor(self@.actors, ap_id@) && a@ == actor_at(self@.actors, ap_id@),
                None => !has_actor(self@.actors, ap_id@),
            },
    {
        let mut i: usize = 0;
        while i < self.actors.len()
            invariant
                self.wf(),
                i <= self.actors@.len(),
                forall|k: int| 0 <= k < i ==> self@.actors[k].ap_id != ap_id@,
            decreases self.actors@.len() - i,
        {
            proof {
                assert(self@.actors[i as int] == self.actors@[i as int]@);
            }
            let a = &self.actors[i];
            if a.ap_id == *ap_id {
                proof {
                    let j = choose|j: int|
                        0 <= j < self@.actors.len() && self@.actors[j].ap_id == ap_id@;
                    assert(j == i as int);
                }
                return Some(a.duplicate());
            }
            i = i + 1;
        }
        None
    }

    /// Storage read: the actor with this local id.
    pub fn find_actor_by_id(&self, id: u64) -> (r: Option<ActorEntity>)
        requires
            self.wf(),
        ensures
            match r {
                Some(a) => has_actor_id(self@.actors, id) && a@ == actor_by_id(self@.actors, id),
                None => !has_actor_id(self@.actors, id),
            },
    {
        let mut i: usize = 0;
        while i < self.actors.len()
            invariant
                self.wf(),
                i <= self.actors@.len(),
                forall|k: int| 0 <= k < i ==> self@.actors[k].id != id,
            decreases self.actors@.len() - i,
        {
            proof {
                assert(self@.actors[i as int] == self.actors@[i as int]@);
            }
            let a = &self.actors[i];
            if a.id == id {
                proof {
                    let j = choose|j: int| 0 <= j < self@.actors.len() && self@.actors[j].id == id;
                    assert(j == i as int);
                }
                return Some(a.duplicate());
            }
            i = i + 1;
        }
        None
    }

    /// Storage read: the post cached under this protocol identifier.
    pub fn find_post(&self, ap_id: &String) -> (r: Option<PostEntity>)
        requires
            self.wf(),
        ensures
            match r {
                Some(p) => has_post(self@.posts, ap_id@) && p@ == post_at(self@.posts, ap_id@),
                None => !has_post(self@.posts, ap_id@),
            },
    {
        let mut i: usize = 0;
        while i < self.posts.len()
            invariant
                self.wf(),
                i <= self.posts@.len(),
                forall|k: int| 0 <= k < i ==> self@.posts[k].ap_id != ap_id@,
            decreases self.posts@.len() - i,
        {
            proof {
                assert(self@.posts[i as int] == self.posts@[i as int]@);
            }
            let p = &self.posts[i];
            if p.ap_id == *ap_id {
                proof {
                    let j = choose|j: int|
                        0 <= j < self@.posts.len() && self@.posts[j].ap_id == ap_id@;
                    assert(j == i as int);
                }
                return Some(p.duplicate());
            }
            i = i + 1;
        }
        None
    }

    /// Storage read: the post with this local id.
    pub fn find_post_by_id(&self, id: u64) -> (r: Option<PostEntity>)
        requires
            self.wf(),
        ensures
            match r {
                Some(p) => has_post_id(self@.posts, id) && p@ == post_by_id(self@.posts, id),
                None => !has_post_id(self@.posts, id),
            },
    {
        let mut i: usize = 0;
        while i < self.posts.len()
            invariant
                self.wf(),
                i <= self.posts@.len(),
                forall|k: int| 0 <= k < i ==> self@.posts[k].id != id,
            decreases self.posts@.len() - i,
        {
            proof {
                assert(self@.posts[i as int] == self.posts@[i as int]@);
            }
            let p = &self.posts[i];
            if p.id == id {
                proof {
                    let j = choose|j: int| 0 <= j < self@.posts.len() && self@.posts[j].id == id;
                    assert(j == i as int);
                }
                return Some(p.duplicate());
            }
            i = i + 1;
        }
        None
    }

    /// Storage read: the community cached under this protocol identifier.
    pub fn find_community(&self, ap_id: &String) -> (r: Option<CommunityEntity>)
        requires
            self.wf(),
        ensures
            match r {
                Some(c) => has_community(self@.communities, ap_id@) && c@ == community_at(
                    self@.communities,
                    ap_id@,
                ),
                None => !has_community(self@.communities, ap_id@),
            },
    {
        let mut i: usize = 0;
        while i < self.communities.len()
            invariant
                self.wf(),
                i <= self.communities@.len(),
                forall|k: int| 0 <= k < i ==> self@.communities[k].ap_id != ap_id@,
            decreases self.communities@.len() - i,
        {
            proof {
                assert(self@.communities[i as int] == self.communities@[i as int]@);
            }
            let c = &self.communities[i];
            if c.ap_id == *ap_id {
                proof {
                    let j = choose|j: int|
                        0 <= j < self@.communities.len() && self@.communities[j].ap_id == ap_id@;
                    assert(j == i as int);
                }
                return Some(c.duplicate());
            }
            i = i + 1;
        }
        None
    }

    /// Storage read: the community with this local id.
    pub fn find_community_by_id(&self, id: u64) -> (r: Option<CommunityEntity>)
        requires
            self.wf(),
        ensures
            match r {
                Some(c) => has_community_id(self@.communities, id) && c@ == community_by_id(
                    self@.communities,
                    id,
                ),
                None => !has_community_id(self@.communities, id),
            },
    {
        let mut i: usize = 0;
        while i < self.communities.len()
            invariant
                self.wf(),
                i <= self.communities@.len(),
                forall|k: int| 0 <= k < i ==> self@.communities[k].id != id,
            decreases self.communities@.len() - i,
        {
            proof {
                assert(self@.communities[i as int] == self.communities@[i as int]@);
            }
            let c = &self.communities[i];
            if c.id == id {
                proof {
                    let j = choose|j: int|
                        0 <= j < self@.communities.len() && self@.communities[j].id == id;
                    assert(j == i as int);
                }
                return Some(c.duplicate());
            }
            i = i + 1;
        }
        None
    }

    /// Storage read by protocol identifier: the reply imported under it.
    pub fn find_reply(&self, ap_id: &String) -> (r: Option<ReplyEntity>)
        requires
            self.wf(),
        ensures
            match r {
                Some(e) => has_reply(self@.replies, ap_id@) && e@ == reply_at(
                    self@.replies,
                    ap_id@,
                ),
                None => !has_reply(self@.replies, ap_id@),
            },
    {
        let mut i: usize = 0;
        while i < self.replies.len()
            invariant
                self.wf(),
                i <= self.replies@.len(),
                forall|k: int| 0 <= k < i ==> self@.replies[k].ap_id != ap_id@,
            decreases self.replies@.len() - i,
        {
            proof {
                assert(self@.replies[i as int] == self.replies@[i as int]@);
            }
            let e = &self.replies[i];
            if e.ap_id == *ap_id {
                proof {
                    let j = choose|j: int|
                        0 <= j < self@.replies.len() && self@.replies[j].ap_id == ap_id@;
                    assert(j == i as int);
                }
                return Some(e.duplicate());
            }
            i = i + 1;
        }
        None
    }

    /// Storage read: the reply with this local id.
    pub fn find_reply_by_id(&self, id: u64) -> (r: Option<ReplyEntity>)
        requires
            self.wf(),
        ensures
            match r {
                Some(e) => has_reply_id(self@.replies, id) && e@ == reply_by_id(self@.replies, id),
                None => !has_reply_id(self@.replies, id),
            },
    {
        let mut i: usize = 0;
        while i < self.replies.len()
            invariant
                self.wf(),
                i <= self.replies@.len(),
                forall|k: int| 0 <= k < i ==> self@.replies[k].id != id,
            decreases self.replies@.len() - i,
        {
            proof {
                assert(self@.replies[i as int] == self.replies@[i as int]@);
            }
            let e = &self.replies[i];
            if e.id == id {
                proof {
                    let j = choose|j: int|
                        0 <= j < self@.replies.len() && self@.replies[j].id == id;
                    assert(j == i as int);
                }
                return Some(e.duplicate());
            }
            i = i + 1;
        }
        None
    }

    /// The position of the reply row keyed by this protocol identifier.
    fn find_reply_index(&self, ap_id: &String) -> (r: Option<usize>)
        requires
            self.wf(),
        ensures
            match r {
                Some(i) => i < self@.replies.len() && self@.replies[i as int].ap_id == ap_id@
                    && has_reply(self@.replies, ap_id@) && i == reply_index(self@.replies, ap_id@),
                None => !has_reply(self@.replies, ap_id@),
            },
    {
        let mut i: usize = 0;
        while i < self.replies.len()
            invariant
                self.wf(),
                i <= self.replies@.len(),
                forall|k: int| 0 <= k < i ==> self@.replies[k].ap_id != ap_id@,
            decreases self.replies@.len() - i,
        {
            proof {
                assert(self@.replies[i as int] == self.replies@[i as int]@);
            }
            let e = &self.replies[i];
            if e.ap_id == *ap_id {
                proof {
                    let j = reply_index(self@.replies, ap_id@);
                    assert(0 <= j < self@.replies.len() && self@.replies[j].ap_id == ap_id@);
                    assert(j == i as int);
                }
                return Some(i);
            }
            i = i + 1;
        }
        None
    }

    /// Seeds the store with an actor known under this protocol identifier.
    pub fn insert_actor(&mut self, ap_id: String) -> (id: u64)
        requires
            old(self).wf(),
            !has_actor(old(self)@.actors, ap_id@),
            old(self).next_id < u64::MAX,
        ensures
            final(self).wf(),
            id == old(self)@.next_id,
            final(self)@.actors == old(self)@.actors.push(ActorV { id, ap_id: ap_id@ }),
            final(self)@.posts == old(self)@.posts,
            final(self)@.communities == old(self)@.communities,
            final(self)@.replies == old(self)@.replies,
            final(self)@.next_id == old(self)@.next_id + 1,
    {
        let id = self.next_id;
        let ghost apv = ap_id@;
        self.actors.push(ActorEntity { id, ap_id });
        self.next_id = self.next_id + 1;
        proof {
            assert(self@.actors =~= old(self)@.actors.push(ActorV { id, ap_id: apv }));
            lemma_wf_push_actor(old(self)@, self@, ActorV { id, ap_id: apv });
        }
        id
    }

    /// Seeds the store with a post owned by the given community.
    pub fn insert_post(&mut self, ap_id: String, community_id: u64, locked: bool) -> (id: u64)
        requires
            old(self).wf(),
            !has_post(old(self)@.posts, ap_id@),
            old(self).next_id < u64::MAX,
        ensures
            final(self).wf(),
            id == old(self)@.next_id,
            final(self)@.posts == old(self)@.posts.push(
                PostV { id, ap_id: ap_id@, community_id, locked },
            ),
            final(self)@.actors == old(self)@.actors,
            final(self)@.communities == old(self)@.communities,
            final(self)@.replies == old(self)@.replies,
            final(self)@.next_id == old(self)@.next_id + 1,
    {
        let id = self.next_id;
        let ghost apv = ap_id@;
        self.posts.push(PostEntity { id, ap_id, community_id, locked });
        self.next_id = self.next_id + 1;
        proof {
            assert(self@.posts =~= old(self)@.posts.push(
                PostV { id, ap_id: apv, community_id, locked },
            ));
            lemma_wf_push_post(old(self)@, self@, PostV { id, ap_id: apv, community_id, locked });
        }
        id
    }

    /// Seeds the store with a community and its locally known membership and
    /// ban lists.
    pub fn insert_community(
        &mut self,
        ap_id: String,
        posting_restricted: bool,
        members: Vec<u64>,
        banned: Vec<u64>,
    ) -> (id: u64)
        requires
            old(self).wf(),
            !has_community(old(self)@.communities, ap_id@),
            old(self).next_id < u64::MAX,
        ensures
            final(self).wf(),
            id == old(self)@.next_id,
            final(self)@.communities == old(self)@.communities.push(
                CommunityV {
                    id,
                    ap_id: ap_id@,
                    posting_restricted,
                    members: members@,
                    banned: banned@,
                },
            ),
            final(self)@.actors == old(self)@.actors,
            final(self)@.posts == old(self)@.posts,
            final(self)@.replies == old(self)@.replies,
            final(self)@.next_id == old(self)@.next_id + 1,
    {
        let id = self.next_id;
        let ghost apv = ap_id@;
        let ghost mv = members@;
        let ghost bv = banned@;
        self.communities.push(
            CommunityEntity { id, ap_id, posting_restricted, members, banned },
        );
        self.next_id = self.next_id + 1;
        proof {
            assert(self@.communities =~= old(self)@.communities.push(
                CommunityV { id, ap_id: apv, posting_restricted, members: mv, banned: bv },
            ));
            lemma_wf_push_community(
                old(self)@,
                self@,
                CommunityV { id, ap_id: apv, posting_restricted, members: mv, banned: bv },
            );
        }
        id
    }

    /// Creates a locally authored reply. Local entities are the input of the
    /// outbound path; federation never writes them through this door.
    pub fn insert_local_reply(&mut self, form: ReplyForm) -> (r: ReplyEntity)
        requires
            old(self).wf(),
            !has_reply(old(self)@.replies, form@.ap_id),
            old(self).next_id < u64::MAX,
        ensures
            final(self).wf(),
            r@ == (ReplyV {
                id: old(self)@.next_id,
                ap_id: form@.ap_id,
                creator_id: form@.creator_id,
                post_id: form@.post_id,
                parent_id: form@.parent_id,
                content: form@.content,
                removed: false,
                deleted: false,
                read: false,
                published: form@.published,
                updated: form@.updated,
                local: true,
            }),
            final(self)@.replies == old(self)@.replies.push(r@),
            final(self)@.actors == old(self)@.actors,
            final(self)@.posts == old(self)@.posts,
            final(self)@.communities == old(self)@.communities,
            final(self)@.next_id == old(self)@.next_id + 1,
    {
        let created = ReplyEntity {
            id: self.next_id,
            ap_id: form.ap_id,
            creator_id: form.creator_id,
            post_id: form.post_id,
            parent_id: form.parent_id,
            content: form.content,
            removed: false,
            deleted: false,
            read: false,
            published: form.published,
            updated: form.updated,
            local: true,
        };
        let r = created.duplicate();
        let ghost cv = created@;
        self.replies.push(created);
        self.next_id = self.next_id + 1;
        proof {
            assert(self@.replies =~= old(self)@.replies.push(cv));
            lemma_wf_push_reply(old(self)@, self@, cv);
        }
        r
    }

    /// The idempotent upsert, the single commit point of inbound conversion:
    /// the row keyed by the form's protocol identifier is overwritten if it
    /// exists (its local id and lifecycle flags kept), created otherwise, so
    /// repeated delivery of the same object is safe.
    pub fn upsert_reply(&mut self, form: ReplyForm) -> (r: ReplyEntity)
        requires
            old(self).wf(),
            old(self).next_id < u64::MAX,
        ensures
            final(self).wf(),
            final(self)@ == upsert_store(old(self)@, form@),
            r@ == upserted_reply(old(self)@, form@),
            has_reply(final(self)@.replies, form@.ap_id),
            reply_at(final(self)@.replies, form@.ap_id) == r@,
    {
        match self.find_reply_index(&form.ap_id) {
            Some(i) => {
                let ghost oldstore = self@;
                let prev = &self.replies[i];
                let prev_id = prev.id;
                let prev_removed = prev.removed;
                let prev_deleted = prev.deleted;
                let prev_read = prev.read;
                proof {
                    assert(self@.replies[i as int] == self.replies@[i as int]@);
                }
                let updated = ReplyEntity {
                    id: prev_id,
                    ap_id: form.ap_id,
                    creator_id: form.creator_id,
                    post_id: form.post_id,
                    parent_id: form.parent_id,
                    content: form.content,
                    removed: prev_removed,
                    deleted: prev_deleted,
                    read: prev_read,
                    published: form.published,
                    updated: form.updated,
                    local: false,
                };
                let r = updated.duplicate();
                let ghost uv = updated@;
                self.replies[i] = updated;
                proof {
                    assert(self@.replies =~= oldstore.replies.update(i as int, uv));
                    assert(uv == reply_updated(reply_at(oldstore.replies, form@.ap_id), form@));
                    assert(self@ =~= upsert_store(oldstore, form@));
                    lemma_wf_update_reply(oldstore, self@, i as int, uv);
                    assert(self@.replies[i as int].ap_id == form@.ap_id);
                    let j = reply_index(self@.replies, form@.ap_id);
                    assert(0 <= j < self@.replies.len() && self@.replies[j].ap_id == form@.ap_id);
                    assert(j == i as int);
                }
                r
            },
            None => {
                let created = ReplyEntity {
                    id: self.next_id,
                    ap_id: form.ap_id,
                    creator_id: form.creator_id,
                    post_id: form.post_id,
                    parent_id: form.parent_id,
                    content: form.content,
                    removed: false,
                    deleted: false,
                    read: false,
                    published: form.published,
                    updated: form.updated,
                    local: false,
                };
                let r = created.duplicate();
                let ghost cv = created@;
                let ghost oldstore = self@;
                self.replies.push(created);
                self.next_id = self.next_id + 1;
                proof {
                    assert(self@.replies =~= oldstore.replies.push(cv));
                    assert(cv == reply_created(oldstore.next_id, form@));
                    assert(self@ =~= upsert_store(oldstore, form@));
                    lemma_wf_push_reply(oldstore, self@, cv);
                    let j = reply_index(self@.replies, form@.ap_id);
                    assert(self@.replies[oldstore.replies.len() as int].ap_id == form@.ap_id);
                    assert(0 <= j < self@.replies.len() && self@.replies[j].ap_id == form@.ap_id);
                    assert(j == oldstore.replies.len() as int);
                }
                r
            },
        }
    }

    /// Marks the reply imported under this protocol identifier soft-deleted;
    /// an unknown identifier is accepted as a no-op.
    pub fn set_reply_deleted(&mut self, ap_id: &String) -> (found: bool)
        requires
            old(self).wf(),
        ensures
            final(self).wf(),
            found == has_reply(old(self)@.replies, ap_id@),
            final(self)@.replies == mark_deleted(old(self)@.replies, ap_id@),
            final(self)@.actors == old(self)@.actors,
            final(self)@.posts == old(self)@.posts,
            final(self)@.communities == old(self)@.communities,
            final(self)@.next_id == old(self)@.next_id,
    {
        match self.find_reply_index(ap_id) {
            Some(i) => {
                let ghost oldstore = self@;
                proof {
                    assert(self@.replies[i as int] == self.replies@[i as int]@);
                }
                let prev = &self.replies[i];
                let updated = ReplyEntity {
                    id: prev.id,
                    ap_id: prev.ap_id.clone(),
                    creator_id: prev.creator_id,
                    post_id: prev.post_id,
                    parent_id: prev.parent_id,
                    content: prev.content.clone(),
                    removed: prev.removed,
                    deleted: true,
                    read: prev.read,
                    published: prev.published,
                    updated: prev.updated,
                    local: prev.local,
                };
                let ghost uv = updated@;
                self.replies[i] = updated;
                proof {
                    assert(self@.replies =~= oldstore.replies.update(i as int, uv));
                    assert(uv == (ReplyV {
                        deleted: true,
                        ..oldstore.replies[reply_index(oldstore.replies, ap_id@)]
                    }));
                    assert(self@.replies =~= mark_deleted(oldstore.replies, ap_id@));
                    lemma_wf_update_reply(oldstore, self@, i as int, uv);
                }
                true
            },
            None => false,
        }
    }

    /// The position of the reply row with this local id.
    fn find_reply_index_by_id(&self, id: u64) -> (r: Option<usize>)
        requires
            self.wf(),
        ensures
            match r {
                Some(i) => i < self@.replies.len() && self@.replies[i as int].id == id
                    && has_reply_id(self@.replies, id) && i == reply_index_id(self@.replies, id),
                None => !has_reply_id(self@.replies, id),
            },
    {
        let mut i: usize = 0;
        while i < self.replies.len()
            invariant
                self.wf(),
                i <= self.replies@.len(),
                forall|k: int| 0 <= k < i ==> self@.replies[k].id != id,
            decreases self.replies@.len() - i,
        {
            proof {
                assert(self@.replies[i as int] == self.replies@[i as int]@);
            }
            let e = &self.replies[i];
            if e.id == id {
                proof {
                    let j = reply_index_id(self@.replies, id);
                    assert(0 <= j < self@.replies.len() && self@.replies[j].id == id);
                    assert(j == i as int);
                }
                return Some(i);
            }
            i = i + 1;
        }
        None
    }

    /// Marks the reply with this local id soft-deleted; an unknown id is a
    /// no-op.
    pub fn set_reply_deleted_by_id(&mut self, id: u64) -> (found: bool)
        requires
            old(self).wf(),
        ensures
            final(self).wf(),
            found == has_reply_id(old(self)@.replies, id),
            final(self)@.replies == mark_deleted_id(old(self)@.replies, id),
            final(self)@.actors == old(self)@.actors,
            final(self)@.posts == old(self)@.posts,
            final(self)@.communities == old(self)@.communities,
            final(self)@.next_id == old(self)@.next_id,
    {
        match self.find_reply_index_by_id(id) {
            Some(i) => {
                let ghost oldstore = self@;
                proof {
                    assert(self@.replies[i as int] == self.replies@[i as int]@);
                }
                let prev = &self.replies[i];
                let updated = ReplyEntity {
                    id: prev.id,
                    ap_id: prev.ap_id.clone(),
                    creator_id: prev.creator_id,
                    post_id: prev.post_id,
                    parent_id: prev.parent_id,
                    content: prev.content.clone(),
                    removed: prev.removed,
                    deleted: true,
                    read: prev.read,
                    published: prev.published,
                    updated: prev.updated,
                    local: prev.local,
                };
                let ghost uv = updated@;
                self.replies[i] = updated;
                proof {
                    assert(self@.replies =~= oldstore.replies.update(i as int, uv));
                    assert(uv == (ReplyV {
                        deleted: true,
                        ..oldstore.replies[reply_index_id(oldstore.replies, id)]
                    }));
                    assert(self@.replies =~= mark_deleted_id(oldstore.replies, id));
                    lemma_wf_update_reply(oldstore, self@, i as int, uv);
                }
                true
            },
            None => false,
        }
    }

    /// A value-equal scratch copy of the whole store. Inbound conversion
    /// works on such a copy and commits it only on success, so that a failed
    /// conversion persists nothing.
    pub fn duplicate(&self) -> (r: Store)
        ensures
            r@ == self@,
    {
        let r = Store {
            actors: dup_actors(&self.actors),
            posts: dup_posts(&self.posts),
            communities: dup_communities(&self.communities),
            replies: dup_replies(&self.replies),
            next_id: self.next_id,
        };
        proof {
            assert(r@.actors =~= self@.actors);
            assert(r@.posts =~= self@.posts);
            assert(r@.communities =~= self@.communities);
            assert(r@.replies =~= self@.replies);
            assert(r@ =~= self@);
        }
        r
    }
}

} // verus!
