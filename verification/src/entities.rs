use vstd::prelude::*;

verus! {

// ---------------------------------------------------------------------------
// Locally persisted entities and their mathematical views
// ---------------------------------------------------------------------------

/// Local cached copy of a remote (or local) actor, keyed by protocol
/// identifier.
#[derive(Debug)]
pub struct ActorEntity {
    /// Local numeric id, assigned by the store.
    pub id: u64,
    /// Globally unique protocol identifier.
    pub ap_id: String,
}

/// Mathematical view of an actor.
pub struct ActorV {
    pub id: u64,
    pub ap_id: Seq<char>,
}

impl View for ActorEntity {
    type V = ActorV;

    open spec fn view(&self) -> ActorV {
        ActorV { id: self.id, ap_id: self.ap_id@ }
    }
}

impl ActorEntity {
    /// A value-equal copy.
    pub fn duplicate(&self) -> (r: Self)
        ensures
            r@ == self@,
    {
        ActorEntity { id: self.id, ap_id: self.ap_id.clone() }
    }
}

/// Local cached copy of a community, together with the locally known
/// membership and ban lists that gate posting into it.
#[derive(Debug)]
pub struct CommunityEntity {
    pub id: u64,
    pub ap_id: String,
    /// Does the community restrict posting to its members?
    pub posting_restricted: bool,
    /// Local ids of actors the community recognizes as members.
    pub members: Vec<u64>,
    /// Local ids of actors banned from the community.
    pub banned: Vec<u64>,
}

/// Mathematical view of a community.
pub struct CommunityV {
    pub id: u64,
    pub ap_id: Seq<char>,
    pub posting_restricted: bool,
    pub members: Seq<u64>,
    pub banned: Seq<u64>,
}

impl View for CommunityEntity {
    type V = CommunityV;

    open spec fn view(&self) -> CommunityV {
        CommunityV {
            id: self.id,
            ap_id: self.ap_id@,
            posting_restricted: self.posting_restricted,
            members: self.members@,
            banned: self.banned@,
        }
    }
}

impl CommunityEntity {
    /// A value-equal copy.
    pub fn duplicate(&self) -> (r: Self)
        ensures
            r@ == self@,
    {
        CommunityEntity {
            id: self.id,
            ap_id: self.ap_id.clone(),
            posting_restricted: self.posting_restricted,
            members: copy_ids(&self.members),
            banned: copy_ids(&self.banned),
        }
    }
}

/// Local cached copy of a post (the root of a reply thread).
#[derive(Debug)]
pub struct PostEntity {
    pub id: u64,
    pub ap_id: String,
    /// Local id of the owning community.
    pub community_id: u64,
    /// Is the thread locked against new replies?
    pub locked: bool,
}

/// Mathematical view of a post.
pub struct PostV {
    pub id: u64,
    pub ap_id: Seq<char>,
    pub community_id: u64,
    pub locked: bool,
}

impl View for PostEntity {
    type V = PostV;

    open spec fn view(&self) -> PostV {
        PostV {
            id: self.id,
            ap_id: self.ap_id@,
            community_id: self.community_id,
            locked: self.locked,
        }
    }
}

impl PostEntity {
    /// A value-equal copy.
    pub fn duplicate(&self) -> (r: Self)
        ensures
            r@ == self@,
    {
        PostEntity {
            id: self.id,
            ap_id: self.ap_id.clone(),
            community_id: self.community_id,
            locked: self.locked,
        }
    }
}

/// The locally persisted reply entity (a comment on a post). A non-local
/// entity always carries the protocol identifier it was imported under; a
/// local entity's identifier is derived from the local domain at creation.
#[derive(Debug)]
pub struct ReplyEntity {
    pub id: u64,
    pub ap_id: String,
    /// Local id of the authoring actor.
    pub creator_id: u64,
    /// Local id of the root post.
    pub post_id: u64,
    /// Local id of the parent reply; `None` means the reply is attached
    /// directly to the post.
    pub parent_id: Option<u64>,
    /// Body in canonical Markdown.
    pub content: String,
    /// Removed by moderation.
    pub removed: bool,
    /// Soft-deleted; a row is never hard-deleted by federation.
    pub deleted: bool,
    /// Marked read locally.
    pub read: bool,
    /// Creation timestamp, in seconds since the epoch.
    pub published: i64,
    /// Last edit timestamp, if any.
    pub updated: Option<i64>,
    /// Was this entity authored on this server?
    pub local: bool,
}

/// Mathematical view of a reply entity.
pub struct ReplyV {
    pub id: u64,
    pub ap_id: Seq<char>,
    pub creator_id: u64,
    pub post_id: u64,
    pub parent_id: Option<u64>,
    pub content: Seq<char>,
    pub removed: bool,
    pub deleted: bool,
    pub read: bool,
    pub published: i64,
    pub updated: Option<i64>,
    pub local: bool,
}

impl View for ReplyEntity {
    type V = ReplyV;

    open spec fn view(&self) -> ReplyV {
        ReplyV {
            id: self.id,
            ap_id: self.ap_id@,
            creator_id: self.creator_id,
            post_id: self.post_id,
            parent_id: self.parent_id,
            content: self.content@,
            removed: self.removed,
            deleted: self.deleted,
            read: self.read,
            published: self.published,
            updated: self.updated,
            local: self.local,
        }
    }
}

impl ReplyEntity {
    /// A value-equal copy.
    pub fn duplicate(&self) -> (r: Self)
        ensures
            r@ == self@,
    {
        ReplyEntity {
            id: self.id,
            ap_id: self.ap_id.clone(),
            creator_id: self.creator_id,
            post_id: self.post_id,
            parent_id: self.parent_id,
            content: self.content.clone(),
            removed: self.removed,
            deleted: self.deleted,
            read: self.read,
            published: self.published,
            updated: self.updated,
            local: self.local,
        }
    }
}

/// The form handed to the idempotent reply upsert: the fields federation is
/// allowed to write. The lifecycle flags and the local numeric id are owned
/// by the store and never overwritten by redelivery.
#[derive(Debug)]
pub struct ReplyForm {
    pub ap_id: String,
    pub creator_id: u64,
    pub post_id: u64,
    pub parent_id: Option<u64>,
    pub content: String,
    pub published: i64,
    pub updated: Option<i64>,
}

/// Mathematical view of a reply form.
pub struct FormV {
    pub ap_id: Seq<char>,
    pub creator_id: u64,
    pub post_id: u64,
    pub parent_id: Option<u64>,
    pub content: Seq<char>,
    pub published: i64,
    pub updated: Option<i64>,
}

impl View for ReplyForm {
    type V = FormV;

    open spec fn view(&self) -> FormV {
        FormV {
            ap_id: self.ap_id@,
            creator_id: self.creator_id,
            post_id: self.post_id,
            parent_id: self.parent_id,
            content: self.content@,
            published: self.published,
            updated: self.updated,
        }
    }
}

/// A value-equal copy of a list of local ids.
fn copy_ids(v: &Vec<u64>) -> (r: Vec<u64>)
    ensures
        r@ == v@,
{
    let mut r: Vec<u64> = Vec::new();
    let mut i: usize = 0;
    while i < v.len()
        invariant
            i <= v.len(),
            r@ =~= v@.subrange(0, i as int),
        decreases v.len() - i,
    {
        r.push(v[i]);
        i = i + 1;
    }
    proof {
        assert(v@.subrange(0, v@.len() as int) =~= v@);
    }
    r
}

} // verus!
