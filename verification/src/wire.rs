use vstd::prelude::*;

verus! {

// ---------------------------------------------------------------------------
// The portable wire forms
// ---------------------------------------------------------------------------

/// Declared media type of a body encoding.
#[derive(Clone, Copy, Debug, PartialEq, Eq, Structural)]
pub enum MediaTag {
    Markdown,
    Html,
}

/// Declared kind tag of a wire object.
#[derive(Clone, Copy, Debug, PartialEq, Eq, Structural)]
pub enum KindTag {
    Actor,
    Post,
    Community,
    Note,
}

/// The tagged source block of a wire reply: the original Markdown together
/// with its declared media type.
#[derive(Debug)]
pub struct SourceBlock {
    pub content: String,
    pub media_type: MediaTag,
}

/// Whether a wire reply carries its original source. A peer that is
/// source-compatible attaches the untouched Markdown; otherwise only the
/// rendered hypertext is available and the body must be re-derived from it,
/// which is lossy. Callers must handle the two cases explicitly.
#[derive(Debug)]
pub enum SourceCompat {
    /// The literal Markdown source travelled with the object.
    Exact(SourceBlock),
    /// No compatible source block: the body can only be derived from the
    /// rendered hypertext.
    Derived,
}

/// Mathematical view of `SourceCompat`.
pub enum SourceV {
    Exact { content: Seq<char>, media_type: MediaTag },
    Derived,
}

impl View for SourceCompat {
    type V = SourceV;

    open spec fn view(&self) -> SourceV {
        match self {
            SourceCompat::Exact(b) => SourceV::Exact { content: b.content@, media_type: b.media_type },
            SourceCompat::Derived => SourceV::Derived,
        }
    }
}

/// The portable form of a reply: a threaded-reply object exchanged between
/// independently operated servers. Its kind tag travels structurally, as the
/// reply variant of a fetched payload, rather than as a field.
#[derive(Debug)]
pub struct Note {
    /// Globally unique protocol identifier of the reply.
    pub id: String,
    /// Protocol identifier of the authoring actor.
    pub attributed_to: String,
    /// Addressed-to list; outbound objects address the public collective
    /// audience.
    pub to: Vec<String>,
    /// Body rendered as hypertext.
    pub content: String,
    /// Declared media type of `content`.
    pub media_type: Option<MediaTag>,
    /// The source block, or its absence.
    pub source: SourceCompat,
    /// Protocol identifier of the reply target: either the parent reply or
    /// the root post, always exactly one reference.
    pub in_reply_to: String,
    /// Creation timestamp, in seconds since the epoch.
    pub published: i64,
    /// Last edit timestamp, if any.
    pub updated: Option<i64>,
    /// Extension bag: unknown fields preserved verbatim for forward
    /// compatibility.
    pub unparsed: Vec<(String, String)>,
}

/// Mathematical view of a wire reply.
#[verifier::ext_equal]
pub struct NoteV {
    pub id: Seq<char>,
    pub attributed_to: Seq<char>,
    pub to: Seq<Seq<char>>,
    pub content: Seq<char>,
    pub media_type: Option<MediaTag>,
    pub source: SourceV,
    pub in_reply_to: Seq<char>,
    pub published: i64,
    pub updated: Option<i64>,
    pub unparsed: Seq<(Seq<char>, Seq<char>)>,
}

impl View for Note {
    type V = NoteV;

    open spec fn view(&self) -> NoteV {
        NoteV {
            id: self.id@,
            attributed_to: self.attributed_to@,
            to: self.to@.map_values(|s: String| s@),
            content: self.content@,
            media_type: self.media_type,
            source: self.source@,
            in_reply_to: self.in_reply_to@,
            published: self.published,
            updated: self.updated,
            unparsed: self.unparsed@.map_values(|p: (String, String)| (p.0@, p.1@)),
        }
    }
}

/// The minimal deletion marker that stands in for a deleted entity on the
/// wire: the kind of what was deleted and when.
#[derive(Debug)]
pub struct Tombstone {
    pub tag: KindTag,
    /// Deletion or last-update timestamp, in seconds since the epoch.
    pub deleted: i64,
}

// ---------------------------------------------------------------------------
// What remote servers serve: fetched payloads
// ---------------------------------------------------------------------------

/// The wire form of a fetched actor.
#[derive(Debug)]
pub struct WireActor {
    pub id: String,
}

/// The wire form of a fetched post.
#[derive(Debug)]
pub struct WirePost {
    pub id: String,
    /// Protocol identifier of the owning community.
    pub community: String,
    pub locked: bool,
}

/// The wire form of a fetched community.
#[derive(Debug)]
pub struct WireCommunity {
    pub id: String,
    pub posting_restricted: bool,
}

/// One fetched-and-verified remote object, by declared kind.
#[derive(Debug)]
pub enum WirePayload {
    Actor(WireActor),
    Post(WirePost),
    Community(WireCommunity),
    Reply(Note),
}

/// Mathematical view of a fetched payload.
pub enum PayloadV {
    Actor { id: Seq<char> },
    Post { id: Seq<char>, community: Seq<char>, locked: bool },
    Community { id: Seq<char>, posting_restricted: bool },
    Reply(NoteV),
}

impl View for WirePayload {
    type V = PayloadV;

    open spec fn view(&self) -> PayloadV {
        match self {
            WirePayload::Actor(a) => PayloadV::Actor { id: a.id@ },
            WirePayload::Post(p) => PayloadV::Post {
                id: p.id@,
                community: p.community@,
                locked: p.locked,
            },
            WirePayload::Community(c) => PayloadV::Community {
                id: c.id@,
                posting_restricted: c.posting_restricted,
            },
            WirePayload::Reply(n) => PayloadV::Reply(n@),
        }
    }
}

/// One served object: the URL a fetch of which yields the payload.
#[derive(Debug)]
pub struct EnvEntry {
    pub url: String,
    pub payload: WirePayload,
}

/// Mathematical view of a served object.
pub struct EnvEntryV {
    pub url: Seq<char>,
    pub payload: PayloadV,
}

impl View for EnvEntry {
    type V = EnvEntryV;

    open spec fn view(&self) -> EnvEntryV {
        EnvEntryV { url: self.url@, payload: self.payload@ }
    }
}

/// The transport collaborator, modelled as data: what each remote URL serves
/// after fetch-and-verify. One object per URL; a URL outside the map is
/// unreachable.
#[derive(Debug)]
pub struct FetchEnv {
    pub entries: Vec<EnvEntry>,
}

impl View for FetchEnv {
    type V = Seq<EnvEntryV>;

    open spec fn view(&self) -> Seq<EnvEntryV> {
        self.entries@.map_values(|e: EnvEntry| e@)
    }
}

/// Some object is served at this URL.
pub open spec fn has_served(env: Seq<EnvEntryV>, url: Seq<char>) -> bool {
    exists|i: int| 0 <= i < env.len() && env[i].url == url
}

/// The payload served at this URL.
pub open spec fn served_at(env: Seq<EnvEntryV>, url: Seq<char>) -> PayloadV {
    env[choose|i: int| 0 <= i < env.len() && env[i].url == url].payload
}

impl FetchEnv {
    /// Each URL serves at most one object, so a fetch is a function of the
    /// URL alone.
    pub open spec fn wf(&self) -> bool {
        forall|i: int, j: int|
            0 <= i < j < self@.len() ==> self@[i].url != self@[j].url
    }

    /// The index of the entry served at `url`, if any. This stands for one
    /// performed network fetch; charging the budget is the caller's business.
    pub fn fetch(&self, url: &String) -> (r: Option<usize>)
        requires
            self.wf(),
        ensures
            match r {
                Some(i) => i < self.entries@.len() && self@[i as int].url == url@
                    && has_served(self@, url@) && self@[i as int].payload == served_at(self@, url@),
                None => !has_served(self@, url@),
            },
    {
        let mut i: usize = 0;
        while i < self.entries.len()
            invariant
                self.wf(),
                i <= self.entries@.len(),
                forall|k: int| 0 <= k < i ==> self@[k].url != url@,
            decreases self.entries@.len() - i,
        {
            proof {
                assert(self@[i as int] == self.entries@[i as int]@);
            }
            let entry = &self.entries[i];
            if entry.url == *url {
                proof {
                    assert(self@[i as int].url == url@);
                    let j = choose|j: int| 0 <= j < self@.len() && self@[j].url == url@;
                    assert(self@[j].url == url@);
                    assert(j == i as int);
                }
                return Some(i);
            }
            i = i + 1;
        }
        None
    }
}

} // verus!
