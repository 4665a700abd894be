use fednote::budget::{DEFAULT_FETCH_LIMIT, ResolutionBudget};
use fednote::convert::{delete, from_wire, receive_tombstone, to_tombstone, to_wire};
use fednote::entities::ReplyForm;
use fednote::errors::FedError;
use fednote::ids::domains_match;
use fednote::store::Store;
use fednote::wire::{
    EnvEntry, FetchEnv, KindTag, MediaTag, Note, SourceBlock, SourceCompat, WireActor,
    WireCommunity, WirePayload, WirePost,
};

const ACTOR: &str = "https://enterprise.lemmy.ml/u/picard";
const COMMUNITY: &str = "https://enterprise.lemmy.ml/c/main";
const POST: &str = "https://enterprise.lemmy.ml/post/55143";
const COMMENT: &str = "https://enterprise.lemmy.ml/comment/38741";

fn note(id: &str, author: &str, target: &str, source: SourceCompat, content: &str) -> Note {
    Note {
        id: id.to_string(),
        attributed_to: author.to_string(),
        to: Vec::new(),
        content: content.to_string(),
        media_type: Some(MediaTag::Html),
        source,
        in_reply_to: target.to_string(),
        published: 1_600_000_000,
        updated: None,
        unparsed: Vec::new(),
    }
}

fn exact(md: &str) -> SourceCompat {
    SourceCompat::Exact(SourceBlock { content: md.to_string(), media_type: MediaTag::Markdown })
}

/// A store already holding the author, the community and the post.
fn seeded(restricted: bool, locked: bool) -> (Store, u64, u64, u64) {
    let mut store = Store::new();
    let actor = store.insert_actor(ACTOR.to_string());
    let members = if restricted { Vec::new() } else { vec![actor] };
    let community = store.insert_community(COMMUNITY.to_string(), restricted, members, Vec::new());
    let post = store.insert_post(POST.to_string(), community, locked);
    (store, actor, community, post)
}

fn empty_env() -> FetchEnv {
    FetchEnv { entries: Vec::new() }
}

#[test]
fn test_parse_lemmy_comment() {
    let (mut store, actor, _community, post) = seeded(false, false);
    let env = empty_env();
    let mut budget = ResolutionBudget::new(DEFAULT_FETCH_LIMIT);
    let json = note(COMMENT, ACTOR, POST, exact("Hello you #2!!"), "<p>Hello you #2!!</p>");

    let comment = from_wire(&mut store, &env, &json, COMMENT, "", &mut budget).unwrap();

    assert_eq!(comment.ap_id, COMMENT);
    assert_eq!(comment.content.len(), 14);
    assert!(!comment.local);
    assert_eq!(budget.spent(), 0);
    assert_eq!(comment.creator_id, actor);
    assert_eq!(comment.post_id, post);
    assert_eq!(comment.parent_id, None);

    let to_apub = to_wire(&store, &comment).unwrap();
    assert_eq!(to_apub.id, COMMENT);
    assert_eq!(to_apub.attributed_to, ACTOR);
    assert_eq!(to_apub.in_reply_to, POST);
    assert_eq!(to_apub.to, vec!["https://www.w3.org/ns/activitystreams#Public".to_string()]);
    assert!(matches!(to_apub.source, SourceCompat::Derived));
}

#[test]
fn test_parse_pleroma_comment() {
    let (mut store, _actor, _community, _post) = seeded(false, false);
    let pleroma_url = "https://queer.hacktivis.me/objects/8d4973f4-53de-49cd-8c27-df160e16a9c2";
    let pleroma_actor = "https://queer.hacktivis.me/users/lanodan";
    store.insert_actor(pleroma_actor.to_string());
    let env = empty_env();
    let mut budget = ResolutionBudget::new(DEFAULT_FETCH_LIMIT);
    // No source block: the body is re-derived from the rendered hypertext.
    let json = note(
        pleroma_url,
        pleroma_actor,
        POST,
        SourceCompat::Derived,
        "<script></script><b>hello</b>",
    );

    let comment = from_wire(&mut store, &env, &json, pleroma_url, "", &mut budget).unwrap();

    assert_eq!(comment.ap_id, pleroma_url);
    assert_eq!(comment.content, "**hello**");
    assert!(!comment.local);
    assert_eq!(budget.spent(), 0);
}

#[test]
fn test_from_wire_twice_updates_instead_of_duplicating() {
    let (mut store, _actor, _community, _post) = seeded(false, false);
    let env = empty_env();
    let json = note(COMMENT, ACTOR, POST, exact("first body"), "");

    let mut budget = ResolutionBudget::new(DEFAULT_FETCH_LIMIT);
    let first = from_wire(&mut store, &env, &json, COMMENT, "", &mut budget).unwrap();
    let replies_after_first = store.replies.len();

    let json2 = note(COMMENT, ACTOR, POST, exact("second body"), "");
    let mut budget2 = ResolutionBudget::new(DEFAULT_FETCH_LIMIT);
    let second = from_wire(&mut store, &env, &json2, COMMENT, "", &mut budget2).unwrap();

    assert_eq!(store.replies.len(), replies_after_first);
    assert_eq!(first.id, second.id);
    assert_eq!(second.content, "second body");
    let stored = store.find_reply(&COMMENT.to_string()).unwrap();
    assert_eq!(stored.content, "second body");
}

#[test]
fn test_round_trip_preserves_local_body() {
    let (mut origin, actor, _community, post) = seeded(false, false);
    let body = "hello **world**, a & b < c";
    let local = origin.insert_local_reply(ReplyForm {
        ap_id: COMMENT.to_string(),
        creator_id: actor,
        post_id: post,
        parent_id: None,
        content: body.to_string(),
        published: 1_600_000_000,
        updated: None,
    });
    assert!(local.local);

    let wire = to_wire(&origin, &local).unwrap();
    match &wire.source {
        SourceCompat::Exact(block) => assert_eq!(block.content, body),
        SourceCompat::Derived => panic!("a local entity must travel with its source"),
    }

    // Another instance that already knows the author and the post.
    let (mut other, _a2, _c2, _p2) = seeded(false, false);
    let env = empty_env();
    let mut budget = ResolutionBudget::new(DEFAULT_FETCH_LIMIT);
    let imported = from_wire(&mut other, &env, &wire, COMMENT, "", &mut budget).unwrap();
    assert_eq!(imported.content, body);
    assert!(!imported.local);
}

#[test]
fn test_restricted_community_rejects_unknown_actor() {
    let (mut store, _actor, _community, _post) = seeded(true, false);
    let env = empty_env();
    let mut budget = ResolutionBudget::new(DEFAULT_FETCH_LIMIT);
    let json = note(COMMENT, ACTOR, POST, exact("hi"), "");

    let r = from_wire(&mut store, &env, &json, COMMENT, "", &mut budget);
    assert_eq!(r.unwrap_err(), FedError::NotPermitted);
    assert!(store.find_reply(&COMMENT.to_string()).is_none());
}

#[test]
fn test_banned_actor_rejected() {
    let mut store = Store::new();
    let actor = store.insert_actor(ACTOR.to_string());
    let community =
        store.insert_community(COMMUNITY.to_string(), false, Vec::new(), vec![actor]);
    store.insert_post(POST.to_string(), community, false);
    let env = empty_env();
    let mut budget = ResolutionBudget::new(DEFAULT_FETCH_LIMIT);
    let json = note(COMMENT, ACTOR, POST, exact("hi"), "");

    let r = from_wire(&mut store, &env, &json, COMMENT, "", &mut budget);
    assert_eq!(r.unwrap_err(), FedError::NotPermitted);
    assert!(store.find_reply(&COMMENT.to_string()).is_none());
}

#[test]
fn test_locked_thread_rejects_reply() {
    let (mut store, _actor, _community, _post) = seeded(false, true);
    let env = empty_env();
    let mut budget = ResolutionBudget::new(DEFAULT_FETCH_LIMIT);
    let json = note(COMMENT, ACTOR, POST, exact("hi"), "");

    let replies_before = store.replies.len();
    let r = from_wire(&mut store, &env, &json, COMMENT, "", &mut budget);
    assert_eq!(r.unwrap_err(), FedError::ThreadClosed);
    assert_eq!(store.replies.len(), replies_before);
    assert!(store.find_reply(&COMMENT.to_string()).is_none());
}

#[test]
fn test_domain_mismatch_is_a_validation_failure() {
    let (mut store, _actor, _community, _post) = seeded(false, false);
    let env = empty_env();
    let mut budget = ResolutionBudget::new(DEFAULT_FETCH_LIMIT);
    let json = note("https://other.example/comment/1", ACTOR, POST, exact("hi"), "");

    let r = from_wire(&mut store, &env, &json, COMMENT, "", &mut budget);
    assert_eq!(r.unwrap_err(), FedError::Validation);
    assert_eq!(budget.spent(), 0);
}

#[test]
fn test_unreachable_author_is_a_transport_failure() {
    let mut store = Store::new();
    let community = store.insert_community(COMMUNITY.to_string(), false, Vec::new(), Vec::new());
    store.insert_post(POST.to_string(), community, false);
    let env = empty_env();
    let mut budget = ResolutionBudget::new(DEFAULT_FETCH_LIMIT);
    let json = note(COMMENT, ACTOR, POST, exact("hi"), "");

    let r = from_wire(&mut store, &env, &json, COMMENT, "", &mut budget);
    assert_eq!(r.unwrap_err(), FedError::Transport);
    assert_eq!(budget.spent(), 1);
}

#[test]
fn test_wrong_kind_at_author_url_is_a_validation_failure() {
    let mut store = Store::new();
    let env = FetchEnv {
        entries: vec![EnvEntry {
            url: ACTOR.to_string(),
            payload: WirePayload::Community(WireCommunity {
                id: ACTOR.to_string(),
                posting_restricted: false,
            }),
        }],
    };
    let mut budget = ResolutionBudget::new(DEFAULT_FETCH_LIMIT);
    let json = note(COMMENT, ACTOR, POST, exact("hi"), "");

    let r = from_wire(&mut store, &env, &json, COMMENT, "", &mut budget);
    assert_eq!(r.unwrap_err(), FedError::Validation);
    assert_eq!(budget.spent(), 1);
}

#[test]
fn test_post_declaring_other_identifier_is_a_validation_failure() {
    let mut store = Store::new();
    store.insert_actor(ACTOR.to_string());
    let env = FetchEnv {
        entries: vec![EnvEntry {
            url: POST.to_string(),
            payload: WirePayload::Post(WirePost {
                id: "https://enterprise.lemmy.ml/post/99999".to_string(),
                community: COMMUNITY.to_string(),
                locked: false,
            }),
        }],
    };
    let mut budget = ResolutionBudget::new(DEFAULT_FETCH_LIMIT);
    let json = note(COMMENT, ACTOR, POST, exact("hi"), "");

    let r = from_wire(&mut store, &env, &json, COMMENT, "", &mut budget);
    assert_eq!(r.unwrap_err(), FedError::Validation);
    assert_eq!(budget.spent(), 1);
}

#[test]
fn test_deep_fetch_resolves_whole_chain() {
    // Nothing is cached: the author, the parent reply, its post and the
    // community are all fetched, each exactly once.
    let parent_url = "https://enterprise.lemmy.ml/comment/38700";
    let mut store = Store::new();
    let env = FetchEnv {
        entries: vec![
            EnvEntry {
                url: ACTOR.to_string(),
                payload: WirePayload::Actor(WireActor { id: ACTOR.to_string() }),
            },
            EnvEntry {
                url: COMMUNITY.to_string(),
                payload: WirePayload::Community(WireCommunity {
                    id: COMMUNITY.to_string(),
                    posting_restricted: false,
                }),
            },
            EnvEntry {
                url: POST.to_string(),
                payload: WirePayload::Post(WirePost {
                    id: POST.to_string(),
                    community: COMMUNITY.to_string(),
                    locked: false,
                }),
            },
            EnvEntry {
                url: parent_url.to_string(),
                payload: WirePayload::Reply(note(
                    parent_url,
                    ACTOR,
                    POST,
                    exact("parent body"),
                    "",
                )),
            },
        ],
    };
    let mut budget = ResolutionBudget::new(DEFAULT_FETCH_LIMIT);
    let json = note(COMMENT, ACTOR, parent_url, exact("child body"), "");

    let child = from_wire(&mut store, &env, &json, COMMENT, "", &mut budget).unwrap();

    // author + parent reply + post + community, the author only once.
    assert_eq!(budget.spent(), 4);
    let parent = store.find_reply(&parent_url.to_string()).unwrap();
    assert_eq!(child.parent_id, Some(parent.id));
    assert_eq!(child.post_id, parent.post_id);
    assert!(store.find_post(&POST.to_string()).is_some());
}

#[test]
fn test_reference_cycle_exhausts_budget_and_persists_nothing() {
    // Three replies referencing one another in a cycle, nothing pre-cached.
    let u1 = "https://enterprise.lemmy.ml/comment/1";
    let u2 = "https://enterprise.lemmy.ml/comment/2";
    let u3 = "https://enterprise.lemmy.ml/comment/3";
    let mut store = Store::new();
    store.insert_actor(ACTOR.to_string());
    let env = FetchEnv {
        entries: vec![
            EnvEntry {
                url: u1.to_string(),
                payload: WirePayload::Reply(note(u1, ACTOR, u2, exact("a"), "")),
            },
            EnvEntry {
                url: u2.to_string(),
                payload: WirePayload::Reply(note(u2, ACTOR, u3, exact("b"), "")),
            },
            EnvEntry {
                url: u3.to_string(),
                payload: WirePayload::Reply(note(u3, ACTOR, u1, exact("c"), "")),
            },
        ],
    };
    let mut budget = ResolutionBudget::new(7);
    let json = note(COMMENT, ACTOR, u1, exact("entry"), "");

    let replies_before = store.replies.len();
    let r = from_wire(&mut store, &env, &json, COMMENT, "", &mut budget);
    assert_eq!(r.unwrap_err(), FedError::BudgetExhausted);
    assert_eq!(budget.spent(), 7);
    assert_eq!(store.replies.len(), replies_before);
    assert!(store.find_reply(&u1.to_string()).is_none());
}

#[test]
fn test_zero_budget_rejects_any_fetch() {
    let mut store = Store::new();
    let env = empty_env();
    let mut budget = ResolutionBudget::new(0);
    let json = note(COMMENT, ACTOR, POST, exact("hi"), "");

    let r = from_wire(&mut store, &env, &json, COMMENT, "", &mut budget);
    assert_eq!(r.unwrap_err(), FedError::BudgetExhausted);
    assert_eq!(budget.spent(), 0);
}

#[test]
fn test_slur_filter_runs_on_inbound_body() {
    let (mut store, _actor, _community, _post) = seeded(false, false);
    let env = empty_env();
    let mut budget = ResolutionBudget::new(DEFAULT_FETCH_LIMIT);
    let json = note(COMMENT, ACTOR, POST, exact("what the heck"), "");

    let comment = from_wire(&mut store, &env, &json, COMMENT, "heck", &mut budget).unwrap();
    assert_eq!(comment.content, "what the *removed*");
}

#[test]
fn test_tombstone_for_unknown_identifier_is_a_noop() {
    let (mut store, _actor, _community, _post) = seeded(false, false);
    let replies_before = store.replies.len();
    let r = receive_tombstone(&mut store, &COMMENT.to_string());
    assert!(r.is_ok());
    assert_eq!(store.replies.len(), replies_before);
}

#[test]
fn test_tombstone_twice_leaves_entity_deleted() {
    let (mut store, _actor, _community, _post) = seeded(false, false);
    let env = empty_env();
    let mut budget = ResolutionBudget::new(DEFAULT_FETCH_LIMIT);
    let json = note(COMMENT, ACTOR, POST, exact("hi"), "");
    from_wire(&mut store, &env, &json, COMMENT, "", &mut budget).unwrap();

    assert!(receive_tombstone(&mut store, &COMMENT.to_string()).is_ok());
    assert!(store.find_reply(&COMMENT.to_string()).unwrap().deleted);
    assert!(receive_tombstone(&mut store, &COMMENT.to_string()).is_ok());
    assert!(store.find_reply(&COMMENT.to_string()).unwrap().deleted);
    assert_eq!(store.replies.len(), 1);
}

#[test]
fn test_delete_is_a_soft_delete() {
    let (mut store, _actor, _community, _post) = seeded(false, false);
    let env = empty_env();
    let mut budget = ResolutionBudget::new(DEFAULT_FETCH_LIMIT);
    let json = note(COMMENT, ACTOR, POST, exact("hi"), "");
    let comment = from_wire(&mut store, &env, &json, COMMENT, "", &mut budget).unwrap();

    assert!(delete(&mut store, comment.id).is_ok());
    let stored = store.find_reply(&COMMENT.to_string()).unwrap();
    assert!(stored.deleted);
    assert_eq!(store.replies.len(), 1);

    assert_eq!(delete(&mut store, comment.id + 1).unwrap_err(), FedError::Storage);
}

#[test]
fn test_to_tombstone_prefers_updated_timestamp() {
    let mut reply_deleted = {
        let (mut store, actor, _c, post) = seeded(false, false);
        store.insert_local_reply(ReplyForm {
            ap_id: COMMENT.to_string(),
            creator_id: actor,
            post_id: post,
            parent_id: None,
            content: "gone".to_string(),
            published: 100,
            updated: Some(200),
        })
    };
    reply_deleted.deleted = true;
    let t = to_tombstone(&reply_deleted);
    assert_eq!(t.tag, KindTag::Note);
    assert_eq!(t.deleted, 200);

    reply_deleted.updated = None;
    let t2 = to_tombstone(&reply_deleted);
    assert_eq!(t2.deleted, 100);
}

#[test]
fn test_to_wire_fails_on_missing_author() {
    let (mut store, actor, _c, post) = seeded(false, false);
    let reply = store.insert_local_reply(ReplyForm {
        ap_id: COMMENT.to_string(),
        creator_id: actor + 100,
        post_id: post,
        parent_id: None,
        content: "x".to_string(),
        published: 1,
        updated: None,
    });
    assert_eq!(to_wire(&store, &reply).unwrap_err(), FedError::Storage);
}

#[test]
fn test_domains_match_compares_authorities() {
    assert!(domains_match(
        "https://enterprise.lemmy.ml/comment/38741",
        "https://enterprise.lemmy.ml/post/55143"
    ));
    assert!(!domains_match(
        "https://enterprise.lemmy.ml/comment/38741",
        "https://queer.hacktivis.me/objects/1"
    ));
    assert!(!domains_match("not a url", "also not a url"));
}

#[test]
fn test_error_descriptions_are_distinct() {
    let texts = vec![
        FedError::Validation.describe(),
        FedError::BudgetExhausted.describe(),
        FedError::NotPermitted.describe(),
        FedError::ThreadClosed.describe(),
        FedError::Transport.describe(),
        FedError::Storage.describe(),
    ];
    for (i, a) in texts.iter().enumerate() {
        assert!(!a.is_empty());
        for b in texts.iter().skip(i + 1) {
            assert_ne!(a, b);
        }
    }
}

#[test]
fn test_budget_charges_up_to_ceiling() {
    let mut b = ResolutionBudget::new(2);
    assert!(b.try_charge());
    assert!(b.try_charge());
    assert!(!b.try_charge());
    assert_eq!(b.spent(), 2);
}
