use commit_sync::cache::{PairMap, StrMap};
use commit_sync::changes::classify_changed;
use commit_sync::client::{
    commit_meta, Body, Client, Endpoint, HttpEvent, HttpRequest, Method, Reply, SyncAction,
};
use commit_sync::content::content_id_from;
use commit_sync::digest::tree_id;
use commit_sync::errors::{SyncError, ValidationError};

fn reply(
    code: Option<&str>,
    id: Option<&str>,
    value_ids: Option<&[&str]>,
    access_token: Option<&str>,
    expires_at: Option<i64>,
) -> HttpEvent {
    HttpEvent::Reply(Reply {
        code: code.map(|s| s.to_string()),
        id: id.map(|s| s.to_string()),
        value_ids: value_ids.map(|ids| ids.iter().map(|s| s.to_string()).collect()),
        access_token: access_token.map(|s| s.to_string()),
        expires_at,
    })
}

fn expect_send(a: SyncAction) -> HttpRequest {
    match a {
        SyncAction::Send(r) => r,
        SyncAction::Done => panic!("expected a request, session finished"),
        SyncAction::Fail(e) => panic!("expected a request, failed: {:?}", e),
    }
}

fn test_client() -> Client {
    Client::build()
        .product_name("svnhost".to_string())
        .credential("cid".to_string(), "csecret".to_string())
        .build()
        .unwrap()
}

fn sample_meta() -> commit_sync::client::CommitMeta {
    let changed = classify_changed("A  trunk/a.txt\r\nD  trunk/b.txt/");
    commit_meta("42", "#X-7 fix".to_string(), "alice".to_string(), 1000, changed)
}

#[test]
fn builder_rejects_missing_pieces() {
    let e = Client::build().build().unwrap_err();
    assert_eq!(e, ValidationError::MissingProductName);
    let e = Client::build().product_name("p".to_string()).build().unwrap_err();
    assert_eq!(e, ValidationError::MissingCredential);
    let e = Client::build()
        .api_url(String::new())
        .product_name("p".to_string())
        .credential("a".to_string(), "b".to_string())
        .build()
        .unwrap_err();
    assert_eq!(e, ValidationError::EmptyApiUrl);
    let e = Client::build()
        .product_name("p".to_string())
        .credential("".to_string(), "b".to_string())
        .build()
        .unwrap_err();
    assert_eq!(e, ValidationError::MissingCredential);
}

#[test]
fn builder_accepts_complete_configuration() {
    let c = test_client();
    assert_eq!(c.api_url(), "https://open.worktile.com");
}

/// Drives one full synchronization where nothing is cached and every
/// entity must be created, checking each outgoing request.
#[test]
fn end_to_end_creates_everything_and_submits() {
    let mut c = test_client();
    let now = 1000;

    let (mut s, act) = c.commit("repo1".to_string(), "release1".to_string(), sample_meta(), now);

    // no token cached: the token request goes out first
    let req = expect_send(act);
    match &req.endpoint {
        Endpoint::AuthToken { client_id, client_secret } => {
            assert_eq!(client_id, "cid");
            assert_eq!(client_secret, "csecret");
        }
        other => panic!("expected the token request, got {:?}", other),
    }
    assert!(req.bearer.is_none());

    // token granted: the product lookup goes out under it
    let act = c.sync_step(&mut s, reply(None, None, None, Some("tok1"), Some(now + 200000)), now);
    let req = expect_send(act);
    assert!(matches!(req.endpoint, Endpoint::Products));
    assert!(matches!(req.method, Method::Get));
    assert_eq!(req.query_name.as_deref(), Some("svnhost"));
    assert_eq!(req.bearer.as_deref(), Some("tok1"));

    // nothing matches: the product is created
    let act = c.sync_step(&mut s, reply(None, None, Some(&[]), None, None), now);
    let req = expect_send(act);
    assert!(matches!(req.endpoint, Endpoint::Products));
    assert!(matches!(req.method, Method::Post));
    match req.body.as_ref().unwrap() {
        Body::CreateProduct { name, product_type, description } => {
            assert_eq!(name, "svnhost");
            assert_eq!(product_type, "svn");
            assert_eq!(description, "Subversion");
        }
        other => panic!("wrong body: {:?}", other),
    }

    // product created: the repository lookup follows, scoped under it
    let act = c.sync_step(&mut s, reply(None, Some("p1"), None, None, None), now);
    let req = expect_send(act);
    match &req.endpoint {
        Endpoint::Repositories { product_id } => assert_eq!(product_id, "p1"),
        other => panic!("wrong endpoint: {:?}", other),
    }
    assert_eq!(req.query_name.as_deref(), Some("repo1"));

    // empty: create the repository with the fixed owner and visibility
    let act = c.sync_step(&mut s, reply(None, None, Some(&[]), None, None), now);
    let req = expect_send(act);
    match req.body.as_ref().unwrap() {
        Body::CreateRepository { name, full_name, is_fork, is_private, owner_name, created_at } => {
            assert_eq!(name, "repo1");
            assert_eq!(full_name, "repo1");
            assert!(!*is_fork);
            assert!(*is_private);
            assert_eq!(owner_name, "admin");
            assert_eq!(*created_at, now);
        }
        other => panic!("wrong body: {:?}", other),
    }

    // repository created: the branch lookup follows
    let act = c.sync_step(&mut s, reply(None, Some("r1"), None, None, None), now);
    let req = expect_send(act);
    match &req.endpoint {
        Endpoint::Branches { product_id, repository_id } => {
            assert_eq!(product_id, "p1");
            assert_eq!(repository_id, "r1");
        }
        other => panic!("wrong endpoint: {:?}", other),
    }
    assert_eq!(req.query_name.as_deref(), Some("release1"));

    // empty: create the branch
    let act = c.sync_step(&mut s, reply(None, None, Some(&[]), None, None), now);
    let req = expect_send(act);
    match req.body.as_ref().unwrap() {
        Body::CreateBranch { name, sender_name, created_at } => {
            assert_eq!(name, "release1");
            assert_eq!(sender_name, "admin");
            assert_eq!(*created_at, now);
        }
        other => panic!("wrong body: {:?}", other),
    }

    // branch created: the committer is ensured next
    let act = c.sync_step(&mut s, reply(None, Some("b1"), None, None, None), now);
    let req = expect_send(act);
    match &req.endpoint {
        Endpoint::Users { product_id } => assert_eq!(product_id, "p1"),
        other => panic!("wrong endpoint: {:?}", other),
    }
    assert_eq!(req.query_name.as_deref(), Some("alice"));

    // empty: create the user
    let act = c.sync_step(&mut s, reply(None, None, Some(&[]), None, None), now);
    let req = expect_send(act);
    match req.body.as_ref().unwrap() {
        Body::CreateUser { name, display_name } => {
            assert_eq!(name, "alice");
            assert_eq!(display_name, "alice");
        }
        other => panic!("wrong body: {:?}", other),
    }

    // user created: the commit record is submitted
    let act = c.sync_step(&mut s, reply(None, Some("u1"), None, None, None), now);
    let req = expect_send(act);
    assert!(matches!(req.endpoint, Endpoint::Commits));
    let expected_tree = tree_id("r1", "b1").unwrap();
    let expected_tree2 = hex::encode(
        openssl::hash::hash(openssl::hash::MessageDigest::sha1(), b"r1/b1").unwrap(),
    );
    assert_eq!(expected_tree, expected_tree2);
    match req.body.as_ref().unwrap() {
        Body::SubmitCommit {
            sha,
            message,
            committer_name,
            committed_at,
            tree_id: tid,
            files_added,
            files_removed,
            files_modified,
            work_item_identifiers,
        } => {
            assert_eq!(sha.len(), 40);
            assert!(sha.starts_with("42        "));
            assert_eq!(message, "#X-7 fix");
            assert_eq!(committer_name, "alice");
            assert_eq!(*committed_at, 1000);
            assert_eq!(tid, &expected_tree);
            assert_eq!(files_added, &vec!["trunk/a.txt".to_string()]);
            assert_eq!(files_removed, &vec!["trunk/b.txt".to_string()]);
            assert!(files_modified.is_empty());
            assert_eq!(work_item_identifiers, &vec!["X-7".to_string()]);
        }
        other => panic!("wrong body: {:?}", other),
    }
    let submitted_sha = match req.body.as_ref().unwrap() {
        Body::SubmitCommit { sha, .. } => sha.clone(),
        _ => unreachable!(),
    };

    // commit acknowledged: the branch reference is upserted with the same id
    let act = c.sync_step(&mut s, reply(None, Some("c1"), None, None, None), now);
    let req = expect_send(act);
    match &req.endpoint {
        Endpoint::Refs { product_id, repository_id } => {
            assert_eq!(product_id, "p1");
            assert_eq!(repository_id, "r1");
        }
        other => panic!("wrong endpoint: {:?}", other),
    }
    match req.body.as_ref().unwrap() {
        Body::UpsertRef { meta_type, meta_id, sha } => {
            assert_eq!(meta_type, "branch");
            assert_eq!(meta_id, "b1");
            assert_eq!(sha, &submitted_sha);
        }
        other => panic!("wrong body: {:?}", other),
    }

    // reference acknowledged: the session is done
    let act = c.sync_step(&mut s, reply(None, Some("ref1"), None, None, None), now);
    assert!(matches!(act, SyncAction::Done));
}

/// Resolution idempotence: with every key cached by a first run, a second
/// commit makes no resolution request at all.
#[test]
fn second_commit_resolves_from_cache() {
    let mut c = test_client();
    let now = 1000;
    run_full_flow(&mut c, now);

    // second submission: everything is cached, the first request is already
    // the commit submission, under the cached token
    let (_s, act) = c.commit("repo1".to_string(), "release1".to_string(), sample_meta(), now);
    let req = expect_send(act);
    assert!(matches!(req.endpoint, Endpoint::Commits));
    assert_eq!(req.bearer.as_deref(), Some("tok1"));
}

/// Token reuse: a token with more than twelve hours of life is reused; one
/// at the threshold triggers a refresh.
#[test]
fn token_freshness_window() {
    let mut c = test_client();
    let now = 1000;
    run_full_flow(&mut c, now);

    // far from expiry (stored at now + 200000, window is 43200): reused
    let (_s, act) = c.commit("repo1".to_string(), "release1".to_string(), sample_meta(), now);
    assert!(matches!(expect_send(act).endpoint, Endpoint::Commits));

    // move the clock so that exactly twelve hours remain: refreshed
    let later = now + 200000 - 43200;
    let (_s, act) = c.commit("repo1".to_string(), "release1".to_string(), sample_meta(), later);
    assert!(matches!(expect_send(act).endpoint, Endpoint::AuthToken { .. }));

    // one second earlier, strictly more than twelve hours remain: reused
    let (_s, act) = c.commit("repo1".to_string(), "release1".to_string(), sample_meta(), later - 1);
    assert!(matches!(expect_send(act).endpoint, Endpoint::Commits));
}

/// Auth retry: one auth-failure code is retried once after a token refresh;
/// a second consecutive one is fatal.
#[test]
fn auth_failure_retried_once() {
    let mut c = test_client();
    let now = 1000;

    let (mut s, act) = c.commit("repo1".to_string(), "b".to_string(), sample_meta(), now);
    expect_send(act); // token request
    let act = c.sync_step(&mut s, reply(None, None, None, Some("tok1"), Some(now + 200000)), now);
    let req = expect_send(act); // product lookup, first attempt
    assert!(matches!(req.endpoint, Endpoint::Products));

    // the tracker reports the token expired: the client refreshes and
    // retries the same call once
    let act = c.sync_step(&mut s, reply(Some("100028"), None, None, None, None), now);
    let req = expect_send(act);
    assert!(matches!(req.endpoint, Endpoint::AuthToken { .. }));
    let act = c.sync_step(&mut s, reply(None, None, None, Some("tok2"), Some(now + 200000)), now);
    let req = expect_send(act); // product lookup, second attempt
    assert!(matches!(req.endpoint, Endpoint::Products));
    assert_eq!(req.bearer.as_deref(), Some("tok2"));

    // the retried call succeeds and the flow moves on
    let act = c.sync_step(&mut s, reply(None, None, Some(&["p1"]), None, None), now);
    let req = expect_send(act);
    assert!(matches!(req.endpoint, Endpoint::Repositories { .. }));
}

#[test]
fn second_auth_failure_is_fatal() {
    let mut c = test_client();
    let now = 1000;

    let (mut s, act) = c.commit("repo1".to_string(), "b".to_string(), sample_meta(), now);
    expect_send(act);
    let act = c.sync_step(&mut s, reply(None, None, None, Some("tok1"), Some(now + 200000)), now);
    expect_send(act);
    let act = c.sync_step(&mut s, reply(Some("100028"), None, None, None, None), now);
    expect_send(act); // token request
    let act = c.sync_step(&mut s, reply(None, None, None, Some("tok2"), Some(now + 200000)), now);
    expect_send(act); // retried product lookup
    let act = c.sync_step(&mut s, reply(Some("100028"), None, None, None, None), now);
    match act {
        SyncAction::Fail(SyncError::Tracker { code }) => assert_eq!(code, "100028"),
        other => panic!("expected a fatal tracker error, got {:?}", other),
    }
}

#[test]
fn non_auth_code_is_fatal_without_retry() {
    let mut c = test_client();
    let now = 1000;

    let (mut s, act) = c.commit("repo1".to_string(), "b".to_string(), sample_meta(), now);
    expect_send(act);
    let act = c.sync_step(&mut s, reply(None, None, None, Some("tok1"), Some(now + 200000)), now);
    expect_send(act);
    let act = c.sync_step(&mut s, reply(Some("500100"), None, None, None, None), now);
    match act {
        SyncAction::Fail(SyncError::Tracker { code }) => assert_eq!(code, "500100"),
        other => panic!("expected a fatal tracker error, got {:?}", other),
    }
}

#[test]
fn transport_failure_is_fatal() {
    let mut c = test_client();
    let now = 1000;
    let (mut s, act) = c.commit("r".to_string(), "b".to_string(), sample_meta(), now);
    expect_send(act);
    let act = c.sync_step(&mut s, HttpEvent::TransportFailure("timed out".to_string()), now);
    match act {
        SyncAction::Fail(SyncError::Transport { detail }) => assert_eq!(detail, "timed out"),
        other => panic!("expected a transport failure, got {:?}", other),
    }
}

#[test]
fn token_reply_without_fields_is_auth_failure() {
    let mut c = test_client();
    let now = 1000;
    let (mut s, act) = c.commit("r".to_string(), "b".to_string(), sample_meta(), now);
    expect_send(act);
    let act = c.sync_step(&mut s, reply(None, None, None, None, None), now);
    assert!(matches!(act, SyncAction::Fail(SyncError::Auth)));
}

#[test]
fn malformed_success_reply_is_fatal() {
    let mut c = test_client();
    let now = 1000;
    let (mut s, act) = c.commit("r".to_string(), "b".to_string(), sample_meta(), now);
    expect_send(act);
    let act = c.sync_step(&mut s, reply(None, None, None, Some("tok1"), Some(now + 200000)), now);
    expect_send(act); // product lookup
    // a success reply without the queried values is malformed
    let act = c.sync_step(&mut s, reply(None, None, None, None, None), now);
    assert!(matches!(act, SyncAction::Fail(SyncError::MalformedReply)));
}

/// Drives a complete successful flow, filling the cache and storing tok1.
fn run_full_flow(c: &mut Client, now: i64) {
    let (mut s, act) = c.commit("repo1".to_string(), "release1".to_string(), sample_meta(), now);
    expect_send(act); // token request
    let act = c.sync_step(&mut s, reply(None, None, None, Some("tok1"), Some(now + 200000)), now);
    expect_send(act); // product lookup
    let act = c.sync_step(&mut s, reply(None, None, Some(&["p1"]), None, None), now);
    expect_send(act); // repository lookup
    let act = c.sync_step(&mut s, reply(None, None, Some(&["r1"]), None, None), now);
    expect_send(act); // branch lookup
    let act = c.sync_step(&mut s, reply(None, None, Some(&["b1"]), None, None), now);
    expect_send(act); // user lookup
    let act = c.sync_step(&mut s, reply(None, None, Some(&["u1"]), None, None), now);
    expect_send(act); // commit submission
    let act = c.sync_step(&mut s, reply(None, Some("c1"), None, None, None), now);
    expect_send(act); // reference upsert
    let act = c.sync_step(&mut s, reply(None, Some("ref1"), None, None, None), now);
    assert!(matches!(act, SyncAction::Done));
}

#[test]
fn lookup_hit_takes_first_value() {
    let mut c = test_client();
    let now = 1000;
    let (mut s, act) = c.commit("repo1".to_string(), "b".to_string(), sample_meta(), now);
    expect_send(act);
    let act = c.sync_step(&mut s, reply(None, None, None, Some("tok1"), Some(now + 200000)), now);
    expect_send(act); // product lookup
    let act = c.sync_step(&mut s, reply(None, None, Some(&["pA", "pB"]), None, None), now);
    let req = expect_send(act);
    match &req.endpoint {
        Endpoint::Repositories { product_id } => assert_eq!(product_id, "pA"),
        other => panic!("wrong endpoint: {:?}", other),
    }
}

#[test]
fn content_id_pads_and_renders_noise() {
    let id = content_id_from("42", &[0u8; 15]);
    assert_eq!(id.len(), 40);
    assert_eq!(&id[..10], "42        ");
    assert_eq!(&id[10..], "000000000000000000000000000000");
    let id = content_id_from("12345678901", &[0xabu8; 15]);
    assert_eq!(&id[..10], "1234567890");
    assert_eq!(&id[10..], "ababababababababababababababab");
}

#[test]
fn tree_id_is_the_hex_sha1_of_the_joined_ids() {
    let t = tree_id("repo", "branch").unwrap();
    let expected = hex::encode(
        openssl::hash::hash(openssl::hash::MessageDigest::sha1(), b"repo/branch").unwrap(),
    );
    assert_eq!(t, expected);
    assert_eq!(t.len(), 40);
    assert_ne!(tree_id("repo", "other").unwrap(), t);
}

#[test]
fn cache_maps_store_and_find() {
    let mut m = StrMap::new();
    assert!(m.get(&"k".to_string()).is_none());
    m.insert("k".to_string(), "v1".to_string());
    assert_eq!(m.get(&"k".to_string()), Some("v1".to_string()));
    assert!(m.get(&"other".to_string()).is_none());

    let mut p = PairMap::new();
    assert!(p.get(&"r".to_string(), &"b".to_string()).is_none());
    p.insert("r".to_string(), "b".to_string(), "id1".to_string());
    assert_eq!(p.get(&"r".to_string(), &"b".to_string()), Some("id1".to_string()));
    assert!(p.get(&"r".to_string(), &"x".to_string()).is_none());
}

/// With product and repository cached but a new branch, only the branch is
/// resolved over the network.
#[test]
fn new_branch_reuses_cached_product_and_repository() {
    let mut c = test_client();
    let now = 1000;
    run_full_flow(&mut c, now);

    let (mut s, act) = c.commit("repo1".to_string(), "hotfix2".to_string(), sample_meta(), now);
    let req = expect_send(act);
    match &req.endpoint {
        Endpoint::Branches { product_id, repository_id } => {
            assert_eq!(product_id, "p1");
            assert_eq!(repository_id, "r1");
        }
        other => panic!("expected the branch lookup, got {:?}", other),
    }
    assert_eq!(req.query_name.as_deref(), Some("hotfix2"));

    // the new branch resolves; the cached user needs no call, so the commit
    // submission follows at once
    let act = c.sync_step(&mut s, reply(None, None, Some(&["b2"]), None, None), now);
    let req = expect_send(act);
    assert!(matches!(req.endpoint, Endpoint::Commits));
}
