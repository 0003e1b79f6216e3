//! The synchronization client: entity resolution, token lifecycle, the
//! auth-retry protocol, and the orchestration of one commit submission.
//!
//! The client performs no transport itself. Each submission is a session
//! that hands the caller the next HTTP request to perform and consumes the
//! parsed reply, deciding every step: which entities to resolve, when the
//! cached token may be reused, when a call is retried after an auth
//! failure, and when the attempt has failed for good.

use vstd::prelude::*;

use crate::cache::{PairMap, StrMap};
use crate::changes::FilesChanged;
use crate::content::{fresh_content_id, spec_pad_rev};
use crate::digest::{spec_is_hex_char, spec_tree_id, tree_id};
use crate::errors::{SyncError, ValidationError};
use crate::workitems::{identifiers_from_message, spec_work_items};
use crate::{spec_token_fresh, AccessToken};

verus! {

/// Canonical commit metadata, produced once per synchronization attempt.
#[derive(Debug)]
pub struct CommitMeta {
    pub sha: String,
    pub message: String,
    pub committer_name: String,
    pub committed_at: i64,
    pub files_added: Vec<String>,
    pub files_removed: Vec<String>,
    pub files_modified: Vec<String>,
}

/// Builder for a [`Client`]; credentials and the product name must be set.
#[derive(Debug)]
pub struct ClientBuilder {
    api_url: String,
    product_name: Option<String>,
    id: Option<String>,
    key: Option<String>,
}

impl ClientBuilder {
    pub closed spec fn spec_api_url(&self) -> Seq<char> {
        self.api_url@
    }

    pub closed spec fn spec_product_name(&self) -> Option<Seq<char>> {
        match self.product_name {
            Some(ref n) => Some(n@),
            None => None,
        }
    }

    pub closed spec fn spec_id(&self) -> Option<Seq<char>> {
        match self.id {
            Some(ref n) => Some(n@),
            None => None,
        }
    }

    pub closed spec fn spec_key(&self) -> Option<Seq<char>> {
        match self.key {
            Some(ref n) => Some(n@),
            None => None,
        }
    }

    /// All fields the builder must carry for `build` to succeed.
    pub open spec fn spec_complete(&self) -> bool {
        &&& self.spec_api_url().len() > 0
        &&& (self.spec_product_name() matches Some(n) && n.len() > 0)
        &&& (self.spec_id() matches Some(i) && i.len() > 0)
        &&& (self.spec_key() matches Some(k) && k.len() > 0)
    }

    pub fn new() -> (r: ClientBuilder)
        ensures
            r.spec_api_url() == "https://open.worktile.com"@,
            r.spec_product_name() is None,
            r.spec_id() is None,
            r.spec_key() is None,
    {
        ClientBuilder {
            api_url: String::from_str("https://open.worktile.com"),
            product_name: None,
            id: None,
            key: None,
        }
    }

    pub fn api_url(self, url: String) -> (r: Self)
        ensures
            r.spec_api_url() == url@,
            r.spec_product_name() == self.spec_product_name(),
            r.spec_id() == self.spec_id(),
            r.spec_key() == self.spec_key(),
    {
        ClientBuilder { api_url: url, ..self }
    }

    pub fn product_name(self, name: String) -> (r: Self)
        ensures
            r.spec_product_name() == Some(name@),
            r.spec_api_url() == self.spec_api_url(),
            r.spec_id() == self.spec_id(),
            r.spec_key() == self.spec_key(),
    {
        ClientBuilder { product_name: Some(name), ..self }
    }

    pub fn credential(self, id: String, key: String) -> (r: Self)
        ensures
            r.spec_id() == Some(id@),
            r.spec_key() == Some(key@),
            r.spec_api_url() == self.spec_api_url(),
            r.spec_product_name() == self.spec_product_name(),
    {
        ClientBuilder { id: Some(id), key: Some(key), ..self }
    }

    /// Validates the configuration: an empty URL, a missing or empty product
    /// name, and missing or empty credentials are each rejected, in that
    /// order of precedence.
    pub fn build(self) -> (r: Result<Client, ValidationError>)
        ensures
            match r {
                Ok(c) => {
                    &&& self.spec_complete()
                    &&& c.spec_api_url() == self.spec_api_url()
                    &&& Some(c.spec_product_name()) == self.spec_product_name()
                    &&& Some(c.spec_client_id()) == self.spec_id()
                    &&& Some(c.spec_client_secret()) == self.spec_key()
                    &&& c.spec_token() is None
                    &&& c.spec_product_id() is None
                    &&& c.spec_users() == Map::<Seq<char>, Seq<char>>::empty()
                    &&& c.spec_repositories() == Map::<Seq<char>, Seq<char>>::empty()
                    &&& c.spec_branches() == Map::<(Seq<char>, Seq<char>), Seq<char>>::empty()
                },
                Err(e) => {
                    &&& !self.spec_complete()
                    &&& e == (if self.spec_api_url().len() == 0 {
                        ValidationError::EmptyApiUrl
                    } else if !(self.spec_product_name() matches Some(n) && n.len() > 0) {
                        ValidationError::MissingProductName
                    } else {
                        ValidationError::MissingCredential
                    })
                },
            },
    {
        if self.api_url.as_str().unicode_len() == 0 {
            return Err(ValidationError::EmptyApiUrl);
        }
        let product_name = match self.product_name {
            Some(name) => {
                if name.as_str().unicode_len() == 0 {
                    return Err(ValidationError::MissingProductName);
                }
                name
            },
            None => {
                return Err(ValidationError::MissingProductName);
            },
        };
        let (id, key) = match (self.id, self.key) {
            (Some(id), Some(key)) => {
                if id.as_str().unicode_len() == 0 || key.as_str().unicode_len() == 0 {
                    return Err(ValidationError::MissingCredential);
                }
                (id, key)
            },
            _ => {
                return Err(ValidationError::MissingCredential);
            },
        };
        Ok(
            Client {
                api_url: self.api_url,
                product_name,
                id,
                key,
                ctx: Context {
                    token: None,
                    product_id: None,
                    users: StrMap::new(),
                    repositories: StrMap::new(),
                    branches: PairMap::new(),
                },
            },
        )
    }
}

/// Shared state behind one client: the token slot and the four resolution
/// maps, all append-only for the process lifetime.
#[derive(Debug)]
struct Context {
    token: Option<AccessToken>,
    product_id: Option<String>,
    users: StrMap,
    repositories: StrMap,
    branches: PairMap,
}

/// The synchronization client: tracker location, credentials, and the
/// shared resolution and token state.
#[derive(Debug)]
pub struct Client {
    api_url: String,
    product_name: String,
    id: String,
    key: String,
    ctx: Context,
}

impl Client {
    pub closed spec fn spec_api_url(&self) -> Seq<char> {
        self.api_url@
    }

    pub closed spec fn spec_product_name(&self) -> Seq<char> {
        self.product_name@
    }

    pub closed spec fn spec_client_id(&self) -> Seq<char> {
        self.id@
    }

    pub closed spec fn spec_client_secret(&self) -> Seq<char> {
        self.key@
    }

    /// The cached token, if any.
    pub closed spec fn spec_token(&self) -> Option<AccessToken> {
        self.ctx.token
    }

    /// The cached product identifier, if resolved before.
    pub closed spec fn spec_product_id(&self) -> Option<Seq<char>> {
        match self.ctx.product_id {
            Some(ref id) => Some(id@),
            None => None,
        }
    }

    /// The resolved user identifiers by user name.
    pub closed spec fn spec_users(&self) -> Map<Seq<char>, Seq<char>> {
        self.ctx.users.view()
    }

    /// The resolved repository identifiers by repository full name.
    pub closed spec fn spec_repositories(&self) -> Map<Seq<char>, Seq<char>> {
        self.ctx.repositories.view()
    }

    /// The resolved branch identifiers by repository and branch name.
    pub closed spec fn spec_branches(&self) -> Map<(Seq<char>, Seq<char>), Seq<char>> {
        self.ctx.branches.view()
    }

    /// A fresh token is cached at `now`.
    pub open spec fn spec_has_fresh_token(&self, now: int) -> bool {
        self.spec_token() matches Some(t) && spec_token_fresh(t.expires_at as int, now)
    }

    /// The base URL requests are sent to.
    pub fn api_url(&self) -> (r: &String)
        ensures
            r@ == self.spec_api_url(),
    {
        &self.api_url
    }

    pub fn build() -> (r: ClientBuilder)
        ensures
            r.spec_api_url() == "https://open.worktile.com"@,
            r.spec_product_name() is None,
            r.spec_id() is None,
            r.spec_key() is None,
    {
        ClientBuilder::new()
    }
}

// ---------------------------------------------------------------------------
// The wire protocol, as plain data: what to send, and what came back.
// ---------------------------------------------------------------------------

#[derive(Clone, Copy, Debug)]
pub enum Method {
    Get,
    Post,
}

/// The tracker resource one request addresses.
#[derive(Debug)]
pub enum Endpoint {
    /// The token exchange; carries the credential pair as query parameters.
    AuthToken { client_id: String, client_secret: String },
    Products,
    Users { product_id: String },
    Repositories { product_id: String },
    Branches { product_id: String, repository_id: String },
    Commits,
    Refs { product_id: String, repository_id: String },
}

/// One request body, by endpoint.
#[derive(Debug)]
pub enum Body {
    CreateProduct { name: String, product_type: String, description: String },
    CreateUser { name: String, display_name: String },
    CreateRepository {
        name: String,
        full_name: String,
        is_fork: bool,
        is_private: bool,
        owner_name: String,
        created_at: i64,
    },
    CreateBranch { name: String, sender_name: String, created_at: i64 },
    SubmitCommit {
        sha: String,
        message: String,
        committer_name: String,
        committed_at: i64,
        tree_id: String,
        files_added: Vec<String>,
        files_removed: Vec<String>,
        files_modified: Vec<String>,
        work_item_identifiers: Vec<String>,
    },
    UpsertRef { meta_type: String, meta_id: String, sha: String },
}

/// One HTTP request for the caller to perform.
#[derive(Debug)]
pub struct HttpRequest {
    pub method: Method,
    pub endpoint: Endpoint,
    /// The natural-key filter of a lookup.
    pub query_name: Option<String>,
    pub body: Option<Body>,
    /// The bearer token to attach; absent only on the token request.
    pub bearer: Option<String>,
}

/// The fields of one parsed reply body that the protocol reads.
#[derive(Debug)]
pub struct Reply {
    /// The tracker error code field, when present.
    pub code: Option<String>,
    /// The `id` of a created entity.
    pub id: Option<String>,
    /// The `id` list of a query result.
    pub value_ids: Option<Vec<String>>,
    /// The token value of a token reply.
    pub access_token: Option<String>,
    /// The absolute expiry of a token reply, in epoch seconds.
    pub expires_at: Option<i64>,
}

/// What the caller observed for the outstanding request.
#[derive(Debug)]
pub enum HttpEvent {
    Reply(Reply),
    /// The request could not be sent or the response not read.
    TransportFailure(String),
}

/// What the session asks the caller to do next.
#[derive(Debug)]
pub enum SyncAction {
    Send(HttpRequest),
    Done,
    Fail(SyncError),
}

// ---------------------------------------------------------------------------
// The session state machine.
// ---------------------------------------------------------------------------

/// The entity or submission the session currently works on, in the fixed
/// scoping order.
#[derive(Clone, Copy, Debug)]
pub enum Step {
    Product,
    Repository,
    Branch,
    User,
    Commit,
    Ref,
    Done,
}

/// Within a resolution step: looking the key up, or creating the entity
/// after an empty query result.
#[derive(Clone, Copy, Debug)]
pub enum CallKind {
    Lookup,
    Create,
}

/// The auth sub-state of the current call.
#[derive(Debug)]
pub enum AuthPhase {
    /// No request outstanding.
    Idle,
    /// The token request is outstanding.
    AwaitToken,
    /// The step's own request is outstanding, sent with this bearer token.
    AwaitReply { token: String },
}

/// One commit submission in flight.
#[derive(Debug)]
pub struct SyncSession {
    pub repo_name: String,
    pub branch_name: String,
    pub meta: CommitMeta,
    /// The time the session started; stamped into created entities.
    pub started_at: i64,
    pub step: Step,
    pub call: CallKind,
    pub auth: AuthPhase,
    /// An auth failure was already retried for the current call.
    pub tried: bool,
    pub product_id: Option<String>,
    pub repository_id: Option<String>,
    pub branch_id: Option<String>,
}

pub open spec fn spec_step_index(st: Step) -> int {
    match st {
        Step::Product => 0,
        Step::Repository => 1,
        Step::Branch => 2,
        Step::User => 3,
        Step::Commit => 4,
        Step::Ref => 5,
        Step::Done => 6,
    }
}

/// The scoping dependencies the session keeps: identifiers are in hand
/// before any step scoped under them begins.
pub open spec fn spec_wf_session(s: SyncSession) -> bool {
    &&& (spec_step_index(s.step) >= 1 ==> s.product_id is Some)
    &&& (spec_step_index(s.step) >= 2 ==> s.repository_id is Some)
    &&& (spec_step_index(s.step) >= 3 ==> s.branch_id is Some)
    &&& (!(s.auth is Idle) ==> s.step != Step::Done)
}

pub open spec fn spec_opt_view(o: Option<String>) -> Option<Seq<char>> {
    match o {
        Some(v) => Some(v@),
        None => None,
    }
}

/// The request text the current step and call demand, exactly.
pub open spec fn spec_request_matches(c: Client, s: SyncSession, r: HttpRequest) -> bool {
    match (s.step, s.call) {
        (Step::Product, CallKind::Lookup) => {
            &&& r.method is Get
            &&& r.endpoint is Products
            &&& spec_opt_view(r.query_name) == Some(c.spec_product_name())
            &&& r.body is None
        },
        (Step::Product, CallKind::Create) => {
            &&& r.method is Post
            &&& r.endpoint is Products
            &&& r.query_name is None
            &&& (r.body matches Some(Body::CreateProduct { name, product_type, description })
                && name@ == c.spec_product_name() && product_type@ == "svn"@ && description@
                == "Subversion"@)
        },
        (Step::Repository, CallKind::Lookup) => {
            &&& r.method is Get
            &&& (r.endpoint matches Endpoint::Repositories { product_id } && Some(product_id@)
                == spec_opt_view(s.product_id))
            &&& spec_opt_view(r.query_name) == Some(s.repo_name@)
            &&& r.body is None
        },
        (Step::Repository, CallKind::Create) => {
            &&& r.method is Post
            &&& (r.endpoint matches Endpoint::Repositories { product_id } && Some(product_id@)
                == spec_opt_view(s.product_id))
            &&& r.query_name is None
            &&& (r.body matches Some(
                Body::CreateRepository {
                    name,
                    full_name,
                    is_fork,
                    is_private,
                    owner_name,
                    created_at,
                },
            ) && name@ == s.repo_name@ && full_name@ == s.repo_name@ && is_fork == false
                && is_private == true && owner_name@ == "admin"@ && created_at == s.started_at)
        },
        (Step::Branch, CallKind::Lookup) => {
            &&& r.method is Get
            &&& (r.endpoint matches Endpoint::Branches { product_id, repository_id } && Some(
                product_id@,
            ) == spec_opt_view(s.product_id) && Some(repository_id@) == spec_opt_view(
                s.repository_id,
            ))
            &&& spec_opt_view(r.query_name) == Some(s.branch_name@)
            &&& r.body is None
        },
        (Step::Branch, CallKind::Create) => {
            &&& r.method is Post
            &&& (r.endpoint matches Endpoint::Branches { product_id, repository_id } && Some(
                product_id@,
            ) == spec_opt_view(s.product_id) && Some(repository_id@) == spec_opt_view(
                s.repository_id,
            ))
            &&& r.query_name is None
            &&& (r.body matches Some(Body::CreateBranch { name, sender_name, created_at }) && name@
                == s.branch_name@ && sender_name@ == "admin"@ && created_at == s.started_at)
        },
        (Step::User, CallKind::Lookup) => {
            &&& r.method is Get
            &&& (r.endpoint matches Endpoint::Users { product_id } && Some(product_id@)
                == spec_opt_view(s.product_id))
            &&& spec_opt_view(r.query_name) == Some(s.meta.committer_name@)
            &&& r.body is None
        },
        (Step::User, CallKind::Create) => {
            &&& r.method is Post
            &&& (r.endpoint matches Endpoint::Users { product_id } && Some(product_id@)
                == spec_opt_view(s.product_id))
            &&& r.query_name is None
            &&& (r.body matches Some(Body::CreateUser { name, display_name }) && name@
                == s.meta.committer_name@ && display_name@ == s.meta.committer_name@)
        },
        (Step::Commit, _) => {
            &&& r.method is Post
            &&& r.endpoint is Commits
            &&& r.query_name is None
            &&& (r.body matches Some(
                Body::SubmitCommit {
                    sha,
                    message,
                    committer_name,
                    committed_at,
                    tree_id,
                    files_added,
                    files_removed,
                    files_modified,
                    work_item_identifiers,
                },
            ) && sha@ == s.meta.sha@ && message@ == s.meta.message@ && committer_name@
                == s.meta.committer_name@ && committed_at == s.meta.committed_at && (
            s.repository_id matches Some(rid) && s.branch_id matches Some(bid) && tree_id@
                == spec_tree_id(rid@, bid@)) && files_added@ == s.meta.files_added@ && files_removed@
                == s.meta.files_removed@ && files_modified@ == s.meta.files_modified@
                && work_item_identifiers.deep_view() == spec_work_items(s.meta.message@))
        },
        (Step::Ref, _) => {
            &&& r.method is Post
            &&& (r.endpoint matches Endpoint::Refs { product_id, repository_id } && Some(
                product_id@,
            ) == spec_opt_view(s.product_id) && Some(repository_id@) == spec_opt_view(
                s.repository_id,
            ))
            &&& r.query_name is None
            &&& (r.body matches Some(Body::UpsertRef { meta_type, meta_id, sha }) && meta_type@
                == "branch"@ && Some(meta_id@) == spec_opt_view(s.branch_id) && sha@ == s.meta.sha@)
        },
        (Step::Done, _) => false,
    }
}

/// The token request, exactly: the client-credentials exchange.
pub open spec fn spec_token_request(c: Client, r: HttpRequest) -> bool {
    &&& r.method is Post
    &&& (r.endpoint matches Endpoint::AuthToken { client_id, client_secret } && client_id@
        == c.spec_client_id() && client_secret@ == c.spec_client_secret())
    &&& r.query_name is None
    &&& r.body is None
    &&& r.bearer is None
}

/// A step's own request is sent only when its natural key is not already
/// resolved in the cache.
pub open spec fn spec_cache_miss(c: Client, s: SyncSession) -> bool {
    match s.step {
        Step::Product => c.spec_product_id() is None,
        Step::Repository => !c.spec_repositories().contains_key(s.repo_name@),
        Step::Branch => !c.spec_branches().contains_key((s.repo_name@, s.branch_name@)),
        Step::User => !c.spec_users().contains_key(s.meta.committer_name@),
        _ => true,
    }
}

/// Everything an emitted action promises, against the client state at the
/// moment it is emitted.
pub open spec fn spec_action_ok(c: Client, s: SyncSession, a: SyncAction, now: int) -> bool {
    match a {
        SyncAction::Send(r) => {
            if r.endpoint is AuthToken {
                // the token request goes out only when no fresh token is cached
                &&& spec_token_request(c, r)
                &&& !c.spec_has_fresh_token(now)
                &&& s.auth is AwaitToken
            } else {
                // any other request is the current step's, with the cached
                // token attached, and only on a cache miss
                &&& spec_request_matches(c, s, r)
                &&& spec_cache_miss(c, s)
                &&& (s.auth matches AuthPhase::AwaitReply { token } && spec_opt_view(r.bearer)
                    == Some(token@) && (c.spec_token() matches Some(t) && t.value@ == token@))
            }
        },
        SyncAction::Done => s.step is Done,
        SyncAction::Fail(_) => true,
    }
}

/// The four cache maps and the resolved product identifier only ever grow.
pub open spec fn spec_cache_monotone(a: Client, b: Client) -> bool {
    &&& (a.spec_product_id() is Some ==> b.spec_product_id() == a.spec_product_id())
    &&& a.spec_users().submap_of(b.spec_users())
    &&& a.spec_repositories().submap_of(b.spec_repositories())
    &&& a.spec_branches().submap_of(b.spec_branches())
}

/// The fields that name what a session synchronizes never change.
pub open spec fn spec_same_goal(a: SyncSession, b: SyncSession) -> bool {
    &&& b.repo_name == a.repo_name
    &&& b.branch_name == a.branch_name
    &&& b.meta == a.meta
    &&& b.started_at == a.started_at
}

/// While a request is outstanding, the cache holds no entry for the step's
/// key: a session and its client move together.
pub open spec fn spec_session_compat(c: Client, s: SyncSession) -> bool {
    !(s.auth is Idle) ==> spec_cache_miss(c, s)
}

/// The resolved product identifier and the three resolution maps are equal:
/// nothing was written to the cache.
pub open spec fn spec_same_caches(a: Client, b: Client) -> bool {
    &&& b.spec_product_id() == a.spec_product_id()
    &&& b.spec_users() == a.spec_users()
    &&& b.spec_repositories() == a.spec_repositories()
    &&& b.spec_branches() == a.spec_branches()
}

/// Every identifier the session already resolved is the cache's entry for
/// its natural key: resolution returns the cached identifier.
pub open spec fn spec_ids_resolved(c: Client, s: SyncSession) -> bool {
    &&& (spec_step_index(s.step) >= 1 ==> c.spec_product_id() == spec_opt_view(s.product_id))
    &&& (spec_step_index(s.step) >= 2 ==> c.spec_repositories().contains_key(s.repo_name@)
        && spec_opt_view(s.repository_id) == Some(c.spec_repositories()[s.repo_name@]))
    &&& (spec_step_index(s.step) >= 3 ==> c.spec_branches().contains_key(
        (s.repo_name@, s.branch_name@),
    ) && spec_opt_view(s.branch_id) == Some(c.spec_branches()[(s.repo_name@, s.branch_name@)]))
}

/// A tracker code that reports an invalid or expired token.
pub open spec fn spec_is_auth_code(c: Seq<char>) -> bool {
    c == "100028"@ || c == "100032"@
}

fn is_auth_code(code: &String) -> (r: bool)
    ensures
        r == spec_is_auth_code(code@),
{
    *code == String::from_str("100028") || *code == String::from_str("100032")
}

/// Element-wise copy of a list of strings.
fn clone_strings(v: &Vec<String>) -> (r: Vec<String>)
    ensures
        r@ == v@,
{
    let mut r: Vec<String> = Vec::new();
    let mut i: usize = 0;
    while i < v.len()
        invariant
            i <= v.len(),
            r@ =~= v@.take(i as int),
        decreases v.len() - i,
    {
        r.push(v[i].clone());
        proof {
            assert(r@ =~= v@.take(i as int + 1));
        }
        i += 1;
    }
    proof {
        assert(r@ =~= v@);
    }
    r
}

impl Context {
    /// The fast path of token acquisition: the cached token's value, only
    /// while it is fresh.
    fn fresh_token_value(&self, now: i64) -> (r: Option<String>)
        ensures
            match r {
                Some(v) => self.token matches Some(t) && spec_token_fresh(
                    t.expires_at as int,
                    now as int,
                ) && v@ == t.value@,
                None => !(self.token matches Some(t) && spec_token_fresh(
                    t.expires_at as int,
                    now as int,
                )),
            },
    {
        match &self.token {
            Some(t) => if t.is_fresh(now) {
                Some(t.value.clone())
            } else {
                None
            },
            None => None,
        }
    }
}

impl Client {
    /// Builds the bearer-less request of the session's current step and
    /// call. Fails only when the tree digest cannot be computed.
    fn build_request(&self, s: &SyncSession) -> (r: Result<HttpRequest, SyncError>)
        requires
            spec_wf_session(*s),
            s.step != Step::Done,
        ensures
            match r {
                Ok(req) => spec_request_matches(*self, *s, req) && req.bearer is None,
                Err(e) => e == SyncError::Digest && s.step is Commit,
            },
    {
        match (s.step, s.call) {
            (Step::Product, CallKind::Lookup) => Ok(
                HttpRequest {
                    method: Method::Get,
                    endpoint: Endpoint::Products,
                    query_name: Some(self.product_name.clone()),
                    body: None,
                    bearer: None,
                },
            ),
            (Step::Product, CallKind::Create) => Ok(
                HttpRequest {
                    method: Method::Post,
                    endpoint: Endpoint::Products,
                    query_name: None,
                    body: Some(
                        Body::CreateProduct {
                            name: self.product_name.clone(),
                            product_type: String::from_str("svn"),
                            description: String::from_str("Subversion"),
                        },
                    ),
                    bearer: None,
                },
            ),
            (Step::Repository, CallKind::Lookup) => Ok(
                HttpRequest {
                    method: Method::Get,
                    endpoint: Endpoint::Repositories {
                        product_id: s.product_id.as_ref().unwrap().clone(),
                    },
                    query_name: Some(s.repo_name.clone()),
                    body: None,
                    bearer: None,
                },
            ),
            (Step::Repository, CallKind::Create) => Ok(
                HttpRequest {
                    method: Method::Post,
                    endpoint: Endpoint::Repositories {
                        product_id: s.product_id.as_ref().unwrap().clone(),
                    },
                    query_name: None,
                    body: Some(
                        Body::CreateRepository {
                            name: s.repo_name.clone(),
                            full_name: s.repo_name.clone(),
                            is_fork: false,
                            is_private: true,
                            owner_name: String::from_str("admin"),
                            created_at: s.started_at,
                        },
                    ),
                    bearer: None,
                },
            ),
            (Step::Branch, CallKind::Lookup) => Ok(
                HttpRequest {
                    method: Method::Get,
                    endpoint: Endpoint::Branches {
                        product_id: s.product_id.as_ref().unwrap().clone(),
                        repository_id: s.repository_id.as_ref().unwrap().clone(),
                    },
                    query_name: Some(s.branch_name.clone()),
                    body: None,
                    bearer: None,
                },
            ),
            (Step::Branch, CallKind::Create) => Ok(
                HttpRequest {
                    method: Method::Post,
                    endpoint: Endpoint::Branches {
                        product_id: s.product_id.as_ref().unwrap().clone(),
                        repository_id: s.repository_id.as_ref().unwrap().clone(),
                    },
                    query_name: None,
                    body: Some(
                        Body::CreateBranch {
                            name: s.branch_name.clone(),
                            sender_name: String::from_str("admin"),
                            created_at: s.started_at,
                        },
                    ),
                    bearer: None,
                },
            ),
            (Step::User, CallKind::Lookup) => Ok(
                HttpRequest {
                    method: Method::Get,
                    endpoint: Endpoint::Users {
                        product_id: s.product_id.as_ref().unwrap().clone(),
                    },
                    query_name: Some(s.meta.committer_name.clone()),
                    body: None,
                    bearer: None,
                },
            ),
            (Step::User, CallKind::Create) => Ok(
                HttpRequest {
                    method: Method::Post,
                    endpoint: Endpoint::Users {
                        product_id: s.product_id.as_ref().unwrap().clone(),
                    },
                    query_name: None,
                    body: Some(
                        Body::CreateUser {
                            name: s.meta.committer_name.clone(),
                            display_name: s.meta.committer_name.clone(),
                        },
                    ),
                    bearer: None,
                },
            ),
            (Step::Commit, _) => {
                let rid = s.repository_id.as_ref().unwrap();
                let bid = s.branch_id.as_ref().unwrap();
                let tid = match tree_id(rid.as_str(), bid.as_str()) {
                    Ok(t) => t,
                    Err(e) => {
                        return Err(e);
                    },
                };
                Ok(
                    HttpRequest {
                        method: Method::Post,
                        endpoint: Endpoint::Commits,
                        query_name: None,
                        body: Some(
                            Body::SubmitCommit {
                                sha: s.meta.sha.clone(),
                                message: s.meta.message.clone(),
                                committer_name: s.meta.committer_name.clone(),
                                committed_at: s.meta.committed_at,
                                tree_id: tid,
                                files_added: clone_strings(&s.meta.files_added),
                                files_removed: clone_strings(&s.meta.files_removed),
                                files_modified: clone_strings(&s.meta.files_modified),
                                work_item_identifiers: identifiers_from_message(
                                    s.meta.message.as_str(),
                                ),
                            },
                        ),
                        bearer: None,
                    },
                )
            },
            (Step::Ref, _) => Ok(
                HttpRequest {
                    method: Method::Post,
                    endpoint: Endpoint::Refs {
                        product_id: s.product_id.as_ref().unwrap().clone(),
                        repository_id: s.repository_id.as_ref().unwrap().clone(),
                    },
                    query_name: None,
                    body: Some(
                        Body::UpsertRef {
                            meta_type: String::from_str("branch"),
                            meta_id: s.branch_id.as_ref().unwrap().clone(),
                            sha: s.meta.sha.clone(),
                        },
                    ),
                    bearer: None,
                },
            ),
            (Step::Done, _) => {
                proof {
                    assert(false);
                }
                Err(SyncError::Digest)
            },
        }
    }

    /// Acquires a token and emits the current step's request: with the
    /// cached token when it is fresh, else the token request first.
    fn send_with_auth(&self, s: &mut SyncSession, now: i64) -> (r: SyncAction)
        requires
            spec_wf_session(*old(s)),
            old(s).step != Step::Done,
            spec_cache_miss(*self, *old(s)),
        ensures
            spec_wf_session(*final(s)),
            spec_same_goal(*old(s), *final(s)),
            final(s).step == old(s).step,
            final(s).call == old(s).call,
            final(s).tried == old(s).tried,
            final(s).product_id == old(s).product_id,
            final(s).repository_id == old(s).repository_id,
            final(s).branch_id == old(s).branch_id,
            spec_action_ok(*self, *final(s), r, now as int),
            spec_session_compat(*self, *final(s)),
            r is Send || (r == SyncAction::Fail(SyncError::Digest) && old(s).step is Commit),
            (r matches SyncAction::Send(req) && !(req.endpoint is AuthToken))
                ==> self.spec_has_fresh_token(now as int),
    {
        match self.build_request(s) {
            Err(e) => {
                s.auth = AuthPhase::Idle;
                SyncAction::Fail(e)
            },
            Ok(req) => {
                match self.ctx.fresh_token_value(now) {
                    Some(tok) => {
                        let bearer = tok.clone();
                        s.auth = AuthPhase::AwaitReply { token: tok };
                        SyncAction::Send(
                            HttpRequest {
                                method: req.method,
                                endpoint: req.endpoint,
                                query_name: req.query_name,
                                body: req.body,
                                bearer: Some(bearer),
                            },
                        )
                    },
                    None => {
                        s.auth = AuthPhase::AwaitToken;
                        SyncAction::Send(
                            HttpRequest {
                                method: Method::Post,
                                endpoint: Endpoint::AuthToken {
                                    client_id: self.id.clone(),
                                    client_secret: self.key.clone(),
                                },
                                query_name: None,
                                body: None,
                                bearer: None,
                            },
                        )
                    },
                }
            },
        }
    }

    /// Walks the session forward from an idle state: steps whose key is
    /// already cached are completed without any request, and the first step
    /// that needs the tracker emits its request. A session whose work is
    /// exhausted is done.
    fn advance(&self, s: &mut SyncSession, now: i64) -> (r: SyncAction)
        requires
            spec_wf_session(*old(s)),
            old(s).auth is Idle,
            spec_ids_resolved(*self, *old(s)),
        ensures
            spec_wf_session(*final(s)),
            spec_same_goal(*old(s), *final(s)),
            spec_step_index(final(s).step) >= spec_step_index(old(s).step),
            final(s).tried == old(s).tried,
            spec_step_index(old(s).step) >= 1 ==> final(s).product_id == old(s).product_id,
            spec_step_index(old(s).step) >= 2 ==> final(s).repository_id == old(s).repository_id,
            spec_step_index(old(s).step) >= 3 ==> final(s).branch_id == old(s).branch_id,
            old(s).step is Commit ==> final(s).step is Commit,
            old(s).step is Ref ==> final(s).step is Ref,
            spec_action_ok(*self, *final(s), r, now as int),
            spec_session_compat(*self, *final(s)),
            spec_ids_resolved(*self, *final(s)),
            r is Send || (r == SyncAction::Fail(SyncError::Digest)) || (r is Done
                && final(s).step is Done),
            r is Done ==> old(s).step is Done,
            r == SyncAction::Fail(SyncError::Digest) ==> final(s).step is Commit,
            (r matches SyncAction::Send(req) && !(req.endpoint is AuthToken))
                ==> self.spec_has_fresh_token(now as int),
    {
        loop
            invariant
                spec_wf_session(*s),
                spec_same_goal(*old(s), *s),
                spec_step_index(s.step) >= spec_step_index(old(s).step),
                s.tried == old(s).tried,
                s.auth is Idle,
                spec_ids_resolved(*self, *s),
                spec_step_index(old(s).step) >= 1 ==> s.product_id == old(s).product_id,
                spec_step_index(old(s).step) >= 2 ==> s.repository_id == old(s).repository_id,
                spec_step_index(old(s).step) >= 3 ==> s.branch_id == old(s).branch_id,
                old(s).step is Commit ==> s.step is Commit,
                old(s).step is Ref ==> s.step is Ref,
                old(s).step is Done || !(s.step is Done),
            decreases 6 - spec_step_index(s.step),
        {
            match s.step {
                Step::Product => {
                    match &self.ctx.product_id {
                        Some(id) => {
                            s.product_id = Some(id.clone());
                            s.call = CallKind::Lookup;
                            s.step = Step::Repository;
                        },
                        None => {
                            s.call = CallKind::Lookup;
                            return self.send_with_auth(s, now);
                        },
                    }
                },
                Step::Repository => {
                    match self.ctx.repositories.get(&s.repo_name) {
                        Some(id) => {
                            s.repository_id = Some(id);
                            s.call = CallKind::Lookup;
                            s.step = Step::Branch;
                        },
                        None => {
                            s.call = CallKind::Lookup;
                            return self.send_with_auth(s, now);
                        },
                    }
                },
                Step::Branch => {
                    match self.ctx.branches.get(&s.repo_name, &s.branch_name) {
                        Some(id) => {
                            s.branch_id = Some(id);
                            s.call = CallKind::Lookup;
                            s.step = Step::User;
                        },
                        None => {
                            s.call = CallKind::Lookup;
                            return self.send_with_auth(s, now);
                        },
                    }
                },
                Step::User => {
                    match self.ctx.users.get(&s.meta.committer_name) {
                        Some(_) => {
                            // the committer exists; the identifier itself is
                            // not needed
                            s.call = CallKind::Lookup;
                            s.step = Step::Commit;
                        },
                        None => {
                            s.call = CallKind::Lookup;
                            return self.send_with_auth(s, now);
                        },
                    }
                },
                Step::Commit => {
                    s.call = CallKind::Lookup;
                    return self.send_with_auth(s, now);
                },
                Step::Ref => {
                    s.call = CallKind::Lookup;
                    return self.send_with_auth(s, now);
                },
                Step::Done => {
                    return SyncAction::Done;
                },
            }
        }
    }
}

/// The tracker location and credentials never change.
pub open spec fn spec_same_config(a: Client, b: Client) -> bool {
    &&& b.spec_api_url() == a.spec_api_url()
    &&& b.spec_product_name() == a.spec_product_name()
    &&& b.spec_client_id() == a.spec_client_id()
    &&& b.spec_client_secret() == a.spec_client_secret()
}

/// The identifier a successful reply carries for the given step: for a
/// submission the acknowledging `id`, for a resolution lookup the first
/// queried value, for a resolution create the created `id`.
pub open spec fn spec_success_id(step: Step, call: CallKind, reply: Reply) -> Option<Seq<char>> {
    match step {
        Step::Commit => spec_opt_view(reply.id),
        Step::Ref => spec_opt_view(reply.id),
        Step::Done => None,
        _ => match call {
            CallKind::Lookup => match reply.value_ids {
                Some(ids) => if ids.len() > 0 {
                    Some(ids[0]@)
                } else {
                    None
                },
                None => None,
            },
            CallKind::Create => spec_opt_view(reply.id),
        },
    }
}

/// A lookup whose query matched nothing: the step moves on to a create.
pub open spec fn spec_is_empty_lookup(step: Step, call: CallKind, reply: Reply) -> bool {
    &&& spec_step_index(step) <= 3
    &&& call is Lookup
    &&& (reply.value_ids matches Some(ids) && ids.len() == 0)
}

/// Moves the auth phase out, leaving the session idle.
fn take_auth(a: &mut AuthPhase) -> (r: AuthPhase)
    ensures
        r == *old(a),
        *final(a) is Idle,
{
    let r = match &*a {
        AuthPhase::Idle => AuthPhase::Idle,
        AuthPhase::AwaitToken => AuthPhase::AwaitToken,
        AuthPhase::AwaitReply { token } => AuthPhase::AwaitReply { token: token.clone() },
    };
    *a = AuthPhase::Idle;
    r
}

impl Client {
    /// Starts the synchronization of one commit: the session resolves the
    /// product, repository, branch and committer in that order, then submits
    /// the commit record and the branch-reference upsert. The returned
    /// action is the first request to perform.
    pub fn commit(&self, repo: String, branch: String, meta: CommitMeta, now: i64) -> (r: (
        SyncSession,
        SyncAction,
    ))
        ensures
            spec_wf_session(r.0),
            r.0.repo_name == repo,
            r.0.branch_name == branch,
            r.0.meta == meta,
            r.0.started_at == now,
            !r.0.tried,
            spec_action_ok(*self, r.0, r.1, now as int),
            spec_session_compat(*self, r.0),
            spec_ids_resolved(*self, r.0),
            r.1 is Send || r.1 == SyncAction::Fail(SyncError::Digest),
            r.1 == SyncAction::Fail(SyncError::Digest) ==> r.0.step is Commit,
            (r.1 matches SyncAction::Send(req) && !(req.endpoint is AuthToken))
                ==> self.spec_has_fresh_token(now as int),
    {
        let mut s = SyncSession {
            repo_name: repo,
            branch_name: branch,
            meta,
            started_at: now,
            step: Step::Product,
            call: CallKind::Lookup,
            auth: AuthPhase::Idle,
            tried: false,
            product_id: None,
            repository_id: None,
            branch_id: None,
        };
        let act = self.advance(&mut s, now);
        (s, act)
    }

    /// Consumes the event answering the outstanding request and decides the
    /// next action: retry once on an auth-failure code after conditionally
    /// dropping the observed token, fail on any other code, and on success
    /// record the resolved identifier and move the session on.
    pub fn sync_step(&mut self, s: &mut SyncSession, event: HttpEvent, now: i64) -> (r: SyncAction)
        requires
            spec_wf_session(*old(s)),
            !(old(s).auth is Idle),
            spec_session_compat(*old(self), *old(s)),
            spec_ids_resolved(*old(self), *old(s)),
        ensures
            spec_wf_session(*final(s)),
            spec_same_goal(*old(s), *final(s)),
            spec_step_index(final(s).step) >= spec_step_index(old(s).step),
            spec_same_config(*old(self), *final(self)),
            spec_cache_monotone(*old(self), *final(self)),
            spec_action_ok(*final(self), *final(s), r, now as int),
            spec_session_compat(*final(self), *final(s)),
            spec_ids_resolved(*final(self), *final(s)),
            r == SyncAction::Fail(SyncError::Digest) ==> final(s).step is Commit,
            // a request emitted from token acquisition carries a fresh
            // token; only the resend directly after a refresh is covered by
            // the token-reply clause below instead
            (!(old(s).auth is AwaitToken) && (r matches SyncAction::Send(req) && !(
            req.endpoint is AuthToken))) ==> final(self).spec_has_fresh_token(now as int),
            (event matches HttpEvent::TransportFailure(d) ==> (r matches SyncAction::Fail(e) && (
            e matches SyncError::Transport { detail } && detail@ == d@) && *final(self) == *old(self))),
            (match (old(s).auth, event) {
                (AuthPhase::AwaitReply { token }, HttpEvent::Reply(reply)) => {
                    match reply.code {
                        Some(code) => if spec_is_auth_code(code@) && !old(s).tried {
                            // one retry of the same call: the observed token
                            // is dropped only while it is still the cached
                            // one, nothing else changes, and the attempt
                            // goes on
                            &&& final(s).tried
                            &&& final(s).step == old(s).step
                            &&& final(s).call == old(s).call
                            &&& final(s).product_id == old(s).product_id
                            &&& final(s).repository_id == old(s).repository_id
                            &&& final(s).branch_id == old(s).branch_id
                            &&& spec_same_caches(*old(self), *final(self))
                            &&& (r is Send || r == SyncAction::Fail(SyncError::Digest))
                            &&& final(self).spec_token() == (if old(self).spec_token() matches Some(
                                t,
                            ) && t.value@ == token@ {
                                None::<AccessToken>
                            } else {
                                old(self).spec_token()
                            })
                        } else {
                            // any other code, or a second auth failure, is
                            // fatal for this call; neither the token nor the
                            // caches change
                            &&& r == SyncAction::Fail(SyncError::Tracker { code })
                            &&& *final(self) == *old(self)
                        },
                        None => {
                            let sid = spec_success_id(old(s).step, old(s).call, reply);
                            &&& final(self).spec_token() == old(self).spec_token()
                            &&& (sid matches Some(idv) ==> {
                                &&& spec_step_index(final(s).step) > spec_step_index(old(s).step)
                                &&& (r is Send || r is Done || r == SyncAction::Fail(
                                    SyncError::Digest,
                                ))
                                &&& (match old(s).step {
                                    Step::Product => final(self).spec_product_id() == Some(idv)
                                        && spec_opt_view(final(s).product_id) == Some(idv)
                                        && final(self).spec_users() == old(self).spec_users()
                                        && final(self).spec_repositories() == old(self).spec_repositories() && final(self).spec_branches() == old(self).spec_branches(),
                                    Step::Repository => final(self).spec_repositories() == old(self).spec_repositories().insert(old(s).repo_name@, idv)
                                        && spec_opt_view(final(s).repository_id) == Some(idv)
                                        && final(self).spec_product_id() == old(self).spec_product_id() && final(self).spec_users() == old(self).spec_users() && final(self).spec_branches() == old(self).spec_branches(),
                                    Step::Branch => final(self).spec_branches() == old(self).spec_branches().insert(
                                        (old(s).repo_name@, old(s).branch_name@),
                                        idv,
                                    ) && spec_opt_view(final(s).branch_id) == Some(idv) && final(self).spec_product_id() == old(self).spec_product_id() && final(self).spec_users() == old(self).spec_users() && final(self).spec_repositories() == old(self).spec_repositories(),
                                    Step::User => final(self).spec_users() == old(self).spec_users().insert(old(s).meta.committer_name@, idv)
                                        && final(self).spec_product_id() == old(self).spec_product_id() && final(self).spec_repositories() == old(self).spec_repositories() && final(self).spec_branches() == old(self).spec_branches(),
                                    Step::Commit => final(s).step is Ref && spec_same_caches(
                                        *old(self),
                                        *final(self),
                                    ),
                                    Step::Ref => final(s).step is Done && r is Done
                                        && spec_same_caches(*old(self), *final(self)),
                                    Step::Done => false,
                                })
                            })
                            &&& (sid is None ==> (if spec_is_empty_lookup(
                                old(s).step,
                                old(s).call,
                                reply,
                            ) {
                                final(s).call is Create && final(s).step == old(s).step && (
                                r is Send || r == SyncAction::Fail(SyncError::Digest)) && *final(self) == *old(self)
                            } else {
                                r == SyncAction::Fail(SyncError::MalformedReply) && *final(self)
                                    == *old(self)
                            }))
                        },
                    }
                },
                (AuthPhase::AwaitToken, HttpEvent::Reply(reply)) => {
                    if reply.access_token is Some && reply.expires_at is Some {
                        // the token is stored and the step's own request goes
                        // out under it; the caches are untouched
                        &&& (final(self).spec_token() matches Some(t) && Some(t.value@)
                            == spec_opt_view(reply.access_token) && Some(t.expires_at)
                            == reply.expires_at)
                        &&& spec_same_caches(*old(self), *final(self))
                        &&& (r is Send || r == SyncAction::Fail(SyncError::Digest))
                        &&& (r matches SyncAction::Send(req) ==> spec_opt_view(req.bearer)
                            == spec_opt_view(reply.access_token))
                    } else {
                        // a reply without the token fields is a fatal auth
                        // failure; nothing changes
                        &&& r == SyncAction::Fail(SyncError::Auth)
                        &&& *final(self) == *old(self)
                    }
                },
                _ => true,
            }),
    {
        match event {
            HttpEvent::TransportFailure(d) => {
                s.auth = AuthPhase::Idle;
                SyncAction::Fail(SyncError::Transport { detail: d })
            },
            HttpEvent::Reply(reply) => {
                let phase = take_auth(&mut s.auth);
                match phase {
                    AuthPhase::Idle => {
                        proof {
                            assert(false);
                        }
                        SyncAction::Fail(SyncError::MalformedReply)
                    },
                    AuthPhase::AwaitToken => {
                        match (reply.access_token, reply.expires_at) {
                            (Some(v), Some(e)) => {
                                self.ctx.token = Some(
                                    AccessToken { value: v.clone(), expires_at: e },
                                );
                                match self.build_request(s) {
                                    Err(err) => SyncAction::Fail(err),
                                    Ok(req) => {
                                        s.auth = AuthPhase::AwaitReply { token: v.clone() };
                                        SyncAction::Send(
                                            HttpRequest {
                                                method: req.method,
                                                endpoint: req.endpoint,
                                                query_name: req.query_name,
                                                body: req.body,
                                                bearer: Some(v),
                                            },
                                        )
                                    },
                                }
                            },
                            _ => SyncAction::Fail(SyncError::Auth),
                        }
                    },
                    AuthPhase::AwaitReply { token } => {
                        match reply.code {
                            Some(code) => {
                                if is_auth_code(&code) && !s.tried {
                                    let drop_cached = match &self.ctx.token {
                                        Some(t) => t.value == token,
                                        None => false,
                                    };
                                    if drop_cached {
                                        self.ctx.token = None;
                                    }
                                    s.tried = true;
                                    self.send_with_auth(s, now)
                                } else {
                                    SyncAction::Fail(SyncError::Tracker { code })
                                }
                            },
                            None => self.handle_success(s, reply.id, reply.value_ids, now),
                        }
                    },
                }
            },
        }
    }

    /// Handles a reply without an error code: records the identifier the
    /// step waited for, or moves a lookup that matched nothing on to a
    /// create, and walks the session forward.
    fn handle_success(
        &mut self,
        s: &mut SyncSession,
        id: Option<String>,
        value_ids: Option<Vec<String>>,
        now: i64,
    ) -> (r: SyncAction)
        requires
            spec_wf_session(*old(s)),
            old(s).auth is Idle,
            old(s).step != Step::Done,
            spec_cache_miss(*old(self), *old(s)),
            spec_ids_resolved(*old(self), *old(s)),
        ensures
            spec_wf_session(*final(s)),
            spec_same_goal(*old(s), *final(s)),
            spec_step_index(final(s).step) >= spec_step_index(old(s).step),
            spec_same_config(*old(self), *final(self)),
            spec_cache_monotone(*old(self), *final(self)),
            final(self).spec_token() == old(self).spec_token(),
            spec_action_ok(*final(self), *final(s), r, now as int),
            spec_session_compat(*final(self), *final(s)),
            spec_ids_resolved(*final(self), *final(s)),
            r == SyncAction::Fail(SyncError::Digest) ==> final(s).step is Commit,
            (r matches SyncAction::Send(req) && !(req.endpoint is AuthToken)) ==> final(self).spec_has_fresh_token(now as int),
            (spec_success_id(
                old(s).step,
                old(s).call,
                Reply { code: None, id, value_ids, access_token: None, expires_at: None },
            ) matches Some(idv) ==> {
                &&& spec_step_index(final(s).step) > spec_step_index(old(s).step)
                &&& (r is Send || r is Done || r == SyncAction::Fail(SyncError::Digest))
                &&& (match old(s).step {
                    Step::Product => final(self).spec_product_id() == Some(idv) && spec_opt_view(
                        final(s).product_id,
                    ) == Some(idv) && final(self).spec_users() == old(self).spec_users() && final(self).spec_repositories() == old(self).spec_repositories() && final(self).spec_branches() == old(self).spec_branches(),
                    Step::Repository => final(self).spec_repositories() == old(self).spec_repositories().insert(old(s).repo_name@, idv) && spec_opt_view(
                        final(s).repository_id,
                    ) == Some(idv) && final(self).spec_product_id() == old(self).spec_product_id()
                        && final(self).spec_users() == old(self).spec_users() && final(self).spec_branches() == old(self).spec_branches(),
                    Step::Branch => final(self).spec_branches() == old(self).spec_branches().insert(
                        (old(s).repo_name@, old(s).branch_name@),
                        idv,
                    ) && spec_opt_view(final(s).branch_id) == Some(idv) && final(self).spec_product_id() == old(self).spec_product_id() && final(self).spec_users()
                        == old(self).spec_users() && final(self).spec_repositories() == old(self).spec_repositories(),
                    Step::User => final(self).spec_users() == old(self).spec_users().insert(
                        old(s).meta.committer_name@,
                        idv,
                    ) && final(self).spec_product_id() == old(self).spec_product_id() && final(self).spec_repositories() == old(self).spec_repositories() && final(self).spec_branches() == old(self).spec_branches(),
                    Step::Commit => final(s).step is Ref && spec_same_caches(
                        *old(self),
                        *final(self),
                    ),
                    Step::Ref => final(s).step is Done && r is Done && spec_same_caches(
                        *old(self),
                        *final(self),
                    ),
                    Step::Done => false,
                })
            }),
            (spec_success_id(
                old(s).step,
                old(s).call,
                Reply { code: None, id, value_ids, access_token: None, expires_at: None },
            ) is None ==> (if spec_is_empty_lookup(
                old(s).step,
                old(s).call,
                Reply { code: None, id, value_ids, access_token: None, expires_at: None },
            ) {
                final(s).call is Create && final(s).step == old(s).step && (r is Send || r
                    == SyncAction::Fail(SyncError::Digest)) && *final(self) == *old(self)
            } else {
                r == SyncAction::Fail(SyncError::MalformedReply) && *final(self) == *old(self)
            })),
    {
        match s.step {
            Step::Product => {
                let idv = match resolution_id(s.call, id, value_ids) {
                    ResolutionOutcome::Found(idv) => idv,
                    ResolutionOutcome::NoMatch => {
                        s.call = CallKind::Create;
                        return self.send_with_auth(s, now);
                    },
                    ResolutionOutcome::Missing => {
                        return SyncAction::Fail(SyncError::MalformedReply);
                    },
                };
                self.ctx.product_id = Some(idv.clone());
                s.product_id = Some(idv);
                s.step = Step::Repository;
                s.call = CallKind::Lookup;
                s.tried = false;
                self.advance(s, now)
            },
            Step::Repository => {
                let idv = match resolution_id(s.call, id, value_ids) {
                    ResolutionOutcome::Found(idv) => idv,
                    ResolutionOutcome::NoMatch => {
                        s.call = CallKind::Create;
                        return self.send_with_auth(s, now);
                    },
                    ResolutionOutcome::Missing => {
                        return SyncAction::Fail(SyncError::MalformedReply);
                    },
                };
                self.ctx.repositories.insert(s.repo_name.clone(), idv.clone());
                s.repository_id = Some(idv);
                s.step = Step::Branch;
                s.call = CallKind::Lookup;
                s.tried = false;
                self.advance(s, now)
            },
            Step::Branch => {
                let idv = match resolution_id(s.call, id, value_ids) {
                    ResolutionOutcome::Found(idv) => idv,
                    ResolutionOutcome::NoMatch => {
                        s.call = CallKind::Create;
                        return self.send_with_auth(s, now);
                    },
                    ResolutionOutcome::Missing => {
                        return SyncAction::Fail(SyncError::MalformedReply);
                    },
                };
                self.ctx.branches.insert(s.repo_name.clone(), s.branch_name.clone(), idv.clone());
                s.branch_id = Some(idv);
                s.step = Step::User;
                s.call = CallKind::Lookup;
                s.tried = false;
                self.advance(s, now)
            },
            Step::User => {
                let idv = match resolution_id(s.call, id, value_ids) {
                    ResolutionOutcome::Found(idv) => idv,
                    ResolutionOutcome::NoMatch => {
                        s.call = CallKind::Create;
                        return self.send_with_auth(s, now);
                    },
                    ResolutionOutcome::Missing => {
                        return SyncAction::Fail(SyncError::MalformedReply);
                    },
                };
                self.ctx.users.insert(s.meta.committer_name.clone(), idv);
                s.step = Step::Commit;
                s.call = CallKind::Lookup;
                s.tried = false;
                self.advance(s, now)
            },
            Step::Commit => {
                match id {
                    None => SyncAction::Fail(SyncError::MalformedReply),
                    Some(_) => {
                        s.step = Step::Ref;
                        s.call = CallKind::Lookup;
                        s.tried = false;
                        self.advance(s, now)
                    },
                }
            },
            Step::Ref => {
                match id {
                    None => SyncAction::Fail(SyncError::MalformedReply),
                    Some(_) => {
                        s.step = Step::Done;
                        s.call = CallKind::Lookup;
                        s.tried = false;
                        SyncAction::Done
                    },
                }
            },
            Step::Done => {
                proof {
                    assert(false);
                }
                SyncAction::Fail(SyncError::MalformedReply)
            },
        }
    }
}

/// What a resolution reply came to.
enum ResolutionOutcome {
    /// The identifier the step waited for.
    Found(String),
    /// A lookup that matched nothing.
    NoMatch,
    /// The field the protocol step requires is absent.
    Missing,
}

/// Reads the identifier of a resolution reply, by the kind of call made.
fn resolution_id(call: CallKind, id: Option<String>, value_ids: Option<Vec<String>>) -> (r:
    ResolutionOutcome)
    ensures
        match r {
            ResolutionOutcome::Found(idv) => {
                match call {
                    CallKind::Lookup => value_ids matches Some(ids) && ids.len() > 0 && idv@
                        == ids[0]@,
                    CallKind::Create => id matches Some(i) && idv@ == i@,
                }
            },
            ResolutionOutcome::NoMatch => call is Lookup && (value_ids matches Some(ids)
                && ids.len() == 0),
            ResolutionOutcome::Missing => match call {
                CallKind::Lookup => value_ids is None,
                CallKind::Create => id is None,
            },
        },
{
    match call {
        CallKind::Lookup => {
            match value_ids {
                None => ResolutionOutcome::Missing,
                Some(ids) => {
                    if ids.len() > 0 {
                        ResolutionOutcome::Found(ids[0].clone())
                    } else {
                        ResolutionOutcome::NoMatch
                    }
                },
            }
        },
        CallKind::Create => {
            match id {
                None => ResolutionOutcome::Missing,
                Some(i) => ResolutionOutcome::Found(i),
            }
        },
    }
}

/// Resolution is idempotent over the cache: a request for an entity goes
/// out only while its natural key is unresolved, so a resolution whose key
/// the cache already holds performs no network call.
pub proof fn lemma_cached_key_needs_no_request(
    c: Client,
    s: SyncSession,
    r: HttpRequest,
    now: int,
)
    requires
        spec_action_ok(c, s, SyncAction::Send(r), now),
        !(r.endpoint is AuthToken),
    ensures
        spec_cache_miss(c, s),
{
}

/// A fresh token is always reused: while the cached token's remaining
/// lifetime exceeds the freshness window, no token request goes out, and
/// every request carries the cached token as its bearer.
pub proof fn lemma_fresh_token_reused(c: Client, s: SyncSession, r: HttpRequest, now: int)
    requires
        spec_action_ok(c, s, SyncAction::Send(r), now),
        c.spec_has_fresh_token(now),
    ensures
        !(r.endpoint is AuthToken),
        c.spec_token() matches Some(t) && spec_opt_view(r.bearer) == Some(t.value@),
{
}

/// Builds the canonical commit record from extracted fields: a fresh
/// forty-character content identifier prefixed by the padded revision
/// reference, and the extracted change lists.
pub fn commit_meta(
    rev: &str,
    message: String,
    committer_name: String,
    committed_at: i64,
    changed: FilesChanged,
) -> (m: CommitMeta)
    ensures
        m.sha@.len() == 40,
        m.sha@.subrange(0, 10) == spec_pad_rev(rev@),
        forall|i: int| 10 <= i < 40 ==> spec_is_hex_char(#[trigger] m.sha@[i]),
        m.message == message,
        m.committer_name == committer_name,
        m.committed_at == committed_at,
        m.files_added == changed.added,
        m.files_removed == changed.removed,
        m.files_modified == changed.modified,
{
    CommitMeta {
        sha: fresh_content_id(rev),
        message,
        committer_name,
        committed_at,
        files_added: changed.added,
        files_removed: changed.removed,
        files_modified: changed.modified,
    }
}

} // verus!
