//! Exchanging an authentication token for an authorization token.
//!
//! [`exchange`] and [`exchange_custom_resource`] start an exchange. What an
//! exchange needs of the token store, of the authentication service and of the
//! tokens themselves, it asks for by an action, and it goes on when the
//! action's `next` is resumed with what came back.
use std::time::SystemTime;
use vstd::prelude::*;
use crate::cache::{AuthzCache, CacheKey, CacheKeyView};
use crate::clock::{epoch_millis, expired, is_expired, is_expired_at, time_since_epoch};
use crate::errors::{bare, optional_text, Detail, DetailView};

verus! {

/// Why an exchange failed.
#[derive(Debug)]
pub enum ExchangeError {
    NotAuthenticated(Detail),
    NotAuthorized(Detail),
    Disconnected(Detail),
    SlowDown(Detail),
    Maintenance(Detail),
    NotFound(Detail),
    NoRemote(Detail),
    NotSupported { operation: String, context: Option<String> },
    Oversized(Detail),
    /// A failure that none of the others names, with the error behind it.
    Internal { message: String, cause: Option<String> },
}

/// An [`ExchangeError`] as text.
pub enum ExchangeErrorView {
    NotAuthenticated(DetailView),
    NotAuthorized(DetailView),
    Disconnected(DetailView),
    SlowDown(DetailView),
    Maintenance(DetailView),
    NotFound(DetailView),
    NoRemote(DetailView),
    NotSupported { operation: Seq<char>, context: Option<Seq<char>> },
    Oversized(DetailView),
    Internal { message: Seq<char>, cause: Option<Seq<char>> },
}

impl View for ExchangeError {
    type V = ExchangeErrorView;

    open spec fn view(&self) -> ExchangeErrorView {
        match self {
            ExchangeError::NotAuthenticated(detail) => ExchangeErrorView::NotAuthenticated(detail@),
            ExchangeError::NotAuthorized(detail) => ExchangeErrorView::NotAuthorized(detail@),
            ExchangeError::Disconnected(detail) => ExchangeErrorView::Disconnected(detail@),
            ExchangeError::SlowDown(detail) => ExchangeErrorView::SlowDown(detail@),
            ExchangeError::Maintenance(detail) => ExchangeErrorView::Maintenance(detail@),
            ExchangeError::NotFound(detail) => ExchangeErrorView::NotFound(detail@),
            ExchangeError::NoRemote(detail) => ExchangeErrorView::NoRemote(detail@),
            ExchangeError::NotSupported { operation, context } => ExchangeErrorView::NotSupported {
                operation: operation@,
                context: optional_text(*context),
            },
            ExchangeError::Oversized(detail) => ExchangeErrorView::Oversized(detail@),
            ExchangeError::Internal { message, cause } => ExchangeErrorView::Internal {
                message: message@,
                cause: optional_text(*cause),
            },
        }
    }
}

/// A repository, as far as an exchange looks into its identifier.
#[derive(Debug)]
pub struct RepositoryId {
    /// The identifier as it is written.
    pub text: String,
    /// Whether it is the identifier of no repository.
    pub zero: bool,
}

/// What an authorization token is asked for.
#[derive(Debug)]
pub enum Resource {
    /// A repository.
    Repository(RepositoryId),
    /// A resource that the caller names.
    Custom(String),
}

impl Clone for Resource {
    fn clone(&self) -> (r: Resource)
        ensures
            r == *self,
    {
        match self {
            Resource::Repository(id) => Resource::Repository(
                RepositoryId { text: id.text.clone(), zero: id.zero },
            ),
            Resource::Custom(id) => Resource::Custom(id.clone()),
        }
    }
}

/// A [`Resource`] as text.
pub enum ResourceView {
    Repository { text: Seq<char>, zero: bool },
    Custom(Seq<char>),
}

impl ResourceView {
    /// The resource as tokens are kept under it.
    pub open spec fn id(self) -> Seq<char> {
        match self {
            ResourceView::Repository { text, zero } => text,
            ResourceView::Custom(id) => id,
        }
    }
}

impl View for Resource {
    type V = ResourceView;

    open spec fn view(&self) -> ResourceView {
        match self {
            Resource::Repository(id) => ResourceView::Repository { text: id.text@, zero: id.zero },
            Resource::Custom(id) => ResourceView::Custom(id@),
        }
    }
}

impl Resource {
    fn id_text(&self) -> (r: &String)
        ensures
            r@ == self@.id(),
    {
        match self {
            Resource::Repository(id) => &id.text,
            Resource::Custom(id) => id,
        }
    }
}

/// An exchange that is worth running.
pub struct ExchangeRequest {
    /// The authentication service.
    pub auth_url: String,
    /// Whose authentication token is exchanged.
    pub identity: String,
    /// What the authorization token is for.
    pub resource: Resource,
    /// Who the authorization token is handed to.
    pub recipient_domain: String,
    /// The domain of `auth_url`.
    pub auth_domain: String,
    /// An authentication token that the caller supplied, or nothing.
    pub identity_token: String,
}

impl ExchangeRequest {
    /// The key that the token is cached under.
    pub open spec fn key(self) -> CacheKeyView {
        CacheKeyView {
            auth_url: self.auth_url@,
            identity: self.identity@,
            resource_id: self.resource@.id(),
            recipient_domain: self.recipient_domain@,
        }
    }

    /// The key that the token is stored under.
    pub open spec fn store_key(self) -> Seq<char> {
        self.auth_url@ + "/"@ + self.resource@.id()
    }

    fn cache_key(&self) -> (r: CacheKey)
        ensures
            r@ == self.key(),
    {
        CacheKey {
            auth_url: self.auth_url.clone(),
            identity: self.identity.clone(),
            resource_id: self.resource.id_text().clone(),
            recipient_domain: self.recipient_domain.clone(),
        }
    }

    fn store_key_text(&self) -> (r: String)
        ensures
            r@ == self.store_key(),
    {
        let mut key = self.auth_url.clone();
        key.append("/");
        key.append(self.resource.id_text().as_str());
        key
    }
}

/// An authentication service's refusal to exchange.
#[derive(Debug)]
pub struct AuthorizationFailure {
    /// Whether the service refused because the identity lacks the right.
    pub not_authorized: bool,
    /// The service's error.
    pub error: String,
}

/// What an exchange needs next, or how it ended.
#[allow(inconsistent_fields)]
pub enum ExchangeAction {
    /// Take the lock on the cache, and keep it until the exchange has ended.
    LockCache { next: AfterLock },
    /// Load an authorization token that the token store holds for a recipient.
    LoadStoredToken {
        store_key: String,
        identity: String,
        recipient_domain: String,
        next: AfterStored,
    },
    /// Read out of a token when it expires.
    InspectToken { token: String, next: AfterInspection },
    /// Load an authentication token that may go to the authentication service.
    LoadUserInfo {
        auth_url: String,
        identity: String,
        recipient_domain: String,
        identity_token: String,
        access_token: String,
        next: AfterUserInfo,
    },
    /// Find the implementation of the authentication service. `context` says what
    /// was being done, for the error of one that is not there.
    FindAuthentication { auth_url: String, context: &'static str, next: AfterService },
    /// Ask the service for an authorization token.
    Authorize {
        auth_url: String,
        token: String,
        resource: Resource,
        correlation_id: String,
        next: AfterAuthorization,
    },
    /// Decode a token's claims, without verifying who signed them, and read out of
    /// them the root domains that they accept.
    DecodeToken { token: String, next: AfterDecode },
    /// Verify that the decoded claims allow a token's use at a recipient.
    VerifyUsage { token: String, recipient_domain: String, next: AfterVerify },
    /// Store a token for the root domains that its claims accept.
    StoreToken {
        store_key: String,
        identity: String,
        token: String,
        domains: Vec<String>,
        next: AfterStore,
    },
    /// The exchange gave this authorization token.
    Return { token: String },
    /// The exchange failed.
    Fail { error: ExchangeError },
}

/// Waits for the lock on the cache.
pub struct AfterLock {
    request: ExchangeRequest,
}

/// Waits for a token out of the token store.
pub struct AfterStored {
    request: ExchangeRequest,
}

/// Waits for the expiry of a token that is at hand.
pub struct AfterInspection {
    request: ExchangeRequest,
    token: String,
}

/// Waits for an authentication token.
pub struct AfterUserInfo {
    request: ExchangeRequest,
}

/// Waits for the authentication service.
pub struct AfterService {
    request: ExchangeRequest,
    user_token: String,
}

/// Waits for the service's reply.
pub struct AfterAuthorization {
    request: ExchangeRequest,
}

/// Waits for the claims of a new token.
pub struct AfterDecode {
    request: ExchangeRequest,
    token: String,
}

/// Waits for the verdict on the claims of a new token.
pub struct AfterVerify {
    request: ExchangeRequest,
    token: String,
    domains: Vec<String>,
}

/// Waits for a new token to be stored.
pub struct AfterStore {
    token: String,
}

/// The failure of an exchange with no authentication service.
pub open spec fn no_service() -> ExchangeErrorView {
    ExchangeErrorView::NotSupported {
        operation: "No authentication configured on server"@,
        context: None,
    }
}

/// The failure of an exchange with nobody who is authenticated.
pub open spec fn not_authenticated() -> ExchangeErrorView {
    ExchangeErrorView::NotAuthenticated(bare())
}

/// The failure of an exchange for a resource without a name.
pub open spec fn no_resource() -> ExchangeErrorView {
    ExchangeErrorView::Internal {
        message: "Failed to exchange token: empty resource_id"@,
        cause: None,
    }
}

/// Whether `r` ends an exchange with a failure.
pub open spec fn fails_with(r: ExchangeAction, failure: ExchangeErrorView) -> bool {
    r matches ExchangeAction::Fail { error } && error@ == failure
}

fn fail_not_authenticated() -> (r: ExchangeAction)
    ensures
        fails_with(r, not_authenticated()),
{
    ExchangeAction::Fail { error: ExchangeError::NotAuthenticated(Detail::bare()) }
}

fn fail_internal(message: &'static str, cause: Option<String>) -> (r: ExchangeAction)
    ensures
        fails_with(
            r,
            ExchangeErrorView::Internal { message: message@, cause: optional_text(cause) },
        ),
{
    ExchangeAction::Fail { error: ExchangeError::Internal { message: message.to_owned(), cause } }
}

/// Whether `r` is the first action of an exchange.
pub open spec fn exchange_starts(
    auth_url: Seq<char>,
    identity: Seq<char>,
    resource: ResourceView,
    recipient_domain: String,
    identity_token: Seq<char>,
    access_token: Seq<char>,
    auth_domain: String,
    r: ExchangeAction,
) -> bool {
    if access_token.len() > 0 {
        r matches ExchangeAction::Return { token } && token@ == access_token
    } else if auth_url.len() == 0 {
        fails_with(r, no_service())
    } else if identity.len() == 0 {
        fails_with(r, not_authenticated())
    } else if resource is Custom && resource.id().len() == 0 {
        fails_with(r, no_resource())
    } else {
        &&& r matches ExchangeAction::LockCache { next }
        &&& next.request().auth_url@ == auth_url
        &&& next.request().identity@ == identity
        &&& next.request().resource@ == resource
        &&& next.request().recipient_domain == recipient_domain
        &&& next.request().auth_domain == auth_domain
        &&& next.request().identity_token@ == identity_token
    }
}

/// Starts exchanging an authentication token for one that authorizes for a
/// repository. `auth_domain` is the domain of `auth_url`.
///
/// A non-empty `identity_token` replaces the authentication token. A non-empty
/// `access_token` is the authorization token, whatever the rest is.
pub fn exchange(
    auth_url: &str,
    identity: &str,
    repository: RepositoryId,
    recipient_domain: String,
    identity_token: &str,
    access_token: &str,
    auth_domain: String,
) -> (r: ExchangeAction)
    ensures
        exchange_starts(
            auth_url@,
            identity@,
            Resource::Repository(repository)@,
            recipient_domain,
            identity_token@,
            access_token@,
            auth_domain,
            r,
        ),
{
    start_exchange(
        auth_url,
        identity,
        Resource::Repository(repository),
        recipient_domain,
        identity_token,
        access_token,
        auth_domain,
    )
}

/// Starts exchanging an authentication token for one that authorizes for a
/// resource that the caller names. Mirrors [`exchange`].
pub fn exchange_custom_resource(
    auth_url: &str,
    identity: &str,
    resource_id: &str,
    recipient_domain: String,
    identity_token: &str,
    access_token: &str,
    auth_domain: String,
) -> (r: ExchangeAction)
    ensures
        exchange_starts(
            auth_url@,
            identity@,
            ResourceView::Custom(resource_id@),
            recipient_domain,
            identity_token@,
            access_token@,
            auth_domain,
            r,
        ),
{
    start_exchange(
        auth_url,
        identity,
        Resource::Custom(resource_id.to_owned()),
        recipient_domain,
        identity_token,
        access_token,
        auth_domain,
    )
}

fn start_exchange(
    auth_url: &str,
    identity: &str,
    resource: Resource,
    recipient_domain: String,
    identity_token: &str,
    access_token: &str,
    auth_domain: String,
) -> (r: ExchangeAction)
    ensures
        exchange_starts(
            auth_url@,
            identity@,
            resource@,
            recipient_domain,
            identity_token@,
            access_token@,
            auth_domain,
            r,
        ),
{
    if !access_token.is_empty() {
        return ExchangeAction::Return { token: access_token.to_owned() };
    }
    if auth_url.is_empty() {
        return ExchangeAction::Fail {
            error: ExchangeError::NotSupported {
                operation: "No authentication configured on server".to_owned(),
                context: None,
            },
        };
    }
    if identity.is_empty() {
        return fail_not_authenticated();
    }
    if let Resource::Custom(id) = &resource {
        if id.as_str().is_empty() {
            return fail_internal("Failed to exchange token: empty resource_id", None);
        }
    }
    let request = ExchangeRequest {
        auth_url: auth_url.to_owned(),
        identity: identity.to_owned(),
        resource,
        recipient_domain,
        auth_domain,
        identity_token: identity_token.to_owned(),
    };
    ExchangeAction::LockCache { next: AfterLock { request } }
}

/// A token that is there and is not empty.
pub open spec fn present(token: Option<String>) -> Option<String> {
    match token {
        Some(token) if token@.len() > 0 => Some(token),
        _ => None,
    }
}

/// Whether `r` asks for an authentication token.
pub open spec fn asks_user_info(request: ExchangeRequest, r: ExchangeAction) -> bool {
    &&& r matches ExchangeAction::LoadUserInfo {
        auth_url,
        identity,
        recipient_domain,
        identity_token,
        access_token,
        next,
    }
    &&& auth_url == request.auth_url
    &&& identity == request.identity
    &&& recipient_domain == request.auth_domain
    &&& identity_token == request.identity_token
    &&& access_token@.len() == 0
    &&& next.request() == request
}

/// Whether `r` asks when a token expires.
pub open spec fn asks_expiry(request: ExchangeRequest, token: String, r: ExchangeAction) -> bool {
    &&& r matches ExchangeAction::InspectToken { token: asked, next }
    &&& asked == token
    &&& next.request() == request
    &&& next.token() == token
}

fn ask_user_info(request: ExchangeRequest) -> (r: ExchangeAction)
    ensures
        asks_user_info(request, r),
{
    ExchangeAction::LoadUserInfo {
        auth_url: request.auth_url.clone(),
        identity: request.identity.clone(),
        recipient_domain: request.auth_domain.clone(),
        identity_token: request.identity_token.clone(),
        access_token: String::new(),
        next: AfterUserInfo { request },
    }
}

fn ask_expiry(request: ExchangeRequest, token: String) -> (r: ExchangeAction)
    ensures
        asks_expiry(request, token, r),
{
    ExchangeAction::InspectToken {
        token: token.clone(),
        next: AfterInspection { request, token },
    }
}

impl AfterLock {
    /// The exchange being run.
    pub closed spec fn request(self) -> ExchangeRequest {
        self.request
    }

    /// Whether `r` is the action after the cache came with `cached` for the
    /// exchange's key.
    pub open spec fn resumes_to(self, cached: Option<String>, r: ExchangeAction) -> bool {
        match present(cached) {
            Some(token) => asks_expiry(self.request(), token, r),
            None => {
                &&& r matches ExchangeAction::LoadStoredToken {
                    store_key,
                    identity,
                    recipient_domain,
                    next,
                }
                &&& store_key@ == self.request().store_key()
                &&& identity == self.request().identity
                &&& recipient_domain == self.request().recipient_domain
                &&& next.request() == self.request()
            },
        }
    }

    /// Goes on with the cache, once it is locked.
    pub fn resume(self, cache: &AuthzCache) -> (r: ExchangeAction)
        ensures
            self.resumes_to(cache@.get(self.request().key()), r),
    {
        if let Some(token) = cache.get(&self.request.cache_key()) {
            if !token.as_str().is_empty() {
                return ask_expiry(self.request, token);
            }
        }
        ExchangeAction::LoadStoredToken {
            store_key: self.request.store_key_text(),
            identity: self.request.identity.clone(),
            recipient_domain: self.request.recipient_domain.clone(),
            next: AfterStored { request: self.request },
        }
    }
}

impl AfterStored {
    /// The exchange being run.
    pub closed spec fn request(self) -> ExchangeRequest {
        self.request
    }

    /// Whether `r` is the action after `stored`.
    pub open spec fn resumes_to(self, stored: Option<String>, r: ExchangeAction) -> bool {
        match present(stored) {
            Some(token) => asks_expiry(self.request(), token, r),
            None => asks_user_info(self.request(), r),
        }
    }

    /// Goes on with the token out of the token store; `None` when it has none
    /// or could not be read.
    pub fn resume(self, stored: Option<String>) -> (r: ExchangeAction)
        ensures
            self.resumes_to(stored, r),
    {
        if let Some(token) = stored {
            if !token.as_str().is_empty() {
                return ask_expiry(self.request, token);
            }
        }
        ask_user_info(self.request)
    }
}

/// Whether a token with this expiry can be used at `now`. `None` stands for a
/// token that cannot be read.
pub open spec fn usable(expires: Option<u64>, now: u128) -> bool {
    match expires {
        Some(expires) => !expired(expires, now),
        None => false,
    }
}

impl AfterInspection {
    /// The exchange being run.
    pub closed spec fn request(self) -> ExchangeRequest {
        self.request
    }

    /// The token at hand.
    pub closed spec fn token(self) -> String {
        self.token
    }

    /// Whether `r` is the action after `expires` at the time `now`, and `after`
    /// is what the cache becomes.
    pub open spec fn resumes_to(
        self,
        before: Map<CacheKeyView, String>,
        expires: Option<u64>,
        now: u128,
        r: ExchangeAction,
        after: Map<CacheKeyView, String>,
    ) -> bool {
        if usable(expires, now) {
            &&& r == (ExchangeAction::Return { token: self.token() })
            &&& after == before.insert(self.request().key(), self.token())
        } else {
            &&& asks_user_info(self.request(), r)
            &&& after == before
        }
    }

    /// Goes on with when the token at hand expires, at the time `now` in
    /// milliseconds since the Unix epoch. `None` stands for a token that cannot
    /// be read.
    pub fn resume_at(self, cache: &mut AuthzCache, expires: Option<u64>, now: u128) -> (r:
        ExchangeAction)
        ensures
            self.resumes_to(old(cache)@, expires, now, r, final(cache)@),
    {
        if let Some(expires) = expires {
            if !is_expired_at(expires, now) {
                return self.accept(cache);
            }
        }
        ask_user_info(self.request)
    }

    /// Goes on with when the token at hand expires, by the system clock.
    pub fn resume(self, cache: &mut AuthzCache, expires: Option<u64>) -> (r: ExchangeAction)
        ensures
            exists|time: SystemTime|
                self.resumes_to(
                    old(cache)@,
                    expires,
                    epoch_millis(#[trigger] time_since_epoch(time)),
                    r,
                    final(cache)@,
                ),
    {
        if let Some(at) = expires {
            let over = is_expired(at);
            let ghost time = choose|time: SystemTime|
                over == expired(at, epoch_millis(#[trigger] time_since_epoch(time)));
            let ghost now = epoch_millis(time_since_epoch(time));
            if !over {
                let r = self.accept(cache);
                assert(self.resumes_to(old(cache)@, expires, now, r, cache@));
                return r;
            }
            let r = ask_user_info(self.request);
            assert(self.resumes_to(old(cache)@, expires, now, r, cache@));
            return r;
        }
        let r = ask_user_info(self.request);
        proof {
            let now = epoch_millis(time_since_epoch(arbitrary()));
            assert(self.resumes_to(old(cache)@, expires, now, r, cache@));
        }
        r
    }

    fn accept(self, cache: &mut AuthzCache) -> (r: ExchangeAction)
        ensures
            r == (ExchangeAction::Return { token: self.token() }),
            final(cache)@ == old(cache)@.insert(self.request().key(), self.token()),
    {
        cache.insert(self.request.cache_key(), self.token.clone());
        ExchangeAction::Return { token: self.token }
    }
}

impl AfterUserInfo {
    /// The exchange being run.
    pub closed spec fn request(self) -> ExchangeRequest {
        self.request
    }

    /// Whether `r` is the action after `user_token`.
    pub open spec fn resumes_to(self, user_token: Option<String>, r: ExchangeAction) -> bool {
        match user_token {
            Some(user_token) => {
                &&& r matches ExchangeAction::FindAuthentication { auth_url, context, next }
                &&& auth_url == self.request().auth_url
                &&& context == "Unable to connect to auth exchange endpoint"
                &&& next.request() == self.request()
                &&& next.user_token() == user_token
            },
            None => fails_with(r, not_authenticated()),
        }
    }

    /// Goes on with an authentication token; `None` when nobody is authenticated.
    pub fn resume(self, user_token: Option<String>) -> (r: ExchangeAction)
        ensures
            self.resumes_to(user_token, r),
    {
        match user_token {
            Some(user_token) => ExchangeAction::FindAuthentication {
                auth_url: self.request.auth_url.clone(),
                context: "Unable to connect to auth exchange endpoint",
                next: AfterService { request: self.request, user_token },
            },
            None => fail_not_authenticated(),
        }
    }
}

impl AfterService {
    /// The exchange being run.
    pub closed spec fn request(self) -> ExchangeRequest {
        self.request
    }

    /// The authentication token to exchange.
    pub closed spec fn user_token(self) -> String {
        self.user_token
    }

    /// Whether `r` is the action after `found`.
    pub open spec fn resumes_to(self, found: Result<(), ExchangeError>, r: ExchangeAction) -> bool {
        match found {
            Ok(_) => {
                &&& r matches ExchangeAction::Authorize {
                    auth_url,
                    token,
                    resource,
                    correlation_id,
                    next,
                }
                &&& auth_url == self.request().auth_url
                &&& token == self.user_token()
                &&& resource == self.request().resource
                &&& correlation_id@.len() == 0
                &&& next.request() == self.request()
            },
            Err(error) => r == (ExchangeAction::Fail { error }),
        }
    }

    /// Goes on once the service's implementation is found, or with why it is not.
    pub fn resume(self, found: Result<(), ExchangeError>) -> (r: ExchangeAction)
        ensures
            self.resumes_to(found, r),
    {
        match found {
            Ok(_) => ExchangeAction::Authorize {
                auth_url: self.request.auth_url.clone(),
                token: self.user_token,
                resource: self.request.resource.clone(),
                correlation_id: String::new(),
                next: AfterAuthorization { request: self.request },
            },
            Err(error) => ExchangeAction::Fail { error },
        }
    }
}

/// The failure of an exchange that the service refused.
pub open spec fn refused(failure: AuthorizationFailure) -> ExchangeErrorView {
    if failure.not_authorized {
        ExchangeErrorView::NotAuthorized(bare())
    } else {
        ExchangeErrorView::Internal {
            message: "Failed to exchange token"@,
            cause: Some(failure.error@),
        }
    }
}

/// The failure of an exchange that gave an empty token.
pub open spec fn empty_token() -> ExchangeErrorView {
    ExchangeErrorView::Internal { message: "Empty token response"@, cause: None }
}

/// The failure of an exchange that gave a token which is no token.
pub open spec fn undecodable(cause: Seq<char>) -> ExchangeErrorView {
    ExchangeErrorView::Internal { message: "Could not decode token"@, cause: Some(cause) }
}

/// The failure of an exchange that gave a token for something else.
pub open spec fn unsuitable(cause: Seq<char>) -> ExchangeErrorView {
    ExchangeErrorView::Internal {
        message: "The token is not suitable for what you intend to do"@,
        cause: Some(cause),
    }
}

impl AfterAuthorization {
    /// The exchange being run.
    pub closed spec fn request(self) -> ExchangeRequest {
        self.request
    }

    /// Whether `r` is the action after `reply`.
    pub open spec fn resumes_to(
        self,
        reply: Result<String, AuthorizationFailure>,
        r: ExchangeAction,
    ) -> bool {
        match reply {
            Ok(granted) if granted@.len() > 0 => {
                &&& r matches ExchangeAction::DecodeToken { token, next }
                &&& token == granted
                &&& next.request() == self.request()
                &&& next.token() == granted
            },
            Ok(_) => fails_with(r, empty_token()),
            Err(failure) => fails_with(r, refused(failure)),
        }
    }

    /// Goes on with the service's reply.
    pub fn resume(self, reply: Result<String, AuthorizationFailure>) -> (r: ExchangeAction)
        ensures
            self.resumes_to(reply, r),
    {
        match reply {
            Ok(token) => {
                if token.as_str().is_empty() {
                    return fail_internal("Empty token response", None);
                }
                ExchangeAction::DecodeToken {
                    token: token.clone(),
                    next: AfterDecode { request: self.request, token },
                }
            },
            Err(failure) => {
                if failure.not_authorized {
                    ExchangeAction::Fail { error: ExchangeError::NotAuthorized(Detail::bare()) }
                } else {
                    fail_internal("Failed to exchange token", Some(failure.error))
                }
            },
        }
    }
}

impl AfterDecode {
    /// The exchange being run.
    pub closed spec fn request(self) -> ExchangeRequest {
        self.request
    }

    /// The new token.
    pub closed spec fn token(self) -> String {
        self.token
    }

    /// Whether `r` is the action after `decoded`.
    pub open spec fn resumes_to(
        self,
        decoded: Result<Vec<String>, String>,
        r: ExchangeAction,
    ) -> bool {
        match decoded {
            Ok(domains) => {
                &&& r matches ExchangeAction::VerifyUsage { token, recipient_domain, next }
                &&& token == self.token()
                &&& recipient_domain == self.request().recipient_domain
                &&& next.request() == self.request()
                &&& next.token() == self.token()
                &&& next.domains() == domains
            },
            Err(cause) => fails_with(r, undecodable(cause@)),
        }
    }

    /// Goes on with the root domains that the claims of the new token accept, or
    /// with why it does not decode.
    pub fn resume(self, decoded: Result<Vec<String>, String>) -> (r: ExchangeAction)
        ensures
            self.resumes_to(decoded, r),
    {
        match decoded {
            Ok(domains) => ExchangeAction::VerifyUsage {
                token: self.token.clone(),
                recipient_domain: self.request.recipient_domain.clone(),
                next: AfterVerify { request: self.request, token: self.token, domains },
            },
            Err(cause) => fail_internal("Could not decode token", Some(cause)),
        }
    }
}

impl AfterVerify {
    /// The exchange being run.
    pub closed spec fn request(self) -> ExchangeRequest {
        self.request
    }

    /// The new token.
    pub closed spec fn token(self) -> String {
        self.token
    }

    /// The root domains that the claims of the new token accept.
    pub closed spec fn domains(self) -> Vec<String> {
        self.domains
    }

    /// Whether `r` is the action after `verified`, and `after` is what the
    /// cache becomes.
    pub open spec fn resumes_to(
        self,
        before: Map<CacheKeyView, String>,
        verified: Result<(), String>,
        r: ExchangeAction,
        after: Map<CacheKeyView, String>,
    ) -> bool {
        match verified {
            Ok(_) => {
                &&& r matches ExchangeAction::StoreToken {
                    store_key,
                    identity,
                    token,
                    domains,
                    next,
                }
                &&& store_key@ == self.request().store_key()
                &&& identity == self.request().identity
                &&& token == self.token()
                &&& domains == self.domains()
                &&& next.token() == self.token()
                &&& after == before.insert(self.request().key(), self.token())
            },
            Err(cause) => {
                &&& fails_with(r, unsuitable(cause@))
                &&& after == before
            },
        }
    }

    /// Goes on once the new token is verified for its recipient, or with why it
    /// is not.
    pub fn resume(self, cache: &mut AuthzCache, verified: Result<(), String>) -> (r: ExchangeAction)
        ensures
            self.resumes_to(old(cache)@, verified, r, final(cache)@),
    {
        match verified {
            Ok(_) => {
                cache.insert(self.request.cache_key(), self.token.clone());
                ExchangeAction::StoreToken {
                    store_key: self.request.store_key_text(),
                    identity: self.request.identity,
                    token: self.token.clone(),
                    domains: self.domains,
                    next: AfterStore { token: self.token },
                }
            },
            Err(cause) => fail_internal(
                "The token is not suitable for what you intend to do",
                Some(cause),
            ),
        }
    }
}

impl AfterStore {
    /// The new token.
    pub closed spec fn token(self) -> String {
        self.token
    }

    /// Goes on once the new token is stored. That it could not be does not take
    /// it from the caller.
    pub fn resume(self, stored: Result<(), String>) -> (r: ExchangeAction)
        ensures
            r == (ExchangeAction::Return { token: self.token() }),
    {
        ExchangeAction::Return { token: self.token }
    }
}

} // verus!
