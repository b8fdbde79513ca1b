//! Resolving an identity and obtaining its tokens.
//!
//! [`auth_exchange`] and [`auth_exchange_custom_resource`] find the identity to
//! act as, and [`auth_exchange_for_identity`] obtains the tokens of one. Both
//! name what they need by an action, and go on when the action's `next` is
//! resumed with what came back.
use std::time::SystemTime;
use vstd::prelude::*;
use crate::clock::{epoch_millis, expired, is_expired, is_expired_at, time_since_epoch};
use crate::exchange::{
    exchange, exchange_custom_resource, exchange_starts, ExchangeAction, ExchangeError,
    RepositoryId, Resource, ResourceView,
};
use crate::selection::{Selection, SelectionView};

verus! {

/// The authentication token, the authorization token and the identity that an
/// exchange resolved, each empty when there is none.
pub type Tokens = (String, String, String);

/// Whether nothing was resolved.
pub open spec fn no_tokens(tokens: Tokens) -> bool {
    tokens.0@.len() == 0 && tokens.1@.len() == 0 && tokens.2@.len() == 0
}

fn without_tokens() -> (r: Tokens)
    ensures
        no_tokens(r),
{
    (String::new(), String::new(), String::new())
}

/// What tokens are wanted, and for whom.
#[derive(Debug)]
pub struct IdentityRequest {
    /// The authentication service.
    pub auth_url: String,
    /// The remote that the tokens are handed to.
    pub remote_domain: String,
    /// Whose tokens they are.
    pub identity: String,
    /// What the authorization token is for.
    pub resource: Resource,
    /// An authentication token that the caller supplied, or nothing.
    pub identity_token: String,
    /// An authorization token that the caller supplied, or nothing.
    pub access_token: String,
}

/// An [`IdentityRequest`] as text.
pub struct IdentityRequestView {
    pub auth_url: Seq<char>,
    pub remote_domain: Seq<char>,
    pub identity: Seq<char>,
    pub resource: ResourceView,
    pub identity_token: Seq<char>,
    pub access_token: Seq<char>,
}

impl View for IdentityRequest {
    type V = IdentityRequestView;

    open spec fn view(&self) -> IdentityRequestView {
        IdentityRequestView {
            auth_url: self.auth_url@,
            remote_domain: self.remote_domain@,
            identity: self.identity@,
            resource: self.resource@,
            identity_token: self.identity_token@,
            access_token: self.access_token@,
        }
    }
}

/// Whether a resource is no resource, so that authentication is all there is.
pub open spec fn authentication_only(resource: ResourceView) -> bool {
    resource matches ResourceView::Repository { text, zero } && zero
}

fn is_authentication_only(resource: &Resource) -> (r: bool)
    ensures
        r == authentication_only(resource@),
{
    match resource {
        Resource::Repository(id) => id.zero,
        Resource::Custom(_) => false,
    }
}

impl Clone for IdentityRequest {
    fn clone(&self) -> (r: IdentityRequest)
        ensures
            r == *self,
    {
        IdentityRequest {
            auth_url: self.auth_url.clone(),
            remote_domain: self.remote_domain.clone(),
            identity: self.identity.clone(),
            resource: self.resource.clone(),
            identity_token: self.identity_token.clone(),
            access_token: self.access_token.clone(),
        }
    }
}

impl IdentityRequest {
    /// Starts the exchange for the request's authorization token, which goes to
    /// the remote. `auth_domain` is the domain of `auth_url`.
    pub fn exchange(self, auth_domain: String) -> (r: ExchangeAction)
        ensures
            exchange_starts(
                self.auth_url@,
                self.identity@,
                self.resource@,
                self.remote_domain,
                self.identity_token@,
                self.access_token@,
                auth_domain,
                r,
            ),
    {
        match self.resource {
            Resource::Repository(repository) => exchange(
                self.auth_url.as_str(),
                self.identity.as_str(),
                repository,
                self.remote_domain,
                self.identity_token.as_str(),
                self.access_token.as_str(),
                auth_domain,
            ),
            Resource::Custom(resource_id) => exchange_custom_resource(
                self.auth_url.as_str(),
                self.identity.as_str(),
                resource_id.as_str(),
                self.remote_domain,
                self.identity_token.as_str(),
                self.access_token.as_str(),
                auth_domain,
            ),
        }
    }
}

/// What obtaining the tokens of an identity needs next, or what it gave.
#[allow(inconsistent_fields)]
pub enum IdentityAction {
    /// Load an authentication token that may go to the remote.
    LoadUserToken { request: IdentityRequest, next: AfterUserToken },
    /// Read out of a token when it expires.
    InspectToken { token: String, next: AfterUserInspection },
    /// Exchange for an authorization token, as [`IdentityRequest::exchange`] does.
    Exchange { request: IdentityRequest, next: AfterExchange },
    /// These are the tokens; `selected` is to be noted, if it is there.
    Done { tokens: Tokens, selected: Option<Selection> },
}

/// Waits for an authentication token.
pub struct AfterUserToken {
    request: IdentityRequest,
}

/// Waits for the expiry of an authentication token.
pub struct AfterUserInspection {
    request: IdentityRequest,
    token: String,
}

/// Waits for the authorization token.
pub struct AfterExchange {
    request: IdentityRequest,
    token: String,
}

/// Whether `r` is the first action of obtaining the tokens of an identity.
pub open spec fn identity_starts(request: IdentityRequest, r: IdentityAction) -> bool {
    &&& r matches IdentityAction::LoadUserToken { request: asked, next }
    &&& asked == request
    &&& next.request() == request
}

/// Starts obtaining the tokens of an identity.
pub fn auth_exchange_for_identity(request: IdentityRequest) -> (r: IdentityAction)
    ensures
        identity_starts(request, r),
{
    IdentityAction::LoadUserToken { request: request.clone(), next: AfterUserToken { request } }
}

/// A token, or the empty one when there is none.
pub open spec fn text_of(token: Option<String>) -> Seq<char> {
    match token {
        Some(token) => token@,
        None => Seq::empty(),
    }
}

/// Whether `r` is done without tokens.
pub open spec fn gives_up(r: IdentityAction) -> bool {
    r matches IdentityAction::Done { tokens, selected } && no_tokens(tokens) && selected is None
}

/// Whether `r` goes on with an authentication token that is accepted.
pub open spec fn goes_on(request: IdentityRequest, token: Seq<char>, r: IdentityAction) -> bool {
    if authentication_only(request.resource@) {
        &&& r matches IdentityAction::Done { tokens, selected }
        &&& tokens.0@ == token
        &&& tokens.1@.len() == 0
        &&& tokens.2 == request.identity
        &&& selected is Some
        &&& selected->Some_0@ == (SelectionView::Authenticated {
            identity: request.identity@,
            remote_domain: request.remote_domain@,
        })
    } else {
        &&& r matches IdentityAction::Exchange { request: asked, next }
        &&& asked == request
        &&& next.request() == request
        &&& next.token()@ == token
    }
}

fn go_on(request: IdentityRequest, token: String) -> (r: IdentityAction)
    ensures
        goes_on(request, token@, r),
{
    if is_authentication_only(&request.resource) {
        let selection = Selection::Authenticated {
            identity: request.identity.clone(),
            remote_domain: request.remote_domain,
        };
        IdentityAction::Done {
            tokens: (token, String::new(), request.identity),
            selected: Some(selection),
        }
    } else {
        IdentityAction::Exchange { request: request.clone(), next: AfterExchange { request, token } }
    }
}

impl AfterUserToken {
    /// What tokens are wanted.
    pub closed spec fn request(self) -> IdentityRequest {
        self.request
    }

    /// Whether `r` is the action after `loaded`.
    pub open spec fn resumes_to(self, loaded: Option<String>, r: IdentityAction) -> bool {
        if self.request().access_token@.len() > 0 {
            goes_on(self.request(), text_of(loaded), r)
        } else {
            match loaded {
                Some(token) if token@.len() > 0 => {
                    &&& r matches IdentityAction::InspectToken { token: asked, next }
                    &&& asked == token
                    &&& next.token() == token
                    &&& next.request() == self.request()
                },
                _ => gives_up(r),
            }
        }
    }

    /// Goes on with the authentication token; `None` when there is none or it
    /// could not be loaded.
    ///
    /// A supplied access token authorizes on its own: it needs no
    /// authentication token, and the one that there is, is not looked into.
    pub fn resume(self, loaded: Option<String>) -> (r: IdentityAction)
        ensures
            self.resumes_to(loaded, r),
    {
        let token = match loaded {
            Some(token) => token,
            None => String::new(),
        };
        if !self.request.access_token.as_str().is_empty() {
            return go_on(self.request, token);
        }
        if token.as_str().is_empty() {
            return IdentityAction::Done { tokens: without_tokens(), selected: None };
        }
        IdentityAction::InspectToken {
            token: token.clone(),
            next: AfterUserInspection { request: self.request, token },
        }
    }
}

/// Whether an authentication token with this expiry is rejected at `now`.
/// `None` stands for a token that cannot be read, which is left for its user to
/// reject.
pub open spec fn rejected(expires: Option<u64>, now: u128) -> bool {
    match expires {
        Some(expires) => expired(expires, now),
        None => false,
    }
}

impl AfterUserInspection {
    /// What tokens are wanted.
    pub closed spec fn request(self) -> IdentityRequest {
        self.request
    }

    /// The authentication token.
    pub closed spec fn token(self) -> String {
        self.token
    }

    /// Whether `r` is the action after `expires` at the time `now`.
    pub open spec fn resumes_to(self, expires: Option<u64>, now: u128, r: IdentityAction) -> bool {
        if rejected(expires, now) {
            gives_up(r)
        } else {
            goes_on(self.request(), self.token()@, r)
        }
    }

    /// Goes on with when the authentication token expires, at the time `now` in
    /// milliseconds since the Unix epoch. `None` stands for a token that cannot
    /// be read.
    pub fn resume_at(self, expires: Option<u64>, now: u128) -> (r: IdentityAction)
        ensures
            self.resumes_to(expires, now, r),
    {
        if let Some(expires) = expires {
            if is_expired_at(expires, now) {
                return IdentityAction::Done { tokens: without_tokens(), selected: None };
            }
        }
        go_on(self.request, self.token)
    }

    /// Goes on with when the authentication token expires, by the system clock.
    pub fn resume(self, expires: Option<u64>) -> (r: IdentityAction)
        ensures
            exists|time: SystemTime|
                self.resumes_to(expires, epoch_millis(#[trigger] time_since_epoch(time)), r),
    {
        if let Some(at) = expires {
            let over = is_expired(at);
            let ghost time = choose|time: SystemTime|
                over == expired(at, epoch_millis(#[trigger] time_since_epoch(time)));
            let ghost now = epoch_millis(time_since_epoch(time));
            if over {
                let r = IdentityAction::Done { tokens: without_tokens(), selected: None };
                assert(self.resumes_to(expires, now, r));
                return r;
            }
            let r = go_on(self.request, self.token);
            assert(self.resumes_to(expires, now, r));
            return r;
        }
        let r = go_on(self.request, self.token);
        proof {
            let now = epoch_millis(time_since_epoch(arbitrary()));
            assert(self.resumes_to(expires, now, r));
        }
        r
    }
}

/// The selection of an identity that is authorized.
pub open spec fn authorized(request: IdentityRequest) -> SelectionView {
    match request.resource {
        Resource::Repository(id) => SelectionView::Repository {
            identity: request.identity@,
            repository: id.text@,
            remote_domain: request.remote_domain@,
        },
        Resource::Custom(id) => SelectionView::Custom {
            identity: request.identity@,
            resource_id: id@,
            remote_domain: request.remote_domain@,
        },
    }
}

impl AfterExchange {
    /// What tokens are wanted.
    pub closed spec fn request(self) -> IdentityRequest {
        self.request
    }

    /// The authentication token.
    pub closed spec fn token(self) -> String {
        self.token
    }

    /// Whether `r` is the action after `exchanged`.
    pub open spec fn resumes_to(
        self,
        exchanged: Result<String, ExchangeError>,
        r: IdentityAction,
    ) -> bool {
        &&& r matches IdentityAction::Done { tokens, selected }
        &&& tokens.0 == self.token()
        &&& tokens.1@ == text_of(exchanged.ok())
        &&& tokens.2 == self.request().identity
        &&& if tokens.1@.len() > 0 {
            selected is Some && selected->Some_0@ == authorized(self.request())
        } else {
            selected is None
        }
    }

    /// Goes on with what the exchange gave. One that failed leaves the
    /// authorization token empty.
    pub fn resume(self, exchanged: Result<String, ExchangeError>) -> (r: IdentityAction)
        ensures
            self.resumes_to(exchanged, r),
    {
        let authorization = match exchanged {
            Ok(token) => token,
            Err(_) => String::new(),
        };
        let selected = if authorization.as_str().is_empty() {
            None
        } else {
            let identity = self.request.identity.clone();
            let remote_domain = self.request.remote_domain;
            match self.request.resource {
                Resource::Repository(id) => Some(
                    Selection::Repository { identity, repository: id.text, remote_domain },
                ),
                Resource::Custom(resource_id) => Some(
                    Selection::Custom { identity, resource_id, remote_domain },
                ),
            }
        };
        IdentityAction::Done { tokens: (self.token, authorization, self.request.identity), selected }
    }
}

/// What resolving an identity needs next, or what it gave.
#[allow(inconsistent_fields)]
pub enum AuthAction {
    /// Go on as [`auth_exchange_for_identity`] of this request.
    ForIdentity { request: IdentityRequest },
    /// Load the identities known for the authentication service.
    LoadIdentities { auth_url: String, next: AfterIdentities },
    /// Obtain the tokens of an identity, as [`auth_exchange_for_identity`] does.
    TryIdentity { request: IdentityRequest, next: AfterAttempt },
    /// These are the tokens.
    Done { tokens: Tokens },
}

/// What an identity is wanted for.
pub struct Wanted {
    /// The authentication service.
    pub auth_url: String,
    /// The remote that the tokens are handed to.
    pub remote_domain: String,
    /// What the authorization token is for.
    pub resource: Resource,
}

/// Waits for the identities of the authentication service.
pub struct AfterIdentities {
    wanted: Wanted,
}

/// Waits for the tokens of an identity.
pub struct AfterAttempt {
    wanted: Wanted,
    identities: Vec<String>,
    tried: usize,
}

/// Whether `r` is the first action of resolving an identity.
pub open spec fn auth_starts(request: IdentityRequestView, r: AuthAction) -> bool {
    if request.identity.len() > 0 {
        r matches AuthAction::ForIdentity { request: asked } && asked@ == request
    } else {
        &&& r matches AuthAction::LoadIdentities { auth_url, next }
        &&& auth_url@ == request.auth_url
        &&& next.wanted().auth_url@ == request.auth_url
        &&& next.wanted().remote_domain@ == request.remote_domain
        &&& next.wanted().resource@ == request.resource
    }
}

/// Starts resolving an identity, its authentication token and its
/// authorization token for a repository. Given no `identity`, the identities
/// known for `auth_url` are tried in turn, with their own credentials.
pub fn auth_exchange(
    auth_url: &str,
    remote_domain: &str,
    identity: &str,
    repository: RepositoryId,
    identity_token: &str,
    access_token: &str,
) -> (r: AuthAction)
    ensures
        auth_starts(
            IdentityRequestView {
                auth_url: auth_url@,
                remote_domain: remote_domain@,
                identity: identity@,
                resource: Resource::Repository(repository)@,
                identity_token: identity_token@,
                access_token: access_token@,
            },
            r,
        ),
{
    start_auth(
        auth_url,
        remote_domain,
        identity,
        Resource::Repository(repository),
        identity_token,
        access_token,
    )
}

/// Starts resolving an identity, its authentication token and its
/// authorization token for a resource that the caller names. Mirrors
/// [`auth_exchange`].
pub fn auth_exchange_custom_resource(
    auth_url: &str,
    remote_domain: &str,
    identity: &str,
    resource_id: &str,
    identity_token: &str,
    access_token: &str,
) -> (r: AuthAction)
    ensures
        auth_starts(
            IdentityRequestView {
                auth_url: auth_url@,
                remote_domain: remote_domain@,
                identity: identity@,
                resource: ResourceView::Custom(resource_id@),
                identity_token: identity_token@,
                access_token: access_token@,
            },
            r,
        ),
{
    start_auth(
        auth_url,
        remote_domain,
        identity,
        Resource::Custom(resource_id.to_owned()),
        identity_token,
        access_token,
    )
}

fn start_auth(
    auth_url: &str,
    remote_domain: &str,
    identity: &str,
    resource: Resource,
    identity_token: &str,
    access_token: &str,
) -> (r: AuthAction)
    ensures
        auth_starts(
            IdentityRequestView {
                auth_url: auth_url@,
                remote_domain: remote_domain@,
                identity: identity@,
                resource: resource@,
                identity_token: identity_token@,
                access_token: access_token@,
            },
            r,
        ),
{
    if !identity.is_empty() {
        let request = IdentityRequest {
            auth_url: auth_url.to_owned(),
            remote_domain: remote_domain.to_owned(),
            identity: identity.to_owned(),
            resource,
            identity_token: identity_token.to_owned(),
            access_token: access_token.to_owned(),
        };
        return AuthAction::ForIdentity { request };
    }
    let wanted = Wanted {
        auth_url: auth_url.to_owned(),
        remote_domain: remote_domain.to_owned(),
        resource,
    };
    AuthAction::LoadIdentities { auth_url: auth_url.to_owned(), next: AfterIdentities { wanted } }
}

/// Whether an identity's tokens are what is wanted: an authentication token
/// where authentication is all there is, and otherwise an authorization token.
pub open spec fn suffices(resource: ResourceView, tokens: Tokens) -> bool {
    if authentication_only(resource) {
        tokens.0@.len() > 0
    } else {
        tokens.1@.len() > 0
    }
}

/// The request for one of the known identities, with its own credentials.
pub open spec fn attempt(wanted: Wanted, identity: Seq<char>) -> IdentityRequestView {
    IdentityRequestView {
        auth_url: wanted.auth_url@,
        remote_domain: wanted.remote_domain@,
        identity,
        resource: wanted.resource@,
        identity_token: Seq::empty(),
        access_token: Seq::empty(),
    }
}

/// Whether `r` tries the first of `identities`, or gives up for want of one.
pub open spec fn tries(wanted: Wanted, identities: Seq<String>, r: AuthAction) -> bool {
    if identities.len() == 0 {
        r matches AuthAction::Done { tokens } && no_tokens(tokens)
    } else {
        &&& r matches AuthAction::TryIdentity { request, next }
        &&& request@ == attempt(wanted, identities[0]@)
        &&& next.wanted() == wanted
        &&& next.remaining() == identities.skip(1)
    }
}

fn try_next(wanted: Wanted, identities: Vec<String>, tried: usize) -> (r: AuthAction)
    requires
        tried <= identities.len(),
    ensures
        tries(wanted, identities@.skip(tried as int), r),
{
    if tried == identities.len() {
        return AuthAction::Done { tokens: without_tokens() };
    }
    let request = IdentityRequest {
        auth_url: wanted.auth_url.clone(),
        remote_domain: wanted.remote_domain.clone(),
        identity: identities[tried].clone(),
        resource: wanted.resource.clone(),
        identity_token: String::new(),
        access_token: String::new(),
    };
    let ghost next = tried as int + 1;
    assert(identities@.skip(next) =~= identities@.skip(tried as int).skip(1));
    assert(request@.identity_token =~= Seq::empty());
    assert(request@.access_token =~= Seq::empty());
    AuthAction::TryIdentity {
        request,
        next: AfterAttempt { wanted, identities, tried: tried + 1 },
    }
}

/// The identities that were loaded, none if they could not be.
pub open spec fn known(identities: Option<Vec<String>>) -> Seq<String> {
    match identities {
        Some(identities) => identities@,
        None => Seq::empty(),
    }
}

impl AfterIdentities {
    /// What an identity is wanted for.
    pub closed spec fn wanted(self) -> Wanted {
        self.wanted
    }

    /// Goes on with the known identities; `None` when they could not be loaded.
    pub fn resume(self, identities: Option<Vec<String>>) -> (r: AuthAction)
        ensures
            tries(self.wanted(), known(identities), r),
    {
        match identities {
            Some(identities) => {
                assert(identities@.skip(0) =~= identities@);
                try_next(self.wanted, identities, 0)
            },
            None => AuthAction::Done { tokens: without_tokens() },
        }
    }
}

impl AfterAttempt {
    #[verifier::type_invariant]
    spec fn tried_are_known(self) -> bool {
        self.tried <= self.identities@.len()
    }

    /// What an identity is wanted for.
    pub closed spec fn wanted(self) -> Wanted {
        self.wanted
    }

    /// The identities that are still to be tried.
    pub closed spec fn remaining(self) -> Seq<String> {
        self.identities@.skip(self.tried as int)
    }

    /// Whether `r` is the action after `tokens`.
    pub open spec fn resumes_to(self, tokens: Tokens, r: AuthAction) -> bool {
        if suffices(self.wanted().resource@, tokens) {
            r == (AuthAction::Done { tokens })
        } else {
            tries(self.wanted(), self.remaining(), r)
        }
    }

    /// Goes on with the tokens of the identity that was tried.
    pub fn resume(self, tokens: Tokens) -> (r: AuthAction)
        ensures
            self.resumes_to(tokens, r),
    {
        proof {
            use_type_invariant(&self);
        }
        let done = if is_authentication_only(&self.wanted.resource) {
            !tokens.0.as_str().is_empty()
        } else {
            !tokens.1.as_str().is_empty()
        };
        if done {
            return AuthAction::Done { tokens };
        }
        try_next(self.wanted, self.identities, self.tried)
    }
}

} // verus!
