//! What an exchange comes to, whatever the world outside answers.
use std::time::SystemTime;
use vstd::prelude::*;
use crate::auth::IdentityRequest;
use crate::cache::{AuthzCache, CacheKeyView};
use crate::clock::{epoch_millis, time_since_epoch};
use crate::exchange::{
    empty_token, exchange, exchange_custom_resource, exchange_starts, not_authenticated, present,
    refused, undecodable, unsuitable, usable, AfterAuthorization, AfterDecode, AfterInspection,
    AfterLock, AfterService, AfterStore, AfterStored, AfterUserInfo, AfterVerify,
    AuthorizationFailure, ExchangeAction, ExchangeError, ExchangeErrorView, ExchangeRequest,
    Resource, ResourceView,
};

verus! {

/// Everything outside that an exchange asks, as answers to its questions.
pub struct ExchangeWorld {
    /// The time in milliseconds since the Unix epoch.
    pub now: u128,
    /// The authorization token in the token store, by store key, identity and
    /// recipient domain.
    pub stored: spec_fn(Seq<char>, Seq<char>, Seq<char>) -> Option<String>,
    /// When a token expires.
    pub expires: spec_fn(String) -> Option<u64>,
    /// The authentication token of an identity, by service, identity, recipient
    /// domain and supplied identity token.
    pub user_token: spec_fn(Seq<char>, Seq<char>, Seq<char>, Seq<char>) -> Option<String>,
    /// Whether there is an implementation for a service.
    pub service: spec_fn(Seq<char>) -> Result<(), ExchangeError>,
    /// The service's reply, by service, authentication token and resource.
    pub authorize: spec_fn(Seq<char>, String, ResourceView) -> Result<String, AuthorizationFailure>,
    /// The root domains that the claims of a token accept, if it decodes.
    pub decode: spec_fn(String) -> Result<Vec<String>, String>,
    /// Whether a token's claims allow its use at a recipient domain.
    pub verify: spec_fn(String, Seq<char>) -> Result<(), String>,
}

/// Whether an exchange was called for a resource and started with the action
/// `started`: as [`exchange`], as [`exchange_custom_resource`], or for an identity
/// as [`IdentityRequest::exchange`].
pub open spec fn is_started(
    auth_url: &str,
    identity: &str,
    resource: Resource,
    recipient_domain: String,
    identity_token: &str,
    access_token: &str,
    auth_domain: String,
    started: ExchangeAction,
) -> bool {
    ||| resource matches Resource::Repository(repository) && call_ensures(
        exchange,
        (
            auth_url,
            identity,
            repository,
            recipient_domain,
            identity_token,
            access_token,
            auth_domain,
        ),
        started,
    )
    ||| resource matches Resource::Custom(id) && exists|name: &str|
        name@ == id@ && #[trigger] call_ensures(
            exchange_custom_resource,
            (
                auth_url,
                identity,
                name,
                recipient_domain,
                identity_token,
                access_token,
                auth_domain,
            ),
            started,
        )
    ||| exists|request: IdentityRequest|
        {
            &&& #[trigger] call_ensures(
                IdentityRequest::exchange,
                (request, auth_domain),
                started,
            )
            &&& request.auth_url@ == auth_url@
            &&& request.identity@ == identity@
            &&& request.resource == resource
            &&& request.remote_domain == recipient_domain
            &&& request.identity_token@ == identity_token@
            &&& request.access_token@ == access_token@
        }
}

/// An action, and what the cache holds when it is due.
pub struct ExchangeState {
    pub action: ExchangeAction,
    pub cache: Map<CacheKeyView, String>,
}

impl ExchangeWorld {
    /// The token at hand before any exchange: the cached one, and without one
    /// the stored one.
    pub open spec fn at_hand(self, request: ExchangeRequest, cache: Map<CacheKeyView, String>) -> Option<
        String,
    > {
        match present(cache.get(request.key())) {
            Some(token) => Some(token),
            None => present(
                (self.stored)(
                    request.store_key(),
                    request.identity@,
                    request.recipient_domain@,
                ),
            ),
        }
    }

    /// The token at hand, if it can still be used.
    pub open spec fn usable_at_hand(
        self,
        request: ExchangeRequest,
        cache: Map<CacheKeyView, String>,
    ) -> Option<String> {
        match self.at_hand(request, cache) {
            Some(token) if usable((self.expires)(token), self.now) => Some(token),
            _ => None,
        }
    }

    /// What the service's reply is worth.
    pub open spec fn granted(self, request: ExchangeRequest, user_token: String) -> Result<
        String,
        ExchangeErrorView,
    > {
        match (self.authorize)(request.auth_url@, user_token, request.resource@) {
            Err(failure) => Err(refused(failure)),
            Ok(token) => if token@.len() == 0 {
                Err(empty_token())
            } else {
                self.checked(request, token)
            },
        }
    }

    /// A new token, if it decodes and its claims allow its use at the recipient.
    pub open spec fn checked(self, request: ExchangeRequest, token: String) -> Result<
        String,
        ExchangeErrorView,
    > {
        match (self.decode)(token) {
            Err(cause) => Err(undecodable(cause@)),
            Ok(_) => self.verified(request, token),
        }
    }

    /// A decoded token, if its claims allow its use at the recipient.
    pub open spec fn verified(self, request: ExchangeRequest, token: String) -> Result<
        String,
        ExchangeErrorView,
    > {
        match (self.verify)(token, request.recipient_domain@) {
            Err(cause) => Err(unsuitable(cause@)),
            Ok(_) => Ok(token),
        }
    }

    /// What exchanging an authentication token gives.
    pub open spec fn serviced(self, request: ExchangeRequest, user_token: String) -> Result<
        String,
        ExchangeErrorView,
    > {
        match (self.service)(request.auth_url@) {
            Err(error) => Err(error@),
            Ok(_) => self.granted(request, user_token),
        }
    }

    /// The authentication token that an exchange trades in.
    pub open spec fn user_token_for(self, request: ExchangeRequest) -> Option<String> {
        (self.user_token)(
            request.auth_url@,
            request.identity@,
            request.auth_domain@,
            request.identity_token@,
        )
    }

    /// What asking the service for a new token gives.
    pub open spec fn fresh(self, request: ExchangeRequest) -> Result<String, ExchangeErrorView> {
        match self.user_token_for(request) {
            None => Err(not_authenticated()),
            Some(user_token) => self.serviced(request, user_token),
        }
    }

    /// What an exchange gives: the token at hand while it can be used, and
    /// otherwise a new one.
    pub open spec fn outcome(
        self,
        request: ExchangeRequest,
        cache: Map<CacheKeyView, String>,
    ) -> Result<String, ExchangeErrorView> {
        match self.usable_at_hand(request, cache) {
            Some(token) => Ok(token),
            None => self.fresh(request),
        }
    }

    /// What the cache holds after an exchange that gave `outcome`.
    pub open spec fn cache_after(
        request: ExchangeRequest,
        cache: Map<CacheKeyView, String>,
        outcome: Result<String, ExchangeErrorView>,
    ) -> Map<CacheKeyView, String> {
        match outcome {
            Ok(token) => cache.insert(request.key(), token),
            Err(_) => cache,
        }
    }

    /// Whether `b` comes after `a` in this world.
    pub open spec fn follows(self, a: ExchangeState, b: ExchangeState) -> bool {
        match a.action {
            ExchangeAction::LockCache { next } => {
                &&& next.resumes_to(a.cache.get(next.request().key()), b.action)
                &&& b.cache == a.cache
            },
            ExchangeAction::LoadStoredToken { store_key, identity, recipient_domain, next } => {
                &&& next.resumes_to(
                    (self.stored)(store_key@, identity@, recipient_domain@),
                    b.action,
                )
                &&& b.cache == a.cache
            },
            ExchangeAction::InspectToken { token, next } => next.resumes_to(
                a.cache,
                (self.expires)(token),
                self.now,
                b.action,
                b.cache,
            ),
            ExchangeAction::LoadUserInfo {
                auth_url,
                identity,
                recipient_domain,
                identity_token,
                access_token,
                next,
            } => {
                &&& next.resumes_to(
                    (self.user_token)(auth_url@, identity@, recipient_domain@, identity_token@),
                    b.action,
                )
                &&& b.cache == a.cache
            },
            ExchangeAction::FindAuthentication { auth_url, next, .. } => {
                &&& next.resumes_to((self.service)(auth_url@), b.action)
                &&& b.cache == a.cache
            },
            ExchangeAction::Authorize { auth_url, token, resource, correlation_id, next } => {
                &&& next.resumes_to((self.authorize)(auth_url@, token, resource@), b.action)
                &&& b.cache == a.cache
            },
            ExchangeAction::DecodeToken { token, next } => {
                &&& next.resumes_to((self.decode)(token), b.action)
                &&& b.cache == a.cache
            },
            ExchangeAction::VerifyUsage { token, recipient_domain, next } => next.resumes_to(
                a.cache,
                (self.verify)(token, recipient_domain@),
                b.action,
                b.cache,
            ),
            ExchangeAction::StoreToken { store_key, identity, token, domains, next } => {
                &&& b.action == (ExchangeAction::Return { token: next.token() })
                &&& b.cache == a.cache
            },
            ExchangeAction::Return { .. } | ExchangeAction::Fail { .. } => false,
        }
    }

    /// What an exchange gives that starts with the action `started`: what that
    /// action ends it with at once, or else its outcome.
    pub open spec fn answer(
        self,
        started: ExchangeAction,
        cache: Map<CacheKeyView, String>,
    ) -> Result<String, ExchangeErrorView> {
        match started {
            ExchangeAction::LockCache { next } => self.outcome(next.request(), cache),
            _ => ended(started),
        }
    }

    /// Whether the states of `run` follow each other in this world.
    pub open spec fn is_chain(self, run: Seq<ExchangeState>) -> bool {
        forall|i: int| 0 <= i < run.len() - 1 ==> self.follows(#[trigger] run[i], run[i + 1])
    }

    /// Whether `run` is the states of an exchange in this world, in order.
    pub open spec fn is_run(
        self,
        request: ExchangeRequest,
        cache: Map<CacheKeyView, String>,
        run: Seq<ExchangeState>,
    ) -> bool {
        &&& run.len() > 0
        &&& run[0].cache == cache
        &&& run[0].action matches ExchangeAction::LockCache { next }
        &&& next.request() == request
        &&& self.is_chain(run)
    }

    /// The outcome that a state is on the way to, and the cache it leaves.
    spec fn destination(
        self,
        request: ExchangeRequest,
        cache: Map<CacheKeyView, String>,
        a: ExchangeState,
    ) -> Result<String, ExchangeErrorView> {
        match a.action {
            ExchangeAction::LockCache { next } => self.outcome(request, cache),
            ExchangeAction::LoadStoredToken { store_key, identity, recipient_domain, next } => {
                match present((self.stored)(store_key@, identity@, recipient_domain@)) {
                    Some(token) if usable((self.expires)(token), self.now) => Ok(token),
                    _ => self.fresh(request),
                }
            },
            ExchangeAction::InspectToken { token, next } => if usable(
                (self.expires)(token),
                self.now,
            ) {
                Ok(token)
            } else {
                self.fresh(request)
            },
            ExchangeAction::LoadUserInfo {
                auth_url,
                identity,
                recipient_domain,
                identity_token,
                access_token,
                next,
            } => self.fresh(request),
            ExchangeAction::FindAuthentication { auth_url, next, .. } => self.serviced(
                request,
                next.user_token(),
            ),
            ExchangeAction::Authorize { auth_url, token, resource, correlation_id, next } => {
                self.granted(request, token)
            },
            ExchangeAction::DecodeToken { token, next } => self.checked(request, token),
            ExchangeAction::VerifyUsage { token, recipient_domain, next } => self.verified(
                request,
                token,
            ),
            ExchangeAction::StoreToken { store_key, identity, token, domains, next } => Ok(token),
            _ => ended(a.action),
        }
    }

    /// Whether the service grants `token`, nothing usable being at hand.
    spec fn grants(
        self,
        request: ExchangeRequest,
        cache: Map<CacheKeyView, String>,
        token: String,
    ) -> bool {
        &&& self.usable_at_hand(request, cache) is None
        &&& self.user_token_for(request) matches Some(user_token)
        &&& (self.service)(request.auth_url@) is Ok
        &&& (self.authorize)(request.auth_url@, user_token, request.resource@) == Ok::<
            String,
            AuthorizationFailure,
        >(token)
        &&& token@.len() > 0
    }

    /// Whether `error` is why the service gives no token.
    spec fn denies(self, request: ExchangeRequest, error: ExchangeError) -> bool {
        match self.user_token_for(request) {
            None => error@ == not_authenticated(),
            Some(user_token) => match (self.service)(request.auth_url@) {
                Err(missing) => error == missing,
                Ok(_) => match (self.authorize)(
                    request.auth_url@,
                    user_token,
                    request.resource@,
                ) {
                    Err(failure) => error@ == refused(failure),
                    Ok(token) => if token@.len() == 0 {
                        error@ == empty_token()
                    } else {
                        match (self.decode)(token) {
                            Err(cause) => error@ == undecodable(cause@),
                            Ok(_) => match (self.verify)(token, request.recipient_domain@) {
                                Err(cause) => error@ == unsuitable(cause@),
                                Ok(_) => false,
                            },
                        }
                    },
                },
            },
        }
    }

    /// What holds of every state of a run: the action is about the exchange, and
    /// the cache is as it was until the exchange has its token.
    spec fn on_course(
        self,
        request: ExchangeRequest,
        cache: Map<CacheKeyView, String>,
        a: ExchangeState,
    ) -> bool {
        match a.action {
            ExchangeAction::LockCache { next } => next.request() == request && a.cache == cache,
            ExchangeAction::LoadStoredToken { store_key, identity, recipient_domain, next } => {
                &&& next.request() == request
                &&& store_key@ == request.store_key()
                &&& identity == request.identity
                &&& recipient_domain == request.recipient_domain
                &&& present(cache.get(request.key())) is None
                &&& a.cache == cache
            },
            ExchangeAction::InspectToken { token, next } => {
                &&& next.request() == request
                &&& next.token() == token
                &&& self.at_hand(request, cache) == Some(token)
                &&& token@.len() > 0
                &&& a.cache == cache
            },
            ExchangeAction::LoadUserInfo {
                auth_url,
                identity,
                recipient_domain,
                identity_token,
                access_token,
                next,
            } => {
                &&& next.request() == request
                &&& auth_url == request.auth_url
                &&& identity == request.identity
                &&& recipient_domain == request.auth_domain
                &&& identity_token == request.identity_token
                &&& access_token@.len() == 0
                &&& self.usable_at_hand(request, cache) is None
                &&& a.cache == cache
            },
            ExchangeAction::FindAuthentication { auth_url, context, next } => {
                &&& next.request() == request
                &&& auth_url == request.auth_url
                &&& context == "Unable to connect to auth exchange endpoint"
                &&& self.user_token_for(request) == Some(next.user_token())
                &&& self.usable_at_hand(request, cache) is None
                &&& a.cache == cache
            },
            ExchangeAction::Authorize { auth_url, token, resource, correlation_id, next } => {
                &&& next.request() == request
                &&& auth_url == request.auth_url
                &&& resource == request.resource
                &&& correlation_id@.len() == 0
                &&& self.user_token_for(request) == Some(token)
                &&& (self.service)(request.auth_url@) is Ok
                &&& self.usable_at_hand(request, cache) is None
                &&& a.cache == cache
            },
            ExchangeAction::DecodeToken { token, next } => {
                &&& next.request() == request
                &&& next.token() == token
                &&& self.grants(request, cache, token)
                &&& a.cache == cache
            },
            ExchangeAction::VerifyUsage { token, recipient_domain, next } => {
                &&& next.request() == request
                &&& next.token() == token
                &&& self.grants(request, cache, token)
                &&& (self.decode)(token) == Ok::<Vec<String>, String>(next.domains())
                &&& recipient_domain == request.recipient_domain
                &&& a.cache == cache
            },
            ExchangeAction::StoreToken { store_key, identity, token, domains, next } => {
                &&& store_key@ == request.store_key()
                &&& identity == request.identity
                &&& self.grants(request, cache, token)
                &&& (self.decode)(token) == Ok::<Vec<String>, String>(domains)
                &&& (self.verify)(token, request.recipient_domain@) is Ok
                &&& next.token() == token
                &&& a.cache == cache.insert(request.key(), token)
            },
            ExchangeAction::Return { token } => {
                &&& token@.len() > 0
                &&& a.cache == cache.insert(request.key(), token)
                &&& self.usable_at_hand(request, cache) == Some(token) || {
                    &&& self.grants(request, cache, token)
                    &&& (self.decode)(token) is Ok
                    &&& (self.verify)(token, request.recipient_domain@) is Ok
                }
            },
            ExchangeAction::Fail { error } => {
                &&& self.usable_at_hand(request, cache) is None
                &&& self.denies(request, error)
                &&& a.cache == cache
            },
        }
    }

    proof fn follows_stays_on_course(
        self,
        request: ExchangeRequest,
        cache: Map<CacheKeyView, String>,
        a: ExchangeState,
        b: ExchangeState,
    )
        requires
            self.on_course(request, cache, a),
            self.follows(a, b),
        ensures
            self.on_course(request, cache, b),
            self.destination(request, cache, b) == self.destination(request, cache, a),
            steps_left(b.action) < steps_left(a.action),
    {
    }

    proof fn run_stays_on_course(
        self,
        request: ExchangeRequest,
        cache: Map<CacheKeyView, String>,
        run: Seq<ExchangeState>,
        i: int,
    )
        requires
            self.is_run(request, cache, run),
            0 <= i < run.len(),
        ensures
            self.on_course(request, cache, run[i]),
            self.destination(request, cache, run[i]) == self.outcome(request, cache),
            0 <= steps_left(run[i].action) <= 9 - i,
        decreases i,
    {
        if i > 0 {
            self.run_stays_on_course(request, cache, run, i - 1);
            assert(self.follows(run[i - 1], run[i - 1 + 1]));
            self.follows_stays_on_course(request, cache, run[i - 1], run[i]);
        }
    }

    /// An exchange that has ended gave its [`ExchangeWorld::outcome`], and left
    /// the cache with the token it gave, or as it was if it gave none.
    pub proof fn run_ends_in_outcome(
        self,
        request: ExchangeRequest,
        cache: Map<CacheKeyView, String>,
        run: Seq<ExchangeState>,
    )
        requires
            self.is_run(request, cache, run),
            is_end(run.last().action),
        ensures
            ended(run.last().action) == self.outcome(request, cache),
            run.last().cache == Self::cache_after(request, cache, self.outcome(request, cache)),
    {
        self.run_stays_on_course(request, cache, run, run.len() - 1);
    }

    /// An exchange ends: no run is longer than ten states.
    pub proof fn run_is_short(
        self,
        request: ExchangeRequest,
        cache: Map<CacheKeyView, String>,
        run: Seq<ExchangeState>,
    )
        requires
            self.is_run(request, cache, run),
        ensures
            run.len() <= 10,
    {
        self.run_stays_on_course(request, cache, run, run.len() - 1);
    }

    /// The tokens of other keys are left alone, in every state of an exchange.
    pub proof fn run_leaves_other_keys(
        self,
        request: ExchangeRequest,
        cache: Map<CacheKeyView, String>,
        run: Seq<ExchangeState>,
        i: int,
        key: CacheKeyView,
    )
        requires
            self.is_run(request, cache, run),
            0 <= i < run.len(),
            key != request.key(),
        ensures
            run[i].cache.get(key) == cache.get(key),
    {
        self.run_stays_on_course(request, cache, run, i);
    }

    proof fn steps_run_out(
        self,
        request: ExchangeRequest,
        cache: Map<CacheKeyView, String>,
        run: Seq<ExchangeState>,
        i: int,
        j: int,
    )
        requires
            self.is_run(request, cache, run),
            0 <= i <= j < run.len(),
        ensures
            steps_left(run[j].action) <= steps_left(run[i].action) - (j - i),
        decreases j - i,
    {
        if i < j {
            self.steps_run_out(request, cache, run, i, j - 1);
            self.run_stays_on_course(request, cache, run, j - 1);
            assert(self.follows(run[j - 1], run[j - 1 + 1]));
            self.follows_stays_on_course(request, cache, run[j - 1], run[j]);
        }
    }

    /// The service is asked at most once, only where no token at hand can be used,
    /// and for the resource of the exchange with the authentication token of its
    /// identity.
    pub proof fn service_is_asked_once(
        self,
        request: ExchangeRequest,
        cache: Map<CacheKeyView, String>,
        run: Seq<ExchangeState>,
        i: int,
        j: int,
    )
        requires
            self.is_run(request, cache, run),
            0 <= i < run.len(),
            0 <= j < run.len(),
            run[i].action is Authorize,
            run[j].action is Authorize,
        ensures
            i == j,
            self.usable_at_hand(request, cache) is None,
            run[i].action matches ExchangeAction::Authorize {
                auth_url,
                token,
                resource,
                correlation_id,
                next,
            } && {
                &&& auth_url == request.auth_url
                &&& Some(token) == self.user_token_for(request)
                &&& resource == request.resource
                &&& correlation_id@.len() == 0
            },
    {
        self.run_stays_on_course(request, cache, run, i);
        if i < j {
            self.steps_run_out(request, cache, run, i, j);
        } else {
            self.steps_run_out(request, cache, run, j, i);
        }
    }

    /// Tokens that are cached under other keys have no influence on an exchange.
    pub proof fn other_keys_have_no_influence(
        self,
        request: ExchangeRequest,
        cache: Map<CacheKeyView, String>,
        other: Map<CacheKeyView, String>,
    )
        requires
            cache.get(request.key()) == other.get(request.key()),
        ensures
            self.outcome(request, cache) == self.outcome(request, other),
    {
    }

    proof fn started_run(
        self,
        auth_url: &str,
        identity: &str,
        resource: Resource,
        recipient_domain: String,
        identity_token: &str,
        access_token: &str,
        auth_domain: String,
        cache: Map<CacheKeyView, String>,
        run: Seq<ExchangeState>,
        i: int,
    )
        requires
            is_started(
                auth_url,
                identity,
                resource,
                recipient_domain,
                identity_token,
                access_token,
                auth_domain,
                run[0].action,
            ),
            run[0].cache == cache,
            self.is_chain(run),
            0 <= i < run.len(),
        ensures
            exchange_starts(
                auth_url@,
                identity@,
                resource@,
                recipient_domain,
                identity_token@,
                access_token@,
                auth_domain,
                run[0].action,
            ),
            run[0].action matches ExchangeAction::LockCache { next } ==> self.is_run(
                next.request(),
                cache,
                run,
            ) && self.on_course(next.request(), cache, run[i]),
            !(run[0].action is LockCache) ==> i == 0,
    {
        if let ExchangeAction::LockCache { next } = run[0].action {
            self.run_stays_on_course(next.request(), cache, run, i);
        } else if i > 0 {
            assert(self.follows(run[0], run[0int + 1]));
        }
    }

    /// What an exchange asks outside, it asks in the words of its caller: for the
    /// resource, the identity and the recipient that were named, with the identity
    /// token that was supplied, and for an authentication token that may go to the
    /// domain of the service.
    pub proof fn asks_in_the_words_of_the_caller(
        self,
        auth_url: &str,
        identity: &str,
        resource: Resource,
        recipient_domain: String,
        identity_token: &str,
        access_token: &str,
        auth_domain: String,
        cache: Map<CacheKeyView, String>,
        run: Seq<ExchangeState>,
        i: int,
    )
        requires
            is_started(
                auth_url,
                identity,
                resource,
                recipient_domain,
                identity_token,
                access_token,
                auth_domain,
                run[0].action,
            ),
            run[0].cache == cache,
            self.is_chain(run),
            0 <= i < run.len(),
        ensures
            ({
                let id = match resource {
                    Resource::Repository(repository) => repository.text@,
                    Resource::Custom(id) => id@,
                };
                let user_token = (self.user_token)(
                    auth_url@,
                    identity@,
                    auth_domain@,
                    identity_token@,
                );
                match run[i].action {
                    ExchangeAction::LockCache { next } => i == 0,
                    ExchangeAction::LoadStoredToken {
                        store_key,
                        identity: whose,
                        recipient_domain: recipient,
                        next,
                    } => {
                        &&& store_key@ == auth_url@ + "/"@ + id
                        &&& whose@ == identity@
                        &&& recipient@ == recipient_domain@
                    },
                    ExchangeAction::InspectToken { token, next } => {
                        &&& token@.len() > 0
                        &&& {
                            ||| cache.get(
                                CacheKeyView {
                                    auth_url: auth_url@,
                                    identity: identity@,
                                    resource_id: id,
                                    recipient_domain: recipient_domain@,
                                },
                            ) == Some(token)
                            ||| (self.stored)(
                                auth_url@ + "/"@ + id,
                                identity@,
                                recipient_domain@,
                            ) == Some(token)
                        }
                    },
                    ExchangeAction::LoadUserInfo {
                        auth_url: service,
                        identity: whose,
                        recipient_domain: recipient,
                        identity_token: supplied,
                        access_token: access,
                        next,
                    } => {
                        &&& service@ == auth_url@
                        &&& whose@ == identity@
                        &&& recipient@ == auth_domain@
                        &&& supplied@ == identity_token@
                        &&& access@.len() == 0
                    },
                    ExchangeAction::FindAuthentication { auth_url: service, context, next } => {
                        &&& service@ == auth_url@
                        &&& context == "Unable to connect to auth exchange endpoint"
                    },
                    ExchangeAction::Authorize {
                        auth_url: service,
                        token,
                        resource: asked,
                        correlation_id,
                        next,
                    } => {
                        &&& service@ == auth_url@
                        &&& user_token == Some(token)
                        &&& match (resource, asked) {
                            (Resource::Repository(a), Resource::Repository(b)) => a.text@ == b.text@
                                && a.zero == b.zero,
                            (Resource::Custom(a), Resource::Custom(b)) => a@ == b@,
                            _ => false,
                        }
                        &&& correlation_id@.len() == 0
                    },
                    ExchangeAction::DecodeToken { token, next } => {
                        &&& token@.len() > 0
                        &&& user_token is Some
                        &&& (self.authorize)(
                            auth_url@,
                            user_token->Some_0,
                            match resource {
                                Resource::Repository(repository) => ResourceView::Repository {
                                    text: repository.text@,
                                    zero: repository.zero,
                                },
                                Resource::Custom(id) => ResourceView::Custom(id@),
                            },
                        ) == Ok::<String, AuthorizationFailure>(token)
                    },
                    ExchangeAction::VerifyUsage { token, recipient_domain: recipient, next } => {
                        &&& (self.decode)(token) is Ok
                        &&& recipient@ == recipient_domain@
                    },
                    ExchangeAction::StoreToken {
                        store_key,
                        identity: whose,
                        token,
                        domains,
                        next,
                    } => {
                        &&& store_key@ == auth_url@ + "/"@ + id
                        &&& whose@ == identity@
                        &&& (self.decode)(token) == Ok::<Vec<String>, String>(domains)
                        &&& (self.verify)(token, recipient_domain@) is Ok
                    },
                    ExchangeAction::Return { token } => token@.len() > 0,
                    ExchangeAction::Fail { error } => access_token@.len() == 0,
                }
            }),
    {
        self.started_run(
            auth_url,
            identity,
            resource,
            recipient_domain,
            identity_token,
            access_token,
            auth_domain,
            cache,
            run,
            i,
        );
    }

    /// What an exchange hands back, from what its caller named and what stands
    /// outside: a supplied access token as it is; else the cached token, or without
    /// one the stored token, while it has not expired; else a token that the service
    /// grants for the authentication token of the identity, if it decodes and its
    /// claims allow its use at the recipient. The cache then holds that token for the
    /// exchange, and is unchanged where there is none.
    pub proof fn hands_back_what_is_owed(
        self,
        auth_url: &str,
        identity: &str,
        resource: Resource,
        recipient_domain: String,
        identity_token: &str,
        access_token: &str,
        auth_domain: String,
        cache: Map<CacheKeyView, String>,
        run: Seq<ExchangeState>,
    )
        requires
            is_started(
                auth_url,
                identity,
                resource,
                recipient_domain,
                identity_token,
                access_token,
                auth_domain,
                run[0].action,
            ),
            run.len() > 0,
            run[0].cache == cache,
            self.is_chain(run),
            run.last().action is Return || run.last().action is Fail,
        ensures
            ({
                let id = match resource {
                    Resource::Repository(repository) => repository.text@,
                    Resource::Custom(id) => id@,
                };
                let shown = match resource {
                    Resource::Repository(repository) => ResourceView::Repository {
                        text: repository.text@,
                        zero: repository.zero,
                    },
                    Resource::Custom(id) => ResourceView::Custom(id@),
                };
                let key = CacheKeyView {
                    auth_url: auth_url@,
                    identity: identity@,
                    resource_id: id,
                    recipient_domain: recipient_domain@,
                };
                let cached = cache.get(key);
                let stored = (self.stored)(auth_url@ + "/"@ + id, identity@, recipient_domain@);
                let held: Option<String> = if cached is Some && cached->Some_0@.len() > 0 {
                    cached
                } else if stored is Some && stored->Some_0@.len() > 0 {
                    stored
                } else {
                    None
                };
                let expires: Option<u64> = if held is Some {
                    (self.expires)(held->Some_0)
                } else {
                    None
                };
                let user_token = (self.user_token)(
                    auth_url@,
                    identity@,
                    auth_domain@,
                    identity_token@,
                );
                let reply = (self.authorize)(auth_url@, user_token->Some_0, shown);
                let granted = reply->Ok_0;
                let checked = (self.verify)(granted, recipient_domain@);
                let end = run.last().action;
                let after = run.last().cache;
                if access_token@.len() > 0 {
                    &&& end matches ExchangeAction::Return { token }
                    &&& token@ == access_token@
                    &&& after == cache
                    &&& run.len() == 1
                } else if auth_url@.len() == 0 {
                    &&& end matches ExchangeAction::Fail { error }
                    &&& error matches ExchangeError::NotSupported { operation, context }
                    &&& operation@ == "No authentication configured on server"@
                    &&& context is None
                    &&& after == cache
                } else if identity@.len() == 0 {
                    &&& end matches ExchangeAction::Fail { error }
                    &&& error matches ExchangeError::NotAuthenticated(detail)
                    &&& detail.text@.len() == 0
                    &&& detail.context is None
                    &&& after == cache
                } else if resource is Custom && id.len() == 0 {
                    &&& end matches ExchangeAction::Fail { error }
                    &&& error matches ExchangeError::Internal { message, cause }
                    &&& message@ == "Failed to exchange token: empty resource_id"@
                    &&& cause is None
                    &&& after == cache
                } else if expires is Some && self.now < expires->Some_0 {
                    &&& end == (ExchangeAction::Return { token: held->Some_0 })
                    &&& after == cache.insert(key, held->Some_0)
                } else if user_token is None {
                    &&& end matches ExchangeAction::Fail { error }
                    &&& error matches ExchangeError::NotAuthenticated(detail)
                    &&& detail.text@.len() == 0
                    &&& detail.context is None
                    &&& after == cache
                } else if (self.service)(auth_url@) is Err {
                    &&& end == (ExchangeAction::Fail { error: (self.service)(auth_url@)->Err_0 })
                    &&& after == cache
                } else if reply is Err && reply->Err_0.not_authorized {
                    &&& end matches ExchangeAction::Fail { error }
                    &&& error matches ExchangeError::NotAuthorized(detail)
                    &&& detail.text@.len() == 0
                    &&& detail.context is None
                    &&& after == cache
                } else if reply is Err {
                    &&& end matches ExchangeAction::Fail { error }
                    &&& error matches ExchangeError::Internal { message, cause }
                    &&& message@ == "Failed to exchange token"@
                    &&& cause is Some
                    &&& cause->Some_0@ == reply->Err_0.error@
                    &&& after == cache
                } else if granted@.len() == 0 {
                    &&& end matches ExchangeAction::Fail { error }
                    &&& error matches ExchangeError::Internal { message, cause }
                    &&& message@ == "Empty token response"@
                    &&& cause is None
                    &&& after == cache
                } else if (self.decode)(granted) is Err {
                    &&& end matches ExchangeAction::Fail { error }
                    &&& error matches ExchangeError::Internal { message, cause }
                    &&& message@ == "Could not decode token"@
                    &&& cause is Some
                    &&& cause->Some_0@ == (self.decode)(granted)->Err_0@
                    &&& after == cache
                } else if checked is Err {
                    &&& end matches ExchangeAction::Fail { error }
                    &&& error matches ExchangeError::Internal { message, cause }
                    &&& message@ == "The token is not suitable for what you intend to do"@
                    &&& cause is Some
                    &&& cause->Some_0@ == checked->Err_0@
                    &&& after == cache
                } else {
                    &&& end == (ExchangeAction::Return { token: granted })
                    &&& after == cache.insert(key, granted)
                    &&& run.len() >= 2
                    &&& run[run.len() - 2].action is StoreToken
                    &&& run[run.len() - 2].action->StoreToken_token == granted
                }
            }),
    {
        self.started_run(
            auth_url,
            identity,
            resource,
            recipient_domain,
            identity_token,
            access_token,
            auth_domain,
            cache,
            run,
            run.len() - 1,
        );
        if let ExchangeAction::LockCache { next } = run[0].action {
            if run.last().action is Return && self.usable_at_hand(next.request(), cache) is None {
                self.new_tokens_are_stored(next.request(), cache, run);
            }
        }
    }

    /// What a call of `resume` gives, with the answer of this world, is what follows
    /// in it. That holds whether or not a new token could be stored.
    pub proof fn resuming_follows(
        self,
        a: ExchangeState,
        held: &AuthzCache,
        taken: Result<(), String>,
        r: ExchangeAction,
    )
        requires
            match a.action {
                ExchangeAction::LockCache { next } => held@ == a.cache && call_ensures(
                    AfterLock::resume,
                    (next, held),
                    r,
                ),
                ExchangeAction::LoadStoredToken { store_key, identity, recipient_domain, next } => {
                    call_ensures(
                        AfterStored::resume,
                        (next, (self.stored)(store_key@, identity@, recipient_domain@)),
                        r,
                    )
                },
                ExchangeAction::LoadUserInfo {
                    auth_url,
                    identity,
                    recipient_domain,
                    identity_token,
                    access_token,
                    next,
                } => call_ensures(
                    AfterUserInfo::resume,
                    (
                        next,
                        (self.user_token)(
                            auth_url@,
                            identity@,
                            recipient_domain@,
                            identity_token@,
                        ),
                    ),
                    r,
                ),
                ExchangeAction::FindAuthentication { auth_url, context, next } => call_ensures(
                    AfterService::resume,
                    (next, (self.service)(auth_url@)),
                    r,
                ),
                ExchangeAction::Authorize { auth_url, token, resource, correlation_id, next } => {
                    call_ensures(
                        AfterAuthorization::resume,
                        (next, (self.authorize)(auth_url@, token, resource@)),
                        r,
                    )
                },
                ExchangeAction::DecodeToken { token, next } => call_ensures(
                    AfterDecode::resume,
                    (next, (self.decode)(token)),
                    r,
                ),
                ExchangeAction::StoreToken { store_key, identity, token, domains, next } => {
                    call_ensures(AfterStore::resume, (next, taken), r)
                },
                _ => false,
            },
        ensures
            self.follows(a, ExchangeState { action: r, cache: a.cache }),
    {
    }

    /// As [`ExchangeWorld::resuming_follows`], for the expiry of the token at hand at
    /// the time of this world.
    pub proof fn resuming_inspection_follows(
        self,
        token: String,
        next: AfterInspection,
        cache: &mut AuthzCache,
        r: ExchangeAction,
    )
        requires
            call_ensures(
                AfterInspection::resume_at,
                (next, cache, (self.expires)(token), self.now),
                r,
            ),
        ensures
            self.follows(
                ExchangeState {
                    action: ExchangeAction::InspectToken { token, next },
                    cache: old(cache)@,
                },
                ExchangeState { action: r, cache: final(cache)@ },
            ),
    {
    }

    /// As [`ExchangeWorld::resuming_inspection_follows`], by the system clock: at the
    /// time that some reading of it gives.
    pub proof fn resuming_inspection_follows_by_the_clock(
        self,
        token: String,
        next: AfterInspection,
        cache: &mut AuthzCache,
        r: ExchangeAction,
    )
        requires
            call_ensures(AfterInspection::resume, (next, cache, (self.expires)(token)), r),
        ensures
            exists|time: SystemTime|
                (ExchangeWorld {
                    now: epoch_millis(#[trigger] time_since_epoch(time)),
                    ..self
                }).follows(
                    ExchangeState {
                        action: ExchangeAction::InspectToken { token, next },
                        cache: old(cache)@,
                    },
                    ExchangeState { action: r, cache: final(cache)@ },
                ),
    {
        let time = choose|time: SystemTime|
            next.resumes_to(
                old(cache)@,
                (self.expires)(token),
                epoch_millis(#[trigger] time_since_epoch(time)),
                r,
                final(cache)@,
            );
        let world = ExchangeWorld { now: epoch_millis(time_since_epoch(time)), ..self };
        assert(world.follows(
            ExchangeState {
                action: ExchangeAction::InspectToken { token, next },
                cache: old(cache)@,
            },
            ExchangeState { action: r, cache: final(cache)@ },
        ));
    }

    /// As [`ExchangeWorld::resuming_follows`], for the verdict on a new token.
    pub proof fn resuming_verification_follows(
        self,
        token: String,
        recipient_domain: String,
        next: AfterVerify,
        cache: &mut AuthzCache,
        r: ExchangeAction,
    )
        requires
            call_ensures(
                AfterVerify::resume,
                (next, cache, (self.verify)(token, recipient_domain@)),
                r,
            ),
        ensures
            self.follows(
                ExchangeState {
                    action: ExchangeAction::VerifyUsage { token, recipient_domain, next },
                    cache: old(cache)@,
                },
                ExchangeState { action: r, cache: final(cache)@ },
            ),
    {
    }

    /// The token of an exchange is never empty.
    pub proof fn outcome_is_not_empty(
        self,
        request: ExchangeRequest,
        cache: Map<CacheKeyView, String>,
    )
        ensures
            self.outcome(request, cache) matches Ok(token) ==> token@.len() > 0,
    {
    }

    /// Only a token that decodes, and whose claims allow its use at the
    /// recipient, comes new out of an exchange.
    pub proof fn new_tokens_are_checked(
        self,
        request: ExchangeRequest,
        cache: Map<CacheKeyView, String>,
    )
        requires
            self.usable_at_hand(request, cache) is None,
        ensures
            self.outcome(request, cache) matches Ok(token) ==> (self.decode)(token) is Ok && (
            self.verify)(token, request.recipient_domain@) is Ok,
    {
    }

    /// A token that comes new out of an exchange was cached, and then handed to the
    /// token store just before, under the key and the identity of the exchange and
    /// for exactly the root domains that its claims accept. Whether the store took
    /// it makes no difference.
    pub proof fn new_tokens_are_stored(
        self,
        request: ExchangeRequest,
        cache: Map<CacheKeyView, String>,
        run: Seq<ExchangeState>,
    )
        requires
            self.is_run(request, cache, run),
            run.last().action is Return,
            self.usable_at_hand(request, cache) is None,
        ensures
            run.len() >= 2,
            run[run.len() - 2].action matches ExchangeAction::StoreToken {
                store_key,
                identity,
                token,
                domains,
                next,
            } && {
                &&& store_key@ == request.store_key()
                &&& identity == request.identity
                &&& run.last().action == (ExchangeAction::Return { token })
                &&& (self.decode)(token) == Ok::<Vec<String>, String>(domains)
                &&& run[run.len() - 2].cache == cache.insert(request.key(), token)
            },
    {
        self.run_stays_on_course(request, cache, run, run.len() - 1);
        self.run_stays_on_course(request, cache, run, run.len() - 2);
        assert(self.follows(run[run.len() - 2], run[run.len() - 2 + 1]));
    }

    /// What one exchange gave, the next one for the same key gives again while
    /// it can be used, whatever the token store and the service say by then.
    pub proof fn outcome_is_given_again(
        self,
        request: ExchangeRequest,
        cache: Map<CacheKeyView, String>,
        later: ExchangeWorld,
        again: ExchangeRequest,
    )
        requires
            self.outcome(request, cache) is Ok,
            again.key() == request.key(),
            usable((later.expires)(self.outcome(request, cache)->Ok_0), later.now),
        ensures
            later.outcome(
                again,
                Self::cache_after(request, cache, self.outcome(request, cache)),
            ) == self.outcome(request, cache),
    {
        self.outcome_is_not_empty(request, cache);
    }
}

/// How many states can still follow.
spec fn steps_left(a: ExchangeAction) -> int {
    match a {
        ExchangeAction::LockCache { .. } => 9,
        ExchangeAction::LoadStoredToken { .. } => 8,
        ExchangeAction::InspectToken { .. } => 7,
        ExchangeAction::LoadUserInfo { .. } => 6,
        ExchangeAction::FindAuthentication { .. } => 5,
        ExchangeAction::Authorize { .. } => 4,
        ExchangeAction::DecodeToken { .. } => 3,
        ExchangeAction::VerifyUsage { .. } => 2,
        ExchangeAction::StoreToken { .. } => 1,
        _ => 0,
    }
}

/// Whether nothing follows an action.
pub open spec fn is_end(a: ExchangeAction) -> bool {
    a is Return || a is Fail
}

/// What an exchange that has come to an [`is_end`] action gave.
pub open spec fn ended(a: ExchangeAction) -> Result<String, ExchangeErrorView> {
    match a {
        ExchangeAction::Return { token } => Ok(token),
        ExchangeAction::Fail { error } => Err(error@),
        _ => arbitrary(),
    }
}

} // verus!
