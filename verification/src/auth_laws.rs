//! What resolving an identity comes to, whatever the world outside answers.
use std::time::SystemTime;
use vstd::prelude::*;
use crate::auth::{
    attempt, auth_exchange, auth_exchange_custom_resource, auth_exchange_for_identity,
    authentication_only, authorized, identity_starts, known, no_tokens, rejected, suffices, text_of,
    tries, AfterAttempt, AfterExchange, AfterIdentities, AfterUserInspection, AfterUserToken,
    AuthAction, IdentityAction, IdentityRequest, Tokens, Wanted,
};
use crate::clock::{epoch_millis, time_since_epoch};
use crate::cache::CacheKeyView;
use crate::exchange::{exchange_starts, ExchangeAction, ExchangeError, Resource};
use crate::exchange_laws::{is_end, ExchangeState, ExchangeWorld};
use crate::selection::{Selection, SelectionView};

verus! {

/// Everything outside that obtaining an identity's tokens asks, as answers to
/// its questions.
pub struct IdentityWorld {
    /// The time in milliseconds since the Unix epoch.
    pub now: u128,
    /// The authentication token for a request.
    pub user_token: spec_fn(IdentityRequest) -> Option<String>,
    /// When a token expires.
    pub expires: spec_fn(String) -> Option<u64>,
    /// What the exchange for a request gives.
    pub exchange: spec_fn(IdentityRequest) -> Result<String, ExchangeError>,
}

/// The tokens of an identity, as text, and the selection to note.
pub struct IdentityOutcome {
    pub authentication: Seq<char>,
    pub authorization: Seq<char>,
    pub identity: Seq<char>,
    pub selected: Option<SelectionView>,
}

/// The outcome without tokens.
pub open spec fn nothing() -> IdentityOutcome {
    IdentityOutcome {
        authentication: Seq::empty(),
        authorization: Seq::empty(),
        identity: Seq::empty(),
        selected: None,
    }
}

impl IdentityWorld {
    /// Whether an identity is passed over: nothing authenticates it, or what
    /// does has expired. A supplied access token stands for itself.
    pub open spec fn passed_over(self, request: IdentityRequest) -> bool {
        &&& request.access_token@.len() == 0
        &&& match (self.user_token)(request) {
            Some(token) => token@.len() == 0 || rejected((self.expires)(token), self.now),
            None => true,
        }
    }

    /// The authorization token, empty where none is asked for or none is given.
    pub open spec fn authorization(self, request: IdentityRequest) -> Seq<char> {
        if authentication_only(request.resource@) {
            Seq::empty()
        } else {
            text_of((self.exchange)(request).ok())
        }
    }

    /// The outcome for an identity that authenticates with `token`.
    pub open spec fn accepted(self, request: IdentityRequest, token: Seq<char>) -> IdentityOutcome {
        IdentityOutcome {
            authentication: token,
            authorization: self.authorization(request),
            identity: request.identity@,
            selected: if self.authorization(request).len() > 0 {
                Some(authorized(request))
            } else if authentication_only(request.resource@) {
                Some(
                    SelectionView::Authenticated {
                        identity: request.identity@,
                        remote_domain: request.remote_domain@,
                    },
                )
            } else {
                None
            },
        }
    }

    /// The tokens of an identity.
    pub open spec fn outcome(self, request: IdentityRequest) -> IdentityOutcome {
        if self.passed_over(request) {
            nothing()
        } else {
            self.accepted(request, text_of((self.user_token)(request)))
        }
    }

    /// Whether `b` is the action after `a` in this world.
    pub open spec fn follows(self, a: IdentityAction, b: IdentityAction) -> bool {
        match a {
            IdentityAction::LoadUserToken { request, next } => next.resumes_to(
                (self.user_token)(request),
                b,
            ),
            IdentityAction::InspectToken { token, next } => next.resumes_to(
                (self.expires)(token),
                self.now,
                b,
            ),
            IdentityAction::Exchange { request, next } => next.resumes_to(
                (self.exchange)(request),
                b,
            ),
            IdentityAction::Done { .. } => false,
        }
    }

    /// Whether `run` is the actions of obtaining an identity's tokens in this
    /// world, in order.
    pub open spec fn is_run(self, request: IdentityRequest, run: Seq<IdentityAction>) -> bool {
        &&& run.len() > 0
        &&& identity_starts(request, run[0])
        &&& self.is_chain(run)
    }

    /// Whether the actions of `run` follow each other in this world.
    pub open spec fn is_chain(self, run: Seq<IdentityAction>) -> bool {
        forall|i: int| 0 <= i < run.len() - 1 ==> self.follows(#[trigger] run[i], run[i + 1])
    }

    /// What holds of every action of a run.
    spec fn on_course(self, request: IdentityRequest, a: IdentityAction) -> bool {
        match a {
            IdentityAction::LoadUserToken { request: asked, next } => {
                &&& asked == request
                &&& next.request() == request
            },
            IdentityAction::InspectToken { token, next } => {
                &&& next.request() == request
                &&& next.token() == token
                &&& (self.user_token)(request) == Some(token)
                &&& token@.len() > 0
                &&& request.access_token@.len() == 0
            },
            IdentityAction::Exchange { request: asked, next } => {
                &&& asked == request
                &&& next.request() == request
                &&& next.token()@ == text_of((self.user_token)(request))
                &&& !self.passed_over(request)
                &&& !authentication_only(request.resource@)
            },
            IdentityAction::Done { tokens, selected } => ended(a) == self.outcome(request),
        }
    }

    proof fn follows_stays_on_course(
        self,
        request: IdentityRequest,
        a: IdentityAction,
        b: IdentityAction,
    )
        requires
            self.on_course(request, a),
            self.follows(a, b),
        ensures
            self.on_course(request, b),
            steps_left(b) < steps_left(a),
    {
        if let IdentityAction::Done { tokens, selected } = b {
            assert(ended(b).authentication =~= self.outcome(request).authentication);
            assert(ended(b).authorization =~= self.outcome(request).authorization);
            assert(ended(b).identity =~= self.outcome(request).identity);
        }
    }

    proof fn run_stays_on_course(self, request: IdentityRequest, run: Seq<IdentityAction>, i: int)
        requires
            self.is_run(request, run),
            0 <= i < run.len(),
        ensures
            self.on_course(request, run[i]),
            0 <= steps_left(run[i]) <= 3 - i,
        decreases i,
    {
        if i > 0 {
            self.run_stays_on_course(request, run, i - 1);
            assert(self.follows(run[i - 1], run[i - 1 + 1]));
            self.follows_stays_on_course(request, run[i - 1], run[i]);
        }
    }

    /// A run that has ended, gave its [`IdentityWorld::outcome`].
    pub proof fn run_ends_in_outcome(self, request: IdentityRequest, run: Seq<IdentityAction>)
        requires
            self.is_run(request, run),
            run.last() is Done,
        ensures
            ended(run.last()) == self.outcome(request),
    {
        self.run_stays_on_course(request, run, run.len() - 1);
    }

    /// A run is at most four actions long.
    pub proof fn run_is_short(self, request: IdentityRequest, run: Seq<IdentityAction>)
        requires
            self.is_run(request, run),
        ensures
            run.len() <= 4,
    {
        self.run_stays_on_course(request, run, run.len() - 1);
    }

    /// What obtaining an identity's tokens asks outside, it asks for the very request
    /// that it was called with. A token is looked into only where it is the one that
    /// was loaded and no access token is supplied.
    pub proof fn asks_for_the_request(
        self,
        request: IdentityRequest,
        run: Seq<IdentityAction>,
        i: int,
    )
        requires
            call_ensures(auth_exchange_for_identity, (request,), run[0]),
            self.is_chain(run),
            0 <= i < run.len(),
        ensures
            match run[i] {
                IdentityAction::LoadUserToken { request: asked, next } => asked == request,
                IdentityAction::InspectToken { token, next } => {
                    &&& (self.user_token)(request) == Some(token)
                    &&& token@.len() > 0
                    &&& request.access_token@.len() == 0
                },
                IdentityAction::Exchange { request: asked, next } => {
                    &&& asked == request
                    &&& !(request.resource matches Resource::Repository(id) && id.zero)
                },
                IdentityAction::Done { tokens, selected } => i > 0,
            },
    {
        self.run_stays_on_course(request, run, i);
    }

    /// What an identity's tokens are, from the request and what stands outside: none
    /// where no access token is supplied and the loaded token is not there, is empty
    /// or has expired; else the loaded token, the authorization token that the
    /// exchange gives for a resource, and the identity of the request. The identity
    /// is selected where it is authorized, or authenticated and nothing more is asked.
    pub proof fn gives_what_is_owed(self, request: IdentityRequest, run: Seq<IdentityAction>)
        requires
            run.len() > 0,
            call_ensures(auth_exchange_for_identity, (request,), run[0]),
            self.is_chain(run),
            run.last() is Done,
        ensures
            ({
                let loaded = (self.user_token)(request);
                let authentication = if loaded is Some {
                    loaded->Some_0@
                } else {
                    Seq::<char>::empty()
                };
                let expires = (self.expires)(loaded->Some_0);
                let exchanged = (self.exchange)(request);
                let tokens = run.last()->tokens;
                let selected = run.last()->selected;
                if request.access_token@.len() == 0 && (authentication.len() == 0 || (expires is Some
                    && self.now >= expires->Some_0)) {
                    &&& tokens.0@.len() == 0
                    &&& tokens.1@.len() == 0
                    &&& tokens.2@.len() == 0
                    &&& selected is None
                } else {
                    &&& tokens.0@ == authentication
                    &&& tokens.2@ == request.identity@
                    &&& match request.resource {
                        Resource::Repository(id) if id.zero => {
                            &&& tokens.1@.len() == 0
                            &&& selected is Some
                            &&& selected->Some_0 matches Selection::Authenticated {
                                identity,
                                remote_domain,
                            }
                            &&& identity@ == request.identity@
                            &&& remote_domain@ == request.remote_domain@
                        },
                        Resource::Repository(id) if exchanged is Ok && exchanged->Ok_0@.len() > 0 => {
                            &&& tokens.1@ == exchanged->Ok_0@
                            &&& selected is Some
                            &&& selected->Some_0 matches Selection::Repository {
                                identity,
                                repository,
                                remote_domain,
                            }
                            &&& identity@ == request.identity@
                            &&& repository@ == id.text@
                            &&& remote_domain@ == request.remote_domain@
                        },
                        Resource::Custom(id) if exchanged is Ok && exchanged->Ok_0@.len() > 0 => {
                            &&& tokens.1@ == exchanged->Ok_0@
                            &&& selected is Some
                            &&& selected->Some_0 matches Selection::Custom {
                                identity,
                                resource_id,
                                remote_domain,
                            }
                            &&& identity@ == request.identity@
                            &&& resource_id@ == id@
                            &&& remote_domain@ == request.remote_domain@
                        },
                        _ => tokens.1@.len() == 0 && selected is None,
                    }
                }
            }),
    {
        self.run_stays_on_course(request, run, run.len() - 1);
    }

    /// What a call of `resume` gives, with the answer of this world, is what follows
    /// in it.
    pub proof fn resuming_follows(self, a: IdentityAction, r: IdentityAction)
        requires
            match a {
                IdentityAction::LoadUserToken { request, next } => call_ensures(
                    AfterUserToken::resume,
                    (next, (self.user_token)(request)),
                    r,
                ),
                IdentityAction::InspectToken { token, next } => call_ensures(
                    AfterUserInspection::resume_at,
                    (next, (self.expires)(token), self.now),
                    r,
                ),
                IdentityAction::Exchange { request, next } => call_ensures(
                    AfterExchange::resume,
                    (next, (self.exchange)(request)),
                    r,
                ),
                IdentityAction::Done { .. } => false,
            },
        ensures
            self.follows(a, r),
    {
    }

    /// As [`IdentityWorld::resuming_follows`] for the expiry of the loaded token, by
    /// the system clock: at the time that some reading of it gives.
    pub proof fn resuming_inspection_follows_by_the_clock(
        self,
        token: String,
        next: AfterUserInspection,
        r: IdentityAction,
    )
        requires
            call_ensures(AfterUserInspection::resume, (next, (self.expires)(token)), r),
        ensures
            exists|time: SystemTime|
                (IdentityWorld {
                    now: epoch_millis(#[trigger] time_since_epoch(time)),
                    ..self
                }).follows(IdentityAction::InspectToken { token, next }, r),
    {
        let time = choose|time: SystemTime|
            next.resumes_to(
                (self.expires)(token),
                epoch_millis(#[trigger] time_since_epoch(time)),
                r,
            );
        let world = IdentityWorld { now: epoch_millis(time_since_epoch(time)), ..self };
        assert(world.follows(IdentityAction::InspectToken { token, next }, r));
    }

    /// A supplied access token is the authorization token of the identity that
    /// was asked for, with or without an authentication token, and whether or
    /// not that one has expired.
    pub proof fn supplied_access_token_authorizes(
        self,
        request: IdentityRequest,
        auth_domain: String,
        started: ExchangeAction,
    )
        requires
            request.access_token@.len() > 0,
            !authentication_only(request.resource@),
            exchange_starts(
                request.auth_url@,
                request.identity@,
                request.resource@,
                request.remote_domain,
                request.identity_token@,
                request.access_token@,
                auth_domain,
                started,
            ),
            started matches ExchangeAction::Return { token } ==> (self.exchange)(request)
                == Ok::<String, ExchangeError>(token),
        ensures
            self.outcome(request).authentication == text_of((self.user_token)(request)),
            self.outcome(request).authorization == request.access_token@,
            self.outcome(request).identity == request.identity@,
    {
    }

    /// The authorization token of an identity that is not passed over is what its
    /// exchange comes to, from the action that the exchange starts with and the
    /// cache that it finds; empty where that is a failure.
    pub proof fn exchange_agrees(
        self,
        service: ExchangeWorld,
        request: IdentityRequest,
        auth_domain: String,
        cache: Map<CacheKeyView, String>,
        run: Seq<ExchangeState>,
    )
        requires
            !self.passed_over(request),
            !authentication_only(request.resource@),
            run.len() > 0,
            run[0].cache == cache,
            exchange_starts(
                request.auth_url@,
                request.identity@,
                request.resource@,
                request.remote_domain,
                request.identity_token@,
                request.access_token@,
                auth_domain,
                run[0].action,
            ),
            service.is_chain(run),
            is_end(run.last().action),
            (self.exchange)(request) == result_of(run.last().action),
        ensures
            self.outcome(request).authorization == text_of(
                service.answer(run[0].action, cache).ok(),
            ),
    {
        if let ExchangeAction::LockCache { next } = run[0].action {
            service.run_ends_in_outcome(next.request(), cache, run);
        } else if run.len() > 1 {
            assert(service.follows(run[0], run[0int + 1]));
        }
    }

    /// An identity that is passed over, gives nothing at all: no token, and not
    /// itself.
    pub proof fn all_or_nothing(self, request: IdentityRequest)
        requires
            request.identity@.len() > 0,
        ensures
            self.outcome(request) == nothing() <==> self.passed_over(request),
            self.outcome(request).authorization.len() > 0 ==> self.outcome(request).identity
                == request.identity@,
    {
    }
}

/// What an exchange that has come to an end hands back.
pub open spec fn result_of(a: ExchangeAction) -> Result<String, ExchangeError> {
    match a {
        ExchangeAction::Return { token } => Ok(token),
        ExchangeAction::Fail { error } => Err(error),
        _ => arbitrary(),
    }
}

/// How many actions can still follow.
spec fn steps_left(a: IdentityAction) -> int {
    match a {
        IdentityAction::LoadUserToken { .. } => 3,
        IdentityAction::InspectToken { .. } => 2,
        IdentityAction::Exchange { .. } => 1,
        IdentityAction::Done { .. } => 0,
    }
}

/// What obtaining an identity's tokens gave, once it is done.
pub open spec fn ended(a: IdentityAction) -> IdentityOutcome {
    match a {
        IdentityAction::Done { tokens, selected } => IdentityOutcome {
            authentication: tokens.0@,
            authorization: tokens.1@,
            identity: tokens.2@,
            selected: match selected {
                Some(selection) => Some(selection@),
                None => None,
            },
        },
        _ => arbitrary(),
    }
}

/// Whether `run` is the actions of trying `identities` in order, where
/// `attempts` gives the tokens that came of trying the one at a position.
pub open spec fn is_search(
    wanted: Wanted,
    identities: Seq<String>,
    attempts: spec_fn(int) -> Tokens,
    run: Seq<AuthAction>,
) -> bool {
    &&& run.len() > 0
    &&& tries(wanted, identities, run[0])
    &&& forall|i: int|
        0 <= i < run.len() - 1 ==> {
            &&& #[trigger] run[i] matches AuthAction::TryIdentity { request, next }
            &&& next.resumes_to(attempts(i), run[i + 1])
        }
}

/// Whether trying the identity at `i` gave what is wanted.
pub open spec fn succeeds(wanted: Wanted, attempts: spec_fn(int) -> Tokens, i: int) -> bool {
    suffices(wanted.resource@, attempts(i))
}

/// Whether the identity at `i` is the first whose tokens are what is wanted.
pub open spec fn is_first(
    wanted: Wanted,
    identities: Seq<String>,
    attempts: spec_fn(int) -> Tokens,
    i: int,
) -> bool {
    &&& 0 <= i < identities.len()
    &&& succeeds(wanted, attempts, i)
    &&& forall|j: int| 0 <= j < i ==> !#[trigger] succeeds(wanted, attempts, j)
}

proof fn search_is_in_step(
    wanted: Wanted,
    identities: Seq<String>,
    attempts: spec_fn(int) -> Tokens,
    run: Seq<AuthAction>,
    i: int,
)
    requires
        is_search(wanted, identities, attempts, run),
        0 <= i < run.len(),
    ensures
        run[i] is TryIdentity ==> i < identities.len() && tries(
            wanted,
            identities.skip(i),
            run[i],
        ),
        run[i] is TryIdentity ==> forall|j: int|
            0 <= j < i ==> !#[trigger] succeeds(wanted, attempts, j),
        run[i] is Done ==> ({
            let tokens = run[i]->tokens;
            ||| i > 0 && is_first(wanted, identities, attempts, i - 1) && tokens == attempts(i - 1)
            ||| no_tokens(tokens) && i == identities.len() && forall|j: int|
                0 <= j < identities.len() ==> !#[trigger] succeeds(wanted, attempts, j)
        }),
        run[i] is TryIdentity || run[i] is Done,
    decreases i,
{
    if i == 0 {
        assert(identities.skip(0) =~= identities);
    } else {
        search_is_in_step(wanted, identities, attempts, run, i - 1);
        assert(run[i - 1] is TryIdentity);
        assert(identities.skip(i - 1).skip(1) =~= identities.skip(i));
        if !succeeds(wanted, attempts, i - 1) {
            assert(tries(wanted, identities.skip(i), run[i]));
        }
    }
}

/// Trying identities gives the tokens of the first one whose attempt gave what is
/// wanted, and no tokens if none did. What an attempt gives may differ from one
/// position to another, also where one identity stands at both.
pub proof fn search_finds_the_first(
    wanted: Wanted,
    identities: Seq<String>,
    attempts: spec_fn(int) -> Tokens,
    run: Seq<AuthAction>,
    i: int,
)
    requires
        is_search(wanted, identities, attempts, run),
        run.last() is Done,
    ensures
        is_first(wanted, identities, attempts, i) ==> run.last() == (AuthAction::Done {
            tokens: attempts(i),
        }),
        (forall|j: int| !is_first(wanted, identities, attempts, j)) ==> no_tokens(
            run.last()->tokens,
        ),
{
    let last = run.len() - 1;
    search_is_in_step(wanted, identities, attempts, run, last);
    assert(is_first(wanted, identities, attempts, i) ==> succeeds(wanted, attempts, i));
    assert(is_first(wanted, identities, attempts, last - 1) ==> succeeds(
        wanted,
        attempts,
        last - 1,
    ));
}

/// The identities are tried in the order in which they are listed, each with its
/// own credentials.
pub proof fn search_goes_in_order(
    wanted: Wanted,
    identities: Seq<String>,
    attempts: spec_fn(int) -> Tokens,
    run: Seq<AuthAction>,
    i: int,
)
    requires
        is_search(wanted, identities, attempts, run),
        0 <= i < run.len(),
    ensures
        run[i] matches AuthAction::TryIdentity { request, next } ==> i < identities.len()
            && request@ == attempt(wanted, identities[i]@),
{
    search_is_in_step(wanted, identities, attempts, run, i);
}

/// Trying identities ends: each position is tried at most once.
pub proof fn search_is_short(
    wanted: Wanted,
    identities: Seq<String>,
    attempts: spec_fn(int) -> Tokens,
    run: Seq<AuthAction>,
)
    requires
        is_search(wanted, identities, attempts, run),
    ensures
        run.len() <= identities.len() + 1,
{
    search_is_in_step(wanted, identities, attempts, run, run.len() - 1);
}

/// Whether an identity was asked for and resolving it started with the action
/// `started`: as [`auth_exchange`] or as [`auth_exchange_custom_resource`].
pub open spec fn is_started(
    auth_url: &str,
    remote_domain: &str,
    identity: &str,
    resource: Resource,
    identity_token: &str,
    access_token: &str,
    started: AuthAction,
) -> bool {
    match resource {
        Resource::Repository(repository) => call_ensures(
            auth_exchange,
            (auth_url, remote_domain, identity, repository, identity_token, access_token),
            started,
        ),
        Resource::Custom(id) => exists|name: &str|
            name@ == id@ && #[trigger] call_ensures(
                auth_exchange_custom_resource,
                (auth_url, remote_domain, identity, name, identity_token, access_token),
                started,
            ),
    }
}

/// An identity that is named, is resolved with everything that was passed along with
/// it; where none is named, the identities of the service that was named are asked
/// for.
pub proof fn resolving_starts_with_what_was_passed(
    auth_url: &str,
    remote_domain: &str,
    identity: &str,
    resource: Resource,
    identity_token: &str,
    access_token: &str,
    started: AuthAction,
)
    requires
        is_started(
            auth_url,
            remote_domain,
            identity,
            resource,
            identity_token,
            access_token,
            started,
        ),
    ensures
        if identity@.len() > 0 {
            &&& started matches AuthAction::ForIdentity { request }
            &&& request.auth_url@ == auth_url@
            &&& request.remote_domain@ == remote_domain@
            &&& request.identity@ == identity@
            &&& request.identity_token@ == identity_token@
            &&& request.access_token@ == access_token@
            &&& match (resource, request.resource) {
                (Resource::Repository(a), Resource::Repository(b)) => a.text@ == b.text@ && a.zero
                    == b.zero,
                (Resource::Custom(a), Resource::Custom(b)) => a@ == b@,
                _ => false,
            }
        } else {
            started matches AuthAction::LoadIdentities { auth_url: service, next } && service@
                == auth_url@
        },
{
}

proof fn called_search(
    identities: Option<Vec<String>>,
    attempts: spec_fn(int) -> Tokens,
    start: AfterIdentities,
    run: Seq<AuthAction>,
)
    requires
        run.len() > 0,
        call_ensures(AfterIdentities::resume, (start, identities), run[0]),
        forall|i: int|
            0 <= i < run.len() - 1 ==> {
                &&& #[trigger] run[i] matches AuthAction::TryIdentity { request, next }
                &&& call_ensures(AfterAttempt::resume, (next, attempts(i)), run[i + 1])
            },
    ensures
        is_search(start.wanted(), known(identities), attempts, run),
{
    assert forall|i: int| 0 <= i < run.len() - 1 implies {
        &&& #[trigger] run[i] matches AuthAction::TryIdentity { request, next }
        &&& next.resumes_to(attempts(i), run[i + 1])
    } by {
        let next = run[i]->TryIdentity_next;
        assert(call_ensures(AfterAttempt::resume, (next, attempts(i)), run[i + 1]));
    }
}

/// Every identity that is tried, is tried with the service, the remote and the
/// resource that were passed, and without the tokens that were. The identities are
/// tried in the order in which they are listed.
pub proof fn identities_are_tried_for_what_was_passed(
    auth_url: &str,
    remote_domain: &str,
    identity: &str,
    resource: Resource,
    identity_token: &str,
    access_token: &str,
    started: AuthAction,
    identities: Option<Vec<String>>,
    attempts: spec_fn(int) -> Tokens,
    run: Seq<AuthAction>,
    i: int,
)
    requires
        is_started(
            auth_url,
            remote_domain,
            identity,
            resource,
            identity_token,
            access_token,
            started,
        ),
        started is LoadIdentities,
        run.len() > 0,
        call_ensures(
            AfterIdentities::resume,
            (started->LoadIdentities_next, identities),
            run[0],
        ),
        forall|j: int|
            0 <= j < run.len() - 1 ==> {
                &&& #[trigger] run[j] matches AuthAction::TryIdentity { request, next }
                &&& call_ensures(AfterAttempt::resume, (next, attempts(j)), run[j + 1])
            },
        0 <= i < run.len(),
    ensures
        run[i] is TryIdentity || run[i] is Done,
        run[i] matches AuthAction::TryIdentity { request, next } ==> {
            &&& identities is Some
            &&& i < identities->Some_0@.len()
            &&& request.identity@ == identities->Some_0@[i]@
            &&& request.auth_url@ == auth_url@
            &&& request.remote_domain@ == remote_domain@
            &&& request.identity_token@.len() == 0
            &&& request.access_token@.len() == 0
            &&& match (resource, request.resource) {
                (Resource::Repository(a), Resource::Repository(b)) => a.text@ == b.text@ && a.zero
                    == b.zero,
                (Resource::Custom(a), Resource::Custom(b)) => a@ == b@,
                _ => false,
            }
        },
{
    let start = started->LoadIdentities_next;
    called_search(identities, attempts, start, run);
    search_goes_in_order(start.wanted(), known(identities), attempts, run, i);
    search_is_in_step(start.wanted(), known(identities), attempts, run, i);
}

/// Where identities are tried, the tokens are those of the first attempt that gave
/// what is wanted: an authorization token, or for no repository at all an
/// authentication token. No later one is tried. Where no attempt did, every identity
/// was tried, and all three tokens are empty.
pub proof fn the_first_that_suffices_is_resolved(
    auth_url: &str,
    remote_domain: &str,
    identity: &str,
    resource: Resource,
    identity_token: &str,
    access_token: &str,
    started: AuthAction,
    identities: Option<Vec<String>>,
    attempts: spec_fn(int) -> Tokens,
    run: Seq<AuthAction>,
)
    requires
        is_started(
            auth_url,
            remote_domain,
            identity,
            resource,
            identity_token,
            access_token,
            started,
        ),
        started is LoadIdentities,
        run.len() > 0,
        call_ensures(
            AfterIdentities::resume,
            (started->LoadIdentities_next, identities),
            run[0],
        ),
        forall|j: int|
            0 <= j < run.len() - 1 ==> {
                &&& #[trigger] run[j] matches AuthAction::TryIdentity { request, next }
                &&& call_ensures(AfterAttempt::resume, (next, attempts(j)), run[j + 1])
            },
        run.last() is Done,
    ensures
        ({
            let tokens = run.last()->tokens;
            let tried = run.len() - 1;
            let zero = resource matches Resource::Repository(id) && id.zero;
            let wanted = |t: Tokens| if zero { t.0@.len() > 0 } else { t.1@.len() > 0 };
            &&& forall|j: int| 0 <= j < tried - 1 ==> !wanted(#[trigger] attempts(j))
            &&& if tried > 0 && wanted(attempts(tried - 1)) {
                tokens == attempts(tried - 1)
            } else {
                &&& tokens.0@.len() == 0
                &&& tokens.1@.len() == 0
                &&& tokens.2@.len() == 0
                &&& tried == if identities is Some {
                    identities->Some_0@.len() as int
                } else {
                    0
                }
            }
        }),
{
    let start = started->LoadIdentities_next;
    let wanted = start.wanted();
    let last = run.len() - 1;
    called_search(identities, attempts, start, run);
    search_is_in_step(wanted, known(identities), attempts, run, last);
    if last > 0 {
        search_is_in_step(wanted, known(identities), attempts, run, last - 1);
        assert(run[last - 1] is TryIdentity);
    }
    assert forall|j: int| 0 <= j < last - 1 implies !suffices(
        wanted.resource@,
        #[trigger] attempts(j),
    ) by {
        assert(!succeeds(wanted, attempts, j));
    }
    if last > 0 {
        assert(succeeds(wanted, attempts, last - 1) == suffices(
            wanted.resource@,
            attempts(last - 1),
        ));
    }
}

/// A copy of a request or a resource is the same request or resource.
pub proof fn copies_are_the_same(
    request: &IdentityRequest,
    request_copy: IdentityRequest,
    resource: &Resource,
    resource_copy: Resource,
)
    requires
        call_ensures(<IdentityRequest as Clone>::clone, (request,), request_copy),
        call_ensures(<Resource as Clone>::clone, (resource,), resource_copy),
    ensures
        request_copy == *request,
        resource_copy == *resource,
{
}

} // verus!
