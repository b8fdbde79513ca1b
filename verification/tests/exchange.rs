use lore::cache::{AuthzCache, CacheKey};
use lore::errors::Detail;
use lore::exchange::{
    exchange, exchange_custom_resource, AuthorizationFailure, ExchangeAction, ExchangeError,
    RepositoryId, Resource,
};
use std::collections::BTreeMap;

const URL: &str = "ucs-auth://auth.example.com";
const NOW: u128 = 1_000;

fn repository(text: &str) -> RepositoryId {
    RepositoryId { text: text.to_string(), zero: false }
}

fn no_repository() -> RepositoryId {
    RepositoryId { text: "00000000000000000000000000000000".to_string(), zero: true }
}

/// What stands outside an exchange, and what was asked of it.
struct World {
    cache: AuthzCache,
    stored: BTreeMap<(String, String, String), String>,
    expires: BTreeMap<String, u64>,
    user_token: Option<String>,
    service: Option<ExchangeError>,
    reply: Option<Result<String, AuthorizationFailure>>,
    undecodable: Option<String>,
    unsuitable: Option<String>,
    store_fails: bool,
    log: Vec<String>,
}

fn world() -> World {
    World {
        cache: AuthzCache::new(),
        stored: BTreeMap::new(),
        expires: BTreeMap::new(),
        user_token: Some("authn".to_string()),
        service: None,
        reply: Some(Ok("granted".to_string())),
        undecodable: None,
        unsuitable: None,
        store_fails: false,
        log: Vec::new(),
    }
}

impl World {
    fn run(&mut self, mut action: ExchangeAction) -> Result<String, ExchangeError> {
        loop {
            action = match action {
                ExchangeAction::LockCache { next } => {
                    self.log.push("lock".to_string());
                    next.resume(&self.cache)
                }
                ExchangeAction::LoadStoredToken { store_key, identity, recipient_domain, next } => {
                    self.log.push(format!("load {store_key} {identity} {recipient_domain}"));
                    next.resume(self.stored.get(&(store_key, identity, recipient_domain)).cloned())
                }
                ExchangeAction::InspectToken { token, next } => {
                    self.log.push(format!("inspect {token}"));
                    next.resume_at(&mut self.cache, self.expires.get(&token).copied(), NOW)
                }
                ExchangeAction::LoadUserInfo {
                    auth_url,
                    identity,
                    recipient_domain,
                    identity_token,
                    access_token,
                    next,
                } => {
                    self.log.push(format!("user {auth_url} {identity} {recipient_domain}"));
                    assert_eq!(access_token, "");
                    next.resume(if identity_token.is_empty() {
                        self.user_token.clone()
                    } else {
                        Some(identity_token)
                    })
                }
                ExchangeAction::FindAuthentication { auth_url, context, next } => {
                    assert_eq!(context, "Unable to connect to auth exchange endpoint");
                    self.log.push(format!("find {auth_url}"));
                    next.resume(match self.service.take() {
                        Some(error) => Err(error),
                        None => Ok(()),
                    })
                }
                ExchangeAction::Authorize { auth_url, token, resource, correlation_id, next } => {
                    let resource = match resource {
                        Resource::Repository(id) => format!("repository {}", id.text),
                        Resource::Custom(id) => format!("resource {id}"),
                    };
                    self.log.push(format!("authorize {auth_url} {token} {resource}"));
                    assert_eq!(correlation_id, "");
                    next.resume(self.reply.take().expect("the service is asked once"))
                }
                ExchangeAction::DecodeToken { token, next } => {
                    self.log.push(format!("decode {token}"));
                    next.resume(match self.undecodable.take() {
                        Some(cause) => Err(cause),
                        None => Ok(vec!["example.com".to_string(), "example.org".to_string()]),
                    })
                }
                ExchangeAction::VerifyUsage { token, recipient_domain, next } => {
                    self.log.push(format!("verify {token} {recipient_domain}"));
                    next.resume(
                        &mut self.cache,
                        match self.unsuitable.take() {
                            Some(cause) => Err(cause),
                            None => Ok(()),
                        },
                    )
                }
                ExchangeAction::StoreToken { store_key, identity, token, domains, next } => {
                    let domains = domains.join(",");
                    self.log.push(format!("store {store_key} {identity} {token} {domains}"));
                    next.resume(if self.store_fails { Err("disk full".to_string()) } else { Ok(()) })
                }
                ExchangeAction::Return { token } => return Ok(token),
                ExchangeAction::Fail { error } => return Err(error),
            }
        }
    }

    fn exchange(&mut self, resource: &str) -> Result<String, ExchangeError> {
        self.run(exchange(
            URL,
            "alice",
            repository(resource),
            "example.com".to_string(),
            "",
            "",
            "auth.example.com".to_string(),
        ))
    }

    fn cached(&self, resource: &str) -> Option<String> {
        self.cache.get(&key(resource))
    }
}

fn key(resource: &str) -> CacheKey {
    CacheKey {
        auth_url: URL.to_string(),
        identity: "alice".to_string(),
        resource_id: resource.to_string(),
        recipient_domain: "example.com".to_string(),
    }
}

fn internal(result: Result<String, ExchangeError>) -> (String, Option<String>) {
    match result {
        Err(ExchangeError::Internal { message, cause }) => (message, cause),
        other => panic!("{other:?}"),
    }
}

/// A supplied access token is the authorization token, so the exchange is
/// skipped entirely -- including the checks that would otherwise reject a
/// call with no auth URL and no identity.
#[test]
fn supplied_access_token_replaces_the_repository_exchange() {
    let mut world = world();
    let token = world
        .run(exchange(
            "",
            "",
            no_repository(),
            "example.com".to_string(),
            "",
            "supplied-authz",
            String::new(),
        ))
        .expect("the supplied access token is used as given");
    assert_eq!(token, "supplied-authz");
    assert!(world.log.is_empty());
}

#[test]
fn supplied_access_token_replaces_the_resource_exchange() {
    let mut world = world();
    let token = world
        .run(exchange_custom_resource(
            "",
            "",
            "",
            "example.com".to_string(),
            "",
            "supplied-authz",
            String::new(),
        ))
        .expect("the supplied access token is used as given");
    assert_eq!(token, "supplied-authz");
    assert!(world.log.is_empty());
}

/// Without one, the same call fails: nothing about the short circuit above
/// leaks into the normal path.
#[test]
fn no_supplied_access_token_still_requires_an_auth_url() {
    let result = world().run(exchange(
        "",
        "",
        no_repository(),
        "example.com".to_string(),
        "",
        "",
        String::new(),
    ));
    assert!(result.is_err());
    match result {
        Err(ExchangeError::NotSupported { operation, context }) => {
            assert_eq!(operation, "No authentication configured on server");
            assert_eq!(context, None);
        }
        other => panic!("{other:?}"),
    }
}

#[test]
fn an_exchange_requires_an_identity() {
    let domain = "example.com".to_string();
    let result =
        world().run(exchange(URL, "", repository("r"), domain.clone(), "", "", String::new()));
    assert!(matches!(result, Err(ExchangeError::NotAuthenticated(_))));
    let result = world().run(exchange_custom_resource(URL, "", "", domain, "", "", String::new()));
    assert!(matches!(result, Err(ExchangeError::NotAuthenticated(_))));
}

#[test]
fn a_resource_exchange_requires_a_resource() {
    let result = world().run(exchange_custom_resource(
        URL,
        "alice",
        "",
        "example.com".to_string(),
        "",
        "",
        String::new(),
    ));
    assert_eq!(internal(result), ("Failed to exchange token: empty resource_id".to_string(), None));
}

#[test]
fn a_new_token_is_checked_cached_and_stored() {
    let mut world = world();
    assert_eq!(world.exchange("r1").unwrap(), "granted");
    assert_eq!(
        world.log,
        [
            "lock",
            "load ucs-auth://auth.example.com/r1 alice example.com",
            "user ucs-auth://auth.example.com alice auth.example.com",
            "find ucs-auth://auth.example.com",
            "authorize ucs-auth://auth.example.com authn repository r1",
            "decode granted",
            "verify granted example.com",
            "store ucs-auth://auth.example.com/r1 alice granted example.com,example.org",
        ]
    );
    assert_eq!(world.cached("r1").as_deref(), Some("granted"));
}

#[test]
fn a_custom_resource_is_used_verbatim() {
    let mut world = world();
    let action = exchange_custom_resource(
        URL,
        "alice",
        "Any/Thing",
        "example.com".to_string(),
        "supplied-authn",
        "",
        "auth.example.com".to_string(),
    );
    assert_eq!(world.run(action).unwrap(), "granted");
    assert_eq!(world.log[1], "load ucs-auth://auth.example.com/Any/Thing alice example.com");
    // The supplied identity token is what the service gets.
    assert_eq!(
        world.log[4],
        "authorize ucs-auth://auth.example.com supplied-authn resource Any/Thing"
    );
    assert_eq!(world.cached("Any/Thing").as_deref(), Some("granted"));
}

#[test]
fn what_one_exchange_gave_the_next_gives_again() {
    let mut world = world();
    world.expires.insert("granted".to_string(), NOW as u64 + 1);
    assert_eq!(world.exchange("r1").unwrap(), "granted");
    world.log.clear();
    world.user_token = None;
    assert_eq!(world.exchange("r1").unwrap(), "granted");
    assert_eq!(world.log, ["lock", "inspect granted"]);
    // Another resource is another key.
    assert!(matches!(world.exchange("r2"), Err(ExchangeError::NotAuthenticated(_))));
    assert_eq!(world.cached("r1").as_deref(), Some("granted"));
    assert_eq!(world.cached("r2"), None);
}

#[test]
fn a_stored_token_is_used_and_cached() {
    let mut world = world();
    world.stored.insert(
        (format!("{URL}/r1"), "alice".to_string(), "example.com".to_string()),
        "stored".to_string(),
    );
    world.expires.insert("stored".to_string(), NOW as u64 + 1);
    assert_eq!(world.exchange("r1").unwrap(), "stored");
    assert_eq!(world.log.len(), 3);
    assert_eq!(world.cached("r1").as_deref(), Some("stored"));
}

#[test]
fn an_expired_token_is_exchanged_anew() {
    let mut world = world();
    world.cache.insert(key("r1"), "old".to_string());
    world.expires.insert("old".to_string(), NOW as u64);
    assert_eq!(world.exchange("r1").unwrap(), "granted");
    assert_eq!(world.log[1], "inspect old");
    assert_eq!(world.cached("r1").as_deref(), Some("granted"));
}

#[test]
fn an_unreadable_or_empty_token_is_exchanged_anew() {
    let mut unreadable = world();
    unreadable.cache.insert(key("r1"), "garbage".to_string());
    assert_eq!(unreadable.exchange("r1").unwrap(), "granted");
    let mut empty = world();
    empty.cache.insert(key("r1"), String::new());
    assert_eq!(empty.exchange("r1").unwrap(), "granted");
    assert!(empty.log[1].starts_with("load "));
}

#[test]
fn an_expiry_by_the_system_clock_decides() {
    let mut world = world();
    world.cache.insert(key("r1"), "held".to_string());
    for (expires, held) in [(Some(u64::MAX), true), (Some(0), false), (None, false)] {
        let action = exchange(
            URL,
            "alice",
            repository("r1"),
            "example.com".to_string(),
            "",
            "",
            String::new(),
        );
        let ExchangeAction::LockCache { next } = action else { panic!("the cache comes first") };
        let ExchangeAction::InspectToken { next, .. } = next.resume(&world.cache) else {
            panic!("the cache holds a token")
        };
        match next.resume(&mut world.cache, expires) {
            ExchangeAction::Return { token } => assert!(held && token == "held"),
            ExchangeAction::LoadUserInfo { .. } => assert!(!held),
            _ => panic!("the token is used or not"),
        }
    }
}

#[test]
fn tokens_of_other_keys_have_no_influence() {
    let mut world = world();
    world.cache.insert(key("r2"), "other".to_string());
    world.expires.insert("other".to_string(), NOW as u64 + 1);
    assert_eq!(world.exchange("r1").unwrap(), "granted");
    assert_eq!(world.log.iter().filter(|line| line.starts_with("authorize")).count(), 1);
    assert_eq!(world.cached("r2").as_deref(), Some("other"));
}

#[test]
fn nobody_authenticated_is_not_authenticated() {
    let mut world = world();
    world.user_token = None;
    assert!(matches!(world.exchange("r1"), Err(ExchangeError::NotAuthenticated(_))));
    assert_eq!(world.cached("r1"), None);
}

#[test]
fn a_missing_service_is_the_error_that_finding_gave() {
    let mut world = world();
    world.service = Some(ExchangeError::Disconnected(Detail {
        text: "connection reset".to_string(),
        context: Some("Unable to connect to auth exchange endpoint".to_string()),
    }));
    match world.exchange("r1") {
        Err(ExchangeError::Disconnected(detail)) => {
            assert_eq!(detail.text, "connection reset");
            assert_eq!(
                detail.context.as_deref(),
                Some("Unable to connect to auth exchange endpoint")
            );
        }
        other => panic!("{other:?}"),
    }
    world.service = Some(ExchangeError::NotSupported {
        operation: format!("scheme of {URL}"),
        context: None,
    });
    match world.exchange("r1") {
        Err(ExchangeError::NotSupported { operation, .. }) => {
            assert_eq!(operation, "scheme of ucs-auth://auth.example.com");
        }
        other => panic!("{other:?}"),
    }
}

#[test]
fn a_refusal_is_not_authorized_and_another_failure_is_internal() {
    let mut refused = world();
    refused.reply =
        Some(Err(AuthorizationFailure { not_authorized: true, error: "no".to_string() }));
    assert!(matches!(refused.exchange("r1"), Err(ExchangeError::NotAuthorized(_))));
    let mut broken = world();
    broken.reply =
        Some(Err(AuthorizationFailure { not_authorized: false, error: "boom".to_string() }));
    assert_eq!(
        internal(broken.exchange("r1")),
        ("Failed to exchange token".to_string(), Some("boom".to_string()))
    );
}

#[test]
fn an_empty_reply_is_internal() {
    let mut world = world();
    world.reply = Some(Ok(String::new()));
    assert_eq!(internal(world.exchange("r1")), ("Empty token response".to_string(), None));
    assert_eq!(world.cached("r1"), None);
}

#[test]
fn a_token_that_does_not_decode_is_internal() {
    let mut world = world();
    world.undecodable = Some("bad base64".to_string());
    assert_eq!(
        internal(world.exchange("r1")),
        ("Could not decode token".to_string(), Some("bad base64".to_string()))
    );
    assert_eq!(world.cached("r1"), None);
}

#[test]
fn a_token_for_something_else_is_internal_and_not_kept() {
    let mut world = world();
    world.unsuitable = Some("wrong audience".to_string());
    assert_eq!(
        internal(world.exchange("r1")),
        (
            "The token is not suitable for what you intend to do".to_string(),
            Some("wrong audience".to_string())
        )
    );
    assert_eq!(world.cached("r1"), None);
    assert!(!world.log.iter().any(|line| line.starts_with("store")));
}

#[test]
fn a_token_that_cannot_be_stored_is_given_all_the_same() {
    let mut world = world();
    world.store_fails = true;
    assert_eq!(world.exchange("r1").unwrap(), "granted");
    assert_eq!(world.cached("r1").as_deref(), Some("granted"));
}

#[test]
fn the_cache_holds_one_token_for_each_key() {
    let mut cache = AuthzCache::new();
    assert_eq!(cache.get(&key("r1")), None);
    cache.insert(key("r1"), "one".to_string());
    cache.insert(key("r2"), "two".to_string());
    assert_eq!(cache.get(&key("r1")).as_deref(), Some("one"));
    cache.insert(key("r1"), "other".to_string());
    assert_eq!(cache.get(&key("r1")).as_deref(), Some("other"));
    assert_eq!(cache.get(&key("r2")).as_deref(), Some("two"));
    let mut elsewhere = key("r1");
    elsewhere.recipient_domain = "elsewhere.com".to_string();
    assert_eq!(cache.get(&elsewhere), None);
    assert!(key("r1").same(&key("r1")));
    assert!(!key("r1").same(&elsewhere));
}
