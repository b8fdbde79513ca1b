use lore::auth::{
    auth_exchange, auth_exchange_custom_resource, auth_exchange_for_identity, AuthAction,
    IdentityAction, IdentityRequest, Tokens,
};
use lore::errors::Detail;
use lore::exchange::{ExchangeAction, ExchangeError, RepositoryId, Resource};
use lore::selection::{LastSelections, Selection};
use std::collections::BTreeMap;

const URL: &str = "ucs-auth://auth.example.com";
const NOW: u128 = 1_000;

fn repository(text: &str) -> RepositoryId {
    RepositoryId { text: text.to_string(), zero: text.bytes().all(|digit| digit == b'0') }
}

/// What stands outside the resolution of an identity.
#[derive(Default)]
struct World {
    identities: Option<Vec<String>>,
    user_tokens: BTreeMap<String, String>,
    expires: BTreeMap<String, u64>,
    authorized: BTreeMap<String, String>,
    tried: Vec<String>,
    lines: Vec<String>,
}

impl World {
    /// The exchange of an identity that may have a token at the service.
    fn exchange(&self, request: IdentityRequest) -> Result<String, ExchangeError> {
        let identity = request.identity.clone();
        match request.exchange("auth.example.com".to_string()) {
            ExchangeAction::Return { token } => Ok(token),
            ExchangeAction::Fail { error } => Err(error),
            _ => self.authorized.get(&identity).cloned().ok_or_else(|| ExchangeError::NotAuthorized(Detail::bare())),
        }
    }

    fn tokens(&mut self, request: IdentityRequest) -> Tokens {
        self.tried.push(request.identity.clone());
        let mut action = auth_exchange_for_identity(request);
        loop {
            action = match action {
                IdentityAction::LoadUserToken { request, next } => {
                    // A supplied access token is not traded in for another.
                    next.resume(if request.access_token.is_empty() {
                        self.user_tokens.get(&request.identity).cloned()
                    } else {
                        None
                    })
                }
                IdentityAction::InspectToken { token, next } => {
                    next.resume_at(self.expires.get(&token).copied(), NOW)
                }
                IdentityAction::Exchange { request, next } => next.resume(self.exchange(request)),
                IdentityAction::Done { tokens, selected } => {
                    if let Some(selection) = selected {
                        self.lines.push(selection.message());
                    }
                    return tokens;
                }
            }
        }
    }

    fn run(&mut self, mut action: AuthAction) -> Tokens {
        loop {
            action = match action {
                AuthAction::ForIdentity { request } => return self.tokens(request),
                AuthAction::LoadIdentities { auth_url, next } => {
                    assert_eq!(auth_url, URL);
                    next.resume(self.identities.clone())
                }
                AuthAction::TryIdentity { request, next } => {
                    assert_eq!(request.identity_token, "");
                    assert_eq!(request.access_token, "");
                    let tokens = self.tokens(request);
                    next.resume(tokens)
                }
                AuthAction::Done { tokens } => return tokens,
            }
        }
    }
}

fn world(identities: &[&str]) -> World {
    let mut world = World {
        identities: Some(identities.iter().map(|name| name.to_string()).collect()),
        ..World::default()
    };
    for name in identities {
        world.user_tokens.insert(name.to_string(), format!("authn-{name}"));
        world.expires.insert(format!("authn-{name}"), NOW as u64 + 1);
        world.authorized.insert(name.to_string(), format!("authz-{name}"));
    }
    world
}

fn tokens(authentication: &str, authorization: &str, identity: &str) -> Tokens {
    (authentication.to_string(), authorization.to_string(), identity.to_string())
}

fn resolve(world: &mut World, identity: &str, id: &str) -> Tokens {
    world.run(auth_exchange(URL, "example.com", identity, repository(id), "", ""))
}

fn resolve_custom(world: &mut World, identity: &str, id: &str) -> Tokens {
    world.run(auth_exchange_custom_resource(URL, "example.com", identity, id, "", ""))
}

/// An access token on its own authorizes without an authentication token to
/// trade in, and without reading one from the store. The authentication slot
/// comes back empty, so the services that need one fail where they use it
/// while the authorized ones still work.
#[test]
fn access_token_alone_authorizes_without_an_authentication_token() {
    let repository = repository("00112233445566778899aabbccddeeff");
    let (authentication_token, authorization_token, identity) =
        World::default().run(auth_exchange(
            "ucs-auth://auth.example.com",
            "example.com",
            "alice",
            repository,
            "",
            "supplied-authz",
        ));

    assert!(
        authentication_token.is_empty(),
        "no authentication token is invented, and none is read from the store"
    );
    assert_eq!(authorization_token, "supplied-authz");
    assert_eq!(identity, "alice");
}

#[test]
fn a_supplied_access_token_authorizes_for_a_resource() {
    let action =
        auth_exchange_custom_resource(URL, "example.com", "alice", "thing", "", "supplied-authz");
    assert_eq!(World::default().run(action), tokens("", "supplied-authz", "alice"));
}

#[test]
fn a_named_identity_gets_both_tokens() {
    let mut world = world(&["alice", "bob"]);
    assert_eq!(resolve(&mut world, "bob", "r1"), tokens("authn-bob", "authz-bob", "bob"));
    assert_eq!(world.tried, ["bob"]);
    assert_eq!(
        resolve_custom(&mut world, "alice", "thing"),
        tokens("authn-alice", "authz-alice", "alice")
    );
    assert_eq!(
        world.lines,
        [
            "Selected identity bob, authorized for repository r1 on example.com",
            "Selected identity alice, authorized for resource thing on example.com",
        ]
    );
}

#[test]
fn a_named_identity_without_authorization_keeps_its_authentication() {
    let mut world = world(&["alice"]);
    world.authorized.clear();
    assert_eq!(resolve(&mut world, "alice", "r1"), tokens("authn-alice", "", "alice"));
    assert!(world.lines.is_empty());
}

#[test]
fn without_a_repository_authentication_is_all_there_is() {
    let mut world = world(&["alice", "bob"]);
    world.user_tokens.remove("alice");
    assert_eq!(resolve(&mut world, "bob", "0000"), tokens("authn-bob", "", "bob"));
    assert_eq!(resolve(&mut world, "", "0000"), tokens("authn-bob", "", "bob"));
    assert_eq!(world.tried, ["bob", "alice", "bob"]);
    assert_eq!(world.lines[0], "Selected identity bob, authenticated for example.com");
}

#[test]
fn an_identity_without_a_token_gives_nothing() {
    let mut world = world(&["alice"]);
    world.user_tokens.clear();
    assert_eq!(resolve(&mut world, "alice", "r1"), tokens("", "", ""));
    world.user_tokens.insert("alice".to_string(), String::new());
    assert_eq!(resolve(&mut world, "alice", "r1"), tokens("", "", ""));
}

#[test]
fn an_identity_with_an_expired_token_gives_nothing() {
    let mut world = world(&["alice"]);
    world.expires.insert("authn-alice".to_string(), NOW as u64);
    assert_eq!(resolve(&mut world, "alice", "r1"), tokens("", "", ""));
    assert_eq!(resolve_custom(&mut world, "alice", "thing"), tokens("", "", ""));
}

#[test]
fn a_token_that_cannot_be_read_is_left_to_its_user() {
    let mut world = world(&["alice"]);
    world.expires.clear();
    assert_eq!(resolve(&mut world, "alice", "r1"), tokens("authn-alice", "authz-alice", "alice"));
}

#[test]
fn an_expiry_of_a_user_token_goes_by_the_system_clock() {
    for (expires, accepted) in [(Some(0), false), (Some(u64::MAX), true), (None, true)] {
        let request = IdentityRequest {
            auth_url: URL.to_string(),
            remote_domain: "example.com".to_string(),
            identity: "alice".to_string(),
            resource: Resource::Custom("thing".to_string()),
            identity_token: String::new(),
            access_token: String::new(),
        };
        let IdentityAction::LoadUserToken { next, .. } = auth_exchange_for_identity(request) else {
            panic!("the token comes first")
        };
        let IdentityAction::InspectToken { next, token } = next.resume(Some("authn".to_string()))
        else {
            panic!("the token is looked into")
        };
        assert_eq!(token, "authn");
        match next.resume(expires) {
            IdentityAction::Exchange { .. } => assert!(accepted),
            IdentityAction::Done { tokens: given, .. } => {
                assert!(!accepted && given == tokens("", "", ""));
            }
            _ => panic!("the token is used or not"),
        }
    }
}

#[test]
fn the_first_authorized_identity_is_resolved() {
    let mut world = world(&["alice", "bob", "carol"]);
    world.authorized.remove("alice");
    assert_eq!(resolve(&mut world, "", "r1"), tokens("authn-bob", "authz-bob", "bob"));
    assert_eq!(world.tried, ["alice", "bob"]);
    assert_eq!(
        resolve_custom(&mut world, "", "thing"),
        tokens("authn-bob", "authz-bob", "bob")
    );
}

#[test]
fn each_attempt_counts_for_itself() {
    let identities = Some(vec!["alice".to_string(), "alice".to_string()]);
    let start = auth_exchange(URL, "example.com", "", repository("r1"), "", "");
    let AuthAction::LoadIdentities { next, .. } = start else { panic!("nobody is named") };
    let AuthAction::TryIdentity { request, next } = next.resume(identities) else {
        panic!("there is someone to try")
    };
    assert_eq!(request.identity, "alice");
    let AuthAction::TryIdentity { request, next } = next.resume(tokens("authn", "", "alice")) else {
        panic!("the first attempt did not suffice")
    };
    assert_eq!(request.identity, "alice");
    let AuthAction::Done { tokens: given } = next.resume(tokens("authn", "authz", "alice")) else {
        panic!("the second attempt suffices")
    };
    assert_eq!(given, tokens("authn", "authz", "alice"));
}

#[test]
fn no_authorized_identity_resolves_to_nothing() {
    let mut world = world(&["alice", "bob"]);
    world.authorized.clear();
    assert_eq!(resolve(&mut world, "", "r1"), tokens("", "", ""));
    assert_eq!(world.tried, ["alice", "bob"]);
    assert_eq!(resolve_custom(&mut world, "", "thing"), tokens("", "", ""));
}

#[test]
fn unknown_identities_resolve_to_nothing() {
    let mut world = world(&[]);
    assert_eq!(resolve(&mut world, "", "r1"), tokens("", "", ""));
    world.identities = None;
    assert_eq!(resolve(&mut world, "", "r1"), tokens("", "", ""));
    assert!(world.tried.is_empty());
}

fn selected(identity: &str) -> Selection {
    Selection::Authenticated {
        identity: identity.to_string(),
        remote_domain: "example.com".to_string(),
    }
}

#[test]
fn a_selection_is_reported_once_per_change() {
    let mut last = LastSelections::new();
    assert!(last.note(selected("alice")));
    assert!(!last.note(selected("alice")));
    assert!(last.note(selected("bob")));
    assert!(last.note(selected("alice")));
    let authorized = |repository: &str| Selection::Repository {
        identity: "alice".to_string(),
        repository: repository.to_string(),
        remote_domain: "example.com".to_string(),
    };
    assert!(last.note(authorized("r1")));
    assert!(!last.note(authorized("r1")));
    assert!(last.note(authorized("r2")));
    let custom = || Selection::Custom {
        identity: "alice".to_string(),
        resource_id: "r2".to_string(),
        remote_domain: "example.com".to_string(),
    };
    assert!(last.note(custom()));
    // Each sort is remembered by itself.
    assert!(!last.note(selected("alice")));
    assert!(!last.note(authorized("r2")));
    assert!(!last.note(custom()));
}
