use tunnelto_auth::account::{AccountId, Error};
use tunnelto_auth::digest::key_id;
use tunnelto_auth::handshake::{random_sub_domain, step, Action, Event, HandshakeConfig, Phase};
use tunnelto_auth::hello::{ClientHello, ClientId, ClientType, ServerHello};
use tunnelto_auth::subdomain::RegistryLookup;
use tunnelto_auth::token::ReconnectTokenPayload;

fn config() -> HandshakeConfig {
    HandshakeConfig { signing_key: b"server-key".to_vec(), blocked_sub_domains: vec!["admin".to_string()] }
}

fn auth_hello(key: &str, sub_domain: Option<&str>) -> ClientHello {
    ClientHello {
        client_type: ClientType::Auth { key: key.to_string() },
        sub_domain: sub_domain.map(|s| s.to_string()),
        reconnect_token: None,
    }
}

fn account_ok() -> Event {
    Event::Account(Ok(AccountId { value: 7 }))
}

fn reply_of(action: &Action) -> Option<Option<ServerHello>> {
    match action {
        Action::Reject { reply } => Some(*reply),
        _ => None,
    }
}

/// Runs the hello through the account lookup, which confirms the credential.
fn past_account(hello: ClientHello) -> (Phase, Action) {
    let c = config();
    let (phase, action) = step(&c, Phase::AwaitingHello, Event::Hello(hello));
    assert!(matches!(action, Action::LookupAccount { .. }));
    step(&c, phase, account_ok())
}

#[test]
fn fresh_client_gets_a_drawn_name() {
    let c = config();
    let (phase, action) = step(&c, Phase::AwaitingHello, Event::Hello(auth_hello("good", None)));
    match action {
        Action::LookupAccount { lookup_key } => assert_eq!(lookup_key, key_id("good")),
        _ => panic!("expected a lookup"),
    }
    let (phase, action) = step(&c, phase, account_ok());
    assert!(matches!(action, Action::DrawEntropy));
    let (phase, action) =
        step(&c, phase, Event::Entropy { sub_domain: [0, 25, 26, 35, 36, 61, 62, 255], client_id: [0; 32] });
    assert!(matches!(phase, Phase::Finished));
    match action {
        Action::Admit(h) => {
            assert!(h.is_anonymous);
            assert_eq!(h.sub_domain, "az09az0d");
            assert_eq!(h.id.0, "AAAAAAAAAAAAAAAAAAAAAAAAAAAAAAAAAAAAAAAAAAA=");
        }
        _ => panic!("expected admission"),
    }
}

#[test]
fn unknown_credential_is_rejected_silently() {
    let c = config();
    let (phase, _) = step(&c, Phase::AwaitingHello, Event::Hello(auth_hello("bad", None)));
    let (phase, action) = step(&c, phase, Event::Account(Err(Error::AccountNotFound)));
    assert!(matches!(phase, Phase::Finished));
    assert_eq!(reply_of(&action), Some(None));
}

#[test]
fn requested_name_is_lowercased_and_admitted_when_free() {
    let c = config();
    let (phase, action) = past_account(auth_hello("good", Some("MyApp")));
    match action {
        Action::QueryRegistry { sub_domain } => assert_eq!(sub_domain, "myapp"),
        _ => panic!("expected a registry query"),
    }
    let (phase, action) = step(&c, phase, Event::Registry(RegistryLookup::DoesNotServeHost));
    assert!(matches!(phase, Phase::Finished));
    match action {
        Action::Admit(h) => {
            assert_eq!(h.sub_domain, "myapp");
            assert!(!h.is_anonymous);
            assert!(h.id == ClientId::for_secret("good"));
        }
        _ => panic!("expected admission"),
    }
}

#[test]
fn name_bound_to_another_client_is_in_use() {
    let c = config();
    let (phase, _) = past_account(auth_hello("good", Some("taken")));
    let other = RegistryLookup::ServedBy { client_id: ClientId("someone-else".to_string()) };
    let (phase, action) = step(&c, phase, Event::Registry(other));
    assert!(matches!(phase, Phase::Finished));
    assert_eq!(reply_of(&action), Some(Some(ServerHello::SubDomainInUse)));
}

#[test]
fn name_bound_to_the_same_client_is_reclaimed() {
    let c = config();
    let (phase, _) = past_account(auth_hello("good", Some("mine")));
    let own = RegistryLookup::ServedBy { client_id: ClientId::for_secret("good") };
    let (_, action) = step(&c, phase, Event::Registry(own));
    assert!(matches!(action, Action::Admit(ref h) if h.sub_domain == "mine"));
}

#[test]
fn unavailable_registry_lets_the_name_through() {
    let c = config();
    let (phase, _) = past_account(auth_hello("good", Some("maybe")));
    let (_, action) = step(&c, phase, Event::Registry(RegistryLookup::Unavailable));
    assert!(matches!(action, Action::Admit(ref h) if h.sub_domain == "maybe"));
}

#[test]
fn name_with_space_is_invalid() {
    let (phase, action) = past_account(auth_hello("good", Some("ad min")));
    assert!(matches!(phase, Phase::Finished));
    assert_eq!(reply_of(&action), Some(Some(ServerHello::InvalidSubDomain)));
}

#[test]
fn blocked_name_is_in_use() {
    let (_, action) = past_account(auth_hello("good", Some("Admin")));
    assert_eq!(reply_of(&action), Some(Some(ServerHello::SubDomainInUse)));
}

#[test]
fn valid_reconnect_token_resumes_identity() {
    let c = config();
    let token = ReconnectTokenPayload { client_id: ClientId("C".to_string()), sub_domain: "prev".to_string() }
        .into_token(&c.signing_key)
        .unwrap();
    let hello = ClientHello {
        client_type: ClientType::Auth { key: "x".to_string() },
        sub_domain: None,
        reconnect_token: Some(token),
    };
    let (phase, action) = past_account(hello);
    assert!(matches!(phase, Phase::Finished));
    match action {
        Action::Admit(h) => {
            assert_eq!(h.id.0, "C");
            assert_eq!(h.sub_domain, "prev");
            assert!(h.is_anonymous);
        }
        _ => panic!("expected admission"),
    }
}

#[test]
fn token_signed_with_another_key_fails_auth() {
    let token = ReconnectTokenPayload { client_id: ClientId("C".to_string()), sub_domain: "prev".to_string() }
        .into_token(b"other-key")
        .unwrap();
    let hello = ClientHello {
        client_type: ClientType::Auth { key: "x".to_string() },
        sub_domain: None,
        reconnect_token: Some(token),
    };
    let (phase, action) = past_account(hello);
    assert!(matches!(phase, Phase::Finished));
    assert_eq!(reply_of(&action), Some(Some(ServerHello::AuthFailed)));
}

#[test]
fn undecodable_hello_fails_auth() {
    let (phase, action) = step(&config(), Phase::AwaitingHello, Event::Undecodable);
    assert!(matches!(phase, Phase::Finished));
    assert_eq!(reply_of(&action), Some(Some(ServerHello::AuthFailed)));
}

#[test]
fn missing_hello_ends_without_reply() {
    let (_, action) = step(&config(), Phase::AwaitingHello, Event::Closed);
    assert_eq!(reply_of(&action), Some(None));
}

#[test]
fn anonymous_hello_is_rejected_silently() {
    let hello = ClientHello { client_type: ClientType::Anonymous, sub_domain: Some("x".to_string()), reconnect_token: None };
    let (_, action) = step(&config(), Phase::AwaitingHello, Event::Hello(hello));
    assert_eq!(reply_of(&action), Some(None));
}

#[test]
fn finished_handshake_sends_nothing_more() {
    let (phase, action) = step(&config(), Phase::Finished, Event::Registry(RegistryLookup::DoesNotServeHost));
    assert!(matches!(phase, Phase::Finished));
    assert_eq!(reply_of(&action), Some(None));
}

#[test]
fn unexpected_event_ends_without_reply() {
    let (phase, action) = step(&config(), Phase::AwaitingHello, account_ok());
    assert!(matches!(phase, Phase::Finished));
    assert_eq!(reply_of(&action), Some(None));
}

#[test]
fn drawn_name_uses_letters_and_digits() {
    assert_eq!(random_sub_domain(&[0, 1, 2, 3, 4, 5, 6, 7]), "abcdefgh");
    assert_eq!(random_sub_domain(&[26, 27, 28, 29, 30, 31, 32, 33]), "01234567");
}
