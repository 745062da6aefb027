use tsproxy_operator::error::Error;
use tsproxy_operator::tailscale_api::{
    make_key_request, new_tailscale_api, refused, token_url, usable_lifetime, CreateTokenRequestCapabilities,
    CreateTokenRequestCapabilitiesDevices, CreateTokenRequestCapabilitiesDevicesCreate,
    DeviceTokenResponse, KeyAction, KeyEvent, KeyProgress, KeyStep, TailscaleApi,
    TailscaleTokenInfo,
};

const SECOND: i128 = 1_000_000_000;

fn tags() -> Vec<String> {
    vec!["tag:proxy".to_string(), "tag:k8s".to_string()]
}

fn api(token: &str, expires_at: i128) -> TailscaleApi {
    TailscaleApi {
        previous_token_response: TailscaleTokenInfo { token: token.to_string(), expires_at },
    }
}

fn advance(progress: KeyProgress, event: KeyEvent) -> KeyProgress {
    match progress {
        KeyProgress::Pending(step, _) => {
            assert!(step.accepts(&event), "{:?} does not accept {:?}", step, event);
            step.advance(event)
        }
        finished => panic!("ended with {:?}", finished),
    }
}

fn asks_with(progress: &KeyProgress, expected: &str) {
    match progress {
        KeyProgress::Pending(KeyStep::Create, KeyAction::CreateKey { url, token, body }) => {
            assert_eq!(url, "https://api.tailscale.com/api/v2/tailnet/-/keys");
            assert_eq!(token, expected);
            assert_eq!(body.expiry_seconds, Some(600));
            assert_eq!(body.description, None);
            let create = &body.capabilities.devices.create;
            assert!(!create.reusable && !create.ephemeral && create.preauthorized);
            assert_eq!(create.tags, tags());
        }
        other => panic!("unexpected {:?}", other),
    }
}

fn response(key: &str) -> DeviceTokenResponse {
    DeviceTokenResponse {
        key: key.to_string(),
        capabilities: CreateTokenRequestCapabilities {
            devices: CreateTokenRequestCapabilitiesDevices {
                create: CreateTokenRequestCapabilitiesDevicesCreate {
                    reusable: false,
                    ephemeral: false,
                    preauthorized: true,
                    tags: Vec::new(),
                },
            },
        },
    }
}

fn locked(token: &str, expires_at: i128, now: i128) -> KeyEvent {
    KeyEvent::TokenLocked {
        info: TailscaleTokenInfo { token: token.to_string(), expires_at },
        now,
    }
}

#[test]
fn token_address() {
    assert_eq!(token_url(), "https://api.tailscale.com/api/v2/oauth/token");
}

#[test]
fn body_of_a_key_request() {
    let body = make_key_request(tags());
    assert_eq!(body.expiry_seconds, Some(600));
    assert_eq!(body.description, None);
    let create = body.capabilities.devices.create;
    assert!(!create.reusable && !create.ephemeral && create.preauthorized);
    assert_eq!(create.tags, tags());
}

#[test]
fn first_token_is_expired() {
    let api = new_tailscale_api(5 * SECOND);
    assert_eq!(api.previous_token_response.token, "fake");
    assert_eq!(api.previous_token_response.expires_at, 4 * SECOND);
    let progress = api.create_auth_token(tags(), 5 * SECOND);
    assert!(matches!(progress, KeyProgress::Pending(KeyStep::Lock { .. }, KeyAction::LockToken)));
    let progress = advance(progress, locked("fake", 4 * SECOND, 5 * SECOND));
    match progress {
        KeyProgress::Pending(KeyStep::Exchange { .. }, KeyAction::ExchangeToken { scope }) => {
            assert_eq!(scope, "devices:write")
        }
        other => panic!("unexpected {:?}", other),
    }
}

#[test]
fn usable_token_is_used_at_once() {
    asks_with(&api("old", 11).create_auth_token(tags(), 10), "old");
    assert!(matches!(
        api("old", 10).create_auth_token(tags(), 10),
        KeyProgress::Pending(KeyStep::Lock { .. }, KeyAction::LockToken)
    ));
}

#[test]
fn token_of_another_request_is_used() {
    let progress = api("old", 10).create_auth_token(tags(), 20);
    asks_with(&advance(progress, locked("new", 100, 21)), "new");
    let progress = api("old", 10).create_auth_token(tags(), 10);
    asks_with(&advance(progress, locked("old", 10, 10)), "old");
}

#[test]
fn new_token_is_remembered_and_used() {
    let progress = api("old", 10).create_auth_token(tags(), 20);
    let progress = advance(progress, locked("old", 10, 21));
    let progress = advance(
        progress,
        KeyEvent::TokenExchanged { token: "new".to_string(), lifetime: Some(1800), now: 30 },
    );
    let stored = match &progress {
        KeyProgress::Pending(KeyStep::Store { .. }, KeyAction::StoreToken { info }) => info.clone(),
        other => panic!("unexpected {:?}", other),
    };
    assert_eq!(stored.token, "new");
    assert_eq!(stored.expires_at, 1830);
    asks_with(&advance(progress, KeyEvent::TokenStored), "new");
    let api = TailscaleApi { previous_token_response: stored };
    asks_with(&api.create_auth_token(tags(), 1829), "new");
    assert!(matches!(
        api.create_auth_token(tags(), 1830),
        KeyProgress::Pending(KeyStep::Lock { .. }, KeyAction::LockToken)
    ));
}

#[test]
fn token_without_a_lifetime_is_used_for_half_an_hour() {
    assert_eq!(usable_lifetime(None), 1_800_000_000_000);
    assert_eq!(usable_lifetime(Some(7)), 7);
    assert_eq!(usable_lifetime(Some(0)), 0);
    let event = KeyEvent::TokenExchanged { token: "new".to_string(), lifetime: None, now: 30 };
    let step = KeyStep::Exchange { tags: tags() };
    assert!(step.accepts(&event));
    match step.advance(event) {
        KeyProgress::Pending(KeyStep::Store { .. }, KeyAction::StoreToken { info }) => {
            assert_eq!(info.expires_at, 1800 * SECOND + 30)
        }
        other => panic!("unexpected {:?}", other),
    }
}

#[test]
fn lifetime_must_fit_the_clock() {
    let exchanged = |lifetime: u128, now: i128| KeyEvent::TokenExchanged {
        token: "new".to_string(),
        lifetime: Some(lifetime),
        now,
    };
    let step = KeyStep::Exchange { tags: tags() };
    assert!(step.accepts(&exchanged(1, i128::MAX - 1)));
    assert!(!step.accepts(&exchanged(2, i128::MAX - 1)));
    assert!(!step.accepts(&exchanged(u128::MAX, -1)));
    assert!(step.accepts(&exchanged(i128::MAX as u128, i128::MIN)));
}

#[test]
fn granted_key_is_returned() {
    let progress = api("old", 11).create_auth_token(tags(), 10);
    let progress = advance(progress, KeyEvent::Responded(200));
    assert!(matches!(progress, KeyProgress::Pending(KeyStep::Key, KeyAction::ReadKey)));
    match advance(progress, KeyEvent::KeyRead(response("tskey-1"))) {
        KeyProgress::Finished(Ok(key)) => assert_eq!(key, "tskey-1"),
        other => panic!("unexpected {:?}", other),
    }
}

#[test]
fn refusal_quotes_the_answer() {
    for status in [201u16, 204, 403, 500] {
        let progress = api("old", 11).create_auth_token(tags(), 10);
        let progress = advance(progress, KeyEvent::Responded(status));
        assert!(matches!(progress, KeyProgress::Pending(KeyStep::Text, KeyAction::ReadText)));
        match advance(progress, KeyEvent::TextRead("no \"way\"\n".to_string())) {
            KeyProgress::Finished(Err(error)) => assert_eq!(
                error.0,
                "Failed to create tailscale device token: \"no \\\"way\\\"\\n\""
            ),
            other => panic!("unexpected {:?}", other),
        }
    }
}

#[test]
fn refusal_takes_the_quoted_answer_as_it_is() {
    assert_eq!(
        refused(&"<no>".to_string()),
        Error("Failed to create tailscale device token: <no>".to_string())
    );
}

#[test]
fn failures_end_a_request() {
    let steps = [
        KeyStep::Lock { tags: tags() },
        KeyStep::Exchange { tags: tags() },
        KeyStep::Store { tags: tags(), token: "new".to_string() },
        KeyStep::Create,
        KeyStep::Key,
        KeyStep::Text,
    ];
    for step in steps {
        let event = KeyEvent::Failed(Error("lost".to_string()));
        assert!(step.accepts(&event));
        match step.advance(event) {
            KeyProgress::Finished(Err(error)) => assert_eq!(error.0, "lost"),
            other => panic!("unexpected {:?}", other),
        }
    }
}

#[test]
fn events_belong_to_their_steps() {
    assert!(!KeyStep::Create.accepts(&KeyEvent::TokenStored));
    assert!(!KeyStep::Key.accepts(&KeyEvent::TextRead(String::new())));
    assert!(!KeyStep::Text.accepts(&KeyEvent::KeyRead(response("k"))));
    assert!(!KeyStep::Create.accepts(&locked("t", 1, 2)));
    assert!(!KeyStep::Lock { tags: tags() }.accepts(&KeyEvent::Responded(200)));
}
