//! Asking the Tailscale API for auth keys: which access token is used, when a new one is
//! asked for, what is sent and what becomes of the answer.
//!
//! A request is a machine: it asks for one action at a time, and the event that comes back
//! decides what it asks for next. Points in time are nanoseconds on one clock.

use crate::error::Error;
use vstd::pervasive::unreached;
use vstd::prelude::*;
use vstd::string::*;

verus! {

/// An access token, and when it is no longer to be used.
#[derive(Debug)]
pub struct TailscaleTokenInfo {
    pub token: String,
    pub expires_at: i128,
}

/// The mathematical view of [`TailscaleTokenInfo`].
#[verifier::ext_equal]
pub struct TailscaleTokenInfoView {
    pub token: Seq<char>,
    pub expires_at: int,
}

impl View for TailscaleTokenInfo {
    type V = TailscaleTokenInfoView;

    open spec fn view(&self) -> TailscaleTokenInfoView {
        TailscaleTokenInfoView { token: self.token@, expires_at: self.expires_at as int }
    }
}

impl TailscaleTokenInfoView {
    /// The token is used without a further look.
    pub open spec fn usable(self, now: int) -> bool {
        self.expires_at > now
    }

    /// The token has to be replaced.
    pub open spec fn stale(self, now: int) -> bool {
        self.expires_at < now
    }
}

impl Clone for TailscaleTokenInfo {
    fn clone(&self) -> (copy: TailscaleTokenInfo)
        ensures
            copy@ == self@,
    {
        TailscaleTokenInfo { token: self.token.clone(), expires_at: self.expires_at }
    }
}

/// What is remembered from one request to the next.
#[derive(Debug)]
pub struct TailscaleApi {
    pub previous_token_response: TailscaleTokenInfo,
}

/// The mathematical view of [`TailscaleApi`].
#[verifier::ext_equal]
pub struct TailscaleApiView {
    pub previous_token_response: TailscaleTokenInfoView,
}

impl View for TailscaleApi {
    type V = TailscaleApiView;

    open spec fn view(&self) -> TailscaleApiView {
        TailscaleApiView { previous_token_response: self.previous_token_response@ }
    }
}

/// The address that hands out access tokens.
pub fn token_url() -> (url: String)
    ensures
        url@ == "https://api.tailscale.com/api/v2/oauth/token"@,
{
    "https://api.tailscale.com/api/v2/oauth/token".to_string()
}

/// What is remembered before the first request: a token that expired a second ago.
pub open spec fn initial_api(now: int) -> TailscaleApiView {
    TailscaleApiView {
        previous_token_response: TailscaleTokenInfoView {
            token: "fake"@,
            expires_at: now - 1_000_000_000,
        },
    }
}

/// Begins with a token that is expired, to force a new one on first use.
pub fn new_tailscale_api(now: i128) -> (api: TailscaleApi)
    requires
        now - 1_000_000_000 >= i128::MIN,
    ensures
        api@ == initial_api(now as int),
{
    TailscaleApi {
        previous_token_response: TailscaleTokenInfo {
            token: "fake".to_string(),
            expires_at: now - 1_000_000_000,
        },
    }
}

/// What a device that logs in with a new auth key may do.
#[derive(Debug)]
pub struct CreateTokenRequestCapabilitiesDevicesCreate {
    pub reusable: bool,
    pub ephemeral: bool,
    pub preauthorized: bool,
    pub tags: Vec<String>,
}

/// The mathematical view of [`CreateTokenRequestCapabilitiesDevicesCreate`].
#[verifier::ext_equal]
pub struct CreateTokenRequestCapabilitiesDevicesCreateView {
    pub reusable: bool,
    pub ephemeral: bool,
    pub preauthorized: bool,
    pub tags: Seq<Seq<char>>,
}

impl View for CreateTokenRequestCapabilitiesDevicesCreate {
    type V = CreateTokenRequestCapabilitiesDevicesCreateView;

    open spec fn view(&self) -> CreateTokenRequestCapabilitiesDevicesCreateView {
        CreateTokenRequestCapabilitiesDevicesCreateView {
            reusable: self.reusable,
            ephemeral: self.ephemeral,
            preauthorized: self.preauthorized,
            tags: self.tags.deep_view(),
        }
    }
}

/// What an auth key allows for devices.
#[derive(Debug)]
pub struct CreateTokenRequestCapabilitiesDevices {
    pub create: CreateTokenRequestCapabilitiesDevicesCreate,
}

/// What an auth key allows.
#[derive(Debug)]
pub struct CreateTokenRequestCapabilities {
    pub devices: CreateTokenRequestCapabilitiesDevices,
}

/// The body of a request for an auth key.
#[derive(Debug)]
pub struct CreateTokenRequest {
    pub capabilities: CreateTokenRequestCapabilities,
    pub expiry_seconds: Option<i32>,
    pub description: Option<String>,
}

/// The mathematical view of [`CreateTokenRequest`].
#[verifier::ext_equal]
pub struct CreateTokenRequestView {
    pub create: CreateTokenRequestCapabilitiesDevicesCreateView,
    pub expiry_seconds: Option<i32>,
    pub description: Option<Seq<char>>,
}

impl View for CreateTokenRequest {
    type V = CreateTokenRequestView;

    open spec fn view(&self) -> CreateTokenRequestView {
        CreateTokenRequestView {
            create: self.capabilities.devices.create@,
            expiry_seconds: self.expiry_seconds,
            description: self.description.deep_view(),
        }
    }
}

/// The answer to a request for an auth key that was granted.
#[derive(Debug)]
pub struct DeviceTokenResponse {
    pub key: String,
    pub capabilities: CreateTokenRequestCapabilities,
}

/// The mathematical view of [`DeviceTokenResponse`].
#[verifier::ext_equal]
pub struct DeviceTokenResponseView {
    pub key: Seq<char>,
    pub create: CreateTokenRequestCapabilitiesDevicesCreateView,
}

impl View for DeviceTokenResponse {
    type V = DeviceTokenResponseView;

    open spec fn view(&self) -> DeviceTokenResponseView {
        DeviceTokenResponseView {
            key: self.key@,
            create: self.capabilities.devices.create@,
        }
    }
}

/// The request for an auth key with these tags: one device may log in with it, within ten
/// minutes, and needs no approval.
pub open spec fn key_request(tags: Seq<Seq<char>>) -> CreateTokenRequestView {
    CreateTokenRequestView {
        create: CreateTokenRequestCapabilitiesDevicesCreateView {
            reusable: false,
            ephemeral: false,
            preauthorized: true,
            tags,
        },
        expiry_seconds: Some(600),
        description: None,
    }
}

/// Builds the request for an auth key with these tags.
pub fn make_key_request(tags: Vec<String>) -> (request: CreateTokenRequest)
    ensures
        request@ == key_request(tags.deep_view()),
        request.capabilities.devices.create.tags == tags,
        !request.capabilities.devices.create.reusable,
        !request.capabilities.devices.create.ephemeral,
        request.capabilities.devices.create.preauthorized,
        request.expiry_seconds == Some(600i32),
        request.description is None,
{
    CreateTokenRequest {
        expiry_seconds: Some(60 * 10),
        description: None,
        capabilities: CreateTokenRequestCapabilities {
            devices: CreateTokenRequestCapabilitiesDevices {
                create: CreateTokenRequestCapabilitiesDevicesCreate {
                    ephemeral: false,
                    reusable: false,
                    preauthorized: true,
                    tags,
                },
            },
        },
    }
}

/// How long a new token is used: as long as it was said, else for half an hour.
pub open spec fn usable_time(lifetime: Option<u128>) -> int {
    match lifetime {
        Some(lifetime) => lifetime as int,
        None => 1_800_000_000_000,
    }
}

/// How long a new token is used, in nanoseconds.
pub fn usable_lifetime(lifetime: Option<u128>) -> (usable: u128)
    ensures
        usable == usable_time(lifetime),
{
    match lifetime {
        Some(lifetime) => lifetime,
        None => 1_800_000_000_000,
    }
}

/// What a request asks for.
#[derive(Debug)]
pub enum KeyAction {
    /// Look at the remembered token, and keep others from it until a key is asked for.
    LockToken,
    /// Ask for a new token with this scope.
    ExchangeToken { scope: String },
    /// Remember this token.
    StoreToken { info: TailscaleTokenInfo },
    /// Ask for an auth key. The remembered token is free again.
    CreateKey { url: String, token: String, body: CreateTokenRequest },
    /// Read the answer as a granted auth key.
    ReadKey,
    /// Read the answer as text.
    ReadText,
}

/// The mathematical view of [`KeyAction`].
#[verifier::ext_equal]
pub enum KeyActionView {
    LockToken,
    ExchangeToken { scope: Seq<char> },
    StoreToken { info: TailscaleTokenInfoView },
    CreateKey { url: Seq<char>, token: Seq<char>, body: CreateTokenRequestView },
    ReadKey,
    ReadText,
}

impl View for KeyAction {
    type V = KeyActionView;

    open spec fn view(&self) -> KeyActionView {
        match self {
            KeyAction::LockToken => KeyActionView::LockToken,
            KeyAction::ExchangeToken { scope } => KeyActionView::ExchangeToken { scope: scope@ },
            KeyAction::StoreToken { info } => KeyActionView::StoreToken { info: info@ },
            KeyAction::CreateKey { url, token, body } => KeyActionView::CreateKey {
                url: url@,
                token: token@,
                body: body@,
            },
            KeyAction::ReadKey => KeyActionView::ReadKey,
            KeyAction::ReadText => KeyActionView::ReadText,
        }
    }
}

/// What came of an action.
#[derive(Debug)]
pub enum KeyEvent {
    /// The action failed.
    Failed(Error),
    /// The remembered token, at this time.
    TokenLocked { info: TailscaleTokenInfo, now: i128 },
    /// A new token at this time, with the part of its lifetime that it may be used for,
    /// where it was said how long it lives.
    TokenExchanged { token: String, lifetime: Option<u128>, now: i128 },
    /// The token is remembered.
    TokenStored,
    /// An answer with this status.
    Responded(u16),
    /// The answer, as a granted auth key.
    KeyRead(DeviceTokenResponse),
    /// The answer, as text.
    TextRead(String),
}

/// The mathematical view of [`KeyEvent`].
#[verifier::ext_equal]
pub enum KeyEventView {
    Failed(Seq<char>),
    TokenLocked { info: TailscaleTokenInfoView, now: int },
    TokenExchanged { token: Seq<char>, lifetime: Option<u128>, now: int },
    TokenStored,
    Responded(u16),
    KeyRead(DeviceTokenResponseView),
    TextRead(Seq<char>),
}

impl View for KeyEvent {
    type V = KeyEventView;

    open spec fn view(&self) -> KeyEventView {
        match self {
            KeyEvent::Failed(error) => KeyEventView::Failed(error@),
            KeyEvent::TokenLocked { info, now } => KeyEventView::TokenLocked {
                info: info@,
                now: *now as int,
            },
            KeyEvent::TokenExchanged { token, lifetime, now } => KeyEventView::TokenExchanged {
                token: token@,
                lifetime: *lifetime,
                now: *now as int,
            },
            KeyEvent::TokenStored => KeyEventView::TokenStored,
            KeyEvent::Responded(status) => KeyEventView::Responded(*status),
            KeyEvent::KeyRead(response) => KeyEventView::KeyRead(response@),
            KeyEvent::TextRead(text) => KeyEventView::TextRead(text@),
        }
    }
}

/// What a request is waiting for.
#[derive(Debug)]
pub enum KeyStep {
    /// Waiting for the remembered token.
    Lock { tags: Vec<String> },
    /// Waiting for a new token.
    Exchange { tags: Vec<String> },
    /// Waiting until the new token is remembered.
    Store { tags: Vec<String>, token: String },
    /// Waiting for the answer.
    Create,
    /// Waiting for the auth key.
    Key,
    /// Waiting for the text of a refusal.
    Text,
}

/// The mathematical view of [`KeyStep`].
#[verifier::ext_equal]
pub enum KeyStepView {
    Lock { tags: Seq<Seq<char>> },
    Exchange { tags: Seq<Seq<char>> },
    Store { tags: Seq<Seq<char>>, token: Seq<char> },
    Create,
    Key,
    Text,
}

impl View for KeyStep {
    type V = KeyStepView;

    open spec fn view(&self) -> KeyStepView {
        match self {
            KeyStep::Lock { tags } => KeyStepView::Lock { tags: tags.deep_view() },
            KeyStep::Exchange { tags } => KeyStepView::Exchange { tags: tags.deep_view() },
            KeyStep::Store { tags, token } => KeyStepView::Store {
                tags: tags.deep_view(),
                token: token@,
            },
            KeyStep::Create => KeyStepView::Create,
            KeyStep::Key => KeyStepView::Key,
            KeyStep::Text => KeyStepView::Text,
        }
    }
}

/// Where a request stands.
#[derive(Debug)]
pub enum KeyProgress {
    /// The request waits for what comes of an action.
    Pending(KeyStep, KeyAction),
    /// The request ended, with an auth key or an error.
    Finished(Result<String, Error>),
}

/// The mathematical view of [`KeyProgress`].
#[verifier::ext_equal]
pub enum KeyProgressView {
    Pending(KeyStepView, KeyActionView),
    Finished(Result<Seq<char>, Seq<char>>),
}

impl View for KeyProgress {
    type V = KeyProgressView;

    open spec fn view(&self) -> KeyProgressView {
        match self {
            KeyProgress::Pending(step, action) => KeyProgressView::Pending(step@, action@),
            KeyProgress::Finished(Ok(key)) => KeyProgressView::Finished(Ok(key@)),
            KeyProgress::Finished(Err(error)) => KeyProgressView::Finished(Err(error@)),
        }
    }
}

/// A text as Rust's debug format writes it: quoted, with escapes.
pub uninterp spec fn debug_text(text: Seq<char>) -> Seq<char>;

/// Calls `std::fmt::Debug::fmt` of `String`, through `format!`: the text in quotes, with
/// escapes. Which characters are escaped is left unsaid.
#[verifier::external_body]
fn quote(text: &String) -> (quoted: String)
    ensures
        quoted@ == debug_text(text@),
{
    format!("{:?}", text)
}

/// The error for a request that was refused, with the quoted answer.
pub fn refused(quoted: &String) -> (error: Error)
    ensures
        error@ == refusal(quoted@),
{
    Error("Failed to create tailscale device token: ".to_string().concat(quoted.as_str()))
}

/// The text of the error for a request that was refused.
pub open spec fn refusal(quoted: Seq<char>) -> Seq<char> {
    "Failed to create tailscale device token: "@ + quoted
}

/// Asking for an auth key with this token.
pub open spec fn asking(token: Seq<char>, tags: Seq<Seq<char>>) -> KeyProgressView {
    KeyProgressView::Pending(
        KeyStepView::Create,
        KeyActionView::CreateKey {
            url: "https://api.tailscale.com/api/v2/tailnet/-/keys"@,
            token,
            body: key_request(tags),
        },
    )
}

fn ask(token: String, tags: Vec<String>) -> (progress: KeyProgress)
    ensures
        progress@ == asking(token@, tags.deep_view()),
{
    let url = "https://api.tailscale.com/api/v2/tailnet/-/keys".to_string();
    let body = make_key_request(tags);
    KeyProgress::Pending(KeyStep::Create, KeyAction::CreateKey { url, token, body })
}

impl TailscaleApiView {
    /// How a request for an auth key begins: with the remembered token if that is usable,
    /// else with a look at it that keeps others away.
    pub open spec fn begun(self, tags: Seq<Seq<char>>, now: int) -> KeyProgressView {
        if self.previous_token_response.usable(now) {
            asking(self.previous_token_response.token, tags)
        } else {
            KeyProgressView::Pending(KeyStepView::Lock { tags }, KeyActionView::LockToken)
        }
    }
}

impl TailscaleApi {
    /// Begins a request for an auth key with these tags.
    pub fn create_auth_token(&self, tags: Vec<String>, now: i128) -> (progress: KeyProgress)
        ensures
            progress@ == self@.begun(tags.deep_view(), now as int),
    {
        if self.previous_token_response.expires_at > now {
            ask(self.previous_token_response.token.clone(), tags)
        } else {
            KeyProgress::Pending(KeyStep::Lock { tags }, KeyAction::LockToken)
        }
    }
}

impl KeyStepView {
    /// The events that can come of the action that the request waits for.
    pub open spec fn accepts(self, event: KeyEventView) -> bool {
        match event {
            KeyEventView::Failed(_) => true,
            KeyEventView::TokenLocked { .. } => self is Lock,
            KeyEventView::TokenExchanged { lifetime, now, .. } => {
                &&& self is Exchange
                &&& usable_time(lifetime) <= i128::MAX
                &&& now + usable_time(lifetime) <= i128::MAX
            },
            KeyEventView::TokenStored => self is Store,
            KeyEventView::Responded(_) => self is Create,
            KeyEventView::KeyRead(_) => self is Key,
            KeyEventView::TextRead(_) => self is Text,
        }
    }

    /// What follows an event.
    pub open spec fn next(self, event: KeyEventView) -> KeyProgressView {
        match (self, event) {
            (_, KeyEventView::Failed(error)) => KeyProgressView::Finished(Err(error)),
            (KeyStepView::Lock { tags }, KeyEventView::TokenLocked { info, now }) => {
                if info.stale(now) {
                    KeyProgressView::Pending(
                        KeyStepView::Exchange { tags },
                        KeyActionView::ExchangeToken { scope: "devices:write"@ },
                    )
                } else {
                    asking(info.token, tags)
                }
            },
            (
                KeyStepView::Exchange { tags },
                KeyEventView::TokenExchanged { token, lifetime, now },
            ) => KeyProgressView::Pending(
                KeyStepView::Store { tags, token },
                KeyActionView::StoreToken {
                    info: TailscaleTokenInfoView {
                        token,
                        expires_at: now + usable_time(lifetime),
                    },
                },
            ),
            (KeyStepView::Store { tags, token }, KeyEventView::TokenStored) => {
                asking(token, tags)
            },
            (KeyStepView::Create, KeyEventView::Responded(status)) => if status == 200 {
                KeyProgressView::Pending(KeyStepView::Key, KeyActionView::ReadKey)
            } else {
                KeyProgressView::Pending(KeyStepView::Text, KeyActionView::ReadText)
            },
            (KeyStepView::Key, KeyEventView::KeyRead(response)) => {
                KeyProgressView::Finished(Ok(response.key))
            },
            (KeyStepView::Text, KeyEventView::TextRead(text)) => {
                KeyProgressView::Finished(Err(refusal(debug_text(text))))
            },
            _ => arbitrary(),
        }
    }
}

impl KeyStep {
    /// Whether this event can come of the action that the request waits for.
    pub fn accepts(&self, event: &KeyEvent) -> (accepted: bool)
        ensures
            accepted == self@.accepts(event@),
    {
        match event {
            KeyEvent::Failed(_) => true,
            KeyEvent::TokenLocked { .. } => matches!(self, KeyStep::Lock { .. }),
            KeyEvent::TokenExchanged { lifetime, now, .. } => {
                let lifetime: u128 = usable_lifetime(*lifetime);
                matches!(self, KeyStep::Exchange { .. }) && lifetime <= i128::MAX as u128 && (
                *now <= 0 || lifetime as i128 <= i128::MAX - *now)
            },
            KeyEvent::TokenStored => matches!(self, KeyStep::Store { .. }),
            KeyEvent::Responded(_) => matches!(self, KeyStep::Create),
            KeyEvent::KeyRead(_) => matches!(self, KeyStep::Key),
            KeyEvent::TextRead(_) => matches!(self, KeyStep::Text),
        }
    }

    /// Goes on with what came of the action that the request waits for.
    pub fn advance(self, event: KeyEvent) -> (progress: KeyProgress)
        requires
            self@.accepts(event@),
        ensures
            progress@ == self@.next(event@),
    {
        match (self, event) {
            (_, KeyEvent::Failed(error)) => KeyProgress::Finished(Err(error)),
            (KeyStep::Lock { tags }, KeyEvent::TokenLocked { info, now }) => {
                if info.expires_at < now {
                    let scope = "devices:write".to_string();
                    KeyProgress::Pending(
                        KeyStep::Exchange { tags },
                        KeyAction::ExchangeToken { scope },
                    )
                } else {
                    ask(info.token, tags)
                }
            },
            (
                KeyStep::Exchange { tags },
                KeyEvent::TokenExchanged { token, lifetime, now },
            ) => {
                let expires_at: i128 = now + usable_lifetime(lifetime) as i128;
                let info = TailscaleTokenInfo { token: token.clone(), expires_at };
                KeyProgress::Pending(
                    KeyStep::Store { tags, token },
                    KeyAction::StoreToken { info },
                )
            },
            (KeyStep::Store { tags, token }, KeyEvent::TokenStored) => ask(token, tags),
            (KeyStep::Create, KeyEvent::Responded(status)) => if status == 200 {
                KeyProgress::Pending(KeyStep::Key, KeyAction::ReadKey)
            } else {
                KeyProgress::Pending(KeyStep::Text, KeyAction::ReadText)
            },
            (KeyStep::Key, KeyEvent::KeyRead(response)) => KeyProgress::Finished(
                Ok(response.key),
            ),
            (KeyStep::Text, KeyEvent::TextRead(text)) => {
                let quoted = quote(&text);
                KeyProgress::Finished(Err(refused(&quoted)))
            },
            _ => unreached(),
        }
    }
}

} // verus!
