//! Whole requests for an auth key: what holds of every one of them, whatever events come.

use crate::tailscale_api::{
    asking, debug_text, initial_api, key_request, refusal, usable_time, DeviceTokenResponseView,
    KeyActionView, KeyEventView, KeyProgressView, KeyStepView, TailscaleApiView, TailscaleTokenInfoView,
};
use vstd::prelude::*;

verus! {

/// A request from its beginning: where it stood, and the events in between.
pub struct KeyRun {
    pub states: Seq<KeyProgressView>,
    pub events: Seq<KeyEventView>,
}

impl KeyRun {
    /// What the request waited for after this many events.
    pub open spec fn step(self, i: int) -> KeyStepView {
        self.states[i]->Pending_0
    }

    /// What the request asked for after this many events.
    pub open spec fn action(self, i: int) -> KeyActionView {
        self.states[i]->Pending_1
    }

    /// One event took the request from one state to the next.
    pub open spec fn moves(self, i: int) -> bool {
        &&& self.states[i] is Pending
        &&& self.step(i).accepts(self.events[i])
        &&& self.states[i + 1] == self.step(i).next(self.events[i])
    }

    /// The request began with these tags at this time, and moved with each event.
    pub open spec fn valid(self, api: TailscaleApiView, tags: Seq<Seq<char>>, now: int) -> bool {
        &&& self.states.len() == self.events.len() + 1
        &&& self.states[0] == api.begun(tags, now)
        &&& forall|i: int| 0 <= i < self.events.len() ==> #[trigger] self.moves(i)
    }

    /// The remembered token was looked at by this request alone, and was not stale.
    pub open spec fn reuses(self, token: Seq<char>) -> bool {
        &&& self.action(0) is LockToken
        &&& self.events[0] is TokenLocked
        &&& self.events[0]->info.token == token
        &&& !self.events[0]->info.stale(self.events[0]->TokenLocked_now)
    }

    /// The remembered token was stale, a new one was asked for and is remembered.
    pub open spec fn renews(self, token: Seq<char>) -> bool {
        &&& self.action(0) is LockToken
        &&& self.events[0] is TokenLocked
        &&& self.events[0]->info.stale(self.events[0]->TokenLocked_now)
        &&& self.action(1) == (KeyActionView::ExchangeToken { scope: "devices:write"@ })
        &&& self.events[1] is TokenExchanged
        &&& self.events[1]->token == token
        &&& self.action(2) == (KeyActionView::StoreToken {
            info: TailscaleTokenInfoView {
                token,
                expires_at: self.events[1]->TokenExchanged_now + usable_time(
                    self.events[1]->lifetime,
                ),
            },
        })
        &&& self.events[2] == KeyEventView::TokenStored
    }

    spec fn sound(self, api: TailscaleApiView, tags: Seq<Seq<char>>, now: int, i: int) -> bool {
        match self.step(i) {
            KeyStepView::Lock { tags: own } => {
                &&& i == 0
                &&& own == tags
                &&& !api.previous_token_response.usable(now)
                &&& self.action(0) is LockToken
            },
            KeyStepView::Exchange { tags: own } => {
                &&& i == 1
                &&& own == tags
                &&& !api.previous_token_response.usable(now)
                &&& self.action(0) is LockToken
                &&& self.events[0] is TokenLocked
                &&& self.events[0]->info.stale(self.events[0]->TokenLocked_now)
                &&& self.action(1) == (KeyActionView::ExchangeToken { scope: "devices:write"@ })
            },
            KeyStepView::Store { tags: own, token } => {
                &&& i == 2
                &&& own == tags
                &&& !api.previous_token_response.usable(now)
                &&& self.action(0) is LockToken
                &&& self.events[0] is TokenLocked
                &&& self.events[0]->info.stale(self.events[0]->TokenLocked_now)
                &&& self.action(1) == (KeyActionView::ExchangeToken { scope: "devices:write"@ })
                &&& self.events[1] is TokenExchanged
                &&& self.events[1]->token == token
                &&& self.action(2) == (KeyActionView::StoreToken {
                    info: TailscaleTokenInfoView {
                        token,
                        expires_at: self.events[1]->TokenExchanged_now + usable_time(
                            self.events[1]->lifetime,
                        ),
                    },
                })
            },
            KeyStepView::Create => {
                &&& self.action(i) is CreateKey
                &&& self.action(i)->url == "https://api.tailscale.com/api/v2/tailnet/-/keys"@
                &&& self.action(i)->body == key_request(tags)
                &&& {
                    let token = self.action(i)->token;
                    ||| {
                        &&& i == 0
                        &&& api.previous_token_response.usable(now)
                        &&& token == api.previous_token_response.token
                    }
                    ||| {
                        &&& i == 1
                        &&& !api.previous_token_response.usable(now)
                        &&& self.reuses(token)
                    }
                    ||| {
                        &&& i == 3
                        &&& !api.previous_token_response.usable(now)
                        &&& self.renews(token)
                    }
                }
            },
            KeyStepView::Key => {
                &&& 0 < i <= 4
                &&& self.events[i - 1] == KeyEventView::Responded(200)
            },
            KeyStepView::Text => {
                &&& 0 < i <= 4
                &&& self.events[i - 1] is Responded
                &&& self.events[i - 1]->Responded_0 != 200
            },
        }
    }
}

proof fn lemma_sound(
    api: TailscaleApiView,
    tags: Seq<Seq<char>>,
    now: int,
    run: KeyRun,
    i: int,
)
    requires
        run.valid(api, tags, now),
        0 <= i < run.states.len(),
        run.states[i] is Pending,
    ensures
        run.sound(api, tags, now, i),
    decreases i,
{
    if i > 0 {
        assert(run.moves(i - 1));
        lemma_sound(api, tags, now, run, i - 1);
    }
}

/// A key is asked for with one of three tokens: the remembered one while it is usable, the
/// remembered one when a second look shows that it is not stale, or a new one, which is
/// then remembered until it expires. What is asked for depends on the tags alone.
pub proof fn keys_are_asked_for_with_a_current_token(
    api: TailscaleApiView,
    tags: Seq<Seq<char>>,
    now: int,
    run: KeyRun,
    i: int,
    token: Seq<char>,
)
    requires
        run.valid(api, tags, now),
        0 <= i < run.states.len(),
        run.states[i] is Pending,
        run.action(i) is CreateKey,
        run.action(i)->token == token,
    ensures
        run.action(i)->url == "https://api.tailscale.com/api/v2/tailnet/-/keys"@,
        run.action(i)->body == key_request(tags),
        if api.previous_token_response.usable(now) {
            i == 0 && token == api.previous_token_response.token
        } else {
            i == 1 && run.reuses(token) || i == 3 && run.renews(token)
        },
{
    lemma_sound(api, tags, now, run, i);
    if i > 0 {
        assert(run.moves(i - 1));
    }
}

/// A new token is asked for once in a request at the most, and only when the remembered
/// one is stale.
pub proof fn tokens_are_renewed_only_when_stale(
    api: TailscaleApiView,
    tags: Seq<Seq<char>>,
    now: int,
    run: KeyRun,
    i: int,
)
    requires
        run.valid(api, tags, now),
        0 <= i < run.states.len(),
        run.states[i] is Pending,
        run.action(i) is ExchangeToken,
    ensures
        i == 1,
        run.events[0] is TokenLocked,
        run.events[0]->info.stale(run.events[0]->TokenLocked_now),
{
    lemma_sound(api, tags, now, run, i);
    if i > 0 {
        assert(run.moves(i - 1));
    }
}

/// Every request ends: it takes five events at the most.
pub proof fn every_request_ends(
    api: TailscaleApiView,
    tags: Seq<Seq<char>>,
    now: int,
    run: KeyRun,
)
    requires
        run.valid(api, tags, now),
    ensures
        run.events.len() <= 5,
{
    let last = run.events.len() - 1;
    if last >= 0 {
        assert(run.moves(last));
        lemma_sound(api, tags, now, run, last);
    }
}

/// A request ends with a key only when the answer had status 200 and holds that key. It
/// ends with an error only when an action failed or the answer had another status.
pub proof fn answers_decide(
    api: TailscaleApiView,
    tags: Seq<Seq<char>>,
    now: int,
    run: KeyRun,
    i: int,
    outcome: Result<Seq<char>, Seq<char>>,
)
    requires
        run.valid(api, tags, now),
        0 <= i < run.states.len(),
        run.states[i] == KeyProgressView::Finished(outcome),
    ensures
        0 < i == run.events.len(),
        match outcome {
            Ok(key) => {
                &&& 1 < i
                &&& run.events[i - 2] == KeyEventView::Responded(200)
                &&& run.events[i - 1] is KeyRead
                &&& run.events[i - 1]->KeyRead_0.key == key
            },
            Err(error) => {
                ||| run.events[i - 1] == KeyEventView::Failed(error)
                ||| {
                    &&& 1 < i
                    &&& run.events[i - 2] is Responded
                    &&& run.events[i - 2]->Responded_0 != 200
                    &&& run.events[i - 1] is TextRead
                    &&& error == refusal(debug_text(run.events[i - 1]->TextRead_0))
                }
            },
        },
{
    assert(run.moves(i - 1));
    lemma_sound(api, tags, now, run, i - 1);
    if i < run.events.len() {
        assert(run.moves(i));
    }
}

/// The token that a client begins with is never used: the first request asks for a new
/// one, however late it comes.
pub proof fn first_request_asks_for_a_token(
    tags: Seq<Seq<char>>,
    start: int,
    now: int,
    later: int,
)
    requires
        start <= now <= later,
    ensures
        initial_api(start).begun(tags, now) == KeyProgressView::Pending(
            KeyStepView::Lock { tags },
            KeyActionView::LockToken,
        ),
        (KeyStepView::Lock { tags }).next(
            KeyEventView::TokenLocked {
                info: initial_api(start).previous_token_response,
                now: later,
            },
        ) == KeyProgressView::Pending(
            KeyStepView::Exchange { tags },
            KeyActionView::ExchangeToken { scope: "devices:write"@ },
        ),
{
}

/// A token that was remembered is used, without a further look, until it expires, and not
/// after that.
pub proof fn remembered_token_is_used_until_it_expires(
    api: TailscaleApiView,
    tags: Seq<Seq<char>>,
    now: int,
)
    ensures
        api.begun(tags, now) == asking(
            api.previous_token_response.token,
            tags,
        ) <==> now < api.previous_token_response.expires_at,
{
}

/// A key is asked for at one address, with the token in hand, for one device that may log
/// in within ten minutes, needs no approval and stays, and that gets the tags of the
/// request and no others.
pub proof fn keys_are_asked_for_on_fixed_terms(token: Seq<char>, tags: Seq<Seq<char>>)
    ensures
        asking(token, tags) is Pending,
        asking(token, tags)->Pending_0 is Create,
        asking(token, tags)->Pending_1 is CreateKey,
        asking(token, tags)->Pending_1->url == "https://api.tailscale.com/api/v2/tailnet/-/keys"@,
        asking(token, tags)->Pending_1->token == token,
        asking(token, tags)->Pending_1->body.create.tags == tags,
        asking(token, tags)->Pending_1->body.create.reusable == false,
        asking(token, tags)->Pending_1->body.create.ephemeral == false,
        asking(token, tags)->Pending_1->body.create.preauthorized == true,
        asking(token, tags)->Pending_1->body.expiry_seconds == Some(600i32),
        asking(token, tags)->Pending_1->body.description is None,
        asking(token, tags)->Pending_1->body == key_request(tags),
{
}

/// A request begins with the remembered token before that expires, and otherwise with a
/// look at it that keeps others away, with the tags kept in mind.
pub proof fn requests_begin_with_the_remembered_token(
    api: TailscaleApiView,
    tags: Seq<Seq<char>>,
    now: int,
)
    ensures
        now < api.previous_token_response.expires_at ==> api.begun(tags, now) == asking(
            api.previous_token_response.token,
            tags,
        ),
        now >= api.previous_token_response.expires_at ==> api.begun(tags, now)
            == KeyProgressView::Pending(KeyStepView::Lock { tags }, KeyActionView::LockToken),
{
}

/// A token that is looked at alone is used unless it expired before; else a new one is
/// asked for, which is remembered for as long as it was said, or for half an hour, and then
/// used. The tags stay the same throughout.
pub proof fn tokens_are_renewed_step_by_step(
    tags: Seq<Seq<char>>,
    info: TailscaleTokenInfoView,
    token: Seq<char>,
    lifetime: u128,
    now: int,
)
    ensures
        info.expires_at >= now ==> (KeyStepView::Lock { tags }).next(
            KeyEventView::TokenLocked { info, now },
        ) == asking(info.token, tags),
        info.expires_at < now ==> (KeyStepView::Lock { tags }).next(
            KeyEventView::TokenLocked { info, now },
        ) == KeyProgressView::Pending(
            KeyStepView::Exchange { tags },
            KeyActionView::ExchangeToken { scope: "devices:write"@ },
        ),
        (KeyStepView::Exchange { tags }).next(
            KeyEventView::TokenExchanged { token, lifetime: Some(lifetime), now },
        ) == KeyProgressView::Pending(
            KeyStepView::Store { tags, token },
            KeyActionView::StoreToken {
                info: TailscaleTokenInfoView { token, expires_at: now + lifetime },
            },
        ),
        (KeyStepView::Exchange { tags }).next(
            KeyEventView::TokenExchanged { token, lifetime: None, now },
        ) == KeyProgressView::Pending(
            KeyStepView::Store { tags, token },
            KeyActionView::StoreToken {
                info: TailscaleTokenInfoView { token, expires_at: now + 1800 * 1_000_000_000 },
            },
        ),
        (KeyStepView::Store { tags, token }).next(KeyEventView::TokenStored) == asking(
            token,
            tags,
        ),
{
}

/// An answer is a key if and only if its status is 200; any other is a refusal, whose text
/// comes back in quotes behind one sentence. A failed action ends the request in its error.
pub proof fn answers_are_read_by_their_status(
    step: KeyStepView,
    status: u16,
    response: DeviceTokenResponseView,
    text: Seq<char>,
    error: Seq<char>,
)
    ensures
        status == 200 ==> KeyStepView::Create.next(KeyEventView::Responded(status))
            == KeyProgressView::Pending(KeyStepView::Key, KeyActionView::ReadKey),
        status != 200 ==> KeyStepView::Create.next(KeyEventView::Responded(status))
            == KeyProgressView::Pending(KeyStepView::Text, KeyActionView::ReadText),
        KeyStepView::Key.next(KeyEventView::KeyRead(response)) == KeyProgressView::Finished(
            Ok(response.key),
        ),
        KeyStepView::Text.next(KeyEventView::TextRead(text)) == KeyProgressView::Finished(
            Err("Failed to create tailscale device token: "@ + debug_text(text)),
        ),
        step.next(KeyEventView::Failed(error)) == KeyProgressView::Finished(Err(error)),
        refusal(text) == "Failed to create tailscale device token: "@ + text,
{
}

/// In each step a request takes the events that its action can lead to, and any failure. A
/// lifetime has to fit the clock.
pub proof fn requests_take_their_own_events(step: KeyStepView, event: KeyEventView)
    ensures
        event is Failed ==> step.accepts(event),
        !(event is Failed) ==> match step {
            KeyStepView::Lock { .. } => step.accepts(event) <==> event is TokenLocked,
            KeyStepView::Exchange { .. } => step.accepts(event) <==> match event {
                KeyEventView::TokenExchanged { lifetime: Some(lifetime), now, .. } => {
                    lifetime <= i128::MAX && now + lifetime <= i128::MAX
                },
                KeyEventView::TokenExchanged { lifetime: None, now, .. } => {
                    now + 1800 * 1_000_000_000 <= i128::MAX
                },
                _ => false,
            },
            KeyStepView::Store { .. } => step.accepts(event) <==> event is TokenStored,
            KeyStepView::Create => step.accepts(event) <==> event is Responded,
            KeyStepView::Key => step.accepts(event) <==> event is KeyRead,
            KeyStepView::Text => step.accepts(event) <==> event is TextRead,
        },
{
}

/// A client begins with a token that expired one second before.
pub proof fn clients_begin_with_an_expired_token(now: int)
    ensures
        initial_api(now).previous_token_response.expires_at + 1_000_000_000 == now,
        initial_api(now).previous_token_response.token == "fake"@,
        initial_api(now).previous_token_response.stale(now),
        !initial_api(now).previous_token_response.usable(now),
{
}

} // verus!
