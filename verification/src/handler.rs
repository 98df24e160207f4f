//! Request handling as a state machine: one gated request walks
//! `ReceivedCode → TokenExchanged → TierResolved → Responded`, with an
//! early exit to `Responded` when a stage fails.
//!
//! The driver outside the library performs the two outbound calls; the
//! machine decides, with an exact contract, which call comes next and
//! what the final HTTP status and body are. Token exchange strictly
//! precedes tier resolution, which strictly precedes output lookup.

use vstd::prelude::*;

use crate::config::Tiers;
use crate::resolver::TierError;
use crate::token::TokenError;
use crate::types::Tier;

verus! {

/// The HTTP status and body a request ends with.
pub struct Response {
    pub status: u16,
    pub body: String,
}

impl Clone for Response {
    fn clone(&self) -> (r: Self)
        ensures
            r == *self,
    {
        Response { status: self.status, body: self.body.clone() }
    }
}

/// Where a request stands.
pub enum HandlerState {
    /// The authorization code arrived; nothing exchanged yet.
    ReceivedCode,
    /// The code was exchanged; carries the access token.
    TokenExchanged(String),
    /// The caller's tier is known; the output lookup remains.
    TierResolved(Tier),
    /// The request is over; carries the response to send.
    Responded(Response),
}

/// The outcome of one outbound call, fed back into the machine.
pub enum HandlerEvent {
    TokenResult(Result<String, TokenError>),
    TierResult(Result<Tier, TierError>),
}

/// What the driver must do next for a request in a given state.
pub enum HandlerAction {
    /// Exchange the authorization code at the token endpoint.
    ExchangeToken,
    /// Query the identity endpoint with this access token.
    ResolveTier(String),
    /// Read a store snapshot and map this tier to its output.
    LookUpOutput(Tier),
    /// Send this response; the request is terminal.
    Respond(Response),
}

/// The transition relation of the outbound-call stages: how a state and
/// the event that arrived in it determine the next state. A failed token
/// exchange responds `401 Unauthorized`; a failed tier resolution
/// responds `500 Internal Server Error`; both with their fixed body. An
/// event that does not belong to the state leaves it unchanged.
pub open spec fn step_rel(state: HandlerState, event: HandlerEvent, next: HandlerState) -> bool {
    match (state, event) {
        (HandlerState::ReceivedCode, HandlerEvent::TokenResult(res)) => match res {
            Ok(token) => next == HandlerState::TokenExchanged(token),
            Err(_) => next matches HandlerState::Responded(resp) && resp.status == 401
                && resp.body@ == "Token request failed"@,
        },
        (HandlerState::TokenExchanged(_), HandlerEvent::TierResult(res)) => match res {
            Ok(tier) => next == HandlerState::TierResolved(tier),
            Err(_) => next matches HandlerState::Responded(resp) && resp.status == 500
                && resp.body@ == "Tier request failed"@,
        },
        _ => next == state,
    }
}

/// Advances a request by one outbound-call outcome.
pub fn post_api_step(state: HandlerState, event: HandlerEvent) -> (next: HandlerState)
    ensures
        step_rel(state, event, next),
{
    match (state, event) {
        (HandlerState::ReceivedCode, HandlerEvent::TokenResult(res)) => match res {
            Ok(token) => HandlerState::TokenExchanged(token),
            Err(_) => HandlerState::Responded(
                Response { status: 401, body: "Token request failed".to_owned() },
            ),
        },
        (HandlerState::TokenExchanged(token), HandlerEvent::TierResult(res)) => match res {
            Ok(tier) => HandlerState::TierResolved(tier),
            Err(_) => HandlerState::Responded(
                Response { status: 500, body: "Tier request failed".to_owned() },
            ),
        },
        (s, _) => s,
    }
}

/// The configured output value for a tier.
pub open spec fn spec_tier_output(tier: Tier, tiers: Tiers) -> Seq<char> {
    match tier {
        Tier::Bronze => tiers.bronze_tier@,
        Tier::Silver => tiers.silver_tier@,
        Tier::Gold => tiers.gold_tier@,
    }
}

/// Maps a tier to its configured output value.
pub fn tier_output(tier: Tier, tiers: &Tiers) -> (r: String)
    ensures
        r@ == spec_tier_output(tier, *tiers),
{
    match tier {
        Tier::Bronze => tiers.bronze_tier.clone(),
        Tier::Silver => tiers.silver_tier.clone(),
        Tier::Gold => tiers.gold_tier.clone(),
    }
}

/// The final stage's relation: a resolved tier becomes a `200 OK`
/// response whose body is exactly the tier's configured output, read
/// from the one snapshot the request takes at output lookup. Any other
/// state is left unchanged.
pub open spec fn output_rel(state: HandlerState, tiers: Tiers, next: HandlerState) -> bool {
    match state {
        HandlerState::TierResolved(tier) => next matches HandlerState::Responded(resp)
            && resp.status == 200 && resp.body@ == spec_tier_output(tier, tiers),
        _ => next == state,
    }
}

/// Runs the final stage: output lookup against a store snapshot.
pub fn output_step(state: HandlerState, tiers: &Tiers) -> (next: HandlerState)
    ensures
        output_rel(state, *tiers, next),
{
    match state {
        HandlerState::TierResolved(tier) => HandlerState::Responded(
            Response { status: 200, body: tier_output(tier, tiers) },
        ),
        s => s,
    }
}

/// What the driver must do next in each state: exchange first, resolve
/// second, look the output up third, respond last.
pub fn pending_action(state: &HandlerState) -> (r: HandlerAction)
    ensures
        match *state {
            HandlerState::ReceivedCode => r matches HandlerAction::ExchangeToken,
            HandlerState::TokenExchanged(token) => r matches HandlerAction::ResolveTier(t) && t
                == token,
            HandlerState::TierResolved(tier) => r matches HandlerAction::LookUpOutput(t) && t
                == tier,
            HandlerState::Responded(resp) => r matches HandlerAction::Respond(p) && p == resp,
        },
{
    match state {
        HandlerState::ReceivedCode => HandlerAction::ExchangeToken,
        HandlerState::TokenExchanged(token) => HandlerAction::ResolveTier(token.clone()),
        HandlerState::TierResolved(tier) => HandlerAction::LookUpOutput(*tier),
        HandlerState::Responded(resp) => HandlerAction::Respond(resp.clone()),
    }
}

/// A failed token exchange short-circuits the request: the machine
/// responds `401` with the fixed body at once. The responded state never
/// asks for tier resolution (its pending action is to send the
/// response), so no identity-endpoint call is made for this request.
pub proof fn lemma_token_failure_short_circuits(
    state: HandlerState,
    event: HandlerEvent,
    next: HandlerState,
)
    requires
        state matches HandlerState::ReceivedCode,
        event matches HandlerEvent::TokenResult(res) && res is Err,
        step_rel(state, event, next),
    ensures
        next matches HandlerState::Responded(resp) && resp.status == 401 && resp.body@
            == "Token request failed"@,
        !(next matches HandlerState::TokenExchanged(_)),
{
}

/// A request whose token exchange and tier resolution both succeed runs
/// the machine to a `200` response whose body is exactly the configured
/// output for the resolved tier.
pub proof fn lemma_successful_flow_yields_tier_output(
    token: String,
    tier: Tier,
    tiers: Tiers,
    s1: HandlerState,
    s2: HandlerState,
    s3: HandlerState,
)
    requires
        step_rel(HandlerState::ReceivedCode, HandlerEvent::TokenResult(Ok(token)), s1),
        step_rel(s1, HandlerEvent::TierResult(Ok(tier)), s2),
        output_rel(s2, tiers, s3),
    ensures
        s1 == HandlerState::TokenExchanged(token),
        s2 == HandlerState::TierResolved(tier),
        s3 matches HandlerState::Responded(resp) && resp.status == 200 && resp.body@
            == spec_tier_output(tier, tiers),
{
}

} // verus!
