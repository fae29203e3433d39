//! The challenge classifier: what one response means for a login.

use vstd::prelude::*;
use crate::error::{ChallengeHeader, HoyoError, HoyolabError};
use crate::models::auth::geetest::{i32_field_or_zero, SessionMMT, SessionMMTView};
use crate::models::auth::verification::{ActionTicket, ActionTicketView};
use crate::models::common::{ResponseEnvelope, ResponseEnvelopeView};
use crate::utils::json::string_field;
use crate::utils::text::{find_first, first_value};

verus! {

/// How an endpoint's responses are read. Which codes ask for a challenge
/// differs from endpoint to endpoint, so each endpoint brings its own rules.
#[derive(Debug, Clone, Copy, PartialEq, Eq, Structural)]
pub struct EndpointRules {
    /// The status code with which the endpoint asks for a geetest, if it does.
    pub captcha_code: Option<i32>,
    /// The status code with which it asks for an email verification, if it does.
    pub email_verify_code: Option<i32>,
    /// Whether a success must bring a payload (`true`), or a zero status
    /// code alone is enough (`false`).
    pub needs_data: bool,
}

/// What a response means.
#[derive(Debug, Clone, PartialEq, Eq)]
pub enum Outcome {
    /// The request went through; the payload is handed on.
    Success(Option<String>),
    /// The service wants a geetest solved first.
    CaptchaRequired(SessionMMT),
    /// The service wants an email verification first.
    EmailVerifyRequired(ActionTicket),
    /// The request failed for good.
    Failure(HoyoError),
}

/// The contents of an [`Outcome`].
pub enum OutcomeView {
    Success(Option<Seq<char>>),
    CaptchaRequired(SessionMMTView),
    EmailVerifyRequired(ActionTicketView),
    Failure(HoyoError),
}

impl View for Outcome {
    type V = OutcomeView;

    open spec fn view(&self) -> OutcomeView {
        match *self {
            Outcome::Success(data) => OutcomeView::Success(
                match data {
                    Some(d) => Some(d@),
                    None => None,
                },
            ),
            Outcome::CaptchaRequired(mmt) => OutcomeView::CaptchaRequired(mmt@),
            Outcome::EmailVerifyRequired(ticket) => OutcomeView::EmailVerifyRequired(ticket@),
            Outcome::Failure(e) => OutcomeView::Failure(e),
        }
    }
}

impl EndpointRules {
    /// Whether a response that asks for no challenge reports failure: its
    /// status code is not zero, or it lacks the payload that the endpoint
    /// owes.
    pub open spec fn reports_failure(self, e: ResponseEnvelopeView) -> bool {
        e.retcode != 0 || (self.needs_data && e.data is None)
    }
}

/// What a response means under an endpoint's rules.
///
/// A challenge code is looked at first: the challenge is read from the
/// header that must carry it, and a header that is missing or holds no
/// challenge is a broken promise of the service, not a success and not a
/// reason to retry. Any other response fails with the error its status code
/// stands for, or succeeds with its payload.
pub open spec fn classification(e: ResponseEnvelopeView, rules: EndpointRules) -> OutcomeView {
    if rules.captcha_code == Some(e.retcode) {
        match first_value(e.headers, ChallengeHeader::Aigis.name()) {
            Some(text) => match SessionMMT::parsed(text) {
                Some(mmt) => OutcomeView::CaptchaRequired(mmt),
                None => OutcomeView::Failure(HoyoError::MalformedChallenge(ChallengeHeader::Aigis)),
            },
            None => OutcomeView::Failure(HoyoError::MalformedChallenge(ChallengeHeader::Aigis)),
        }
    } else if rules.email_verify_code == Some(e.retcode) {
        match first_value(e.headers, ChallengeHeader::Verify.name()) {
            Some(text) => match ActionTicket::parsed(text) {
                Some(ticket) => OutcomeView::EmailVerifyRequired(ticket),
                None => OutcomeView::Failure(
                    HoyoError::MalformedChallenge(ChallengeHeader::Verify),
                ),
            },
            None => OutcomeView::Failure(HoyoError::MalformedChallenge(ChallengeHeader::Verify)),
        }
    } else if rules.reports_failure(e) {
        OutcomeView::Failure(HoyoError::Hoyolab(HoyolabError::of_code(e.retcode)))
    } else {
        OutcomeView::Success(e.data)
    }
}

/// Reads the geetest challenge that a response must carry.
fn read_captcha(envelope: &ResponseEnvelope) -> (r: Outcome)
    ensures
        r@ == match first_value(envelope@.headers, ChallengeHeader::Aigis.name()) {
            Some(text) => match SessionMMT::parsed(text) {
                Some(mmt) => OutcomeView::CaptchaRequired(mmt),
                None => OutcomeView::Failure(HoyoError::MalformedChallenge(ChallengeHeader::Aigis)),
            },
            None => OutcomeView::Failure(HoyoError::MalformedChallenge(ChallengeHeader::Aigis)),
        },
{
    match find_first(&envelope.headers, ChallengeHeader::Aigis.val()) {
        Some(text) => match SessionMMT::parse(text.as_str()) {
            Some(mmt) => Outcome::CaptchaRequired(mmt),
            None => Outcome::Failure(HoyoError::MalformedChallenge(ChallengeHeader::Aigis)),
        },
        None => Outcome::Failure(HoyoError::MalformedChallenge(ChallengeHeader::Aigis)),
    }
}

/// Reads the email verification ticket that a response must carry.
fn read_email_verify(envelope: &ResponseEnvelope) -> (r: Outcome)
    ensures
        r@ == match first_value(envelope@.headers, ChallengeHeader::Verify.name()) {
            Some(text) => match ActionTicket::parsed(text) {
                Some(ticket) => OutcomeView::EmailVerifyRequired(ticket),
                None => OutcomeView::Failure(
                    HoyoError::MalformedChallenge(ChallengeHeader::Verify),
                ),
            },
            None => OutcomeView::Failure(HoyoError::MalformedChallenge(ChallengeHeader::Verify)),
        },
{
    match find_first(&envelope.headers, ChallengeHeader::Verify.val()) {
        Some(text) => match ActionTicket::parse(text.as_str()) {
            Some(ticket) => Outcome::EmailVerifyRequired(ticket),
            None => Outcome::Failure(HoyoError::MalformedChallenge(ChallengeHeader::Verify)),
        },
        None => Outcome::Failure(HoyoError::MalformedChallenge(ChallengeHeader::Verify)),
    }
}

/// Classifies a response under an endpoint's rules.
pub fn classify(envelope: &ResponseEnvelope, rules: &EndpointRules) -> (r: Outcome)
    ensures
        r@ == classification(envelope@, *rules),
{
    let is_captcha = match rules.captcha_code {
        Some(code) => code == envelope.retcode,
        None => false,
    };
    let is_email_verify = match rules.email_verify_code {
        Some(code) => code == envelope.retcode,
        None => false,
    };
    if is_captcha {
        read_captcha(envelope)
    } else if is_email_verify {
        read_email_verify(envelope)
    } else {
        let failed = envelope.retcode != 0 || (rules.needs_data && envelope.data.is_none());
        if failed {
            Outcome::Failure(HoyoError::Hoyolab(HoyolabError::from_code(envelope.retcode)))
        } else {
            match &envelope.data {
                Some(d) => Outcome::Success(Some(d.clone())),
                None => Outcome::Success(None),
            }
        }
    }
}

/// A response with a challenge code never counts as a success, whatever
/// else it holds.
pub proof fn lemma_challenge_code_is_no_success(e: ResponseEnvelopeView, rules: EndpointRules)
    requires
        rules.captcha_code == Some(e.retcode) || rules.email_verify_code == Some(e.retcode),
    ensures
        !(classification(e, rules) is Success),
{
}

/// A response that asks for a geetest without the header that carries one
/// is a malformed challenge.
pub proof fn lemma_captcha_without_header_is_malformed(
    e: ResponseEnvelopeView,
    rules: EndpointRules,
)
    requires
        rules.captcha_code == Some(e.retcode),
        first_value(e.headers, ChallengeHeader::Aigis.name()) is None,
    ensures
        classification(e, rules) == OutcomeView::Failure(
            HoyoError::MalformedChallenge(ChallengeHeader::Aigis),
        ),
{
}

/// Only a status code of zero is a success: every other code is a
/// challenge, a malformed challenge, or the failure that the code stands for,
/// whatever payload comes with it.
pub proof fn lemma_success_has_code_zero(e: ResponseEnvelopeView, rules: EndpointRules)
    ensures
        classification(e, rules) is Success ==> e.retcode == 0 && (rules.needs_data
            ==> e.data is Some),
        e.retcode != 0 && rules.captcha_code != Some(e.retcode) && rules.email_verify_code
            != Some(e.retcode) ==> classification(e, rules) == OutcomeView::Failure(
            HoyoError::Hoyolab(HoyolabError::of_code(e.retcode)),
        ),
{
}

/// A geetest code with a header gives the challenge that the header holds,
/// field for field: the three strings as the parser reads them, and the two
/// numbers as it reads them or zero where the header leaves them out.
pub proof fn lemma_captcha_header_gives_its_fields(
    e: ResponseEnvelopeView,
    rules: EndpointRules,
    text: Seq<char>,
    challenge: SessionMMTView,
)
    requires
        rules.captcha_code == Some(e.retcode),
        first_value(e.headers, ChallengeHeader::Aigis.name()) == Some(text),
        i32_field_or_zero(text, "new_captcha"@) == Some(challenge.new_captcha),
        i32_field_or_zero(text, "success"@) == Some(challenge.success),
        string_field(text, "challenge"@) == Some(challenge.challenge),
        string_field(text, "gt"@) == Some(challenge.gt),
        string_field(text, "session_id"@) == Some(challenge.session_id),
    ensures
        classification(e, rules) == OutcomeView::CaptchaRequired(challenge),
{
}

/// A failure that the classifier reports never carries a challenge: a
/// challenge is an outcome of its own.
pub proof fn lemma_failure_is_no_challenge(e: ResponseEnvelopeView, rules: EndpointRules)
    ensures
        classification(e, rules) matches OutcomeView::Failure(HoyoError::Hoyolab(h))
            ==> !h.is_challenge(),
{
    HoyolabError::lemma_code_is_never_a_challenge(e.retcode);
}

} // verus!
