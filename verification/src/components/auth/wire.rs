//! What the login endpoints have in common on the wire.

use vstd::prelude::*;
use vstd::string::StringExecFns;
use crate::components::auth::classify::{Outcome, OutcomeView};
use crate::error::{HoyoError, HoyolabError};
use crate::models::auth::cookie::text_of_str;
use crate::models::auth::geetest::SessionMMTResult;
use crate::utils::json::text_of;
use crate::utils::text::{pairs_of, push_pair, Pairs};

verus! {

/// A list of headers with one more header at its end, where there is one.
pub open spec fn with_header(headers: Pairs, name: Seq<char>, value: Option<Seq<char>>) -> Pairs {
    match value {
        Some(v) => headers.push((name, v)),
        None => headers,
    }
}

/// The value of the `x-rpc-aigis` header for a proof that may be absent.
pub open spec fn aigis_of(mmt_result: Option<&SessionMMTResult>) -> Option<Seq<char>> {
    match mmt_result {
        Some(proof) => Some(SessionMMTResult::aigis_header(proof@)),
        None => None,
    }
}

/// Attaches the proof of a solved geetest, where there is one.
pub fn push_aigis(headers: &mut Vec<(String, String)>, mmt_result: Option<&SessionMMTResult>)
    ensures
        pairs_of(final(headers)@) == with_header(
            pairs_of(old(headers)@),
            "x-rpc-aigis"@,
            aigis_of(mmt_result),
        ),
{
    match mmt_result {
        Some(proof) => {
            let value = proof.get_aigis_header();
            push_pair(headers, "x-rpc-aigis", value.as_str());
        },
        None => {},
    }
}

/// The body of a password login: the two encrypted credentials.
pub open spec fn credentials_body(account: Seq<char>, password: Seq<char>) -> Seq<char> {
    "{\"account\":\""@ + account + "\",\"password\":\""@ + password + "\"}"@
}

/// Writes the body of a password login.
pub fn credentials_body_text(enc_account: &str, enc_password: &str) -> (body: String)
    ensures
        body@ == credentials_body(enc_account@, enc_password@),
{
    let mut body = String::from_str("{\"account\":\"");
    body.append(enc_account);
    body.append("\",\"password\":\"");
    body.append(enc_password);
    body.append("\"}");
    body
}

/// Borrows a text that may be absent.
pub fn as_text(o: &Option<String>) -> (r: Option<&str>)
    ensures
        text_of_str(r) == text_of(*o),
{
    match o {
        Some(s) => Some(s.as_str()),
        None => None,
    }
}

/// Whether `e` is the error that an outcome other than success ends an
/// exchange with: a challenge travels inside the error, so that the caller
/// can answer it; a failure is handed on as it is.
pub open spec fn is_error_of(e: HoyoError, outcome: OutcomeView) -> bool {
    match outcome {
        OutcomeView::Success(_) => false,
        OutcomeView::CaptchaRequired(mmt) => e matches HoyoError::Hoyolab(
            HoyolabError::Captcha(carried),
        ) && carried@ == mmt,
        OutcomeView::EmailVerifyRequired(ticket) => e matches HoyoError::Hoyolab(
            HoyolabError::EmailVerify(carried),
        ) && carried@ == ticket,
        OutcomeView::Failure(f) => e == f,
    }
}

/// Turns an outcome into the payload of a success or the error of anything else.
pub fn into_result(outcome: Outcome) -> (r: Result<Option<String>, HoyoError>)
    ensures
        match r {
            Ok(data) => outcome@ == OutcomeView::Success(
                match data {
                    Some(d) => Some(d@),
                    None => None,
                },
            ),
            Err(e) => is_error_of(e, outcome@),
        },
{
    match outcome {
        Outcome::Success(data) => Ok(data),
        Outcome::CaptchaRequired(mmt) => Err(HoyoError::Hoyolab(HoyolabError::Captcha(mmt))),
        Outcome::EmailVerifyRequired(ticket) => Err(
            HoyoError::Hoyolab(HoyolabError::EmailVerify(ticket)),
        ),
        Outcome::Failure(e) => Err(e),
    }
}

} // verus!
