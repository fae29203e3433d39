//! The endpoints of the app login: password login, email verification and
//! QR codes. Each endpoint has a function that builds its request and one
//! that reads its response.

use vstd::prelude::*;
use vstd::string::StringExecFns;
use crate::components::auth::classify::{classification, classify, EndpointRules, OutcomeView};
use crate::components::auth::wire::{
    aigis_of, as_text, credentials_body, credentials_body_text, into_result, is_error_of,
    push_aigis, with_header,
};
use crate::error::{HoyoError, HoyolabError};
use crate::models::auth::cookie::AppLoginResult;
use crate::models::auth::geetest::SessionMMTResult;
use crate::models::auth::qrcode::{QRCodeCreationResult, QRCodeStatus};
use crate::models::auth::verification::ActionTicket;
use crate::models::common::{Method, ResponseEnvelope, SignedRequestSpec, SignedRequestSpecView};
use crate::utils::auth_constants::{
    APP_LOGIN_HEADERS, EMAIL_SEND_HEADERS, EMAIL_VERIFY_HEADERS, QRCODE_HEADERS,
};
use crate::utils::constants::DsSalt;
use crate::utils::ds::{generate_dynamic_secret, is_secret_under};
use crate::utils::json::{
    as_string, get_string_field, member, member_of, parse, string_field,
};
use crate::utils::routes::{
    APP_LOGIN_URL, CREATE_QRCODE_URL, SEND_VERIFICATION_CODE_URL, VERIFY_EMAIL_URL,
};
use crate::utils::text::{owned_pairs, pairs_of, pairs_of_table, push_pair};

verus! {

/// How the app login answers: `-3101` asks for a geetest, `-3239` for an
/// email verification, and a success brings a payload.
pub open spec fn app_login_rules() -> EndpointRules {
    EndpointRules {
        captcha_code: Some(-3101i32),
        email_verify_code: Some(-3239i32),
        needs_data: true,
    }
}

/// How sending a verification email answers: `-3101` asks for a geetest,
/// and a zero status is a success.
pub open spec fn send_email_rules() -> EndpointRules {
    EndpointRules { captcha_code: Some(-3101i32), email_verify_code: None, needs_data: false }
}

/// How an endpoint without challenges answers where a zero status is a success.
pub open spec fn plain_status_rules() -> EndpointRules {
    EndpointRules { captcha_code: None, email_verify_code: None, needs_data: false }
}

/// How an endpoint without challenges answers where a success brings a payload.
pub open spec fn plain_data_rules() -> EndpointRules {
    EndpointRules { captcha_code: None, email_verify_code: None, needs_data: true }
}

/// The value of the `x-rpc-verify` header for a ticket that may be absent.
pub open spec fn verify_of(ticket: Option<&ActionTicket>) -> Option<Seq<char>> {
    match ticket {
        Some(t) => Some(ActionTicket::rpc_verify_header(t@)),
        None => None,
    }
}

/// The app login request under a given signature.
pub open spec fn app_login_request_with(
    ds: Seq<char>,
    account: Seq<char>,
    password: Seq<char>,
    aigis: Option<Seq<char>>,
    verify: Option<Seq<char>>,
) -> SignedRequestSpecView {
    SignedRequestSpecView {
        method: Method::Post,
        url: APP_LOGIN_URL@,
        headers: with_header(
            with_header(
                pairs_of_table(APP_LOGIN_HEADERS@).push(("ds"@, ds)),
                "x-rpc-aigis"@,
                aigis,
            ),
            "x-rpc-verify"@,
            verify,
        ),
        query: Seq::empty(),
        body: Some(credentials_body(account, password)),
    }
}

/// Builds the app login request under a given signature, with the proof of
/// a solved geetest and the ticket of a verified email where there are any.
pub fn signed_app_login_request(
    ds: &str,
    enc_account: &str,
    enc_password: &str,
    mmt_result: Option<&SessionMMTResult>,
    ticket: Option<&ActionTicket>,
) -> (r: SignedRequestSpec)
    ensures
        r@ == app_login_request_with(
            ds@,
            enc_account@,
            enc_password@,
            aigis_of(mmt_result),
            verify_of(ticket),
        ),
{
    let mut headers = owned_pairs(&APP_LOGIN_HEADERS);
    push_pair(&mut headers, "ds", ds);
    push_aigis(&mut headers, mmt_result);
    match ticket {
        Some(t) => {
            let value = t.to_rpc_verify_header();
            push_pair(&mut headers, "x-rpc-verify", value.as_str());
        },
        None => {},
    }
    let query: Vec<(String, String)> = Vec::new();
    assert(pairs_of(query@) =~= Seq::empty());
    SignedRequestSpec {
        method: Method::Post,
        url: String::from_str(APP_LOGIN_URL),
        headers,
        query,
        body: Some(credentials_body_text(enc_account, enc_password)),
    }
}

/// Builds the app login request and signs it with the app login salt.
pub fn app_login_request(
    enc_account: &str,
    enc_password: &str,
    mmt_result: Option<&SessionMMTResult>,
    ticket: Option<&ActionTicket>,
) -> (r: SignedRequestSpec)
    ensures
        exists|ds: Seq<char>|
            is_secret_under(ds, DsSalt::AppLogin) && r@ == #[trigger] app_login_request_with(
                ds,
                enc_account@,
                enc_password@,
                aigis_of(mmt_result),
                verify_of(ticket),
            ),
{
    let ds = generate_dynamic_secret(DsSalt::AppLogin);
    signed_app_login_request(ds.as_str(), enc_account, enc_password, mmt_result, ticket)
}

/// Reads the answer to an app login: the session in the cookies of a
/// success, the challenge or the failure of anything else.
pub fn read_app_login(envelope: &ResponseEnvelope) -> (r: Result<AppLoginResult, HoyoError>)
    ensures
        match classification(envelope@, app_login_rules()) {
            OutcomeView::Success(data) => AppLoginResult::is_taken_from(r, envelope@.cookies, data),
            other => r matches Err(e) && is_error_of(e, other),
        },
{
    let rules = EndpointRules {
        captcha_code: Some(-3101),
        email_verify_code: Some(-3239),
        needs_data: true,
    };
    match into_result(classify(envelope, &rules)) {
        Ok(data) => AppLoginResult::from_parts(&envelope.cookies, as_text(&data)),
        Err(e) => Err(e),
    }
}

/// The body that asks for a verification email for a ticket.
pub open spec fn send_email_body(ticket: Seq<char>) -> Seq<char> {
    "{\"action_type\":\"verify_for_component\",\"action_ticket\":\""@ + ticket + "\"}"@
}

/// The request that asks for a verification email.
pub open spec fn send_email_request_of(
    ticket: Seq<char>,
    aigis: Option<Seq<char>>,
) -> SignedRequestSpecView {
    SignedRequestSpecView {
        method: Method::Post,
        url: SEND_VERIFICATION_CODE_URL@,
        headers: with_header(pairs_of_table(EMAIL_SEND_HEADERS@), "x-rpc-aigis"@, aigis),
        query: Seq::empty(),
        body: Some(send_email_body(ticket)),
    }
}

/// Builds the request that asks the service to send a verification email
/// for a ticket, with the proof of a solved geetest where there is one.
pub fn send_verification_email_request(
    ticket: &ActionTicket,
    mmt_result: Option<&SessionMMTResult>,
) -> (r: SignedRequestSpec)
    ensures
        r@ == send_email_request_of(ticket@.ticket, aigis_of(mmt_result)),
{
    let mut headers = owned_pairs(&EMAIL_SEND_HEADERS);
    push_aigis(&mut headers, mmt_result);
    let mut body = String::from_str(
        "{\"action_type\":\"verify_for_component\",\"action_ticket\":\"",
    );
    body.append(ticket.ticket.as_str());
    body.append("\"}");
    let query: Vec<(String, String)> = Vec::new();
    assert(pairs_of(query@) =~= Seq::empty());
    SignedRequestSpec {
        method: Method::Post,
        url: String::from_str(SEND_VERIFICATION_CODE_URL),
        headers,
        query,
        body: Some(body),
    }
}

/// Reads the answer to a request for a verification email.
pub fn read_send_verification_email(envelope: &ResponseEnvelope) -> (r: Result<(), HoyoError>)
    ensures
        match classification(envelope@, send_email_rules()) {
            OutcomeView::Success(_) => r is Ok,
            other => r matches Err(e) && is_error_of(e, other),
        },
{
    let rules = EndpointRules {
        captcha_code: Some(-3101),
        email_verify_code: None,
        needs_data: false,
    };
    match into_result(classify(envelope, &rules)) {
        Ok(_) => Ok(()),
        Err(e) => Err(e),
    }
}

/// The body that hands in an emailed code for a ticket.
pub open spec fn verify_email_body(ticket: Seq<char>, code: Seq<char>) -> Seq<char> {
    "{\"action_type\":\"verify_for_component\",\"action_ticket\":\""@ + ticket
        + "\",\"email_captcha\":\""@ + code + "\",\"verify_method\":2}"@
}

/// The request that hands in an emailed code.
pub open spec fn verify_email_request_of(
    ticket: Seq<char>,
    code: Seq<char>,
) -> SignedRequestSpecView {
    SignedRequestSpecView {
        method: Method::Post,
        url: VERIFY_EMAIL_URL@,
        headers: pairs_of_table(EMAIL_VERIFY_HEADERS@),
        query: Seq::empty(),
        body: Some(verify_email_body(ticket, code)),
    }
}

/// Builds the request that hands in the code the account owner received by email.
pub fn verify_email_request(code: &str, ticket: &ActionTicket) -> (r: SignedRequestSpec)
    ensures
        r@ == verify_email_request_of(ticket@.ticket, code@),
{
    let headers = owned_pairs(&EMAIL_VERIFY_HEADERS);
    let mut body = String::from_str(
        "{\"action_type\":\"verify_for_component\",\"action_ticket\":\"",
    );
    body.append(ticket.ticket.as_str());
    body.append("\",\"email_captcha\":\"");
    body.append(code);
    body.append("\",\"verify_method\":2}");
    let query: Vec<(String, String)> = Vec::new();
    assert(pairs_of(query@) =~= Seq::empty());
    SignedRequestSpec {
        method: Method::Post,
        url: String::from_str(VERIFY_EMAIL_URL),
        headers,
        query,
        body: Some(body),
    }
}

/// Reads the answer to a handed-in code.
pub fn read_verify_email(envelope: &ResponseEnvelope) -> (r: Result<(), HoyoError>)
    ensures
        match classification(envelope@, plain_status_rules()) {
            OutcomeView::Success(_) => r is Ok,
            other => r matches Err(e) && is_error_of(e, other),
        },
{
    let rules = EndpointRules { captcha_code: None, email_verify_code: None, needs_data: false };
    match into_result(classify(envelope, &rules)) {
        Ok(_) => Ok(()),
        Err(e) => Err(e),
    }
}

/// The request that creates a QR code login.
pub open spec fn create_qrcode_request_of() -> SignedRequestSpecView {
    SignedRequestSpecView {
        method: Method::Post,
        url: CREATE_QRCODE_URL@,
        headers: pairs_of_table(QRCODE_HEADERS@),
        query: Seq::empty(),
        body: None,
    }
}

/// Builds the request that creates a QR code login.
pub fn create_qrcode_request() -> (r: SignedRequestSpec)
    ensures
        r@ == create_qrcode_request_of(),
{
    let headers = owned_pairs(&QRCODE_HEADERS);
    let query: Vec<(String, String)> = Vec::new();
    assert(pairs_of(query@) =~= Seq::empty());
    SignedRequestSpec {
        method: Method::Post,
        url: String::from_str(CREATE_QRCODE_URL),
        headers,
        query,
        body: None,
    }
}

/// Whether `r` is what reading a created QR code out of a payload gives: the
/// strings `ticket` and `url`, or an `UnexpectedResponse` that names the
/// first of them that is missing.
pub open spec fn is_created_qrcode(
    r: Result<QRCodeCreationResult, HoyoError>,
    data: Seq<char>,
) -> bool {
    match r {
        Ok(created) => {
            &&& string_field(data, "ticket"@) == Some(created@.ticket)
            &&& string_field(data, "url"@) == Some(created@.url)
        },
        Err(e) => e matches HoyoError::UnexpectedResponse(what) && (if string_field(
            data,
            "ticket"@,
        ) is None {
            what@ == "ticket"@
        } else {
            string_field(data, "url"@) is None && what@ == "url"@
        }),
    }
}

/// Reads a created QR code out of a payload.
pub fn created_qrcode_of(data: &str) -> (r: Result<QRCodeCreationResult, HoyoError>)
    ensures
        is_created_qrcode(r, data@),
{
    let ticket = match get_string_field(data, "ticket") {
        Some(t) => t,
        None => {
            return Err(HoyoError::UnexpectedResponse(String::from_str("ticket")));
        },
    };
    let url = match get_string_field(data, "url") {
        Some(u) => u,
        None => {
            return Err(HoyoError::UnexpectedResponse(String::from_str("url")));
        },
    };
    Ok(QRCodeCreationResult { ticket, url })
}

/// Reads the answer to the creation of a QR code login.
pub fn read_create_qrcode(envelope: &ResponseEnvelope) -> (r: Result<
    QRCodeCreationResult,
    HoyoError,
>)
    ensures
        match classification(envelope@, plain_data_rules()) {
            OutcomeView::Success(data) => data is Some && is_created_qrcode(r, data.unwrap()),
            other => r matches Err(e) && is_error_of(e, other),
        },
{
    let rules = EndpointRules { captcha_code: None, email_verify_code: None, needs_data: true };
    match into_result(classify(envelope, &rules)) {
        Ok(Some(data)) => created_qrcode_of(data.as_str()),
        Ok(None) => Err(HoyoError::Hoyolab(HoyolabError::EmptyResponseData)),
        Err(e) => Err(e),
    }
}

/// The body that asks how far a QR code login has come. The ticket is
/// written into the body as it is, without quotes.
pub open spec fn check_qrcode_body(ticket: Seq<char>) -> Seq<char> {
    "{\"ticket\":"@ + ticket + "}"@
}

/// The request that asks how far a QR code login has come.
pub open spec fn check_qrcode_request_of(ticket: Seq<char>) -> SignedRequestSpecView {
    SignedRequestSpecView {
        method: Method::Post,
        url: CREATE_QRCODE_URL@,
        headers: pairs_of_table(QRCODE_HEADERS@),
        query: Seq::empty(),
        body: Some(check_qrcode_body(ticket)),
    }
}

/// Builds the request that asks how far a QR code login has come.
pub fn check_qrcode_request(ticket: &str) -> (r: SignedRequestSpec)
    ensures
        r@ == check_qrcode_request_of(ticket@),
{
    let headers = owned_pairs(&QRCODE_HEADERS);
    let mut body = String::from_str("{\"ticket\":");
    body.append(ticket);
    body.append("}");
    let query: Vec<(String, String)> = Vec::new();
    assert(pairs_of(query@) =~= Seq::empty());
    SignedRequestSpec {
        method: Method::Post,
        url: String::from_str(CREATE_QRCODE_URL),
        headers,
        query,
        body: Some(body),
    }
}

/// The status that a payload names, if it names one.
pub open spec fn named_status(data: Seq<char>) -> Option<QRCodeStatus> {
    match string_field(data, "status"@) {
        Some(name) => QRCodeStatus::of_name(name),
        None => None,
    }
}

/// Whether `r` is what reading the status of a QR code login out of a
/// payload gives: the status it names; `CouldNotGetStatus` where it has no
/// member `status`; a `SerdeError` where that member names no status.
pub open spec fn is_qrcode_status(r: Result<QRCodeStatus, HoyoError>, data: Seq<char>) -> bool {
    if member_of(data, "status"@) is None {
        r == Err::<QRCodeStatus, HoyoError>(HoyoError::Hoyolab(HoyolabError::CouldNotGetStatus))
    } else {
        match named_status(data) {
            Some(status) => r == Ok::<QRCodeStatus, HoyoError>(status),
            None => r matches Err(HoyoError::SerdeError(what)) && what@ == "status"@,
        }
    }
}

/// Reads the status of a QR code login out of a payload.
pub fn qrcode_status_of(data: &str) -> (r: Result<QRCodeStatus, HoyoError>)
    ensures
        is_qrcode_status(r, data@),
{
    let status = match parse(data) {
        Some(doc) => member(&doc, "status"),
        None => None,
    };
    match status {
        None => Err(HoyoError::Hoyolab(HoyolabError::CouldNotGetStatus)),
        Some(m) => {
            let named = match as_string(&m) {
                Some(name) => QRCodeStatus::from_name(name.as_str()),
                None => None,
            };
            match named {
                Some(status) => Ok(status),
                None => Err(HoyoError::SerdeError(String::from_str("status"))),
            }
        },
    }
}

/// Reads the answer to a question about a QR code login.
pub fn read_check_qrcode(envelope: &ResponseEnvelope) -> (r: Result<QRCodeStatus, HoyoError>)
    ensures
        match classification(envelope@, plain_data_rules()) {
            OutcomeView::Success(data) => data is Some && is_qrcode_status(r, data.unwrap()),
            other => r matches Err(e) && is_error_of(e, other),
        },
{
    let rules = EndpointRules { captcha_code: None, email_verify_code: None, needs_data: true };
    match into_result(classify(envelope, &rules)) {
        Ok(Some(data)) => qrcode_status_of(data.as_str()),
        Ok(None) => Err(HoyoError::Hoyolab(HoyolabError::EmptyResponseData)),
        Err(e) => Err(e),
    }
}

} // verus!
