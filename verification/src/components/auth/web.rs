//! The endpoints of the web login: password login in both regions and the
//! mobile login with a one-time code. Each endpoint has a function that
//! builds its request and one that reads its response.

use vstd::prelude::*;
use vstd::string::StringExecFns;
use vstd::utf8::{encode_utf8, is_ascii_chars_encode_utf8};
use crate::components::auth::app::plain_data_rules;
use crate::components::auth::classify::{classification, classify, EndpointRules, OutcomeView};
use crate::components::auth::wire::{
    aigis_of, as_text, credentials_body, credentials_body_text, into_result, is_error_of,
    push_aigis, with_header,
};
use crate::error::{HoyoError, HoyolabError};
use crate::models::auth::cookie::{
    MobileLoginResult, StoredCookie, StoredCookieView, WebLoginResult,
};
use crate::models::auth::geetest::SessionMMTResult;
use crate::models::common::{Method, ResponseEnvelope, SignedRequestSpec, SignedRequestSpecView};
use crate::utils::auth_constants::{
    encryption_failure, has_ciphertext_shape, hoyo_encrypt, CN_LOGIN_HEADERS, OS_LOGIN_RSA_KEY,
    WEB_LOGIN_HEADERS,
};
use crate::utils::common::Region;
use crate::utils::constants::DsSalt;
use crate::utils::ds::{generate_dynamic_secret, is_secret_under};
use crate::utils::json::{get_member, member_of};
use crate::utils::routes::{
    CHECK_MOBILE_VALIDITY_URL, CN_WEB_LOGIN_URL, MOBILE_LOGIN_URL, MOBILE_OTP_URL,
    OS_WEB_LOGIN_URL,
};
use crate::utils::text::{
    decimal, natural_digits, owned_pairs, pairs_of, pairs_of_table, push_decimal, push_natural,
    push_pair,
};

verus! {

/// How the overseas web login answers: `-3101` asks for a geetest, and a
/// success brings a payload.
pub open spec fn os_web_login_rules() -> EndpointRules {
    EndpointRules { captcha_code: Some(-3101i32), email_verify_code: None, needs_data: true }
}

/// How the Chinese web login answers: `-3102` asks for a geetest, and a
/// success brings a payload.
pub open spec fn cn_web_login_rules() -> EndpointRules {
    EndpointRules { captcha_code: Some(-3102i32), email_verify_code: None, needs_data: true }
}

/// How the request for a one-time code answers: `-3101` asks for a
/// geetest, and a success brings a payload.
pub open spec fn mobile_otp_rules() -> EndpointRules {
    EndpointRules { captcha_code: Some(-3101i32), email_verify_code: None, needs_data: true }
}

/// How the login with a one-time code answers: it asks for no challenge,
/// and a success brings a payload.
pub open spec fn mobile_login_rules() -> EndpointRules {
    plain_data_rules()
}

/// The body of the overseas web login: the credentials and the kind of
/// token asked for, as a quoted number.
pub open spec fn os_web_login_body(account: Seq<char>, password: Seq<char>, token_type: int) -> Seq<
    char,
> {
    "{\"account\":\""@ + account + "\",\"password\":\""@ + password + "\",\"token_type\":\""@
        + decimal(token_type) + "\"}"@
}

/// The overseas web login request.
pub open spec fn os_web_login_request_of(
    account: Seq<char>,
    password: Seq<char>,
    aigis: Option<Seq<char>>,
    token_type: int,
) -> SignedRequestSpecView {
    SignedRequestSpecView {
        method: Method::Post,
        url: OS_WEB_LOGIN_URL@,
        headers: with_header(pairs_of_table(WEB_LOGIN_HEADERS@), "x-rpc-aigis"@, aigis),
        query: Seq::empty(),
        body: Some(os_web_login_body(account, password, token_type)),
    }
}

/// Builds the overseas web login request, with the proof of a solved
/// geetest where there is one. This endpoint takes no signature.
pub fn os_web_login_request(
    enc_account: &str,
    enc_password: &str,
    mmt_result: Option<&SessionMMTResult>,
    token_type: i32,
) -> (r: SignedRequestSpec)
    ensures
        r@ == os_web_login_request_of(
            enc_account@,
            enc_password@,
            aigis_of(mmt_result),
            token_type as int,
        ),
{
    let mut headers = owned_pairs(&WEB_LOGIN_HEADERS);
    push_aigis(&mut headers, mmt_result);
    let mut body = String::from_str("{\"account\":\"");
    body.append(enc_account);
    body.append("\",\"password\":\"");
    body.append(enc_password);
    body.append("\",\"token_type\":\"");
    push_decimal(&mut body, token_type as i64);
    body.append("\"}");
    let query: Vec<(String, String)> = Vec::new();
    assert(pairs_of(query@) =~= Seq::empty());
    SignedRequestSpec {
        method: Method::Post,
        url: String::from_str(OS_WEB_LOGIN_URL),
        headers,
        query,
        body: Some(body),
    }
}

/// The long-lived session token that a login payload holds, as the cookie
/// to keep for the login address: the member `stoken` as JSON text.
pub open spec fn stoken_cookie(data: Seq<char>) -> Option<StoredCookieView> {
    match member_of(data, "stoken"@) {
        Some(token) => Some(
            StoredCookieView { name: "stoken"@, value: token, url: OS_WEB_LOGIN_URL@ },
        ),
        None => None,
    }
}

/// The contents of a cookie that may be absent.
pub open spec fn cookie_of(cookie: Option<StoredCookie>) -> Option<StoredCookieView> {
    match cookie {
        Some(c) => Some(c@),
        None => None,
    }
}

/// Takes the long-lived session token out of a login payload.
pub fn stoken_cookie_of(data: &str) -> (r: Option<StoredCookie>)
    ensures
        cookie_of(r) == stoken_cookie(data@),
{
    match get_member(data, "stoken") {
        Some(token) => Some(
            StoredCookie {
                name: String::from_str("stoken"),
                value: token,
                url: String::from_str(OS_WEB_LOGIN_URL),
            },
        ),
        None => None,
    }
}

/// A finished overseas web login: the session, and the cookie to put into
/// the shared store before the session is handed on.
#[derive(Debug, Clone, PartialEq, Eq)]
pub struct OsWebLogin {
    pub session: WebLoginResult,
    pub stoken: Option<StoredCookie>,
}

/// Whether `r` is what a successful overseas web login with the given
/// payload and cookies gives.
pub open spec fn is_os_web_login(
    r: Result<OsWebLogin, HoyoError>,
    data: Seq<char>,
    cookies: crate::utils::text::Pairs,
) -> bool {
    match r {
        Ok(login) => {
            &&& WebLoginResult::is_taken_from(Ok(login.session), cookies, Some(data))
            &&& cookie_of(login.stoken) == stoken_cookie(data)
        },
        Err(e) => WebLoginResult::is_taken_from(Err(e), cookies, Some(data)),
    }
}

/// Reads the answer to an overseas web login.
pub fn read_os_web_login(envelope: &ResponseEnvelope) -> (r: Result<OsWebLogin, HoyoError>)
    ensures
        match classification(envelope@, os_web_login_rules()) {
            OutcomeView::Success(data) => data is Some && is_os_web_login(
                r,
                data.unwrap(),
                envelope@.cookies,
            ),
            other => r matches Err(e) && is_error_of(e, other),
        },
{
    let rules = EndpointRules {
        captcha_code: Some(-3101),
        email_verify_code: None,
        needs_data: true,
    };
    match into_result(classify(envelope, &rules)) {
        Ok(Some(data)) => {
            let stoken = stoken_cookie_of(data.as_str());
            match WebLoginResult::from_parts(&envelope.cookies, Some(data.as_str())) {
                Ok(session) => Ok(OsWebLogin { session, stoken }),
                Err(e) => Err(e),
            }
        },
        Ok(None) => Err(HoyoError::Hoyolab(HoyolabError::EmptyResponseData)),
        Err(e) => Err(e),
    }
}

/// The Chinese web login request under a given signature.
pub open spec fn cn_web_login_request_with(
    ds: Seq<char>,
    account: Seq<char>,
    password: Seq<char>,
    aigis: Option<Seq<char>>,
) -> SignedRequestSpecView {
    SignedRequestSpecView {
        method: Method::Post,
        url: CN_WEB_LOGIN_URL@,
        headers: with_header(
            pairs_of_table(CN_LOGIN_HEADERS@).push(("ds"@, ds)),
            "x-rpc-aigis"@,
            aigis,
        ),
        query: Seq::empty(),
        body: Some(credentials_body(account, password)),
    }
}

/// Builds the Chinese web login request under a given signature, with the
/// proof of a solved geetest where there is one.
pub fn signed_cn_web_login_request(
    ds: &str,
    enc_account: &str,
    enc_password: &str,
    mmt_result: Option<&SessionMMTResult>,
) -> (r: SignedRequestSpec)
    ensures
        r@ == cn_web_login_request_with(ds@, enc_account@, enc_password@, aigis_of(mmt_result)),
{
    let mut headers = owned_pairs(&CN_LOGIN_HEADERS);
    push_pair(&mut headers, "ds", ds);
    push_aigis(&mut headers, mmt_result);
    let query: Vec<(String, String)> = Vec::new();
    assert(pairs_of(query@) =~= Seq::empty());
    SignedRequestSpec {
        method: Method::Post,
        url: String::from_str(CN_WEB_LOGIN_URL),
        headers,
        query,
        body: Some(credentials_body_text(enc_account, enc_password)),
    }
}

/// Builds the Chinese web login request and signs it with the Chinese salt.
pub fn cn_web_login_request(
    enc_account: &str,
    enc_password: &str,
    mmt_result: Option<&SessionMMTResult>,
) -> (r: SignedRequestSpec)
    ensures
        exists|ds: Seq<char>|
            is_secret_under(ds, DsSalt::Chinese) && r@ == #[trigger] cn_web_login_request_with(
                ds,
                enc_account@,
                enc_password@,
                aigis_of(mmt_result),
            ),
{
    let ds = generate_dynamic_secret(DsSalt::Chinese);
    signed_cn_web_login_request(ds.as_str(), enc_account, enc_password, mmt_result)
}

/// Reads the answer to a Chinese web login.
pub fn read_cn_web_login(envelope: &ResponseEnvelope) -> (r: Result<WebLoginResult, HoyoError>)
    ensures
        match classification(envelope@, cn_web_login_rules()) {
            OutcomeView::Success(data) => WebLoginResult::is_taken_from(r, envelope@.cookies, data),
            other => r matches Err(e) && is_error_of(e, other),
        },
{
    let rules = EndpointRules {
        captcha_code: Some(-3102),
        email_verify_code: None,
        needs_data: true,
    };
    match into_result(classify(envelope, &rules)) {
        Ok(data) => WebLoginResult::from_parts(&envelope.cookies, as_text(&data)),
        Err(e) => Err(e),
    }
}

/// The body that asks for a one-time code: the encrypted number and the
/// encrypted area code.
pub open spec fn mobile_otp_body(mobile: Seq<char>, area_code: Seq<char>) -> Seq<char> {
    "{\"mobile\":\""@ + mobile + "\",\"area_code\":\""@ + area_code + "\"}"@
}

/// The request for a one-time code, under a given signature and area code.
pub open spec fn mobile_otp_request_with(
    ds: Seq<char>,
    mobile: Seq<char>,
    area_code: Seq<char>,
    aigis: Option<Seq<char>>,
) -> SignedRequestSpecView {
    SignedRequestSpecView {
        method: Method::Post,
        url: MOBILE_OTP_URL@,
        headers: with_header(
            pairs_of_table(CN_LOGIN_HEADERS@).push(("ds"@, ds)),
            "x-rpc-aigis"@,
            aigis,
        ),
        query: Seq::empty(),
        body: Some(mobile_otp_body(mobile, area_code)),
    }
}

/// Builds the request for a one-time code under a given signature and an
/// encrypted area code.
pub fn signed_mobile_otp_request(
    ds: &str,
    enc_mobile: &str,
    enc_area_code: &str,
    mmt_result: Option<&SessionMMTResult>,
) -> (r: SignedRequestSpec)
    ensures
        r@ == mobile_otp_request_with(ds@, enc_mobile@, enc_area_code@, aigis_of(mmt_result)),
{
    let mut headers = owned_pairs(&CN_LOGIN_HEADERS);
    push_pair(&mut headers, "ds", ds);
    push_aigis(&mut headers, mmt_result);
    let mut body = String::from_str("{\"mobile\":\"");
    body.append(enc_mobile);
    body.append("\",\"area_code\":\"");
    body.append(enc_area_code);
    body.append("\"}");
    let query: Vec<(String, String)> = Vec::new();
    assert(pairs_of(query@) =~= Seq::empty());
    SignedRequestSpec {
        method: Method::Post,
        url: String::from_str(MOBILE_OTP_URL),
        headers,
        query,
        body: Some(body),
    }
}

/// The area code of mainland China.
pub const CN_AREA_CODE: &'static str = "+86";

/// The area code of mainland China has three bytes.
pub proof fn lemma_area_code_has_three_bytes()
    ensures
        encode_utf8(CN_AREA_CODE@).len() == 3,
{
    reveal_strlit("+86");
    is_ascii_chars_encode_utf8(CN_AREA_CODE@);
}

/// Builds the request for a one-time code to a number in mainland China:
/// encrypts the area code `+86` and signs with the sign-in salt. It fails
/// only where the area code cannot be encrypted, with the error that says
/// why not.
pub fn send_mobile_otp_request(enc_mobile: &str, mmt_result: Option<&SessionMMTResult>) -> (r:
    Result<SignedRequestSpec, HoyoError>)
    ensures
        match encryption_failure(3, OS_LOGIN_RSA_KEY@) {
            None => r matches Ok(request) && exists|ds: Seq<char>, area_code: Seq<char>|
                {
                    &&& is_secret_under(ds, DsSalt::CnSignin)
                    &&& has_ciphertext_shape(area_code, OS_LOGIN_RSA_KEY@)
                    &&& request@ == #[trigger] mobile_otp_request_with(
                        ds,
                        enc_mobile@,
                        area_code,
                        aigis_of(mmt_result),
                    )
                },
            Some(e) => r matches Err(failure) && failure == e,
        },
{
    proof {
        lemma_area_code_has_three_bytes();
    }
    let ds = generate_dynamic_secret(DsSalt::CnSignin);
    match hoyo_encrypt(CN_AREA_CODE, Region::Chinese) {
        Ok(area_code) => {
            let request = signed_mobile_otp_request(
                ds.as_str(),
                enc_mobile,
                area_code.as_str(),
                mmt_result,
            );
            assert(is_secret_under(ds@, DsSalt::CnSignin) && has_ciphertext_shape(
                area_code@,
                OS_LOGIN_RSA_KEY@,
            ) && request@ == mobile_otp_request_with(
                ds@,
                enc_mobile@,
                area_code@,
                aigis_of(mmt_result),
            ));
            Ok(request)
        },
        Err(e) => Err(e),
    }
}

/// Reads the answer to a request for a one-time code.
pub fn read_send_mobile_otp(envelope: &ResponseEnvelope) -> (r: Result<(), HoyoError>)
    ensures
        match classification(envelope@, mobile_otp_rules()) {
            OutcomeView::Success(_) => r is Ok,
            other => r matches Err(e) && is_error_of(e, other),
        },
{
    let rules = EndpointRules {
        captcha_code: Some(-3101),
        email_verify_code: None,
        needs_data: true,
    };
    match into_result(classify(envelope, &rules)) {
        Ok(_) => Ok(()),
        Err(e) => Err(e),
    }
}

/// The body of a login with a one-time code.
pub open spec fn mobile_login_body(mobile: Seq<char>, area_code: Seq<char>, otp: Seq<char>) -> Seq<
    char,
> {
    "{\"mobile\":\""@ + mobile + "\",\"area_code\":\""@ + area_code + "\",\"captcha\":\""@ + otp
        + "\"}"@
}

/// The login with a one-time code, under a given signature and area code.
pub open spec fn mobile_login_request_with(
    ds: Seq<char>,
    mobile: Seq<char>,
    area_code: Seq<char>,
    otp: Seq<char>,
) -> SignedRequestSpecView {
    SignedRequestSpecView {
        method: Method::Post,
        url: MOBILE_LOGIN_URL@,
        headers: pairs_of_table(CN_LOGIN_HEADERS@).push(("ds"@, ds)),
        query: Seq::empty(),
        body: Some(mobile_login_body(mobile, area_code, otp)),
    }
}

/// Builds the login with a one-time code under a given signature and an
/// encrypted area code.
pub fn signed_mobile_login_request(
    ds: &str,
    enc_mobile: &str,
    enc_area_code: &str,
    otp: &str,
) -> (r: SignedRequestSpec)
    ensures
        r@ == mobile_login_request_with(ds@, enc_mobile@, enc_area_code@, otp@),
{
    let mut headers = owned_pairs(&CN_LOGIN_HEADERS);
    push_pair(&mut headers, "ds", ds);
    let mut body = String::from_str("{\"mobile\":\"");
    body.append(enc_mobile);
    body.append("\",\"area_code\":\"");
    body.append(enc_area_code);
    body.append("\",\"captcha\":\"");
    body.append(otp);
    body.append("\"}");
    let query: Vec<(String, String)> = Vec::new();
    assert(pairs_of(query@) =~= Seq::empty());
    SignedRequestSpec {
        method: Method::Post,
        url: String::from_str(MOBILE_LOGIN_URL),
        headers,
        query,
        body: Some(body),
    }
}

/// Builds the login with a one-time code for a number in mainland China:
/// encrypts the area code `+86` and signs with the sign-in salt. It fails
/// only where the area code cannot be encrypted, with the error that says
/// why not.
pub fn login_with_mobile_otp_request(enc_mobile: &str, otp: &str) -> (r: Result<
    SignedRequestSpec,
    HoyoError,
>)
    ensures
        match encryption_failure(3, OS_LOGIN_RSA_KEY@) {
            None => r matches Ok(request) && exists|ds: Seq<char>, area_code: Seq<char>|
                {
                    &&& is_secret_under(ds, DsSalt::CnSignin)
                    &&& has_ciphertext_shape(area_code, OS_LOGIN_RSA_KEY@)
                    &&& request@ == #[trigger] mobile_login_request_with(
                        ds,
                        enc_mobile@,
                        area_code,
                        otp@,
                    )
                },
            Some(e) => r matches Err(failure) && failure == e,
        },
{
    proof {
        lemma_area_code_has_three_bytes();
    }
    let ds = generate_dynamic_secret(DsSalt::CnSignin);
    match hoyo_encrypt(CN_AREA_CODE, Region::Chinese) {
        Ok(area_code) => {
            let request = signed_mobile_login_request(
                ds.as_str(),
                enc_mobile,
                area_code.as_str(),
                otp,
            );
            assert(is_secret_under(ds@, DsSalt::CnSignin) && has_ciphertext_shape(
                area_code@,
                OS_LOGIN_RSA_KEY@,
            ) && request@ == mobile_login_request_with(ds@, enc_mobile@, area_code@, otp@));
            Ok(request)
        },
        Err(e) => Err(e),
    }
}

/// Reads the answer to a login with a one-time code.
pub fn read_login_with_mobile_otp(envelope: &ResponseEnvelope) -> (r: Result<
    MobileLoginResult,
    HoyoError,
>)
    ensures
        match classification(envelope@, mobile_login_rules()) {
            OutcomeView::Success(data) => MobileLoginResult::is_taken_from(
                r,
                envelope@.cookies,
                data,
            ),
            other => r matches Err(e) && is_error_of(e, other),
        },
{
    let rules = EndpointRules { captcha_code: None, email_verify_code: None, needs_data: true };
    match into_result(classify(envelope, &rules)) {
        Ok(data) => MobileLoginResult::from_parts(&envelope.cookies, as_text(&data)),
        Err(e) => Err(e),
    }
}

/// The question whether a mobile number is registered.
pub open spec fn mobile_validity_request_of(mobile: nat) -> SignedRequestSpecView {
    SignedRequestSpecView {
        method: Method::Get,
        url: CHECK_MOBILE_VALIDITY_URL@,
        headers: Seq::empty(),
        query: seq![("mobile"@, natural_digits(mobile))],
        body: None,
    }
}

/// Builds the question whether a mobile number is registered.
pub fn check_mobile_number_validity_request(mobile: u64) -> (r: SignedRequestSpec)
    ensures
        r@ == mobile_validity_request_of(mobile as nat),
{
    let headers: Vec<(String, String)> = Vec::new();
    let mut digits = String::new();
    push_natural(&mut digits, mobile);
    let mut query: Vec<(String, String)> = Vec::new();
    push_pair(&mut query, "mobile", digits.as_str());
    proof {
        assert(pairs_of(headers@) =~= Seq::empty());
        assert(Seq::<char>::empty() + natural_digits(mobile as nat) == natural_digits(
            mobile as nat,
        ));
        assert(pairs_of(query@) =~= seq![("mobile"@, natural_digits(mobile as nat))]);
    }
    SignedRequestSpec {
        method: Method::Get,
        url: String::from_str(CHECK_MOBILE_VALIDITY_URL),
        headers,
        query,
        body: None,
    }
}

/// Whether `r` is what a payload says of a mobile number: the number is
/// registered where the members `status` and `is_registable` differ as
/// JSON text; a payload without one of them is an `UnexpectedResponse`.
pub open spec fn is_mobile_validity(r: Result<bool, HoyoError>, data: Seq<char>) -> bool {
    match (member_of(data, "status"@), member_of(data, "is_registable"@)) {
        (Some(status), Some(registable)) => r == Ok::<bool, HoyoError>(status != registable),
        (None, _) => r matches Err(HoyoError::UnexpectedResponse(what)) && what@
            == "no status found"@,
        (Some(_), None) => r matches Err(HoyoError::UnexpectedResponse(what)) && what@
            == "no is_registable found"@,
    }
}

/// Reads out of a payload whether a mobile number is registered.
pub fn mobile_validity_of(data: &str) -> (r: Result<bool, HoyoError>)
    ensures
        is_mobile_validity(r, data@),
{
    let status = match get_member(data, "status") {
        Some(s) => s,
        None => {
            return Err(HoyoError::UnexpectedResponse(String::from_str("no status found")));
        },
    };
    let registable = match get_member(data, "is_registable") {
        Some(s) => s,
        None => {
            return Err(
                HoyoError::UnexpectedResponse(String::from_str("no is_registable found")),
            );
        },
    };
    Ok(!status.as_str().eq(registable.as_str()))
}

/// Reads the answer to the question whether a mobile number is registered.
pub fn read_check_mobile_number_validity(envelope: &ResponseEnvelope) -> (r: Result<
    bool,
    HoyoError,
>)
    ensures
        match classification(envelope@, plain_data_rules()) {
            OutcomeView::Success(data) => data is Some && is_mobile_validity(r, data.unwrap()),
            other => r matches Err(e) && is_error_of(e, other),
        },
{
    let rules = EndpointRules { captcha_code: None, email_verify_code: None, needs_data: true };
    match into_result(classify(envelope, &rules)) {
        Ok(Some(data)) => mobile_validity_of(data.as_str()),
        Ok(None) => Err(HoyoError::Hoyolab(HoyolabError::EmptyResponseData)),
        Err(e) => Err(e),
    }
}

} // verus!
