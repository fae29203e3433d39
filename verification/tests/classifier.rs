use base64::Engine;
use hoyo_auth::components::auth::classify::{classify, EndpointRules, Outcome};
use hoyo_auth::error::{ChallengeHeader, HoyoError, HoyolabError};
use hoyo_auth::models::auth::geetest::{SessionMMT, SessionMMTResult};
use hoyo_auth::models::auth::verification::ActionTicket;
use hoyo_auth::models::common::{Base, ResponseEnvelope};

const APP_RULES: EndpointRules =
    EndpointRules { captcha_code: Some(-3101), email_verify_code: Some(-3239), needs_data: true };
const CN_RULES: EndpointRules =
    EndpointRules { captcha_code: Some(-3102), email_verify_code: None, needs_data: true };
const STATUS_RULES: EndpointRules =
    EndpointRules { captcha_code: Some(-3101), email_verify_code: None, needs_data: false };

fn pair(name: &str, value: &str) -> (String, String) {
    (name.to_string(), value.to_string())
}

fn envelope(retcode: i32, data: Option<&str>, headers: Vec<(String, String)>) -> ResponseEnvelope {
    ResponseEnvelope {
        retcode,
        message: "message".to_string(),
        data: data.map(|d| d.to_string()),
        headers,
        cookies: vec![],
    }
}

const AIGIS: &str =
    r#"{"session_id":"sess","new_captcha":1,"success":2,"challenge":"chal","gt":"gee"}"#;
const VERIFY: &str = r#"{"risk_ticket":"rt","verify_str":"{\"k\": [1, 2]}","ticket":"tk"}"#;

#[test]
fn captcha_code_with_header_is_a_captcha_challenge() {
    let e = envelope(-3101, None, vec![pair("x-rpc-aigis", AIGIS)]);
    let expected = SessionMMT {
        new_captcha: 1,
        success: 2,
        challenge: "chal".to_string(),
        gt: "gee".to_string(),
        session_id: "sess".to_string(),
    };
    assert_eq!(classify(&e, &APP_RULES), Outcome::CaptchaRequired(expected));
}

#[test]
fn captcha_header_may_leave_the_numbers_out() {
    let e = envelope(
        -3102,
        None,
        vec![pair("x-rpc-aigis", r#"{"gt":"x","challenge":"y","session_id":"s"}"#)],
    );
    let expected = SessionMMT {
        new_captcha: 0,
        success: 0,
        challenge: "y".to_string(),
        gt: "x".to_string(),
        session_id: "s".to_string(),
    };
    assert_eq!(classify(&e, &CN_RULES), Outcome::CaptchaRequired(expected));
}

#[test]
fn captcha_code_without_header_is_malformed() {
    let e = envelope(-3101, None, vec![pair("content-type", "application/json")]);
    assert_eq!(
        classify(&e, &APP_RULES),
        Outcome::Failure(HoyoError::MalformedChallenge(ChallengeHeader::Aigis))
    );
    let with_data = envelope(-3101, Some("{}"), vec![]);
    assert_eq!(
        classify(&with_data, &APP_RULES),
        Outcome::Failure(HoyoError::MalformedChallenge(ChallengeHeader::Aigis))
    );
}

#[test]
fn captcha_header_that_holds_no_challenge_is_malformed() {
    for value in [
        "",
        "not json",
        "[]",
        r#"{"gt":"x","challenge":"y"}"#,
        r#"{"gt":"x","challenge":"y","session_id":7}"#,
        r#"{"gt":"x","challenge":"y","session_id":"s","success":"yes"}"#,
        r#"{"gt":"x","challenge":"y","session_id":"s","new_captcha":1.5}"#,
        r#"{"gt":"x","challenge":"y","session_id":"s","new_captcha":4294967296}"#,
    ] {
        let e = envelope(-3101, None, vec![pair("x-rpc-aigis", value)]);
        assert_eq!(
            classify(&e, &APP_RULES),
            Outcome::Failure(HoyoError::MalformedChallenge(ChallengeHeader::Aigis)),
            "{value}"
        );
    }
}

#[test]
fn first_header_of_a_name_counts() {
    let e = envelope(
        -3101,
        None,
        vec![
            pair("x-rpc-verify", VERIFY),
            pair("x-rpc-aigis", r#"{"gt":"1","challenge":"1","session_id":"1"}"#),
            pair("x-rpc-aigis", r#"{"gt":"2","challenge":"2","session_id":"2"}"#),
        ],
    );
    match classify(&e, &APP_RULES) {
        Outcome::CaptchaRequired(mmt) => assert_eq!(mmt.session_id, "1"),
        other => panic!("{other:?}"),
    }
}

#[test]
fn header_names_are_matched_as_they_are() {
    let e = envelope(-3101, None, vec![pair("X-Rpc-Aigis", AIGIS)]);
    assert_eq!(
        classify(&e, &APP_RULES),
        Outcome::Failure(HoyoError::MalformedChallenge(ChallengeHeader::Aigis))
    );
}

#[test]
fn email_code_with_header_is_an_email_challenge() {
    let e = envelope(-3239, None, vec![pair("x-rpc-verify", VERIFY)]);
    let expected = ActionTicket {
        risk_ticket: "rt".to_string(),
        verify_str: "{\"k\": [1, 2]}".to_string(),
        ticket: "tk".to_string(),
    };
    assert_eq!(classify(&e, &APP_RULES), Outcome::EmailVerifyRequired(expected));
}

#[test]
fn email_code_without_header_is_malformed() {
    let e = envelope(-3239, None, vec![pair("x-rpc-aigis", AIGIS)]);
    assert_eq!(
        classify(&e, &APP_RULES),
        Outcome::Failure(HoyoError::MalformedChallenge(ChallengeHeader::Verify))
    );
    let broken = envelope(-3239, None, vec![pair("x-rpc-verify", r#"{"ticket":"tk"}"#)]);
    assert_eq!(
        classify(&broken, &APP_RULES),
        Outcome::Failure(HoyoError::MalformedChallenge(ChallengeHeader::Verify))
    );
}

#[test]
fn challenge_codes_differ_between_endpoints() {
    let e = envelope(-3101, None, vec![pair("x-rpc-aigis", AIGIS)]);
    assert_eq!(
        classify(&e, &CN_RULES),
        Outcome::Failure(HoyoError::Hoyolab(HoyolabError::UnknownError(-3101)))
    );
    let e = envelope(-3239, None, vec![pair("x-rpc-verify", VERIFY)]);
    assert_eq!(
        classify(&e, &CN_RULES),
        Outcome::Failure(HoyoError::Hoyolab(HoyolabError::UnknownError(-3239)))
    );
}

#[test]
fn missing_payload_fails_with_the_error_of_the_code() {
    let e = envelope(-3208, None, vec![]);
    assert_eq!(
        classify(&e, &APP_RULES),
        Outcome::Failure(HoyoError::Hoyolab(HoyolabError::AccountLoginFail))
    );
    let e = envelope(99999, None, vec![]);
    assert_eq!(
        classify(&e, &APP_RULES),
        Outcome::Failure(HoyoError::Hoyolab(HoyolabError::UnknownError(99999)))
    );
    let e = envelope(0, None, vec![]);
    assert_eq!(
        classify(&e, &APP_RULES),
        Outcome::Failure(HoyoError::Hoyolab(HoyolabError::UnknownError(0)))
    );
}

#[test]
fn zero_status_with_a_payload_is_a_success() {
    let e = envelope(0, Some(r#"{"a":1}"#), vec![]);
    assert_eq!(classify(&e, &APP_RULES), Outcome::Success(Some(r#"{"a":1}"#.to_string())));
}

#[test]
fn non_zero_status_fails_whatever_payload_comes_with_it() {
    let e = envelope(-3208, Some("{}"), vec![]);
    assert_eq!(
        classify(&e, &APP_RULES),
        Outcome::Failure(HoyoError::Hoyolab(HoyolabError::AccountLoginFail))
    );
    let e = envelope(99999, Some(r#"{"cookie_token_v2":"x"}"#), vec![]);
    assert_eq!(
        classify(&e, &APP_RULES),
        Outcome::Failure(HoyoError::Hoyolab(HoyolabError::UnknownError(99999)))
    );
    let e = envelope(1, Some("{}"), vec![]);
    assert_eq!(
        classify(&e, &CN_RULES),
        Outcome::Failure(HoyoError::Hoyolab(HoyolabError::UnknownError(1)))
    );
}

#[test]
fn zero_status_is_a_success_where_the_endpoint_goes_by_status() {
    let e = envelope(0, None, vec![]);
    assert_eq!(classify(&e, &STATUS_RULES), Outcome::Success(None));
    let e = envelope(-3206, Some("{}"), vec![]);
    assert_eq!(
        classify(&e, &STATUS_RULES),
        Outcome::Failure(HoyoError::Hoyolab(HoyolabError::VerificationCodeRateLimited))
    );
}

#[test]
fn body_parses_into_status_message_and_payload() {
    let base = Base::parse(r#"{"retcode": 0, "message": "OK", "data": {"b": [1, "x"], "a": null}}"#);
    assert_eq!(
        base,
        Ok(Base {
            retcode: 0,
            message: "OK".to_string(),
            data: Some(r#"{"a":null,"b":[1,"x"]}"#.to_string()),
        })
    );
}

#[test]
fn body_without_payload_or_with_null_has_none() {
    let expected =
        Ok(Base { retcode: -3208, message: "login failed".to_string(), data: None });
    assert_eq!(Base::parse(r#"{"retcode":-3208,"message":"login failed","data":null}"#), expected);
    assert_eq!(Base::parse(r#"{"retcode":-3208,"message":"login failed"}"#), expected);
}

#[test]
fn payload_that_is_a_string_null_is_kept() {
    let base = Base::parse(r#"{"retcode":0,"message":"","data":"null"}"#).unwrap();
    assert_eq!(base.data, Some("\"null\"".to_string()));
}

#[test]
fn body_that_lacks_a_member_is_a_serde_error() {
    for body in ["", "[]", "{}", r#"{"message":"m"}"#, r#"{"retcode":"0","message":"m"}"#] {
        assert_eq!(Base::parse(body), Err(HoyoError::SerdeError("retcode".to_string())), "{body}");
    }
    assert_eq!(
        Base::parse(r#"{"retcode":2147483648,"message":"m"}"#),
        Err(HoyoError::SerdeError("retcode".to_string()))
    );
    for body in [r#"{"retcode":0}"#, r#"{"retcode":0,"message":null}"#] {
        assert_eq!(Base::parse(body), Err(HoyoError::SerdeError("message".to_string())), "{body}");
    }
}

#[test]
fn envelope_is_made_of_body_headers_and_cookies() {
    let base = Base { retcode: 7, message: "m".to_string(), data: Some("{}".to_string()) };
    let e = ResponseEnvelope::new(base, vec![pair("h", "1")], vec![pair("c", "2")]);
    assert_eq!(e.retcode, 7);
    assert_eq!(e.message, "m");
    assert_eq!(e.data, Some("{}".to_string()));
    assert_eq!(e.headers, vec![pair("h", "1")]);
    assert_eq!(e.cookies, vec![pair("c", "2")]);
}

#[test]
fn challenge_parses_escapes_and_ignores_other_members() {
    let mmt =
        SessionMMT::parse(r#"{"gt":"a\"b","challenge":"é","session_id":"","x":{"y":1}}"#);
    assert_eq!(
        mmt,
        Some(SessionMMT {
            new_captcha: 0,
            success: 0,
            challenge: "é".to_string(),
            gt: "a\"b".to_string(),
            session_id: String::new(),
        })
    );
}

#[test]
fn aigis_header_is_session_and_base64_of_the_proof() {
    let proof = SessionMMTResult {
        geetest_challenge: "y".to_string(),
        geetest_validate: "v".to_string(),
        geetest_seccode: "c".to_string(),
        session_id: "s".to_string(),
    };
    assert_eq!(
        proof.get_aigis_header(),
        "s;eyJnZWV0ZXN0X2NoYWxsZW5nZSI6InkiLCJnZWV0ZXN0X3ZhbGlkYXRlIjoidiIsImdlZXRlc3Rfc2VjY29kZSI6ImMifQ=="
    );
}

#[test]
fn aigis_header_escapes_the_proof_as_json() {
    let proof = SessionMMTResult {
        geetest_challenge: "a\"b\\c".to_string(),
        geetest_validate: "line\nbreak".to_string(),
        geetest_seccode: "é|jordan".to_string(),
        session_id: "id;with;semicolons".to_string(),
    };
    let header = proof.get_aigis_header();
    let encoded = header.strip_prefix("id;with;semicolons;").unwrap();
    let json = base64::engine::general_purpose::STANDARD.decode(encoded).unwrap();
    assert_eq!(
        String::from_utf8(json).unwrap(),
        r#"{"geetest_challenge":"a\"b\\c","geetest_validate":"line\nbreak","geetest_seccode":"é|jordan"}"#
    );
}

#[test]
fn verify_header_embeds_the_flattened_verify_string_as_a_string() {
    let ticket = ActionTicket::parse(VERIFY).unwrap();
    assert_eq!(
        ticket.to_rpc_verify_header(),
        r#"{"risk_ticket":"rt","ticket":"tk","verify_str":"{\"k\":[1,2]}"}"#
    );
}

#[test]
fn verify_string_that_is_no_json_becomes_an_empty_object() {
    let ticket = ActionTicket {
        risk_ticket: "r\"t".to_string(),
        verify_str: "not json".to_string(),
        ticket: "tk".to_string(),
    };
    assert_eq!(
        ticket.to_rpc_verify_header(),
        r#"{"risk_ticket":"r\"t","ticket":"tk","verify_str":"{}"}"#
    );
}

#[test]
fn verify_header_reads_back_as_json() {
    let ticket = ActionTicket {
        risk_ticket: "rt".to_string(),
        verify_str: r#"{"b": "x", "a": {"c": null}}"#.to_string(),
        ticket: "tk".to_string(),
    };
    let value: serde_json::Value = serde_json::from_str(&ticket.to_rpc_verify_header()).unwrap();
    assert_eq!(value["risk_ticket"].as_str(), Some("rt"));
    assert_eq!(value["ticket"].as_str(), Some("tk"));
    assert_eq!(value["verify_str"].as_str(), Some(r#"{"a":{"c":null},"b":"x"}"#));
}
