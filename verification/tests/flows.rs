use hoyo_auth::components::auth::flow::{
    Challenge, ChallengeProof, FlowStep, LoginFlow, LoginKind, LoginRequest, Phase,
    SessionResult,
};
use hoyo_auth::components::captcha::{CaptchaSolver, DefaultSolver};
use hoyo_auth::error::{ChallengeHeader, HoyoError, HoyolabError};
use hoyo_auth::models::auth::cookie::{StoredCookie, WebLoginResult};
use hoyo_auth::models::auth::geetest::{SessionMMT, SessionMMTResult};
use hoyo_auth::models::auth::verification::ActionTicket;
use hoyo_auth::models::common::{ResponseEnvelope, SignedRequestSpec};
use hoyo_auth::utils::common::Region;

const AIGIS_VALUE: &str =
    "s;eyJnZWV0ZXN0X2NoYWxsZW5nZSI6InkiLCJnZWV0ZXN0X3ZhbGlkYXRlIjoidiIsImdlZXRlc3Rfc2VjY29kZSI6ImMifQ==";

struct Solver;

impl CaptchaSolver for Solver {
    fn solve(&self, session: SessionMMT) -> Result<SessionMMTResult, HoyoError> {
        assert_eq!(session.gt, "x");
        Ok(SessionMMTResult {
            geetest_validate: "v".to_string(),
            geetest_seccode: "c".to_string(),
            geetest_challenge: session.challenge,
            session_id: session.session_id,
        })
    }
}

struct Broken;

impl CaptchaSolver for Broken {
    fn solve(&self, _session: SessionMMT) -> Result<SessionMMTResult, HoyoError> {
        Err(HoyoError::Transport("solver offline".to_string()))
    }
}

fn pair(name: &str, value: &str) -> (String, String) {
    (name.to_string(), value.to_string())
}

fn captcha(code: i32, session: &str) -> ResponseEnvelope {
    ResponseEnvelope {
        retcode: code,
        message: String::new(),
        data: None,
        headers: vec![pair(
            "x-rpc-aigis",
            &format!(r#"{{"gt":"x","challenge":"y","session_id":"{session}"}}"#),
        )],
        cookies: vec![],
    }
}

fn challenge(session: &str) -> SessionMMT {
    SessionMMT {
        new_captcha: 0,
        success: 0,
        challenge: "y".to_string(),
        gt: "x".to_string(),
        session_id: session.to_string(),
    }
}

fn success(data: &str) -> ResponseEnvelope {
    ResponseEnvelope {
        retcode: 0,
        message: "OK".to_string(),
        data: Some(data.to_string()),
        headers: vec![],
        cookies: vec![
            pair("cookie_token_v2", "ct"),
            pair("account_mid_v2", "am"),
            pair("account_id_v2", "ai"),
            pair("ltoken_v2", "lt"),
            pair("ltmid_v2", "lm"),
            pair("ltuid_v2", "lu"),
            pair("stoken", "st"),
        ],
    }
}

fn failure(code: i32) -> ResponseEnvelope {
    ResponseEnvelope {
        retcode: code,
        message: String::new(),
        data: None,
        headers: vec![],
        cookies: vec![],
    }
}

fn web_session() -> WebLoginResult {
    WebLoginResult {
        cookie_token_v2: "ct".to_string(),
        account_mid_v2: "am".to_string(),
        account_id_v2: "ai".to_string(),
        ltoken_v2: "lt".to_string(),
        ltmid_v2: "lm".to_string(),
        ltuid_v2: "lu".to_string(),
    }
}

fn header<'a>(request: &'a SignedRequestSpec, name: &str) -> Option<&'a str> {
    request.headers.iter().find(|h| h.0 == name).map(|h| h.1.as_str())
}

fn os_flow() -> LoginFlow {
    LoginFlow::new(LoginRequest::OsWeb {
        enc_account: "A".to_string(),
        enc_password: "P".to_string(),
        token_type: 6,
    })
}

#[test]
fn captcha_is_solved_and_the_login_retried_once() {
    let mut flow = LoginFlow::start(Region::Overseas, "user@example.com", "hunter2").unwrap();
    assert_eq!(flow.phase(), Phase::Building);
    assert_eq!(flow.attempts(), 0);
    assert_eq!(flow.login_kind(), LoginKind::OsWeb);

    let first = flow.next_request();
    assert_eq!(flow.phase(), Phase::Sent);
    assert_eq!(flow.attempts(), 1);
    assert_eq!(header(&first, "x-rpc-aigis"), None);

    let step = flow.on_response(&captcha(-3101, "s"));
    assert_eq!(step, FlowStep::Challenged(Challenge::Captcha(challenge("s"))));
    assert_eq!(flow.phase(), Phase::Classified);
    let handed = match step {
        FlowStep::Challenged(c) => c,
        other => panic!("{other:?}"),
    };

    assert_eq!(flow.answer_with(handed, Some(&Solver)), None);
    assert_eq!(flow.phase(), Phase::Retrying);
    assert_eq!(flow.attempts(), 1);

    let second = flow.next_request();
    assert_eq!(flow.phase(), Phase::Sent);
    assert_eq!(flow.attempts(), 2);
    assert_eq!(header(&second, "x-rpc-aigis"), Some(AIGIS_VALUE));
    assert_eq!(second.headers.len(), first.headers.len() + 1);
    assert_eq!(second.body, first.body);
    assert_eq!(second.url, first.url);

    let done = flow.on_response(&success(r#"{"stoken":"v2_x"}"#));
    assert_eq!(
        done,
        FlowStep::Done(
            SessionResult::Web(web_session()),
            Some(StoredCookie {
                name: "stoken".to_string(),
                value: "\"v2_x\"".to_string(),
                url: first.url.clone(),
            })
        )
    );
    assert_eq!(flow.phase(), Phase::Done);
    assert_eq!(flow.attempts(), 2);
}

#[test]
fn session_is_taken_from_the_fields_of_the_payload() {
    let mut flow = os_flow();
    flow.next_request();
    let handed = match flow.on_response(&captcha(-3101, "s")) {
        FlowStep::Challenged(c) => c,
        other => panic!("{other:?}"),
    };
    assert_eq!(flow.answer_with(handed, Some(&Solver)), None);
    let retry = flow.next_request();
    assert_eq!(header(&retry, "x-rpc-aigis"), Some(AIGIS_VALUE));
    let answer = ResponseEnvelope {
        retcode: 0,
        message: "OK".to_string(),
        data: Some(
            r#"{"cookie_token_v2":"1","account_mid_v2":"2","account_id_v2":"3","ltoken_v2":"4","ltmid_v2":"5","ltuid_v2":"6"}"#
                .to_string(),
        ),
        headers: vec![],
        cookies: vec![],
    };
    assert_eq!(
        flow.on_response(&answer),
        FlowStep::Done(
            SessionResult::Web(WebLoginResult {
                cookie_token_v2: "1".to_string(),
                account_mid_v2: "2".to_string(),
                account_id_v2: "3".to_string(),
                ltoken_v2: "4".to_string(),
                ltmid_v2: "5".to_string(),
                ltuid_v2: "6".to_string(),
            }),
            None
        )
    );
    assert_eq!(flow.phase(), Phase::Done);
    assert_eq!(flow.attempts(), 2);
}

#[test]
fn second_captcha_fails_the_flow_with_the_new_challenge() {
    let mut flow = os_flow();
    flow.next_request();
    let handed = match flow.on_response(&captcha(-3101, "first")) {
        FlowStep::Challenged(c) => c,
        other => panic!("{other:?}"),
    };
    assert_eq!(flow.answer_with(handed, Some(&Solver)), None);
    flow.next_request();
    let step = flow.on_response(&captcha(-3101, "second"));
    assert_eq!(
        step,
        FlowStep::Failed(HoyoError::Hoyolab(HoyolabError::Captcha(challenge("second"))))
    );
    assert_eq!(flow.phase(), Phase::Failed);
    assert_eq!(flow.attempts(), 2);
}

#[test]
fn login_succeeds_at_once_without_a_challenge() {
    let mut flow = os_flow();
    let request = flow.next_request();
    assert_eq!(
        request.body,
        Some(r#"{"account":"A","password":"P","token_type":"6"}"#.to_string())
    );
    let step = flow.on_response(&success("{}"));
    assert_eq!(step, FlowStep::Done(SessionResult::Web(web_session()), None));
    assert_eq!(flow.phase(), Phase::Done);
    assert_eq!(flow.attempts(), 1);
}

#[test]
fn failure_code_fails_the_flow_with_its_error() {
    for (code, error) in [
        (-3208, HoyolabError::AccountLoginFail),
        (99999, HoyolabError::UnknownError(99999)),
        (-3202, HoyolabError::AccountLocked),
    ] {
        let mut flow = os_flow();
        flow.next_request();
        assert_eq!(flow.on_response(&failure(code)), FlowStep::Failed(HoyoError::Hoyolab(error)));
        assert_eq!(flow.phase(), Phase::Failed);
        assert_eq!(flow.attempts(), 1);
    }
}

#[test]
fn challenge_without_its_header_fails_the_flow_as_malformed() {
    let mut flow = os_flow();
    flow.next_request();
    assert_eq!(
        flow.on_response(&failure(-3101)),
        FlowStep::Failed(HoyoError::MalformedChallenge(ChallengeHeader::Aigis))
    );
    assert_eq!(flow.phase(), Phase::Failed);
    assert_eq!(flow.attempts(), 1);
}

#[test]
fn success_without_the_session_cookies_fails_the_flow() {
    let mut flow = os_flow();
    flow.next_request();
    let mut envelope = success("{}");
    envelope.cookies.remove(3);
    assert_eq!(
        flow.on_response(&envelope),
        FlowStep::Failed(HoyoError::UnexpectedResponse("ltoken_v2".to_string()))
    );
    assert_eq!(flow.phase(), Phase::Failed);
}

#[test]
fn transport_failure_fails_the_flow_without_a_retry() {
    let mut flow = os_flow();
    flow.next_request();
    let error = flow.on_transport_failure("connection reset".to_string());
    assert_eq!(error, HoyoError::Transport("connection reset".to_string()));
    assert_eq!(flow.phase(), Phase::Failed);
    assert_eq!(flow.attempts(), 1);
}

#[test]
fn without_a_solver_the_flow_fails_as_not_implemented() {
    let mut flow = os_flow();
    flow.next_request();
    let handed = match flow.on_response(&captcha(-3101, "s")) {
        FlowStep::Challenged(c) => c,
        other => panic!("{other:?}"),
    };
    assert_eq!(
        flow.answer_with::<DefaultSolver>(handed, None),
        Some(HoyoError::SolverNotImplemented)
    );
    assert_eq!(flow.phase(), Phase::Failed);
    assert_eq!(flow.attempts(), 1);
}

#[test]
fn failing_solver_fails_the_flow_with_its_error() {
    let mut flow = os_flow();
    flow.next_request();
    let handed = match flow.on_response(&captcha(-3101, "s")) {
        FlowStep::Challenged(c) => c,
        other => panic!("{other:?}"),
    };
    assert_eq!(
        flow.answer_with(handed, Some(&Broken)),
        Some(HoyoError::Transport("solver offline".to_string()))
    );
    assert_eq!(flow.phase(), Phase::Failed);
}

#[test]
fn chinese_login_goes_by_its_own_captcha_code() {
    let mut flow = LoginFlow::start(Region::Chinese, "user", "pass").unwrap();
    assert_eq!(flow.login_kind(), LoginKind::CnWeb);
    let first = flow.next_request();
    assert!(header(&first, "ds").is_some());
    assert_eq!(
        first.url,
        "https://passport-api.miyoushe.com/account/ma-cn-passport/web/loginByPassword"
    );
    let handed = match flow.on_response(&captcha(-3102, "s")) {
        FlowStep::Challenged(c) => c,
        other => panic!("{other:?}"),
    };
    assert_eq!(flow.answer_with(handed, Some(&Solver)), None);
    let second = flow.next_request();
    assert_eq!(header(&second, "x-rpc-aigis"), Some(AIGIS_VALUE));
    assert_eq!(second.body, first.body);
    assert_ne!(header(&second, "ds"), None);
    let done = flow.on_response(&success(r#"{"stoken":"v2_x"}"#));
    assert_eq!(done, FlowStep::Done(SessionResult::Web(web_session()), None));
    assert_eq!(flow.attempts(), 2);

    let mut other = LoginFlow::new(LoginRequest::CnWeb {
        enc_account: "A".to_string(),
        enc_password: "P".to_string(),
    });
    other.next_request();
    assert_eq!(
        other.on_response(&captcha(-3101, "s")),
        FlowStep::Failed(HoyoError::Hoyolab(HoyolabError::UnknownError(-3101)))
    );
}

#[test]
fn app_login_retries_with_a_verified_email_ticket() {
    let ticket = ActionTicket {
        risk_ticket: "rt".to_string(),
        verify_str: r#"{"a": 1}"#.to_string(),
        ticket: "tk".to_string(),
    };
    let mut flow = LoginFlow::start_app("user", "pass").unwrap();
    assert_eq!(flow.login_kind(), LoginKind::App);
    let first = flow.next_request();
    let wants_email = ResponseEnvelope {
        retcode: -3239,
        message: String::new(),
        data: None,
        headers: vec![pair(
            "x-rpc-verify",
            r#"{"risk_ticket":"rt","verify_str":"{\"a\": 1}","ticket":"tk"}"#,
        )],
        cookies: vec![],
    };
    let step = flow.on_response(&wants_email);
    assert_eq!(step, FlowStep::Challenged(Challenge::EmailVerify(ticket.clone())));
    assert_eq!(flow.settle(Ok(ChallengeProof::EmailVerified(ticket))), None);
    assert_eq!(flow.phase(), Phase::Retrying);
    let second = flow.next_request();
    assert_eq!(
        header(&second, "x-rpc-verify"),
        Some(r#"{"risk_ticket":"rt","ticket":"tk","verify_str":"{\"a\":1}"}"#)
    );
    assert_eq!(header(&second, "x-rpc-aigis"), None);
    assert_eq!(second.body, first.body);
    match flow.on_response(&success("{}")) {
        FlowStep::Done(SessionResult::App(session), None) => {
            assert_eq!(session.stoken, "st");
            assert_eq!(session.ltuid_v2, "lu");
            assert_eq!(session.ltmid_v2, "lm");
            assert_eq!(session.account_id_v2, "ai");
            assert_eq!(session.account_mid_v2, "am");
        },
        other => panic!("{other:?}"),
    }
    assert_eq!(flow.attempts(), 2);
}

#[test]
fn email_verification_leads_from_the_email_to_the_code_to_the_proof() {
    let ticket = ActionTicket {
        risk_ticket: "rt".to_string(),
        verify_str: "{}".to_string(),
        ticket: "tk".to_string(),
    };
    let mut ask = LoginFlow::start_email_verification(ticket.clone());
    assert_eq!(ask.login_kind(), LoginKind::SendVerificationEmail);
    let first = ask.next_request();
    assert_eq!(
        first.body,
        Some(r#"{"action_type":"verify_for_component","action_ticket":"tk"}"#.to_string())
    );
    assert_eq!(header(&first, "x-rpc-aigis"), None);
    let handed = match ask.on_response(&captcha(-3101, "s")) {
        FlowStep::Challenged(c) => c,
        other => panic!("{other:?}"),
    };
    assert_eq!(ask.answer_with(handed, Some(&Solver)), None);
    let second = ask.next_request();
    assert_eq!(header(&second, "x-rpc-aigis"), Some(AIGIS_VALUE));
    assert_eq!(second.body, first.body);
    assert_eq!(ask.on_response(&failure(0)), FlowStep::Done(SessionResult::EmailSent, None));
    assert_eq!(ask.attempts(), 2);

    let mut verify = ask.verify_email_with("654321".to_string()).unwrap();
    assert_eq!(verify.login_kind(), LoginKind::VerifyEmail);
    assert_eq!(verify.phase(), Phase::Building);
    let request = verify.next_request();
    assert_eq!(
        request.url,
        "https://sg-public-api.hoyoverse.com/account/ma-verifier/api/verifyActionTicketPartly"
    );
    assert_eq!(
        request.body,
        Some(
            r#"{"action_type":"verify_for_component","action_ticket":"tk","email_captcha":"654321","verify_method":2}"#
                .to_string()
        )
    );
    assert_eq!(
        verify.on_response(&failure(0)),
        FlowStep::Done(SessionResult::EmailVerified, None)
    );
    assert_eq!(verify.into_email_proof(), Some(ChallengeProof::EmailVerified(ticket)));
}

#[test]
fn email_verification_does_not_skip_a_step() {
    let ticket = ActionTicket {
        risk_ticket: "rt".to_string(),
        verify_str: "{}".to_string(),
        ticket: "tk".to_string(),
    };
    let fresh = LoginFlow::start_email_verification(ticket.clone());
    assert!(fresh.verify_email_with("1".to_string()).is_none());
    assert!(os_flow().verify_email_with("1".to_string()).is_none());
    assert!(os_flow().into_email_proof().is_none());

    let mut refused = LoginFlow::start_email_verification(ticket.clone());
    refused.next_request();
    assert_eq!(
        refused.on_response(&failure(-3206)),
        FlowStep::Failed(HoyoError::Hoyolab(HoyolabError::VerificationCodeRateLimited))
    );
    assert!(refused.verify_email_with("1".to_string()).is_none());

    let mut ask = LoginFlow::start_email_verification(ticket);
    ask.next_request();
    ask.on_response(&failure(0));
    let mut verify = ask.verify_email_with("000000".to_string()).unwrap();
    verify.next_request();
    assert_eq!(
        verify.on_response(&failure(-3205)),
        FlowStep::Failed(HoyoError::Hoyolab(HoyolabError::WrongOTP))
    );
    assert!(verify.into_email_proof().is_none());
}

#[test]
fn failure_code_with_a_full_session_still_fails_the_flow() {
    let mut flow = os_flow();
    flow.next_request();
    let mut answer = success("{}");
    answer.retcode = -3208;
    assert_eq!(
        flow.on_response(&answer),
        FlowStep::Failed(HoyoError::Hoyolab(HoyolabError::AccountLoginFail))
    );
    assert_eq!(flow.phase(), Phase::Failed);
}

struct Recording(std::cell::RefCell<Vec<SessionMMT>>);

impl CaptchaSolver for Recording {
    fn solve(&self, session: SessionMMT) -> Result<SessionMMTResult, HoyoError> {
        self.0.borrow_mut().push(session.clone());
        Solver.solve(session)
    }
}

#[test]
fn solver_is_asked_once_with_the_challenge_of_the_header() {
    let solver = Recording(std::cell::RefCell::new(Vec::new()));
    let mut flow = os_flow();
    flow.next_request();
    let handed = match flow.on_response(&captcha(-3101, "s")) {
        FlowStep::Challenged(c) => c,
        other => panic!("{other:?}"),
    };
    assert!(solver.0.borrow().is_empty());
    assert_eq!(flow.answer_with(handed, Some(&solver)), None);
    assert_eq!(*solver.0.borrow(), vec![challenge("s")]);
    flow.next_request();
    flow.on_response(&success("{}"));
    assert_eq!(solver.0.borrow().len(), 1);
}

#[test]
fn captcha_solver_cannot_answer_an_email_challenge() {
    let ticket = ActionTicket {
        risk_ticket: "rt".to_string(),
        verify_str: "{}".to_string(),
        ticket: "tk".to_string(),
    };
    let mut flow = LoginFlow::new(LoginRequest::App {
        enc_account: "A".to_string(),
        enc_password: "P".to_string(),
    });
    flow.next_request();
    let wants_email = ResponseEnvelope {
        retcode: -3239,
        message: String::new(),
        data: None,
        headers: vec![pair(
            "x-rpc-verify",
            r#"{"risk_ticket":"rt","verify_str":"{}","ticket":"tk"}"#,
        )],
        cookies: vec![],
    };
    let handed = match flow.on_response(&wants_email) {
        FlowStep::Challenged(c) => c,
        other => panic!("{other:?}"),
    };
    assert_eq!(
        flow.answer_with(handed, Some(&Solver)),
        Some(HoyoError::Hoyolab(HoyolabError::EmailVerify(ticket)))
    );
    assert_eq!(flow.phase(), Phase::Failed);
}

#[test]
fn abandoned_challenge_fails_the_flow_with_the_error_given() {
    let mut flow = os_flow();
    flow.next_request();
    flow.on_response(&captcha(-3101, "s"));
    let error = HoyoError::Hoyolab(HoyolabError::Captcha(challenge("s")));
    assert_eq!(flow.settle(Err(error.clone())), Some(error));
    assert_eq!(flow.phase(), Phase::Failed);
    assert_eq!(flow.attempts(), 1);
}

#[test]
fn mobile_login_asks_for_a_code_and_logs_in_with_it() {
    let mut otp_flow = LoginFlow::start_mobile(13800138000).unwrap();
    assert_eq!(otp_flow.login_kind(), LoginKind::SendMobileOtp);
    let ask = otp_flow.next_request();
    assert_eq!(
        ask.url,
        "https://passport-api.miyoushe.com/account/ma-cn-verifier/verifier/createLoginCaptcha"
    );
    let handed = match otp_flow.on_response(&captcha(-3101, "s")) {
        FlowStep::Challenged(c) => c,
        other => panic!("{other:?}"),
    };
    assert_eq!(otp_flow.answer_with(handed, Some(&Solver)), None);
    let again = otp_flow.next_request();
    assert_eq!(header(&again, "x-rpc-aigis"), Some(AIGIS_VALUE));
    assert_eq!(again.body, ask.body);
    let mut no_cookies = success("{}");
    no_cookies.cookies.clear();
    assert_eq!(otp_flow.on_response(&no_cookies), FlowStep::Done(SessionResult::OtpSent, None));
    assert_eq!(otp_flow.attempts(), 2);

    let mut login = otp_flow.login_with_otp("123456".to_string()).unwrap();
    assert_eq!(login.login_kind(), LoginKind::MobileLogin);
    assert_eq!(login.phase(), Phase::Building);
    let request = login.next_request();
    let body = request.body.unwrap();
    let asked = ask.body.unwrap();
    assert_eq!(body, format!("{},\"captcha\":\"123456\"}}", &asked[..asked.len() - 1]));
    match login.on_response(&success("{}")) {
        FlowStep::Done(SessionResult::Mobile(session), None) => {
            assert_eq!(session.cookie_token_v2, "ct");
            assert_eq!(session.ltmid_v2, "lm");
        },
        other => panic!("{other:?}"),
    }
    assert_eq!(login.attempts(), 1);
}

#[test]
fn only_a_sent_code_leads_on_to_the_mobile_login() {
    assert!(os_flow().login_with_otp("1".to_string()).is_none());
    let fresh = LoginFlow::new(LoginRequest::SendMobileOtp {
        enc_mobile: "M".to_string(),
        enc_area_code: "AC".to_string(),
    });
    assert!(fresh.login_with_otp("1".to_string()).is_none());
    let mut failed = LoginFlow::new(LoginRequest::SendMobileOtp {
        enc_mobile: "M".to_string(),
        enc_area_code: "AC".to_string(),
    });
    failed.next_request();
    failed.on_response(&failure(-119));
    assert!(failed.login_with_otp("1".to_string()).is_none());
}
