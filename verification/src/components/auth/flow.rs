//! The login flow: one logical login, driven through at most two attempts.
//!
//! Besides the logins, a flow drives the two steps by which the owner of an
//! account passes an email verification: the request for the email, which
//! may itself meet a geetest, and the handing in of the code. Each step
//! leads on to the next only when it is done.
//!
//! The flow decides and the caller acts. The caller sends what
//! [`LoginFlow::next_request`] builds and hands the answer to
//! [`LoginFlow::on_response`]. An answer that asks for a challenge on the
//! first attempt is handed out to be solved; with the proof attached the
//! request is built anew and sent once more. A challenge on the second
//! attempt ends the flow: there is no third attempt.

use vstd::prelude::*;
use crate::components::auth::app::{
    app_login_request, app_login_request_with, app_login_rules, plain_status_rules,
    send_email_request_of, send_email_rules, send_verification_email_request,
    verify_email_request, verify_email_request_of,
};
use crate::components::auth::classify::{
    classification, classify, EndpointRules, Outcome, OutcomeView,
};
use crate::components::auth::web::{
    cn_web_login_request, cn_web_login_request_with, cn_web_login_rules, cookie_of,
    mobile_login_request_with, mobile_login_rules, mobile_otp_request_with, mobile_otp_rules,
    CN_AREA_CODE,
    os_web_login_request, os_web_login_request_of, os_web_login_rules,
    signed_mobile_login_request, signed_mobile_otp_request, stoken_cookie, stoken_cookie_of,
};
use crate::components::auth::wire::as_text;
use crate::components::captcha::{solve_with, CaptchaSolver};
use crate::error::{HoyoError, HoyolabError};
use crate::models::auth::cookie::{
    AppLoginResult, MobileLoginResult, StoredCookie, WebLoginResult,
};
use crate::models::auth::geetest::{SessionMMT, SessionMMTResult};
use crate::models::auth::verification::{ActionTicket, ActionTicketView};
use crate::models::common::{
    ResponseEnvelope, ResponseEnvelopeView, SignedRequestSpec, SignedRequestSpecView,
};
use crate::utils::auth_constants::{
    encryption_failure_of_two, has_ciphertext_shape, hoyo_encrypt, OS_LOGIN_RSA_KEY,
};
use crate::utils::common::Region;
use crate::utils::constants::DsSalt;
use crate::utils::ds::{generate_dynamic_secret, is_secret_under};
use crate::utils::text::{natural_digits, push_natural};

verus! {

/// The password logins that a flow can drive.
#[derive(Debug, Clone, Copy, PartialEq, Eq, Structural)]
pub enum LoginKind {
    /// The overseas web login.
    OsWeb,
    /// The Chinese web login.
    CnWeb,
    /// The app login.
    App,
    /// The request for a one-time code to a mobile number.
    SendMobileOtp,
    /// The login with a one-time code.
    MobileLogin,
    /// The request for a verification email.
    SendVerificationEmail,
    /// The handing in of the code from a verification email.
    VerifyEmail,
}

/// What a login is made with: the endpoint and the credentials, encrypted
/// as the service wants them.
#[derive(Debug, Clone, PartialEq, Eq)]
pub enum LoginRequest {
    OsWeb { enc_account: String, enc_password: String, token_type: i32 },
    CnWeb { enc_account: String, enc_password: String },
    App { enc_account: String, enc_password: String },
    SendMobileOtp { enc_mobile: String, enc_area_code: String },
    MobileLogin { enc_mobile: String, enc_area_code: String, otp: String },
    SendVerificationEmail { ticket: ActionTicket },
    VerifyEmail { ticket: ActionTicket, code: String },
}

/// The contents of a [`LoginRequest`].
pub enum LoginRequestView {
    OsWeb { enc_account: Seq<char>, enc_password: Seq<char>, token_type: int },
    CnWeb { enc_account: Seq<char>, enc_password: Seq<char> },
    App { enc_account: Seq<char>, enc_password: Seq<char> },
    SendMobileOtp { enc_mobile: Seq<char>, enc_area_code: Seq<char> },
    MobileLogin { enc_mobile: Seq<char>, enc_area_code: Seq<char>, otp: Seq<char> },
    SendVerificationEmail { ticket: ActionTicketView },
    VerifyEmail { ticket: ActionTicketView, code: Seq<char> },
}

impl View for LoginRequest {
    type V = LoginRequestView;

    open spec fn view(&self) -> LoginRequestView {
        match *self {
            LoginRequest::OsWeb { enc_account, enc_password, token_type } => {
                LoginRequestView::OsWeb {
                    enc_account: enc_account@,
                    enc_password: enc_password@,
                    token_type: token_type as int,
                }
            },
            LoginRequest::CnWeb { enc_account, enc_password } => LoginRequestView::CnWeb {
                enc_account: enc_account@,
                enc_password: enc_password@,
            },
            LoginRequest::App { enc_account, enc_password } => LoginRequestView::App {
                enc_account: enc_account@,
                enc_password: enc_password@,
            },
            LoginRequest::SendMobileOtp { enc_mobile, enc_area_code } => {
                LoginRequestView::SendMobileOtp {
                    enc_mobile: enc_mobile@,
                    enc_area_code: enc_area_code@,
                }
            },
            LoginRequest::MobileLogin { enc_mobile, enc_area_code, otp } => {
                LoginRequestView::MobileLogin {
                    enc_mobile: enc_mobile@,
                    enc_area_code: enc_area_code@,
                    otp: otp@,
                }
            },
            LoginRequest::SendVerificationEmail { ticket } => {
                LoginRequestView::SendVerificationEmail { ticket: ticket@ }
            },
            LoginRequest::VerifyEmail { ticket, code } => LoginRequestView::VerifyEmail {
                ticket: ticket@,
                code: code@,
            },
        }
    }
}

impl LoginRequestView {
    /// The endpoint that the login goes to.
    pub open spec fn kind(self) -> LoginKind {
        match self {
            LoginRequestView::OsWeb { .. } => LoginKind::OsWeb,
            LoginRequestView::CnWeb { .. } => LoginKind::CnWeb,
            LoginRequestView::App { .. } => LoginKind::App,
            LoginRequestView::SendMobileOtp { .. } => LoginKind::SendMobileOtp,
            LoginRequestView::MobileLogin { .. } => LoginKind::MobileLogin,
            LoginRequestView::SendVerificationEmail { .. } => LoginKind::SendVerificationEmail,
            LoginRequestView::VerifyEmail { .. } => LoginKind::VerifyEmail,
        }
    }
}

/// Where a flow stands.
#[derive(Debug, Clone, Copy, PartialEq, Eq, Structural)]
pub enum Phase {
    /// Nothing was sent yet.
    Building,
    /// A request is out and its answer is awaited.
    Sent,
    /// The first answer asked for a challenge, which is out to be solved.
    Classified,
    /// The proof is in and the second request is to be built.
    Retrying,
    /// The login succeeded.
    Done,
    /// The login failed for good.
    Failed,
}

/// What the service can ask for before it lets a login through. A
/// challenge belongs to the flow that received it and is answered once: it
/// is handed on, never copied.
#[derive(Debug, PartialEq, Eq)]
pub enum Challenge {
    Captcha(SessionMMT),
    EmailVerify(ActionTicket),
}

/// The answer to a challenge. A proof is attached to one request only: it
/// is handed on, never copied.
#[derive(Debug, PartialEq, Eq)]
pub enum ChallengeProof {
    /// A solved geetest.
    Captcha(SessionMMTResult),
    /// The ticket of an email verification that the account owner has passed.
    EmailVerified(ActionTicket),
}

/// The session of a finished login.
#[derive(Debug, Clone, PartialEq, Eq)]
pub enum SessionResult {
    Web(WebLoginResult),
    App(AppLoginResult),
    Mobile(MobileLoginResult),
    /// The one-time code is on its way; there is no session yet.
    OtpSent,
    /// The verification email is on its way; there is no session yet.
    EmailSent,
    /// The code from the email was right; there is no session yet.
    EmailVerified,
}

/// What the caller has to do next.
#[derive(Debug, PartialEq, Eq)]
pub enum FlowStep {
    /// Have the challenge solved and hand in the proof.
    Challenged(Challenge),
    /// The login is through. The cookie, where there is one, goes into the
    /// shared cookie store before the session is handed on.
    Done(SessionResult, Option<StoredCookie>),
    /// The login failed with this error.
    Failed(HoyoError),
}

/// A flow as the laws see it: where it stands and how often it has sent.
pub struct FlowState {
    pub phase: Phase,
    pub sends: nat,
}

/// What can happen to a flow.
pub enum FlowEvent {
    /// A request was built and handed to the transport.
    RequestBuilt,
    /// The answer held a session.
    Finished,
    /// The answer asked for a challenge.
    Challenged,
    /// The answer was a failure.
    Rejected,
    /// The transport failed.
    TransportFailed,
    /// The proof of the challenge came in.
    ProofAttached,
    /// The challenge was not solved.
    ChallengeAbandoned,
}

/// The state of a flow that has not begun.
pub open spec fn initial_state() -> FlowState {
    FlowState { phase: Phase::Building, sends: 0 }
}

/// The state after an event. An event that does not fit the phase changes
/// nothing.
pub open spec fn step(s: FlowState, e: FlowEvent) -> FlowState {
    match (s.phase, e) {
        (Phase::Building, FlowEvent::RequestBuilt) | (Phase::Retrying, FlowEvent::RequestBuilt) => {
            FlowState { phase: Phase::Sent, sends: s.sends + 1 }
        },
        (Phase::Sent, FlowEvent::Finished) => FlowState { phase: Phase::Done, sends: s.sends },
        (Phase::Sent, FlowEvent::Challenged) => if s.sends <= 1 {
            FlowState { phase: Phase::Classified, sends: s.sends }
        } else {
            FlowState { phase: Phase::Failed, sends: s.sends }
        },
        (Phase::Sent, FlowEvent::Rejected) | (Phase::Sent, FlowEvent::TransportFailed) => {
            FlowState { phase: Phase::Failed, sends: s.sends }
        },
        (Phase::Classified, FlowEvent::ProofAttached) => {
            FlowState { phase: Phase::Retrying, sends: s.sends }
        },
        (Phase::Classified, FlowEvent::ChallengeAbandoned) => {
            FlowState { phase: Phase::Failed, sends: s.sends }
        },
        _ => s,
    }
}

/// The state after a sequence of events.
pub open spec fn run(s: FlowState, events: Seq<FlowEvent>) -> FlowState
    decreases events.len(),
{
    if events.len() == 0 {
        s
    } else {
        step(run(s, events.drop_last()), events.last())
    }
}

/// What holds of every state a flow can be in: it has sent as often as its
/// phase allows, and never more than twice.
pub open spec fn consistent(s: FlowState) -> bool {
    match s.phase {
        Phase::Building => s.sends == 0,
        Phase::Sent => 1 <= s.sends <= 2,
        Phase::Classified => s.sends == 1,
        Phase::Retrying => s.sends == 1,
        Phase::Done => 1 <= s.sends <= 2,
        Phase::Failed => 1 <= s.sends <= 2,
    }
}

/// No event leads a flow out of the states it can be in.
pub proof fn lemma_step_keeps_consistent(s: FlowState, e: FlowEvent)
    requires
        consistent(s),
    ensures
        consistent(step(s, e)),
        step(s, e).sends >= s.sends,
{
}

/// Whatever happens, in whatever order, a flow sends at most twice.
pub proof fn lemma_at_most_two_sends(events: Seq<FlowEvent>)
    ensures
        consistent(run(initial_state(), events)),
        run(initial_state(), events).sends <= 2,
    decreases events.len(),
{
    if events.len() > 0 {
        lemma_at_most_two_sends(events.drop_last());
        lemma_step_keeps_consistent(run(initial_state(), events.drop_last()), events.last());
    }
}

/// A flow that is done or has failed stays as it is.
pub proof fn lemma_ended_flow_stays(s: FlowState, events: Seq<FlowEvent>)
    requires
        s.phase == Phase::Done || s.phase == Phase::Failed,
    ensures
        run(s, events) == s,
    decreases events.len(),
{
    if events.len() > 0 {
        lemma_ended_flow_stays(s, events.drop_last());
    }
}

/// A second challenge ends the flow: after the retry was sent, an answer
/// that asks for a challenge again fails the flow, and nothing that happens
/// afterwards makes it send a third time.
pub proof fn lemma_second_challenge_ends_the_flow(s: FlowState, later: Seq<FlowEvent>)
    requires
        consistent(s),
        s.phase == Phase::Sent,
        s.sends == 2,
    ensures
        step(s, FlowEvent::Challenged) == (FlowState { phase: Phase::Failed, sends: 2 }),
        run(step(s, FlowEvent::Challenged), later).sends == 2,
{
    lemma_ended_flow_stays(step(s, FlowEvent::Challenged), later);
}

/// A request goes out only from a flow that has not sent yet or that holds
/// the proof of the one challenge it was given: each send but the first
/// follows an attached proof.
pub proof fn lemma_retry_needs_a_proof(s: FlowState)
    requires
        consistent(s),
        step(s, FlowEvent::RequestBuilt) != s,
    ensures
        s.phase == Phase::Building || s.phase == Phase::Retrying,
        s.phase == Phase::Retrying ==> s.sends == 1,
{
}

impl LoginKind {
    /// How the endpoint of this login answers.
    pub open spec fn rules(self) -> EndpointRules {
        match self {
            LoginKind::OsWeb => os_web_login_rules(),
            LoginKind::CnWeb => cn_web_login_rules(),
            LoginKind::App => app_login_rules(),
            LoginKind::SendMobileOtp => mobile_otp_rules(),
            LoginKind::MobileLogin => mobile_login_rules(),
            LoginKind::SendVerificationEmail => send_email_rules(),
            LoginKind::VerifyEmail => plain_status_rules(),
        }
    }

    /// Returns how the endpoint of this login answers.
    pub fn endpoint_rules(&self) -> (r: EndpointRules)
        ensures
            r == self.rules(),
    {
        match self {
            LoginKind::OsWeb => EndpointRules {
                captcha_code: Some(-3101),
                email_verify_code: None,
                needs_data: true,
            },
            LoginKind::CnWeb => EndpointRules {
                captcha_code: Some(-3102),
                email_verify_code: None,
                needs_data: true,
            },
            LoginKind::App => EndpointRules {
                captcha_code: Some(-3101),
                email_verify_code: Some(-3239),
                needs_data: true,
            },
            LoginKind::SendMobileOtp => EndpointRules {
                captcha_code: Some(-3101),
                email_verify_code: None,
                needs_data: true,
            },
            LoginKind::MobileLogin => EndpointRules {
                captcha_code: None,
                email_verify_code: None,
                needs_data: true,
            },
            LoginKind::SendVerificationEmail => EndpointRules {
                captcha_code: Some(-3101),
                email_verify_code: None,
                needs_data: false,
            },
            LoginKind::VerifyEmail => EndpointRules {
                captcha_code: None,
                email_verify_code: None,
                needs_data: false,
            },
        }
    }
}

impl ChallengeProof {
    /// The value of the `x-rpc-aigis` header that a proof puts on a request.
    pub open spec fn aigis(held: Option<ChallengeProof>) -> Option<Seq<char>> {
        match held {
            Some(ChallengeProof::Captcha(p)) => Some(SessionMMTResult::aigis_header(p@)),
            _ => None,
        }
    }

    /// The value of the `x-rpc-verify` header that a proof puts on a request.
    pub open spec fn verify(held: Option<ChallengeProof>) -> Option<Seq<char>> {
        match held {
            Some(ChallengeProof::EmailVerified(t)) => Some(ActionTicket::rpc_verify_header(t@)),
            _ => None,
        }
    }
}

/// Whether `request` is an attempt at the given login with the given proof
/// headers. The overseas web login takes no signature; the others carry a
/// fresh one under their salt.
pub open spec fn is_attempt(
    request: SignedRequestSpecView,
    login: LoginRequestView,
    aigis: Option<Seq<char>>,
    verify: Option<Seq<char>>,
) -> bool {
    match login {
        LoginRequestView::OsWeb { enc_account, enc_password, token_type } => request
            == os_web_login_request_of(enc_account, enc_password, aigis, token_type),
        LoginRequestView::CnWeb { enc_account, enc_password } => exists|ds: Seq<char>|
            is_secret_under(ds, DsSalt::Chinese) && request == #[trigger] cn_web_login_request_with(
                ds,
                enc_account,
                enc_password,
                aigis,
            ),
        LoginRequestView::App { enc_account, enc_password } => exists|ds: Seq<char>|
            is_secret_under(ds, DsSalt::AppLogin) && request == #[trigger] app_login_request_with(
                ds,
                enc_account,
                enc_password,
                aigis,
                verify,
            ),
        LoginRequestView::SendMobileOtp { enc_mobile, enc_area_code } => exists|ds: Seq<char>|
            is_secret_under(ds, DsSalt::CnSignin) && request == #[trigger] mobile_otp_request_with(
                ds,
                enc_mobile,
                enc_area_code,
                aigis,
            ),
        LoginRequestView::MobileLogin { enc_mobile, enc_area_code, otp } => exists|ds: Seq<char>|
            is_secret_under(ds, DsSalt::CnSignin) && request
                == #[trigger] mobile_login_request_with(ds, enc_mobile, enc_area_code, otp),
        LoginRequestView::SendVerificationEmail { ticket } => request == send_email_request_of(
            ticket.ticket,
            aigis,
        ),
        LoginRequestView::VerifyEmail { ticket, code } => request == verify_email_request_of(
            ticket.ticket,
            code,
        ),
    }
}

/// The first field of its session that an answer to a login of the given
/// kind lacks. A request for a one-time code brings no session, and
/// neither do the steps of an email verification.
pub open spec fn missing_field(kind: LoginKind, e: ResponseEnvelopeView) -> Option<Seq<char>> {
    match kind {
        LoginKind::OsWeb | LoginKind::CnWeb => WebLoginResult::missing_field(e.cookies, e.data),
        LoginKind::App => AppLoginResult::missing_field(e.cookies, e.data),
        LoginKind::SendMobileOtp => None,
        LoginKind::MobileLogin => MobileLoginResult::missing_field(e.cookies, e.data),
        LoginKind::SendVerificationEmail => None,
        LoginKind::VerifyEmail => None,
    }
}

/// What an answer means to a flow of the given kind: a session where it is
/// a success that holds every field of the session, a challenge, or a
/// failure.
pub open spec fn answer(kind: LoginKind, e: ResponseEnvelopeView) -> FlowEvent {
    match classification(e, kind.rules()) {
        OutcomeView::Success(_) => if missing_field(kind, e) is None {
            FlowEvent::Finished
        } else {
            FlowEvent::Rejected
        },
        OutcomeView::CaptchaRequired(_) => FlowEvent::Challenged,
        OutcomeView::EmailVerifyRequired(_) => FlowEvent::Challenged,
        OutcomeView::Failure(_) => FlowEvent::Rejected,
    }
}

/// Whether `r` is what a successful answer gives a flow of the given kind:
/// the session out of its cookies and payload, with the `stoken` cookie of
/// the payload for the overseas web login; or the error of a missing field.
pub open spec fn is_session_step(r: FlowStep, kind: LoginKind, e: ResponseEnvelopeView) -> bool {
    match r {
        FlowStep::Done(SessionResult::Web(session), cookie) => {
            &&& kind == LoginKind::OsWeb || kind == LoginKind::CnWeb
            &&& WebLoginResult::is_taken_from(Ok(session), e.cookies, e.data)
            &&& cookie_of(cookie) == (if kind == LoginKind::OsWeb && e.data is Some {
                stoken_cookie(e.data.unwrap())
            } else {
                None
            })
        },
        FlowStep::Done(SessionResult::App(session), cookie) => {
            &&& kind == LoginKind::App
            &&& AppLoginResult::is_taken_from(Ok(session), e.cookies, e.data)
            &&& cookie is None
        },
        FlowStep::Done(SessionResult::Mobile(session), cookie) => {
            &&& kind == LoginKind::MobileLogin
            &&& MobileLoginResult::is_taken_from(Ok(session), e.cookies, e.data)
            &&& cookie is None
        },
        FlowStep::Done(SessionResult::OtpSent, cookie) => {
            &&& kind == LoginKind::SendMobileOtp
            &&& cookie is None
        },
        FlowStep::Done(SessionResult::EmailSent, cookie) => {
            &&& kind == LoginKind::SendVerificationEmail
            &&& cookie is None
        },
        FlowStep::Done(SessionResult::EmailVerified, cookie) => {
            &&& kind == LoginKind::VerifyEmail
            &&& cookie is None
        },
        FlowStep::Failed(error) => match kind {
            LoginKind::OsWeb | LoginKind::CnWeb => WebLoginResult::is_taken_from(
                Err(error),
                e.cookies,
                e.data,
            ),
            LoginKind::App => AppLoginResult::is_taken_from(Err(error), e.cookies, e.data),
            LoginKind::SendMobileOtp => false,
            LoginKind::MobileLogin => MobileLoginResult::is_taken_from(
                Err(error),
                e.cookies,
                e.data,
            ),
            LoginKind::SendVerificationEmail => false,
            LoginKind::VerifyEmail => false,
        },
        FlowStep::Challenged(_) => false,
    }
}

/// Whether `r` is what an answer gives a flow of the given kind on its
/// first or on its second attempt.
///
/// A challenge on the first attempt is handed out to be solved. On the
/// second attempt it is an error like any other, and carries the new
/// challenge to the caller.
pub open spec fn is_step_of(
    r: FlowStep,
    kind: LoginKind,
    first_attempt: bool,
    e: ResponseEnvelopeView,
) -> bool {
    match classification(e, kind.rules()) {
        OutcomeView::Success(_) => is_session_step(r, kind, e),
        OutcomeView::CaptchaRequired(mmt) => if first_attempt {
            r matches FlowStep::Challenged(Challenge::Captcha(handed)) && handed@ == mmt
        } else {
            r matches FlowStep::Failed(HoyoError::Hoyolab(HoyolabError::Captcha(carried)))
                && carried@ == mmt
        },
        OutcomeView::EmailVerifyRequired(ticket) => if first_attempt {
            r matches FlowStep::Challenged(Challenge::EmailVerify(handed)) && handed@ == ticket
        } else {
            r matches FlowStep::Failed(HoyoError::Hoyolab(HoyolabError::EmailVerify(carried)))
                && carried@ == ticket
        },
        OutcomeView::Failure(f) => r == FlowStep::Failed(f),
    }
}

/// Whether `solved` is what becomes of a challenge in the hands of a solver
/// that may be absent. A geetest is what the solver's `solve` gives for
/// that challenge: its proof, or its error; without a solver it is
/// `SolverNotImplemented`. An email verification is no matter for a solver
/// of geetests: it comes back as the error that carries the ticket.
pub open spec fn is_answer_of<S: CaptchaSolver>(
    solved: Result<ChallengeProof, HoyoError>,
    challenge: Challenge,
    solver: Option<&S>,
) -> bool {
    match challenge {
        Challenge::Captcha(mmt) => match solver {
            Some(s) => exists|given: Result<SessionMMTResult, HoyoError>|
                #[trigger] call_ensures(<S as CaptchaSolver>::solve, (s, mmt), given) && solved
                    == match given {
                    Ok(p) => Ok::<ChallengeProof, HoyoError>(ChallengeProof::Captcha(p)),
                    Err(e) => Err::<ChallengeProof, HoyoError>(e),
                },
            None => solved == Err::<ChallengeProof, HoyoError>(HoyoError::SolverNotImplemented),
        },
        Challenge::EmailVerify(ticket) => solved == Err::<ChallengeProof, HoyoError>(
            HoyoError::Hoyolab(HoyolabError::EmailVerify(ticket)),
        ),
    }
}

/// One login in progress.
#[derive(Debug)]
pub struct LoginFlow {
    login: LoginRequest,
    phase: Phase,
    sends: u8,
    attached: Option<ChallengeProof>,
}

impl LoginFlow {
    /// Where the flow stands and how often it has sent.
    pub closed spec fn state(&self) -> FlowState {
        FlowState { phase: self.phase, sends: self.sends as nat }
    }

    /// What the login is made with.
    pub closed spec fn login(&self) -> LoginRequestView {
        self.login@
    }

    /// The proof that the flow holds, if it holds one.
    pub closed spec fn held_proof(&self) -> Option<ChallengeProof> {
        self.attached
    }

    /// The endpoint that the login goes to.
    pub open spec fn kind(&self) -> LoginKind {
        self.login().kind()
    }

    /// Whether the flow is in a state it can be in: it has sent as often as
    /// its phase allows, and it holds a proof exactly from the moment one
    /// was attached.
    pub closed spec fn wf(&self) -> bool {
        &&& consistent(self.state())
        &&& self.attached is Some <==> (self.phase == Phase::Retrying || self.sends == 2)
    }

    /// A flow in a state it can be in has sent at most twice: once bare, and
    /// once more with the one proof it holds. It holds no proof before its
    /// first request is built, and it holds one when it builds its second.
    pub proof fn lemma_sends_at_most_twice(&self)
        requires
            self.wf(),
        ensures
            self.state().sends <= 2,
            consistent(self.state()),
            self.state().phase == Phase::Building ==> self.held_proof() is None,
            self.state().phase == Phase::Retrying ==> self.held_proof() is Some,
            self.held_proof() is Some ==> self.state().sends >= 1,
    {
    }

    /// Begins a login with credentials that are encrypted already.
    pub fn new(login: LoginRequest) -> (flow: LoginFlow)
        ensures
            flow.wf(),
            flow.state() == initial_state(),
            flow.login() == login@,
            flow.held_proof() is None,
    {
        LoginFlow { login, phase: Phase::Building, sends: 0, attached: None }
    }

    /// Begins a web login with a password: encrypts the credentials for the
    /// region and picks the region's endpoint. The overseas login asks for
    /// tokens of type 6. It fails only where a credential cannot be
    /// encrypted, with the error that says why not.
    pub fn start(region: Region, account: &str, password: &str) -> (r: Result<LoginFlow, HoyoError>)
        ensures
            match encryption_failure_of_two(account@, password@, OS_LOGIN_RSA_KEY@) {
                Some(e) => r matches Err(failure) && failure == e,
                None => r matches Ok(flow) && {
                    &&& flow.wf()
                    &&& flow.state() == initial_state()
                    &&& flow.held_proof() is None
                    &&& match region {
                        Region::Overseas => flow.login() matches LoginRequestView::OsWeb {
                            enc_account,
                            enc_password,
                            token_type,
                        } && token_type == 6 && has_ciphertext_shape(enc_account, OS_LOGIN_RSA_KEY@)
                            && has_ciphertext_shape(enc_password, OS_LOGIN_RSA_KEY@),
                        Region::Chinese => flow.login() matches LoginRequestView::CnWeb {
                            enc_account,
                            enc_password,
                        } && has_ciphertext_shape(enc_account, OS_LOGIN_RSA_KEY@)
                            && has_ciphertext_shape(enc_password, OS_LOGIN_RSA_KEY@),
                    }
                },
            },
    {
        let enc_account = match hoyo_encrypt(account, region) {
            Ok(text) => text,
            Err(e) => {
                return Err(e);
            },
        };
        let enc_password = match hoyo_encrypt(password, region) {
            Ok(text) => text,
            Err(e) => {
                return Err(e);
            },
        };
        let login = match region {
            Region::Overseas => LoginRequest::OsWeb { enc_account, enc_password, token_type: 6 },
            Region::Chinese => LoginRequest::CnWeb { enc_account, enc_password },
        };
        Ok(LoginFlow::new(login))
    }

    /// Begins an app login with a password: encrypts the credentials with
    /// the overseas key. It fails only where a credential cannot be
    /// encrypted, with the error that says why not.
    pub fn start_app(account: &str, password: &str) -> (r: Result<LoginFlow, HoyoError>)
        ensures
            match encryption_failure_of_two(account@, password@, OS_LOGIN_RSA_KEY@) {
                Some(e) => r matches Err(failure) && failure == e,
                None => r matches Ok(flow) && {
                    &&& flow.wf()
                    &&& flow.state() == initial_state()
                    &&& flow.held_proof() is None
                    &&& flow.login() matches LoginRequestView::App { enc_account, enc_password }
                        && has_ciphertext_shape(enc_account, OS_LOGIN_RSA_KEY@)
                        && has_ciphertext_shape(enc_password, OS_LOGIN_RSA_KEY@)
                },
            },
    {
        let enc_account = match hoyo_encrypt(account, Region::Overseas) {
            Ok(text) => text,
            Err(e) => {
                return Err(e);
            },
        };
        let enc_password = match hoyo_encrypt(password, Region::Overseas) {
            Ok(text) => text,
            Err(e) => {
                return Err(e);
            },
        };
        Ok(LoginFlow::new(LoginRequest::App { enc_account, enc_password }))
    }

    /// Begins a mobile login by asking for a one-time code: encrypts the
    /// number, written in decimal without an area code, and the area code
    /// `+86` of mainland China. It fails only where one of the two cannot
    /// be encrypted, with the error that says why not.
    pub fn start_mobile(mobile: u64) -> (r: Result<LoginFlow, HoyoError>)
        ensures
            match encryption_failure_of_two(
                natural_digits(mobile as nat),
                CN_AREA_CODE@,
                OS_LOGIN_RSA_KEY@,
            ) {
                Some(e) => r matches Err(failure) && failure == e,
                None => r matches Ok(flow) && {
                    &&& flow.wf()
                    &&& flow.state() == initial_state()
                    &&& flow.held_proof() is None
                    &&& flow.login() matches LoginRequestView::SendMobileOtp {
                        enc_mobile,
                        enc_area_code,
                    } && has_ciphertext_shape(enc_mobile, OS_LOGIN_RSA_KEY@)
                        && has_ciphertext_shape(enc_area_code, OS_LOGIN_RSA_KEY@)
                },
            },
    {
        let mut digits = String::new();
        push_natural(&mut digits, mobile);
        assert(digits@ == natural_digits(mobile as nat)) by {
            assert(Seq::<char>::empty() + natural_digits(mobile as nat) == natural_digits(
                mobile as nat,
            ));
        }
        let enc_mobile = match hoyo_encrypt(digits.as_str(), Region::Chinese) {
            Ok(text) => text,
            Err(e) => {
                return Err(e);
            },
        };
        let enc_area_code = match hoyo_encrypt(CN_AREA_CODE, Region::Chinese) {
            Ok(text) => text,
            Err(e) => {
                return Err(e);
            },
        };
        Ok(LoginFlow::new(LoginRequest::SendMobileOtp { enc_mobile, enc_area_code }))
    }

    /// Goes on from a one-time code that was sent to the login with it: the
    /// code that the account owner received makes a new flow for the same
    /// number. Any other flow gives nothing.
    pub fn login_with_otp(self, otp: String) -> (r: Option<LoginFlow>)
        requires
            self.wf(),
        ensures
            match r {
                Some(flow) => {
                    &&& self.state().phase == Phase::Done
                    &&& self.login() matches LoginRequestView::SendMobileOtp {
                        enc_mobile,
                        enc_area_code,
                    } && flow.login() == (LoginRequestView::MobileLogin {
                        enc_mobile,
                        enc_area_code,
                        otp: otp@,
                    })
                    &&& flow.wf()
                    &&& flow.state() == initial_state()
                    &&& flow.held_proof() is None
                },
                None => self.state().phase != Phase::Done || self.kind()
                    != LoginKind::SendMobileOtp,
            },
    {
        match (self.phase, self.login) {
            (Phase::Done, LoginRequest::SendMobileOtp { enc_mobile, enc_area_code }) => Some(
                LoginFlow::new(LoginRequest::MobileLogin { enc_mobile, enc_area_code, otp }),
            ),
            _ => None,
        }
    }

    /// Begins an email verification for the ticket of a challenge by asking
    /// for the email.
    pub fn start_email_verification(ticket: ActionTicket) -> (flow: LoginFlow)
        ensures
            flow.wf(),
            flow.state() == initial_state(),
            flow.held_proof() is None,
            flow.login() == (LoginRequestView::SendVerificationEmail { ticket: ticket@ }),
    {
        LoginFlow::new(LoginRequest::SendVerificationEmail { ticket })
    }

    /// Goes on from a verification email that was sent to the handing in of
    /// its code: the code that the account owner received makes a new flow
    /// for the same ticket. Any other flow gives nothing.
    pub fn verify_email_with(self, code: String) -> (r: Option<LoginFlow>)
        requires
            self.wf(),
        ensures
            match r {
                Some(flow) => {
                    &&& self.state().phase == Phase::Done
                    &&& self.login() matches LoginRequestView::SendVerificationEmail { ticket }
                        && flow.login() == (LoginRequestView::VerifyEmail { ticket, code: code@ })
                    &&& flow.wf()
                    &&& flow.state() == initial_state()
                    &&& flow.held_proof() is None
                },
                None => self.state().phase != Phase::Done || self.kind()
                    != LoginKind::SendVerificationEmail,
            },
    {
        match (self.phase, self.login) {
            (Phase::Done, LoginRequest::SendVerificationEmail { ticket }) => Some(
                LoginFlow::new(LoginRequest::VerifyEmail { ticket, code }),
            ),
            _ => None,
        }
    }

    /// Turns a code that was handed in and found right into the proof that
    /// the login is retried with: the ticket of the verification. Any other
    /// flow gives nothing.
    pub fn into_email_proof(self) -> (r: Option<ChallengeProof>)
        requires
            self.wf(),
        ensures
            match r {
                Some(given) => {
                    &&& self.state().phase == Phase::Done
                    &&& self.login() matches LoginRequestView::VerifyEmail { ticket, code }
                        && given matches ChallengeProof::EmailVerified(t) && t@ == ticket
                },
                None => self.state().phase != Phase::Done || self.kind() != LoginKind::VerifyEmail,
            },
    {
        match (self.phase, self.login) {
            (Phase::Done, LoginRequest::VerifyEmail { ticket, code }) => Some(
                ChallengeProof::EmailVerified(ticket),
            ),
            _ => None,
        }
    }

    /// Returns where the flow stands.
    pub fn phase(&self) -> (p: Phase)
        ensures
            p == self.state().phase,
    {
        self.phase
    }

    /// Returns how many requests the flow has handed out to be sent.
    pub fn attempts(&self) -> (n: u8)
        ensures
            n == self.state().sends,
    {
        self.sends
    }

    /// Returns which endpoint the login goes to.
    pub fn login_kind(&self) -> (k: LoginKind)
        ensures
            k == self.kind(),
    {
        match &self.login {
            LoginRequest::OsWeb { .. } => LoginKind::OsWeb,
            LoginRequest::CnWeb { .. } => LoginKind::CnWeb,
            LoginRequest::App { .. } => LoginKind::App,
            LoginRequest::SendMobileOtp { .. } => LoginKind::SendMobileOtp,
            LoginRequest::MobileLogin { .. } => LoginKind::MobileLogin,
            LoginRequest::SendVerificationEmail { .. } => LoginKind::SendVerificationEmail,
            LoginRequest::VerifyEmail { .. } => LoginKind::VerifyEmail,
        }
    }

    /// Builds the next attempt: the bare request at first, and the request
    /// with the proof attached for the retry. The request is built afresh
    /// each time, under a signature of its own.
    pub fn next_request(&mut self) -> (request: SignedRequestSpec)
        requires
            old(self).wf(),
            old(self).state().phase == Phase::Building || old(self).state().phase
                == Phase::Retrying,
        ensures
            final(self).wf(),
            final(self).login() == old(self).login(),
            final(self).held_proof() == old(self).held_proof(),
            final(self).state() == step(old(self).state(), FlowEvent::RequestBuilt),
            is_attempt(
                request@,
                old(self).login(),
                ChallengeProof::aigis(old(self).held_proof()),
                ChallengeProof::verify(old(self).held_proof()),
            ),
    {
        let mmt = match &self.attached {
            Some(ChallengeProof::Captcha(p)) => Some(p),
            _ => None,
        };
        let ticket = match &self.attached {
            Some(ChallengeProof::EmailVerified(t)) => Some(t),
            _ => None,
        };
        let request = match &self.login {
            LoginRequest::OsWeb { enc_account, enc_password, token_type } => os_web_login_request(
                enc_account.as_str(),
                enc_password.as_str(),
                mmt,
                *token_type,
            ),
            LoginRequest::CnWeb { enc_account, enc_password } => cn_web_login_request(
                enc_account.as_str(),
                enc_password.as_str(),
                mmt,
            ),
            LoginRequest::App { enc_account, enc_password } => app_login_request(
                enc_account.as_str(),
                enc_password.as_str(),
                mmt,
                ticket,
            ),
            LoginRequest::SendMobileOtp { enc_mobile, enc_area_code } => {
                let ds = generate_dynamic_secret(DsSalt::CnSignin);
                signed_mobile_otp_request(
                    ds.as_str(),
                    enc_mobile.as_str(),
                    enc_area_code.as_str(),
                    mmt,
                )
            },
            LoginRequest::MobileLogin { enc_mobile, enc_area_code, otp } => {
                let ds = generate_dynamic_secret(DsSalt::CnSignin);
                signed_mobile_login_request(
                    ds.as_str(),
                    enc_mobile.as_str(),
                    enc_area_code.as_str(),
                    otp.as_str(),
                )
            },
            LoginRequest::SendVerificationEmail { ticket } => send_verification_email_request(
                ticket,
                mmt,
            ),
            LoginRequest::VerifyEmail { ticket, code } => verify_email_request(
                code.as_str(),
                ticket,
            ),
        };
        self.phase = Phase::Sent;
        self.sends = self.sends + 1;
        request
    }

    /// Takes the answer to the request that is out and says what to do next.
    pub fn on_response(&mut self, envelope: &ResponseEnvelope) -> (r: FlowStep)
        requires
            old(self).wf(),
            old(self).state().phase == Phase::Sent,
        ensures
            final(self).wf(),
            final(self).login() == old(self).login(),
            final(self).held_proof() == old(self).held_proof(),
            final(self).state() == step(old(self).state(), answer(old(self).kind(), envelope@)),
            is_step_of(r, old(self).kind(), old(self).state().sends == 1, envelope@),
    {
        let kind = self.login_kind();
        let rules = kind.endpoint_rules();
        let first_attempt = self.sends == 1;
        match classify(envelope, &rules) {
            Outcome::Success(data) => {
                let payload = as_text(&data);
                let step = match kind {
                    LoginKind::App => match AppLoginResult::from_parts(&envelope.cookies, payload) {
                        Ok(session) => FlowStep::Done(SessionResult::App(session), None),
                        Err(e) => FlowStep::Failed(e),
                    },
                    LoginKind::OsWeb => {
                        let cookie = match payload {
                            Some(d) => stoken_cookie_of(d),
                            None => None,
                        };
                        match WebLoginResult::from_parts(&envelope.cookies, payload) {
                            Ok(session) => FlowStep::Done(SessionResult::Web(session), cookie),
                            Err(e) => FlowStep::Failed(e),
                        }
                    },
                    LoginKind::CnWeb => match WebLoginResult::from_parts(
                        &envelope.cookies,
                        payload,
                    ) {
                        Ok(session) => FlowStep::Done(SessionResult::Web(session), None),
                        Err(e) => FlowStep::Failed(e),
                    },
                    LoginKind::SendMobileOtp => FlowStep::Done(SessionResult::OtpSent, None),
                    LoginKind::SendVerificationEmail => FlowStep::Done(
                        SessionResult::EmailSent,
                        None,
                    ),
                    LoginKind::VerifyEmail => FlowStep::Done(SessionResult::EmailVerified, None),
                    LoginKind::MobileLogin => match MobileLoginResult::from_parts(
                        &envelope.cookies,
                        payload,
                    ) {
                        Ok(session) => FlowStep::Done(SessionResult::Mobile(session), None),
                        Err(e) => FlowStep::Failed(e),
                    },
                };
                self.phase = match &step {
                    FlowStep::Done(_, _) => Phase::Done,
                    _ => Phase::Failed,
                };
                step
            },
            Outcome::CaptchaRequired(mmt) => {
                if first_attempt {
                    self.phase = Phase::Classified;
                    FlowStep::Challenged(Challenge::Captcha(mmt))
                } else {
                    self.phase = Phase::Failed;
                    FlowStep::Failed(HoyoError::Hoyolab(HoyolabError::Captcha(mmt)))
                }
            },
            Outcome::EmailVerifyRequired(ticket) => {
                if first_attempt {
                    self.phase = Phase::Classified;
                    FlowStep::Challenged(Challenge::EmailVerify(ticket))
                } else {
                    self.phase = Phase::Failed;
                    FlowStep::Failed(HoyoError::Hoyolab(HoyolabError::EmailVerify(ticket)))
                }
            },
            Outcome::Failure(e) => {
                self.phase = Phase::Failed;
                FlowStep::Failed(e)
            },
        }
    }

    /// Takes note that the transport failed on the request that is out. A
    /// transport failure is never retried: the flow fails with it.
    pub fn on_transport_failure(&mut self, message: String) -> (e: HoyoError)
        requires
            old(self).wf(),
            old(self).state().phase == Phase::Sent,
        ensures
            final(self).wf(),
            final(self).login() == old(self).login(),
            final(self).held_proof() == old(self).held_proof(),
            final(self).state() == step(old(self).state(), FlowEvent::TransportFailed),
            e == HoyoError::Transport(message),
    {
        self.phase = Phase::Failed;
        HoyoError::Transport(message)
    }

    /// Takes what became of the challenge that was handed out: with a proof
    /// the flow goes on to its retry; without one it fails with the error
    /// given, which is returned.
    pub fn settle(&mut self, solved: Result<ChallengeProof, HoyoError>) -> (failure: Option<
        HoyoError,
    >)
        requires
            old(self).wf(),
            old(self).state().phase == Phase::Classified,
        ensures
            final(self).wf(),
            final(self).login() == old(self).login(),
            match solved {
                Ok(given) => {
                    &&& failure is None
                    &&& final(self).held_proof() == Some(given)
                    &&& final(self).state() == step(old(self).state(), FlowEvent::ProofAttached)
                },
                Err(e) => {
                    &&& failure == Some(e)
                    &&& final(self).held_proof() is None
                    &&& final(self).state() == step(
                        old(self).state(),
                        FlowEvent::ChallengeAbandoned,
                    )
                },
            },
    {
        match solved {
            Ok(given) => {
                self.attached = Some(given);
                self.phase = Phase::Retrying;
                None
            },
            Err(e) => {
                self.phase = Phase::Failed;
                Some(e)
            },
        }
    }

    /// Has the caller's solver answer the challenge that was handed out,
    /// and goes on to the retry with its proof. The solver is asked with
    /// the challenge as it was handed out, and what it gives decides: its
    /// proof is held for the retry, its error fails the flow. Without a
    /// solver the flow fails as `SolverNotImplemented`. A solver of
    /// geetests cannot pass an email verification: such a challenge fails
    /// the flow and travels to the caller inside the error.
    pub fn answer_with<S: CaptchaSolver>(
        &mut self,
        challenge: Challenge,
        solver: Option<&S>,
    ) -> (failure: Option<HoyoError>)
        requires
            old(self).wf(),
            old(self).state().phase == Phase::Classified,
        ensures
            final(self).wf(),
            final(self).login() == old(self).login(),
            exists|solved: Result<ChallengeProof, HoyoError>|
                #[trigger] is_answer_of(solved, challenge, solver) && match solved {
                    Ok(given) => {
                        &&& failure is None
                        &&& final(self).held_proof() == Some(given)
                        &&& final(self).state() == step(
                            old(self).state(),
                            FlowEvent::ProofAttached,
                        )
                    },
                    Err(e) => {
                        &&& failure == Some(e)
                        &&& final(self).held_proof() is None
                        &&& final(self).state() == step(
                            old(self).state(),
                            FlowEvent::ChallengeAbandoned,
                        )
                    },
                },
    {
        let solved = match challenge {
            Challenge::Captcha(mmt) => match solve_with(solver, mmt) {
                Ok(solution) => Ok(ChallengeProof::Captcha(solution)),
                Err(e) => Err(e),
            },
            Challenge::EmailVerify(ticket) => Err(
                HoyoError::Hoyolab(HoyolabError::EmailVerify(ticket)),
            ),
        };
        assert(is_answer_of(solved, challenge, solver));
        self.settle(solved)
    }
}

} // verus!
