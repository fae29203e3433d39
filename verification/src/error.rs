//! The errors a login can end with, and the table from service codes to them.

use vstd::prelude::*;
use crate::models::auth::geetest::SessionMMT;
use crate::models::auth::verification::ActionTicket;

verus! {

/// The response headers that carry a challenge.
#[derive(Debug, Clone, Copy, PartialEq, Eq, Structural)]
pub enum ChallengeHeader {
    /// `x-rpc-aigis`, which carries a geetest challenge.
    Aigis,
    /// `x-rpc-verify`, which carries an email verification ticket.
    Verify,
}

impl ChallengeHeader {
    /// The header's name, in lower case.
    pub open spec fn name(self) -> Seq<char> {
        match self {
            ChallengeHeader::Aigis => "x-rpc-aigis"@,
            ChallengeHeader::Verify => "x-rpc-verify"@,
        }
    }

    /// Returns the header's name, in lower case.
    pub fn val(&self) -> (r: &'static str)
        ensures
            r@ == self.name(),
    {
        match self {
            ChallengeHeader::Aigis => "x-rpc-aigis",
            ChallengeHeader::Verify => "x-rpc-verify",
        }
    }
}

/// The groups that errors fall into. A caller decides by the group whether
/// to answer a challenge, to ask a human, or to give up.
#[derive(Debug, Clone, Copy, PartialEq, Eq, Structural)]
pub enum ErrorKind {
    /// The community service turned the request down: bad cookies or
    /// language, too many visits, no game account, data that is not public.
    Hoyolab,
    /// The account or its credentials: wrong password or code, a locked or
    /// missing account, too many codes asked for.
    Account,
    /// A redemption code was not accepted.
    Redemption,
    /// A reward was claimed already.
    Reward,
    /// The service wants a challenge answered; the error carries it.
    Challenge,
    /// The exchange failed below the protocol.
    Transport,
    /// The service broke the protocol: a challenge without its header, a
    /// response of an unexpected shape, text that does not parse.
    Protocol,
    /// The caller's side is not set up: a key that does not decode,
    /// credentials that cannot be encrypted, a missing solver, a language
    /// this library does not know.
    Configuration,
    /// A status code without a name, kept as it came.
    Unknown,
}

/// Everything that can go wrong in this library.
#[derive(Debug, Clone, PartialEq, Eq)]
pub enum HoyoError {
    /// Could not parse a language from text.
    LanguageParse,
    /// A successful response lacks something it must hold; the text says what.
    UnexpectedResponse(String),
    /// The service answered with an error.
    Hoyolab(HoyolabError),
    /// The exchange with the service failed below the protocol.
    Transport(String),
    /// A text that must be JSON of a given shape is not; the text names it.
    SerdeError(String),
    /// The service asked for a challenge, but the header that must carry it
    /// is missing or does not hold one.
    MalformedChallenge(ChallengeHeader),
    /// The public key of a region could not be decoded.
    InvalidPublicKey,
    /// The credentials could not be encrypted.
    EncryptionFailed,
    /// No solver was supplied for a challenge.
    SolverNotImplemented,
}

/// Errors the service answers with.
#[derive(Debug, Clone, PartialEq, Eq)]
pub enum HoyolabError {
    /// Response data empty.
    EmptyResponseData,
    /// Invalid cookies.
    InvalidCookies,
    /// Invalid language.
    InvalidLanguage,
    /// Visited a page too frequently.
    VisitsTooFrequently,
    /// Malformed request.
    MalformedRequest,
    /// No game account with the cookies found.
    NoGameAccountWithCookies,
    /// Too many requests; data of at most 30 accounts per cookie per day.
    TooManyRequests,
    /// The user's data is not public.
    DataNotPublic,
    /// Cannot view the real-time notes of other users.
    CannotViewRealTimeNotes,
    /// Cookies are valid but have no account bound to them.
    CookiesNotBound,
    /// Internal database error.
    InternalDatabaseError,
    /// Account not found, the uid may be invalid.
    AccountNotFound,
    /// Incorrect game account.
    IncorrectGameAccount,
    /// Incorrect game password.
    IncorrectGamePassword,
    /// This action must be done in the app.
    ActionMustBeInApp,
    /// A geetest challenge was triggered.
    Captcha(SessionMMT),
    /// An email verification was triggered.
    EmailVerify(ActionTicket),
    /// The status of a QR code login is missing.
    CouldNotGetStatus,
    /// Redemption code invalid.
    RedemptionInvalid,
    /// Redemption is on cooldown.
    RedemptionCooldown,
    /// Redemption code already claimed.
    RedemptionClaimed,
    /// Redemption code has expired.
    RedemptionCodeExpired,
    /// Redemption code is incorrectly formatted.
    RedemptionCodeMalformed,
    /// Redemption code not activated.
    RedemptionCodeNotActivated,
    /// Adventure rank too low to claim codes.
    RedemptionAdventureRankTooLow,
    /// No such account, or the password is incorrect.
    AccountLoginFail,
    /// The account was locked after incorrect passwords.
    AccountLocked,
    /// The account does not exist.
    AccountDoesNotExist,
    /// Wrong OTP code.
    WrongOTP,
    /// Too many verification code requests for the account.
    VerificationCodeRateLimited,
    /// Too many OTP messages sent to the number.
    OTPRateLimited,
    /// OTP requests too frequent.
    RequestTooFrequent,
    /// Reward already claimed.
    RewardAlreadyClaimed,
    /// A code this library has no name for, kept as it came.
    UnknownError(i32),
}

impl HoyoError {
    /// The group that the error falls into.
    pub open spec fn group(self) -> ErrorKind {
        match self {
            HoyoError::LanguageParse => ErrorKind::Configuration,
            HoyoError::UnexpectedResponse(_) => ErrorKind::Protocol,
            HoyoError::Hoyolab(e) => e.group(),
            HoyoError::Transport(_) => ErrorKind::Transport,
            HoyoError::SerdeError(_) => ErrorKind::Protocol,
            HoyoError::MalformedChallenge(_) => ErrorKind::Protocol,
            HoyoError::InvalidPublicKey => ErrorKind::Configuration,
            HoyoError::EncryptionFailed => ErrorKind::Configuration,
            HoyoError::SolverNotImplemented => ErrorKind::Configuration,
        }
    }

    /// Returns the group that the error falls into.
    pub fn kind(&self) -> (k: ErrorKind)
        ensures
            k == self.group(),
    {
        match self {
            HoyoError::Hoyolab(e) => e.kind(),
            HoyoError::Transport(_) => ErrorKind::Transport,
            HoyoError::UnexpectedResponse(_) | HoyoError::SerdeError(_)
            | HoyoError::MalformedChallenge(_) => ErrorKind::Protocol,
            HoyoError::LanguageParse | HoyoError::InvalidPublicKey | HoyoError::EncryptionFailed
            | HoyoError::SolverNotImplemented => ErrorKind::Configuration,
        }
    }
}

impl HoyolabError {
    /// The group that the error falls into.
    pub open spec fn group(self) -> ErrorKind {
        if self.is_challenge() {
            ErrorKind::Challenge
        } else if self is UnknownError {
            ErrorKind::Unknown
        } else if self is RewardAlreadyClaimed {
            ErrorKind::Reward
        } else if self is EmptyResponseData || self is CouldNotGetStatus {
            ErrorKind::Protocol
        } else if self is RedemptionInvalid || self is RedemptionCooldown
            || self is RedemptionClaimed || self is RedemptionCodeExpired
            || self is RedemptionCodeMalformed || self is RedemptionCodeNotActivated
            || self is RedemptionAdventureRankTooLow {
            ErrorKind::Redemption
        } else if self is IncorrectGameAccount || self is IncorrectGamePassword
            || self is AccountLoginFail || self is AccountLocked || self is AccountDoesNotExist
            || self is WrongOTP || self is VerificationCodeRateLimited || self is OTPRateLimited
            || self is RequestTooFrequent {
            ErrorKind::Account
        } else {
            ErrorKind::Hoyolab
        }
    }

    /// Returns the group that the error falls into.
    pub fn kind(&self) -> (k: ErrorKind)
        ensures
            k == self.group(),
    {
        match self {
            HoyolabError::Captcha(_) | HoyolabError::EmailVerify(_) => ErrorKind::Challenge,
            HoyolabError::UnknownError(_) => ErrorKind::Unknown,
            HoyolabError::RewardAlreadyClaimed => ErrorKind::Reward,
            HoyolabError::EmptyResponseData | HoyolabError::CouldNotGetStatus => {
                ErrorKind::Protocol
            },
            HoyolabError::RedemptionInvalid
            | HoyolabError::RedemptionCooldown
            | HoyolabError::RedemptionClaimed
            | HoyolabError::RedemptionCodeExpired
            | HoyolabError::RedemptionCodeMalformed
            | HoyolabError::RedemptionCodeNotActivated
            | HoyolabError::RedemptionAdventureRankTooLow => ErrorKind::Redemption,
            HoyolabError::IncorrectGameAccount
            | HoyolabError::IncorrectGamePassword
            | HoyolabError::AccountLoginFail
            | HoyolabError::AccountLocked
            | HoyolabError::AccountDoesNotExist
            | HoyolabError::WrongOTP
            | HoyolabError::VerificationCodeRateLimited
            | HoyolabError::OTPRateLimited
            | HoyolabError::RequestTooFrequent => ErrorKind::Account,
            HoyolabError::InvalidCookies
            | HoyolabError::InvalidLanguage
            | HoyolabError::VisitsTooFrequently
            | HoyolabError::MalformedRequest
            | HoyolabError::NoGameAccountWithCookies
            | HoyolabError::TooManyRequests
            | HoyolabError::DataNotPublic
            | HoyolabError::CannotViewRealTimeNotes
            | HoyolabError::CookiesNotBound
            | HoyolabError::InternalDatabaseError
            | HoyolabError::AccountNotFound
            | HoyolabError::ActionMustBeInApp => ErrorKind::Hoyolab,
        }
    }

    /// The error that a status code of the service stands for.
    pub open spec fn of_code(code: i32) -> HoyolabError {
        match code {
            -100 | 10001 | -1071 => HoyolabError::InvalidCookies,
            -108 | -500001 | -502001 | -502002 => HoyolabError::InvalidLanguage,
            -110 | -500004 => HoyolabError::VisitsTooFrequently,
            -10001 => HoyolabError::MalformedRequest,
            -10002 => HoyolabError::NoGameAccountWithCookies,
            10101 => HoyolabError::TooManyRequests,
            10102 => HoyolabError::DataNotPublic,
            10103 => HoyolabError::CookiesNotBound,
            10104 => HoyolabError::CannotViewRealTimeNotes,
            -1065 | -2004 => HoyolabError::RedemptionInvalid,
            -1073 | 1008 => HoyolabError::AccountNotFound,
            -2001 => HoyolabError::RedemptionCodeExpired,
            -2003 => HoyolabError::RedemptionCodeMalformed,
            -2014 => HoyolabError::RedemptionCodeNotActivated,
            -2016 => HoyolabError::RedemptionCooldown,
            -2017 | -2018 => HoyolabError::RedemptionClaimed,
            -2021 => HoyolabError::RedemptionAdventureRankTooLow,
            -5003 => HoyolabError::RewardAlreadyClaimed,
            -1104 => HoyolabError::ActionMustBeInApp,
            -3208 => HoyolabError::AccountLoginFail,
            -3202 => HoyolabError::AccountLocked,
            -3203 => HoyolabError::AccountDoesNotExist,
            -3205 => HoyolabError::WrongOTP,
            -3206 => HoyolabError::VerificationCodeRateLimited,
            -119 => HoyolabError::OTPRateLimited,
            -3006 => HoyolabError::RequestTooFrequent,
            -216 => HoyolabError::IncorrectGameAccount,
            -202 => HoyolabError::IncorrectGamePassword,
            _ => HoyolabError::UnknownError(code),
        }
    }

    /// Whether the error carries a challenge for the caller to answer.
    pub open spec fn is_challenge(self) -> bool {
        self is Captcha || self is EmailVerify
    }

    /// Converts a status code of the service into the error it stands for.
    pub fn from_code(code: i32) -> (r: HoyolabError)
        ensures
            r == Self::of_code(code),
    {
        match code {
            // Community
            -100 => HoyolabError::InvalidCookies,
            -108 => HoyolabError::InvalidLanguage,
            -110 => HoyolabError::VisitsTooFrequently,
            // Game record
            10001 => HoyolabError::InvalidCookies,
            -10001 => HoyolabError::MalformedRequest,
            -10002 => HoyolabError::NoGameAccountWithCookies,
            // Game record database
            10101 => HoyolabError::TooManyRequests,
            10102 => HoyolabError::DataNotPublic,
            10103 => HoyolabError::CookiesNotBound,
            10104 => HoyolabError::CannotViewRealTimeNotes,
            // Calculator
            -500001 => HoyolabError::InvalidLanguage,
            -500004 => HoyolabError::VisitsTooFrequently,
            -502001 => HoyolabError::InvalidLanguage,
            -502002 => HoyolabError::InvalidLanguage,
            // Redemption
            -1065 => HoyolabError::RedemptionInvalid,
            -1071 => HoyolabError::InvalidCookies,
            -1073 => HoyolabError::AccountNotFound,
            -2001 => HoyolabError::RedemptionCodeExpired,
            -2003 => HoyolabError::RedemptionCodeMalformed,
            -2004 => HoyolabError::RedemptionInvalid,
            -2014 => HoyolabError::RedemptionCodeNotActivated,
            -2016 => HoyolabError::RedemptionCooldown,
            -2017 | -2018 => HoyolabError::RedemptionClaimed,
            -2021 => HoyolabError::RedemptionAdventureRankTooLow,
            // Rewards
            -5003 => HoyolabError::RewardAlreadyClaimed,
            // Chinese endpoints
            1008 => HoyolabError::AccountNotFound,
            -1104 => HoyolabError::ActionMustBeInApp,
            // Account
            -3208 => HoyolabError::AccountLoginFail,
            -3202 => HoyolabError::AccountLocked,
            -3203 => HoyolabError::AccountDoesNotExist,
            -3205 => HoyolabError::WrongOTP,
            -3206 => HoyolabError::VerificationCodeRateLimited,
            // Miyoushe
            -119 => HoyolabError::OTPRateLimited,
            -3006 => HoyolabError::RequestTooFrequent,
            // Game login
            -216 => HoyolabError::IncorrectGameAccount,
            -202 => HoyolabError::IncorrectGamePassword,
            _ => HoyolabError::UnknownError(code),
        }
    }

    /// A code without a name of its own is kept as it came, and only such a
    /// code is: whenever the table answers with `UnknownError`, the number it
    /// carries is the code that was looked up.
    pub proof fn lemma_unknown_code_is_kept(code: i32)
        ensures
            Self::of_code(code) matches HoyolabError::UnknownError(kept) ==> kept == code,
    {
    }

    /// No status code alone stands for a challenge or for a break of the
    /// protocol: a challenge always comes with the payload of a response
    /// header, never out of the table.
    pub proof fn lemma_code_is_never_a_challenge(code: i32)
        ensures
            !Self::of_code(code).is_challenge(),
            Self::of_code(code).group() != ErrorKind::Challenge,
            Self::of_code(code).group() != ErrorKind::Protocol,
    {
    }

    /// A code has no name exactly where its error falls into the group of
    /// the unknown.
    pub proof fn lemma_unknown_group(code: i32)
        ensures
            Self::of_code(code).group() == ErrorKind::Unknown <==> Self::of_code(code)
                == HoyolabError::UnknownError(code),
    {
    }
}

} // verus!
