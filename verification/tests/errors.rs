use hoyo_auth::components::captcha::{solve_with, CaptchaSolver, DefaultSolver, OTPSource};
use hoyo_auth::error::{ChallengeHeader, ErrorKind, HoyoError, HoyolabError};
use hoyo_auth::models::auth::geetest::{SessionMMT, SessionMMTResult};
use hoyo_auth::utils::common::{Game, Region};
use hoyo_auth::utils::constants::{
    get_app_ids, get_app_keys, get_bizs, get_geetest_record_keys, DsSalt, Lang,
    GEETEST_RETCODES,
};

const LANGS: [Lang; 15] = [
    Lang::ZhCn,
    Lang::ZhTw,
    Lang::DeDe,
    Lang::EnUs,
    Lang::EsEs,
    Lang::FrFr,
    Lang::IdId,
    Lang::ItIt,
    Lang::JaJp,
    Lang::KoKr,
    Lang::PtPt,
    Lang::RuRu,
    Lang::ThTh,
    Lang::ViVn,
    Lang::TrTr,
];

fn challenge() -> SessionMMT {
    SessionMMT {
        new_captcha: 1,
        success: 1,
        challenge: "y".to_string(),
        gt: "x".to_string(),
        session_id: "s".to_string(),
    }
}

#[test]
fn login_failure_code_maps_to_account_login_fail() {
    assert_eq!(HoyolabError::from_code(-3208), HoyolabError::AccountLoginFail);
}

#[test]
fn unmapped_code_is_kept_as_unknown() {
    assert_eq!(HoyolabError::from_code(99999), HoyolabError::UnknownError(99999));
    assert_eq!(HoyolabError::from_code(0), HoyolabError::UnknownError(0));
    assert_eq!(HoyolabError::from_code(i32::MIN), HoyolabError::UnknownError(i32::MIN));
    assert_eq!(HoyolabError::from_code(i32::MAX), HoyolabError::UnknownError(i32::MAX));
    assert_eq!(HoyolabError::from_code(-3101), HoyolabError::UnknownError(-3101));
    assert_eq!(HoyolabError::from_code(-3239), HoyolabError::UnknownError(-3239));
}

#[test]
fn every_listed_code_maps_to_its_error() {
    let table = [
        (-100, HoyolabError::InvalidCookies),
        (-108, HoyolabError::InvalidLanguage),
        (-110, HoyolabError::VisitsTooFrequently),
        (10001, HoyolabError::InvalidCookies),
        (-10001, HoyolabError::MalformedRequest),
        (-10002, HoyolabError::NoGameAccountWithCookies),
        (10101, HoyolabError::TooManyRequests),
        (10102, HoyolabError::DataNotPublic),
        (10103, HoyolabError::CookiesNotBound),
        (10104, HoyolabError::CannotViewRealTimeNotes),
        (-500001, HoyolabError::InvalidLanguage),
        (-500004, HoyolabError::VisitsTooFrequently),
        (-502001, HoyolabError::InvalidLanguage),
        (-502002, HoyolabError::InvalidLanguage),
        (-1065, HoyolabError::RedemptionInvalid),
        (-1071, HoyolabError::InvalidCookies),
        (-1073, HoyolabError::AccountNotFound),
        (-2001, HoyolabError::RedemptionCodeExpired),
        (-2003, HoyolabError::RedemptionCodeMalformed),
        (-2004, HoyolabError::RedemptionInvalid),
        (-2014, HoyolabError::RedemptionCodeNotActivated),
        (-2016, HoyolabError::RedemptionCooldown),
        (-2017, HoyolabError::RedemptionClaimed),
        (-2018, HoyolabError::RedemptionClaimed),
        (-2021, HoyolabError::RedemptionAdventureRankTooLow),
        (-5003, HoyolabError::RewardAlreadyClaimed),
        (1008, HoyolabError::AccountNotFound),
        (-1104, HoyolabError::ActionMustBeInApp),
        (-3208, HoyolabError::AccountLoginFail),
        (-3202, HoyolabError::AccountLocked),
        (-3203, HoyolabError::AccountDoesNotExist),
        (-3205, HoyolabError::WrongOTP),
        (-3206, HoyolabError::VerificationCodeRateLimited),
        (-119, HoyolabError::OTPRateLimited),
        (-3006, HoyolabError::RequestTooFrequent),
        (-216, HoyolabError::IncorrectGameAccount),
        (-202, HoyolabError::IncorrectGamePassword),
    ];
    for (code, error) in table {
        assert_eq!(HoyolabError::from_code(code), error);
    }
}

#[test]
fn neighbours_of_listed_codes_are_unknown() {
    for code in [-99, -101, 10000, 10105, -2019, -3207, -3209, 1, -1] {
        assert_eq!(HoyolabError::from_code(code), HoyolabError::UnknownError(code));
    }
}

#[test]
fn challenge_headers_have_lower_case_names() {
    assert_eq!(ChallengeHeader::Aigis.val(), "x-rpc-aigis");
    assert_eq!(ChallengeHeader::Verify.val(), "x-rpc-verify");
}

#[test]
fn language_tags_round_trip() {
    for lang in LANGS {
        assert_eq!(Lang::try_from(lang.val()), Ok(lang));
        assert_eq!(lang.val_2l(), &lang.val()[..2]);
    }
    assert_eq!(Lang::EnUs.val(), "en-us");
    assert_eq!(Lang::ZhTw.val(), "zh-tw");
    assert_eq!(Lang::ZhTw.val_2l(), "zh");
    assert_eq!(Lang::PtPt.val_2l(), "pt");
}

#[test]
fn text_that_is_no_language_tag_is_a_parse_error() {
    for text in ["", "en", "EN-US", "en-us ", "en_us", "xx-yy"] {
        assert_eq!(Lang::try_from(text), Err(HoyoError::LanguageParse));
    }
}

#[test]
fn salts_have_their_secrets() {
    assert_eq!(DsSalt::Overseas.val(), "6s25p5ox5y14umn1p61aqyyvbvvl3lrt");
    assert_eq!(DsSalt::Chinese.val(), "xV8v4Qu54lUKrEYFZkJhB8cuOh9Asafs");
    assert_eq!(DsSalt::AppLogin.val(), "IZPgfb0dRPtBeLuFkdDznSZ6f4wWt6y2");
    assert_eq!(DsSalt::CnSignin.val(), "LyD1rXqMv2GJhnwdvCBjFOKGiKuLY3aO");
    assert_eq!(DsSalt::CnPassport.val(), "JwYDpKvLj6MrMqqYU6jTKF17KNO2PXoS");
    assert_eq!(DsSalt::from(Region::Overseas), DsSalt::Overseas);
    assert_eq!(DsSalt::from(Region::Chinese), DsSalt::Chinese);
}

#[test]
fn regions_have_their_names() {
    assert_eq!(Region::Overseas.to_string(), "Overseas");
    assert_eq!(Region::Chinese.to_string(), "Chinese");
}

#[test]
fn game_tables_hold_the_listed_values() {
    assert_eq!(get_app_keys(Game::Genshin, Region::Overseas), "6a4c78fe0356ba4673b8071127b28123");
    assert_eq!(get_app_keys(Game::Genshin, Region::Chinese), "d0d3a7342df2026a70f650b907800111");
    assert_eq!(get_app_keys(Game::Starrail, Region::Overseas), "d74818dabd4182d4fbac7f8df1622648");
    assert_eq!(get_app_keys(Game::Starrail, Region::Chinese), "4650f3a396d34d576c3d65df26415394");
    assert_eq!(get_app_keys(Game::Honkai, Region::Overseas), "243187699ab762b682a2a2e50ba02285");
    assert_eq!(get_app_keys(Game::Honkai, Region::Chinese), "0ebc517adb1b62c6b408df153331f9aa");
    assert_eq!(get_app_keys(Game::ZZZ, Region::Overseas), "ff0f2776bf515d79d1f8ff1fb98b2a06");
    assert_eq!(get_app_keys(Game::ZZZ, Region::Chinese), "4650f3a396d34d576c3d65df26415394");
    assert_eq!(get_app_ids(Game::Genshin, Region::Overseas), "4");
    assert_eq!(get_app_ids(Game::Genshin, Region::Chinese), "4");
    assert_eq!(get_app_ids(Game::Starrail, Region::Overseas), "11");
    assert_eq!(get_app_ids(Game::Starrail, Region::Chinese), "8");
    assert_eq!(get_app_ids(Game::Honkai, Region::Overseas), "8");
    assert_eq!(get_app_ids(Game::Honkai, Region::Chinese), "1");
    assert_eq!(get_app_ids(Game::ZZZ, Region::Overseas), "15");
    assert_eq!(get_app_ids(Game::ZZZ, Region::Chinese), "12");
    assert_eq!(get_geetest_record_keys(Game::Genshin), "genshin_game_record");
    assert_eq!(get_geetest_record_keys(Game::Starrail), "hkrpg_game_record");
    assert_eq!(get_geetest_record_keys(Game::Honkai), "bh3_game_record");
    assert_eq!(get_geetest_record_keys(Game::ZZZ), "nap_game_record");
    assert_eq!(get_bizs(Game::Genshin, Region::Overseas), "hk4e_global");
    assert_eq!(get_bizs(Game::Genshin, Region::Chinese), "hk4e_cn");
    assert_eq!(get_bizs(Game::Starrail, Region::Overseas), "hkrpg_global");
    assert_eq!(get_bizs(Game::Starrail, Region::Chinese), "hkrpg_cn");
    assert_eq!(get_bizs(Game::Honkai, Region::Overseas), "bh3_os");
    assert_eq!(get_bizs(Game::Honkai, Region::Chinese), "bh3_cn");
    assert_eq!(get_bizs(Game::ZZZ, Region::Overseas), "nap_global");
    assert_eq!(get_bizs(Game::ZZZ, Region::Chinese), "nap_cn");
    assert_eq!(GEETEST_RETCODES, [10035, 5003, 10041, 1034]);
}

#[test]
fn default_solver_solves_nothing() {
    let solver = DefaultSolver::new();
    assert_eq!(solver.solve(challenge()), Err(HoyoError::SolverNotImplemented));
    assert_eq!(solver.get_otp(), Err(HoyoError::SolverNotImplemented));
}

#[test]
fn without_a_solver_the_default_answers() {
    let r = solve_with::<DefaultSolver>(None, challenge());
    assert_eq!(r, Err(HoyoError::SolverNotImplemented));
}

struct Echo;

impl CaptchaSolver for Echo {
    fn solve(&self, session: SessionMMT) -> Result<SessionMMTResult, HoyoError> {
        Ok(SessionMMTResult {
            geetest_challenge: session.challenge,
            geetest_validate: "v".to_string(),
            geetest_seccode: "c".to_string(),
            session_id: session.session_id,
        })
    }
}

#[test]
fn with_a_solver_its_answer_is_handed_on() {
    let r = solve_with(Some(&Echo), challenge()).unwrap();
    assert_eq!(r.geetest_challenge, "y");
    assert_eq!(r.geetest_validate, "v");
    assert_eq!(r.geetest_seccode, "c");
    assert_eq!(r.session_id, "s");
}

#[test]
fn errors_fall_into_their_groups() {
    assert_eq!(HoyolabError::from_code(-3208).kind(), ErrorKind::Account);
    assert_eq!(HoyolabError::from_code(-3205).kind(), ErrorKind::Account);
    assert_eq!(HoyolabError::from_code(-119).kind(), ErrorKind::Account);
    assert_eq!(HoyolabError::from_code(99999).kind(), ErrorKind::Unknown);
    assert_eq!(HoyolabError::from_code(-100).kind(), ErrorKind::Hoyolab);
    assert_eq!(HoyolabError::from_code(10102).kind(), ErrorKind::Hoyolab);
    assert_eq!(HoyolabError::from_code(-2017).kind(), ErrorKind::Redemption);
    assert_eq!(HoyolabError::from_code(-5003).kind(), ErrorKind::Reward);
    assert_eq!(HoyolabError::Captcha(challenge()).kind(), ErrorKind::Challenge);
    assert_eq!(HoyolabError::InternalDatabaseError.kind(), ErrorKind::Hoyolab);
    assert_eq!(HoyolabError::EmptyResponseData.kind(), ErrorKind::Protocol);
    assert_eq!(HoyolabError::CouldNotGetStatus.kind(), ErrorKind::Protocol);
    assert_eq!(
        HoyoError::Hoyolab(HoyolabError::Captcha(challenge())).kind(),
        ErrorKind::Challenge
    );
    assert_eq!(HoyoError::Hoyolab(HoyolabError::AccountLocked).kind(), ErrorKind::Account);
    assert_eq!(HoyoError::Transport("t".to_string()).kind(), ErrorKind::Transport);
    assert_eq!(HoyoError::UnexpectedResponse("x".to_string()).kind(), ErrorKind::Protocol);
    assert_eq!(HoyoError::SerdeError("x".to_string()).kind(), ErrorKind::Protocol);
    assert_eq!(
        HoyoError::MalformedChallenge(ChallengeHeader::Aigis).kind(),
        ErrorKind::Protocol
    );
    assert_eq!(HoyoError::LanguageParse.kind(), ErrorKind::Configuration);
    assert_eq!(HoyoError::InvalidPublicKey.kind(), ErrorKind::Configuration);
    assert_eq!(HoyoError::EncryptionFailed.kind(), ErrorKind::Configuration);
    assert_eq!(HoyoError::SolverNotImplemented.kind(), ErrorKind::Configuration);
}
