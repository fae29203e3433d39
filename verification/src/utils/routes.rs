//! The addresses of the endpoints.

use vstd::prelude::*;
use crate::utils::common::Region;

verus! {

pub const APP_LOGIN_URL: &'static str =
    "https://sg-public-api.hoyoverse.com/account/ma-passport/api/appLoginByPassword";

pub const SEND_VERIFICATION_CODE_URL: &'static str =
    "https://sg-public-api.hoyoverse.com/account/ma-verifier/api/createEmailCaptchaByActionTicket";

pub const VERIFY_EMAIL_URL: &'static str =
    "https://sg-public-api.hoyoverse.com/account/ma-verifier/api/verifyActionTicketPartly";

pub const CHECK_MOBILE_VALIDITY_URL: &'static str =
    "https://webapi.account.mihoyo.com/Api/is_mobile_registrable";

pub const MOBILE_OTP_URL: &'static str =
    "https://passport-api.miyoushe.com/account/ma-cn-verifier/verifier/createLoginCaptcha";

pub const MOBILE_LOGIN_URL: &'static str =
    "https://passport-api.miyoushe.com/account/ma-cn-passport/web/loginByMobileCaptcha";

pub const CREATE_QRCODE_URL: &'static str =
    "https://passport-api.miyoushe.com/account/ma-cn-passport/web/createQRLogin";

pub const CHECK_QRCODE_URL: &'static str =
    "https://passport-api.miyoushe.com/account/ma-cn-passport/web/queryQRLoginStatus";

pub const VERIFY_MMT_URL: &'static str =
    "https://sg-public-api.hoyolab.com/event/toolcomsrv/risk/verifyGeetest";

pub const OS_WEB_LOGIN_URL: &'static str =
    "https://sg-public-api.hoyolab.com/account/ma-passport/api/webLoginByPassword";

pub const CN_WEB_LOGIN_URL: &'static str =
    "https://passport-api.miyoushe.com/account/ma-cn-passport/web/loginByPassword";

/// The address of a region's web login.
pub fn web_login_url(region: Region) -> (url: &'static str)
    ensures
        url@ == match region {
            Region::Overseas => OS_WEB_LOGIN_URL@,
            Region::Chinese => CN_WEB_LOGIN_URL@,
        },
{
    match region {
        Region::Overseas => OS_WEB_LOGIN_URL,
        Region::Chinese => CN_WEB_LOGIN_URL,
    }
}

} // verus!
