//! Session tokens handed out by the login endpoints, and how they are
//! taken out of a response.

use vstd::prelude::*;
use vstd::string::StringExecFns;
use serde_json::Value;
use crate::error::HoyoError;
use crate::utils::json::{
    document_of, json_compact, json_member, parse, string_in, string_member,
};
use crate::utils::text::{find_last, last_value, pairs_of, Pairs};

verus! {

/// The text of a slice that may be absent.
pub open spec fn text_of_str(o: Option<&str>) -> Option<Seq<char>> {
    match o {
        Some(s) => Some(s@),
        None => None,
    }
}

/// The value of a session field among cookies and a parsed payload: the
/// last cookie of that name, or, where there is no such cookie, the string
/// member of that name in the payload.
pub open spec fn field_among(cookies: Pairs, payload: Option<Seq<char>>, name: Seq<char>) -> Option<
    Seq<char>,
> {
    match last_value(cookies, name) {
        Some(value) => Some(value),
        None => match payload {
            Some(doc) => string_in(json_member(doc, name)),
            None => None,
        },
    }
}

/// The value of a session field in a response with the given cookies and
/// payload text. A payload that is no JSON holds no field.
pub open spec fn session_field(cookies: Pairs, data: Option<Seq<char>>, name: Seq<char>) -> Option<
    Seq<char>,
> {
    field_among(
        cookies,
        match data {
            Some(d) => json_compact(d),
            None => None,
        },
        name,
    )
}

/// Takes the value of a session field that a successful response must
/// hold. A missing field is an `UnexpectedResponse` that names it.
pub(crate) fn required_field(
    cookies: &Vec<(String, String)>,
    payload: &Option<Value>,
    name: &str,
) -> (r: Result<String, HoyoError>)
    ensures
        match r {
            Ok(value) => Some(value@) == field_among(
                pairs_of(cookies@),
                document_of(*payload),
                name@,
            ),
            Err(e) => {
                &&& field_among(pairs_of(cookies@), document_of(*payload), name@) is None
                &&& e matches HoyoError::UnexpectedResponse(what) && what@ == name@
            },
        },
{
    match find_last(cookies, name) {
        Some(value) => Ok(value),
        None => {
            let member = match payload {
                Some(doc) => string_member(doc, name),
                None => None,
            };
            match member {
                Some(value) => Ok(value),
                None => Err(HoyoError::UnexpectedResponse(String::from_str(name))),
            }
        },
    }
}

/// Result from fetching `stoken` with a game token.
#[derive(Debug, Clone, PartialEq, Eq)]
pub struct STokenResult {
    pub aid: String,
    pub mid: String,
    pub token: String,
}

/// QR code login cookies.
#[derive(Debug, Clone, PartialEq, Eq)]
pub struct QRLoginResult {
    pub cookie_token_v2: String,
    pub account_mid_v2: String,
    pub account_id_v2: String,
    pub ltoken_v2: String,
    pub ltmid_v2: String,
    pub ltuid_v2: String,
}

/// Mobile app login cookies.
#[derive(Debug, Clone, PartialEq, Eq)]
pub struct AppLoginResult {
    pub stoken: String,
    pub ltuid_v2: String,
    pub ltmid_v2: String,
    pub account_id_v2: String,
    pub account_mid_v2: String,
}

/// The contents of an [`AppLoginResult`].
pub struct AppLoginResultView {
    pub stoken: Seq<char>,
    pub ltuid_v2: Seq<char>,
    pub ltmid_v2: Seq<char>,
    pub account_id_v2: Seq<char>,
    pub account_mid_v2: Seq<char>,
}

impl View for AppLoginResult {
    type V = AppLoginResultView;

    open spec fn view(&self) -> AppLoginResultView {
        AppLoginResultView {
            stoken: self.stoken@,
            ltuid_v2: self.ltuid_v2@,
            ltmid_v2: self.ltmid_v2@,
            account_id_v2: self.account_id_v2@,
            account_mid_v2: self.account_mid_v2@,
        }
    }
}

impl AppLoginResult {
    /// The first field, in their order, that a response has no value for.
    pub open spec fn missing_field(cookies: Pairs, data: Option<Seq<char>>) -> Option<Seq<char>> {
        if session_field(cookies, data, "stoken"@) is None {
            Some("stoken"@)
        } else if session_field(cookies, data, "ltuid_v2"@) is None {
            Some("ltuid_v2"@)
        } else if session_field(cookies, data, "ltmid_v2"@) is None {
            Some("ltmid_v2"@)
        } else if session_field(cookies, data, "account_id_v2"@) is None {
            Some("account_id_v2"@)
        } else if session_field(cookies, data, "account_mid_v2"@) is None {
            Some("account_mid_v2"@)
        } else {
            None
        }
    }

    /// The session that a response holds, field for field.
    pub open spec fn of_response(cookies: Pairs, data: Option<Seq<char>>) -> AppLoginResultView
        recommends
            Self::missing_field(cookies, data) is None,
    {
        AppLoginResultView {
            stoken: session_field(cookies, data, "stoken"@).unwrap(),
            ltuid_v2: session_field(cookies, data, "ltuid_v2"@).unwrap(),
            ltmid_v2: session_field(cookies, data, "ltmid_v2"@).unwrap(),
            account_id_v2: session_field(cookies, data, "account_id_v2"@).unwrap(),
            account_mid_v2: session_field(cookies, data, "account_mid_v2"@).unwrap(),
        }
    }

    /// Whether `r` is what taking the session out of a response gives: the
    /// session where every field is there, and else an `UnexpectedResponse`
    /// that names the first one missing.
    pub open spec fn is_taken_from(
        r: Result<AppLoginResult, HoyoError>,
        cookies: Pairs,
        data: Option<Seq<char>>,
    ) -> bool {
        match r {
            Ok(session) => {
                &&& Self::missing_field(cookies, data) is None
                &&& session@ == Self::of_response(cookies, data)
            },
            Err(e) => e matches HoyoError::UnexpectedResponse(what) && Some(what@)
                == Self::missing_field(cookies, data),
        }
    }

    /// Takes the session out of a response's cookies and payload. Every
    /// field must be there: the first one missing is reported, and nothing
    /// is made up.
    pub fn from_parts(cookies: &Vec<(String, String)>, data: Option<&str>) -> (r: Result<
        AppLoginResult,
        HoyoError,
    >)
        ensures
            Self::is_taken_from(r, pairs_of(cookies@), text_of_str(data)),
    {
        let payload = match data {
            Some(d) => parse(d),
            None => None,
        };
        let stoken = required_field(cookies, &payload, "stoken")?;
        let ltuid_v2 = required_field(cookies, &payload, "ltuid_v2")?;
        let ltmid_v2 = required_field(cookies, &payload, "ltmid_v2")?;
        let account_id_v2 = required_field(cookies, &payload, "account_id_v2")?;
        let account_mid_v2 = required_field(cookies, &payload, "account_mid_v2")?;
        Ok(AppLoginResult { stoken, ltuid_v2, ltmid_v2, account_id_v2, account_mid_v2 })
    }

    /// Takes the session out of cookies alone.
    pub fn from_cookies(cookies: &Vec<(String, String)>) -> (r: Result<AppLoginResult, HoyoError>)
        ensures
            Self::is_taken_from(r, pairs_of(cookies@), None),
    {
        Self::from_parts(cookies, None)
    }
}

/// Website login cookies.
#[derive(Debug, Clone, PartialEq, Eq)]
pub struct WebLoginResult {
    pub cookie_token_v2: String,
    pub account_mid_v2: String,
    pub account_id_v2: String,
    pub ltoken_v2: String,
    pub ltmid_v2: String,
    pub ltuid_v2: String,
}

/// The contents of a [`WebLoginResult`].
pub struct WebLoginResultView {
    pub cookie_token_v2: Seq<char>,
    pub account_mid_v2: Seq<char>,
    pub account_id_v2: Seq<char>,
    pub ltoken_v2: Seq<char>,
    pub ltmid_v2: Seq<char>,
    pub ltuid_v2: Seq<char>,
}

impl View for WebLoginResult {
    type V = WebLoginResultView;

    open spec fn view(&self) -> WebLoginResultView {
        WebLoginResultView {
            cookie_token_v2: self.cookie_token_v2@,
            account_mid_v2: self.account_mid_v2@,
            account_id_v2: self.account_id_v2@,
            ltoken_v2: self.ltoken_v2@,
            ltmid_v2: self.ltmid_v2@,
            ltuid_v2: self.ltuid_v2@,
        }
    }
}

impl WebLoginResult {
    /// The first field, in their order, that a response has no value for.
    pub open spec fn missing_field(cookies: Pairs, data: Option<Seq<char>>) -> Option<Seq<char>> {
        if session_field(cookies, data, "cookie_token_v2"@) is None {
            Some("cookie_token_v2"@)
        } else if session_field(cookies, data, "account_mid_v2"@) is None {
            Some("account_mid_v2"@)
        } else if session_field(cookies, data, "account_id_v2"@) is None {
            Some("account_id_v2"@)
        } else if session_field(cookies, data, "ltoken_v2"@) is None {
            Some("ltoken_v2"@)
        } else if session_field(cookies, data, "ltmid_v2"@) is None {
            Some("ltmid_v2"@)
        } else if session_field(cookies, data, "ltuid_v2"@) is None {
            Some("ltuid_v2"@)
        } else {
            None
        }
    }

    /// The session that a response holds, field for field.
    pub open spec fn of_response(cookies: Pairs, data: Option<Seq<char>>) -> WebLoginResultView
        recommends
            Self::missing_field(cookies, data) is None,
    {
        WebLoginResultView {
            cookie_token_v2: session_field(cookies, data, "cookie_token_v2"@).unwrap(),
            account_mid_v2: session_field(cookies, data, "account_mid_v2"@).unwrap(),
            account_id_v2: session_field(cookies, data, "account_id_v2"@).unwrap(),
            ltoken_v2: session_field(cookies, data, "ltoken_v2"@).unwrap(),
            ltmid_v2: session_field(cookies, data, "ltmid_v2"@).unwrap(),
            ltuid_v2: session_field(cookies, data, "ltuid_v2"@).unwrap(),
        }
    }

    /// Whether `r` is what taking the session out of a response gives: the
    /// session where every field is there, and else an `UnexpectedResponse`
    /// that names the first one missing.
    pub open spec fn is_taken_from(
        r: Result<WebLoginResult, HoyoError>,
        cookies: Pairs,
        data: Option<Seq<char>>,
    ) -> bool {
        match r {
            Ok(session) => {
                &&& Self::missing_field(cookies, data) is None
                &&& session@ == Self::of_response(cookies, data)
            },
            Err(e) => e matches HoyoError::UnexpectedResponse(what) && Some(what@)
                == Self::missing_field(cookies, data),
        }
    }

    /// Takes the session out of a response's cookies and payload. Every
    /// field must be there: the first one missing is reported, and nothing
    /// is made up.
    pub fn from_parts(cookies: &Vec<(String, String)>, data: Option<&str>) -> (r: Result<
        WebLoginResult,
        HoyoError,
    >)
        ensures
            Self::is_taken_from(r, pairs_of(cookies@), text_of_str(data)),
    {
        let payload = match data {
            Some(d) => parse(d),
            None => None,
        };
        let cookie_token_v2 = required_field(cookies, &payload, "cookie_token_v2")?;
        let account_mid_v2 = required_field(cookies, &payload, "account_mid_v2")?;
        let account_id_v2 = required_field(cookies, &payload, "account_id_v2")?;
        let ltoken_v2 = required_field(cookies, &payload, "ltoken_v2")?;
        let ltmid_v2 = required_field(cookies, &payload, "ltmid_v2")?;
        let ltuid_v2 = required_field(cookies, &payload, "ltuid_v2")?;
        Ok(
            WebLoginResult {
                cookie_token_v2,
                account_mid_v2,
                account_id_v2,
                ltoken_v2,
                ltmid_v2,
                ltuid_v2,
            },
        )
    }

    /// Takes the session out of cookies alone.
    pub fn from_cookies(cookies: &Vec<(String, String)>) -> (r: Result<WebLoginResult, HoyoError>)
        ensures
            Self::is_taken_from(r, pairs_of(cookies@), None),
    {
        Self::from_parts(cookies, None)
    }
}

/// Website login cookies of the Chinese endpoint family.
pub type CNWebLoginResult = WebLoginResult;

/// Mobile login result, using a phone number.
#[derive(Debug, Clone, PartialEq, Eq)]
pub struct MobileLoginResult {
    pub cookie_token_v2: String,
    pub account_mid_v2: String,
    pub account_id_v2: String,
    pub ltoken_v2: String,
    pub ltmid_v2: String,
}

/// The contents of a [`MobileLoginResult`].
pub struct MobileLoginResultView {
    pub cookie_token_v2: Seq<char>,
    pub account_mid_v2: Seq<char>,
    pub account_id_v2: Seq<char>,
    pub ltoken_v2: Seq<char>,
    pub ltmid_v2: Seq<char>,
}

impl View for MobileLoginResult {
    type V = MobileLoginResultView;

    open spec fn view(&self) -> MobileLoginResultView {
        MobileLoginResultView {
            cookie_token_v2: self.cookie_token_v2@,
            account_mid_v2: self.account_mid_v2@,
            account_id_v2: self.account_id_v2@,
            ltoken_v2: self.ltoken_v2@,
            ltmid_v2: self.ltmid_v2@,
        }
    }
}

impl MobileLoginResult {
    /// The first field, in their order, that a response has no value for.
    pub open spec fn missing_field(cookies: Pairs, data: Option<Seq<char>>) -> Option<Seq<char>> {
        if session_field(cookies, data, "cookie_token_v2"@) is None {
            Some("cookie_token_v2"@)
        } else if session_field(cookies, data, "account_mid_v2"@) is None {
            Some("account_mid_v2"@)
        } else if session_field(cookies, data, "account_id_v2"@) is None {
            Some("account_id_v2"@)
        } else if session_field(cookies, data, "ltoken_v2"@) is None {
            Some("ltoken_v2"@)
        } else if session_field(cookies, data, "ltmid_v2"@) is None {
            Some("ltmid_v2"@)
        } else {
            None
        }
    }

    /// The session that a response holds, field for field.
    pub open spec fn of_response(cookies: Pairs, data: Option<Seq<char>>) -> MobileLoginResultView
        recommends
            Self::missing_field(cookies, data) is None,
    {
        MobileLoginResultView {
            cookie_token_v2: session_field(cookies, data, "cookie_token_v2"@).unwrap(),
            account_mid_v2: session_field(cookies, data, "account_mid_v2"@).unwrap(),
            account_id_v2: session_field(cookies, data, "account_id_v2"@).unwrap(),
            ltoken_v2: session_field(cookies, data, "ltoken_v2"@).unwrap(),
            ltmid_v2: session_field(cookies, data, "ltmid_v2"@).unwrap(),
        }
    }

    /// Whether `r` is what taking the session out of a response gives: the
    /// session where every field is there, and else an `UnexpectedResponse`
    /// that names the first one missing.
    pub open spec fn is_taken_from(
        r: Result<MobileLoginResult, HoyoError>,
        cookies: Pairs,
        data: Option<Seq<char>>,
    ) -> bool {
        match r {
            Ok(session) => {
                &&& Self::missing_field(cookies, data) is None
                &&& session@ == Self::of_response(cookies, data)
            },
            Err(e) => e matches HoyoError::UnexpectedResponse(what) && Some(what@)
                == Self::missing_field(cookies, data),
        }
    }

    /// Takes the session out of a response's cookies and payload. Every
    /// field must be there: the first one missing is reported, and nothing
    /// is made up.
    pub fn from_parts(cookies: &Vec<(String, String)>, data: Option<&str>) -> (r: Result<
        MobileLoginResult,
        HoyoError,
    >)
        ensures
            Self::is_taken_from(r, pairs_of(cookies@), text_of_str(data)),
    {
        let payload = match data {
            Some(d) => parse(d),
            None => None,
        };
        let cookie_token_v2 = required_field(cookies, &payload, "cookie_token_v2")?;
        let account_mid_v2 = required_field(cookies, &payload, "account_mid_v2")?;
        let account_id_v2 = required_field(cookies, &payload, "account_id_v2")?;
        let ltoken_v2 = required_field(cookies, &payload, "ltoken_v2")?;
        let ltmid_v2 = required_field(cookies, &payload, "ltmid_v2")?;
        Ok(
            MobileLoginResult {
                cookie_token_v2,
                account_mid_v2,
                account_id_v2,
                ltoken_v2,
                ltmid_v2,
            },
        )
    }

    /// Takes the session out of cookies alone.
    pub fn from_cookies(cookies: &Vec<(String, String)>) -> (r: Result<
        MobileLoginResult,
        HoyoError,
    >)
        ensures
            Self::is_taken_from(r, pairs_of(cookies@), None),
    {
        Self::from_parts(cookies, None)
    }
}

/// A cookie for the caller to put into the shared cookie store, against the
/// address it belongs to.
#[derive(Debug, Clone, PartialEq, Eq)]
pub struct StoredCookie {
    pub name: String,
    pub value: String,
    pub url: String,
}

/// The contents of a [`StoredCookie`].
pub struct StoredCookieView {
    pub name: Seq<char>,
    pub value: Seq<char>,
    pub url: Seq<char>,
}

impl View for StoredCookie {
    type V = StoredCookieView;

    open spec fn view(&self) -> StoredCookieView {
        StoredCookieView { name: self.name@, value: self.value@, url: self.url@ }
    }
}

/// Device grant result.
#[derive(Debug, Clone, PartialEq, Eq)]
pub struct DeviceGrantResult {
    pub game_token: String,
    pub login_ticket: Option<String>,
}

/// Game login result.
#[derive(Debug, Clone, PartialEq, Eq)]
pub struct GameLoginResult {
    pub combo_id: String,
    pub open_id: String,
    pub combo_token: String,
    pub heartbeat: bool,
    pub account_type: i32,
}

} // verus!
