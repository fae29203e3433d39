//! Geetest challenges issued by the service and the proofs that answer them.

use vstd::prelude::*;
use vstd::string::StringExecFns;
use vstd::utf8::encode_utf8;
use crate::utils::auth_constants::{base64_encode, base64_standard};
use crate::utils::json::{
    as_i32, json_compact, json_i32_value, json_member, member, parse, push_string_member,
    string_field, string_member, string_member_text,
};
use serde_json::Value;

verus! {

/// The whole number in the member `key` of the object in `text`, with an
/// absent member counting as zero; `None` where the member holds anything
/// but a whole number.
pub open spec fn i32_field_or_zero(text: Seq<char>, key: Seq<char>) -> Option<i32> {
    match json_compact(text) {
        Some(doc) => i32_or_zero_in(doc, key),
        None => None,
    }
}

/// The whole number in the member `key` of the object with the compact
/// text `doc`, zero where the member is absent.
pub open spec fn i32_or_zero_in(doc: Seq<char>, key: Seq<char>) -> Option<i32> {
    match json_member(doc, key) {
        Some(m) => json_i32_value(m),
        None => Some(0i32),
    }
}

/// Reads the member `key` as a whole number, zero where it is absent.
fn i32_member_or_zero(doc: &Value, key: &str) -> (r: Option<i32>)
    ensures
        r == i32_or_zero_in(crate::utils::json::json_text(*doc), key@),
{
    match member(doc, key) {
        Some(m) => as_i32(&m),
        None => Some(0),
    }
}

/// Geetest verification data.
#[derive(Debug, Clone, PartialEq, Eq)]
pub struct MMT {
    pub new_captcha: i32,
    pub success: i32,
    pub challenge: String,
    pub gt: String,
}

/// A geetest challenge bound to the server session that issued it.
#[derive(Debug, Clone, PartialEq, Eq)]
pub struct SessionMMT {
    pub new_captcha: i32,
    pub success: i32,
    pub challenge: String,
    pub gt: String,
    pub session_id: String,
}

/// The contents of a [`SessionMMT`].
pub struct SessionMMTView {
    pub new_captcha: i32,
    pub success: i32,
    pub challenge: Seq<char>,
    pub gt: Seq<char>,
    pub session_id: Seq<char>,
}

impl View for SessionMMT {
    type V = SessionMMTView;

    open spec fn view(&self) -> SessionMMTView {
        SessionMMTView {
            new_captcha: self.new_captcha,
            success: self.success,
            challenge: self.challenge@,
            gt: self.gt@,
            session_id: self.session_id@,
        }
    }
}

impl SessionMMT {
    /// The challenge that the JSON text of an `x-rpc-aigis` response header
    /// holds. The strings `gt`, `challenge` and `session_id` must be there;
    /// `new_captcha` and `success` are whole numbers that count as zero
    /// where the header leaves them out.
    pub open spec fn parsed(text: Seq<char>) -> Option<SessionMMTView> {
        if i32_field_or_zero(text, "new_captcha"@) is Some && i32_field_or_zero(
            text,
            "success"@,
        ) is Some && string_field(text, "challenge"@) is Some && string_field(text, "gt"@) is Some
            && string_field(text, "session_id"@) is Some {
            Some(
                SessionMMTView {
                    new_captcha: i32_field_or_zero(text, "new_captcha"@).unwrap(),
                    success: i32_field_or_zero(text, "success"@).unwrap(),
                    challenge: string_field(text, "challenge"@).unwrap(),
                    gt: string_field(text, "gt"@).unwrap(),
                    session_id: string_field(text, "session_id"@).unwrap(),
                },
            )
        } else {
            None
        }
    }

    /// Reads a challenge from the JSON text of an `x-rpc-aigis` response header.
    pub fn parse(text: &str) -> (r: Option<SessionMMT>)
        ensures
            r.is_some() == Self::parsed(text@).is_some(),
            r matches Some(m) ==> Some(m@) == Self::parsed(text@),
    {
        let doc = match parse(text) {
            Some(doc) => doc,
            None => {
                return None;
            },
        };
        let new_captcha = i32_member_or_zero(&doc, "new_captcha");
        let success = i32_member_or_zero(&doc, "success");
        let challenge = string_member(&doc, "challenge");
        let gt = string_member(&doc, "gt");
        let session_id = string_member(&doc, "session_id");
        match (new_captcha, success, challenge, gt, session_id) {
            (Some(new_captcha), Some(success), Some(challenge), Some(gt), Some(session_id)) => Some(
                SessionMMT { new_captcha, success, challenge, gt, session_id },
            ),
            _ => None,
        }
    }
}

/// A geetest challenge issued by a risky-check.
#[derive(Debug, Clone, PartialEq, Eq)]
pub struct RiskyCheckMMT {
    pub new_captcha: i32,
    pub success: i32,
    pub challenge: String,
    pub gt: String,
    pub check_id: String,
}

/// Geetest V4 verification data.
#[derive(Debug, Clone, PartialEq, Eq)]
pub struct MMTv4 {
    pub new_captcha: i32,
    pub success: i32,
    pub captcha_id: String,
    pub risk_type: String,
}

/// Geetest V4 verification data bound to a server session.
#[derive(Debug, Clone, PartialEq, Eq)]
pub struct SessionMMTv4 {
    pub new_captcha: i32,
    pub success: i32,
    pub captcha_id: String,
    pub risk_type: String,
    pub session_id: String,
}

/// A solved geetest challenge.
#[derive(Debug, Clone, PartialEq, Eq)]
pub struct MMTResult {
    pub geetest_challenge: String,
    pub geetest_validate: String,
    pub geetest_seccode: String,
}

/// A solved geetest challenge together with the session it answers.
#[derive(Debug, Clone, PartialEq, Eq)]
pub struct SessionMMTResult {
    pub geetest_challenge: String,
    pub geetest_validate: String,
    pub geetest_seccode: String,
    pub session_id: String,
}

/// The contents of a [`SessionMMTResult`].
pub struct SessionMMTResultView {
    pub geetest_challenge: Seq<char>,
    pub geetest_validate: Seq<char>,
    pub geetest_seccode: Seq<char>,
    pub session_id: Seq<char>,
}

impl View for SessionMMTResult {
    type V = SessionMMTResultView;

    open spec fn view(&self) -> SessionMMTResultView {
        SessionMMTResultView {
            geetest_challenge: self.geetest_challenge@,
            geetest_validate: self.geetest_validate@,
            geetest_seccode: self.geetest_seccode@,
            session_id: self.session_id@,
        }
    }
}

impl SessionMMTResult {
    /// The proof as the JSON object that goes on the wire: the three geetest
    /// strings, without the session.
    pub open spec fn proof_json(p: SessionMMTResultView) -> Seq<char> {
        seq!['{'] + string_member_text("geetest_challenge"@, p.geetest_challenge) + seq![',']
            + string_member_text("geetest_validate"@, p.geetest_validate) + seq![',']
            + string_member_text("geetest_seccode"@, p.geetest_seccode) + seq!['}']
    }

    /// The value of the `x-rpc-aigis` request header for a proof: the
    /// session, a semicolon, and the proof's JSON in base64.
    pub open spec fn aigis_header(p: SessionMMTResultView) -> Seq<char> {
        p.session_id + seq![';'] + base64_standard(encode_utf8(Self::proof_json(p)))
    }

    /// Writes the value of the `x-rpc-aigis` request header.
    pub fn get_aigis_header(&self) -> (r: String)
        ensures
            r@ == Self::aigis_header(self@),
    {
        let mut json = String::new();
        json.push('{');
        push_string_member(&mut json, "geetest_challenge", self.geetest_challenge.as_str());
        json.push(',');
        push_string_member(&mut json, "geetest_validate", self.geetest_validate.as_str());
        json.push(',');
        push_string_member(&mut json, "geetest_seccode", self.geetest_seccode.as_str());
        json.push('}');
        assert(json@ == Self::proof_json(self@));
        let encoded = base64_encode(json.as_str().as_bytes());
        let mut r = self.session_id.clone();
        r.push(';');
        r.append(encoded.as_str());
        r
    }
}

/// A solved geetest V4 challenge.
#[derive(Debug, Clone, PartialEq, Eq)]
pub struct MMTv4Result {
    pub captcha_id: String,
    pub lot_number: String,
    pub pass_token: String,
    pub gen_time: String,
    pub captcha_output: String,
}

/// A solved geetest V4 challenge together with the session it answers.
#[derive(Debug, Clone, PartialEq, Eq)]
pub struct SessionMMTv4Result {
    pub captcha_id: String,
    pub lot_number: String,
    pub pass_token: String,
    pub gen_time: String,
    pub captcha_output: String,
    pub session_id: String,
}

/// A solved risky-check geetest challenge.
#[derive(Debug, Clone, PartialEq, Eq)]
pub struct RiskyCheckMMTResult {
    pub geetest_challenge: String,
    pub geetest_validate: String,
    pub geetest_seccode: String,
    pub check_id: String,
}

/// What a risky-check asks of the client.
#[allow(non_camel_case_types)]
#[derive(Debug, Clone, Copy, PartialEq, Eq, Structural)]
pub enum RiskyCheckAction {
    ACTION_NONE,
    ACTION_GEETEST,
}

/// The answer of a risky-check.
#[derive(Debug, Clone, PartialEq, Eq)]
pub struct RiskyCheckResult {
    pub id: String,
    pub action: RiskyCheckAction,
    pub mmt: Option<MMT>,
}

} // verus!
