//! The request that goes out and the envelope that comes back.

use vstd::prelude::*;
use vstd::string::StringExecFns;
use crate::error::HoyoError;
use crate::utils::json::{
    i32_field, i32_member, member_of, member_text, parse, string_field, string_member,
};
use crate::utils::text::{pairs_of, Pairs};

verus! {

/// The body of a response: a status code, a message and an optional payload.
///
/// The payload is kept as compact JSON text.
#[derive(Debug, Clone, PartialEq, Eq)]
pub struct Base {
    pub retcode: i32,
    pub message: String,
    pub data: Option<String>,
}

/// The contents of a [`Base`].
pub struct BaseView {
    pub retcode: i32,
    pub message: Seq<char>,
    pub data: Option<Seq<char>>,
}

impl View for Base {
    type V = BaseView;

    open spec fn view(&self) -> BaseView {
        BaseView {
            retcode: self.retcode,
            message: self.message@,
            data: match self.data {
                Some(d) => Some(d@),
                None => None,
            },
        }
    }
}

impl Base {
    /// The payload of a response body: the member `data`, where there is
    /// one and it is not `null`.
    pub open spec fn payload_of(body: Seq<char>) -> Option<Seq<char>> {
        match member_of(body, "data"@) {
            Some(d) => if d == "null"@ {
                None
            } else {
                Some(d)
            },
            None => None,
        }
    }

    /// What a response body holds: the whole number `retcode`, the string
    /// `message`, and the payload; `None` where one of the first two is missing.
    pub open spec fn parsed(body: Seq<char>) -> Option<BaseView> {
        if i32_field(body, "retcode"@) is Some && string_field(body, "message"@) is Some {
            Some(
                BaseView {
                    retcode: i32_field(body, "retcode"@).unwrap(),
                    message: string_field(body, "message"@).unwrap(),
                    data: Self::payload_of(body),
                },
            )
        } else {
            None
        }
    }

    /// The member for whose sake a body does not parse: `retcode` before `message`.
    pub open spec fn missing_member(body: Seq<char>) -> Seq<char> {
        if i32_field(body, "retcode"@) is None {
            "retcode"@
        } else {
            "message"@
        }
    }

    /// Reads a response body. A body without a whole `retcode` or without a
    /// `message` string is a `SerdeError` that names the member, `retcode` first.
    pub fn parse(body: &str) -> (r: Result<Base, HoyoError>)
        ensures
            match r {
                Ok(base) => Some(base@) == Self::parsed(body@),
                Err(e) => {
                    &&& Self::parsed(body@) is None
                    &&& e matches HoyoError::SerdeError(what) && what@ == Self::missing_member(
                        body@,
                    )
                },
            },
    {
        let doc = match parse(body) {
            Some(doc) => doc,
            None => {
                return Err(HoyoError::SerdeError(String::from_str("retcode")));
            },
        };
        let retcode = match i32_member(&doc, "retcode") {
            Some(code) => code,
            None => {
                return Err(HoyoError::SerdeError(String::from_str("retcode")));
            },
        };
        let message = match string_member(&doc, "message") {
            Some(text) => text,
            None => {
                return Err(HoyoError::SerdeError(String::from_str("message")));
            },
        };
        let data = match member_text(&doc, "data") {
            Some(d) => if d.as_str().eq("null") {
                None
            } else {
                Some(d)
            },
            None => None,
        };
        Ok(Base { retcode, message, data })
    }
}

/// One exchange with the service, as the classifier sees it: the body's
/// status, message and payload, and the response's headers and cookies.
///
/// Header names are in lower case, as HTTP/2 sends them.
#[derive(Debug, Clone, PartialEq, Eq)]
pub struct ResponseEnvelope {
    pub retcode: i32,
    pub message: String,
    pub data: Option<String>,
    pub headers: Vec<(String, String)>,
    pub cookies: Vec<(String, String)>,
}

/// The contents of a [`ResponseEnvelope`].
pub struct ResponseEnvelopeView {
    pub retcode: i32,
    pub message: Seq<char>,
    pub data: Option<Seq<char>>,
    pub headers: Pairs,
    pub cookies: Pairs,
}

impl View for ResponseEnvelope {
    type V = ResponseEnvelopeView;

    open spec fn view(&self) -> ResponseEnvelopeView {
        ResponseEnvelopeView {
            retcode: self.retcode,
            message: self.message@,
            data: match self.data {
                Some(d) => Some(d@),
                None => None,
            },
            headers: pairs_of(self.headers@),
            cookies: pairs_of(self.cookies@),
        }
    }
}

impl ResponseEnvelope {
    /// Puts a parsed body together with the response's headers and cookies.
    pub fn new(base: Base, headers: Vec<(String, String)>, cookies: Vec<(String, String)>) -> (r:
        ResponseEnvelope)
        ensures
            r@ == (ResponseEnvelopeView {
                retcode: base@.retcode,
                message: base@.message,
                data: base@.data,
                headers: pairs_of(headers@),
                cookies: pairs_of(cookies@),
            }),
    {
        ResponseEnvelope {
            retcode: base.retcode,
            message: base.message,
            data: base.data,
            headers,
            cookies,
        }
    }
}

/// The HTTP method of a request.
#[derive(Debug, Clone, Copy, PartialEq, Eq, Structural)]
pub enum Method {
    Get,
    Post,
}

/// Everything the transport needs to send one attempt. A request is built
/// whole and never changed; a retry builds a new one.
#[derive(Debug, Clone, PartialEq, Eq)]
pub struct SignedRequestSpec {
    pub method: Method,
    pub url: String,
    pub headers: Vec<(String, String)>,
    pub query: Vec<(String, String)>,
    pub body: Option<String>,
}

/// The contents of a [`SignedRequestSpec`].
pub struct SignedRequestSpecView {
    pub method: Method,
    pub url: Seq<char>,
    pub headers: Pairs,
    pub query: Pairs,
    pub body: Option<Seq<char>>,
}

impl View for SignedRequestSpec {
    type V = SignedRequestSpecView;

    open spec fn view(&self) -> SignedRequestSpecView {
        SignedRequestSpecView {
            method: self.method,
            url: self.url@,
            headers: pairs_of(self.headers@),
            query: pairs_of(self.query@),
            body: match self.body {
                Some(b) => Some(b@),
                None => None,
            },
        }
    }
}

} // verus!
