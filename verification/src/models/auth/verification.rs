//! Email verification tickets.

use vstd::prelude::*;
use vstd::string::StringExecFns;
use crate::utils::json::{
    compact, json_compact, parse, push_string_member, string_field, string_member,
    string_member_text,
};

verus! {

/// A ticket that asks the account owner to confirm a login by email.
#[derive(Debug, Clone, PartialEq, Eq)]
pub struct ActionTicket {
    pub risk_ticket: String,
    pub verify_str: String,
    pub ticket: String,
}

/// The contents of an [`ActionTicket`].
pub struct ActionTicketView {
    pub risk_ticket: Seq<char>,
    pub verify_str: Seq<char>,
    pub ticket: Seq<char>,
}

impl View for ActionTicket {
    type V = ActionTicketView;

    open spec fn view(&self) -> ActionTicketView {
        ActionTicketView {
            risk_ticket: self.risk_ticket@,
            verify_str: self.verify_str@,
            ticket: self.ticket@,
        }
    }
}

impl ActionTicket {
    /// The ticket that the JSON text of an `x-rpc-verify` response header
    /// holds: the strings `risk_ticket`, `verify_str` and `ticket`.
    pub open spec fn parsed(text: Seq<char>) -> Option<ActionTicketView> {
        if string_field(text, "risk_ticket"@) is Some && string_field(text, "verify_str"@) is Some
            && string_field(text, "ticket"@) is Some {
            Some(
                ActionTicketView {
                    risk_ticket: string_field(text, "risk_ticket"@).unwrap(),
                    verify_str: string_field(text, "verify_str"@).unwrap(),
                    ticket: string_field(text, "ticket"@).unwrap(),
                },
            )
        } else {
            None
        }
    }

    /// Reads a ticket from the JSON text of an `x-rpc-verify` response header.
    pub fn parse(text: &str) -> (r: Option<ActionTicket>)
        ensures
            r.is_some() == Self::parsed(text@).is_some(),
            r matches Some(t) ==> Some(t@) == Self::parsed(text@),
    {
        let doc = match parse(text) {
            Some(doc) => doc,
            None => {
                return None;
            },
        };
        let risk_ticket = string_member(&doc, "risk_ticket");
        let verify_str = string_member(&doc, "verify_str");
        let ticket = string_member(&doc, "ticket");
        match (risk_ticket, verify_str, ticket) {
            (Some(risk_ticket), Some(verify_str), Some(ticket)) => Some(
                ActionTicket { risk_ticket, verify_str, ticket },
            ),
            _ => None,
        }
    }

    /// The verification string as the service wants it back: its JSON in
    /// compact form, or an empty object where it is no JSON.
    pub open spec fn flattened_verify_str(verify_str: Seq<char>) -> Seq<char> {
        match json_compact(verify_str) {
            Some(c) => c,
            None => "{}"@,
        }
    }

    /// The value of the `x-rpc-verify` request header for a ticket: a JSON
    /// object of three strings. The verification string, itself JSON, is
    /// flattened and embedded as a string, not as an object.
    pub open spec fn rpc_verify_header(t: ActionTicketView) -> Seq<char> {
        seq!['{'] + string_member_text("risk_ticket"@, t.risk_ticket) + seq![',']
            + string_member_text("ticket"@, t.ticket) + seq![','] + string_member_text(
            "verify_str"@,
            Self::flattened_verify_str(t.verify_str),
        ) + seq!['}']
    }

    /// Writes the value of the `x-rpc-verify` request header.
    pub fn to_rpc_verify_header(&self) -> (r: String)
        ensures
            r@ == Self::rpc_verify_header(self@),
    {
        let flattened = match compact(self.verify_str.as_str()) {
            Some(c) => c,
            None => String::from_str("{}"),
        };
        let mut r = String::new();
        r.push('{');
        push_string_member(&mut r, "risk_ticket", self.risk_ticket.as_str());
        r.push(',');
        push_string_member(&mut r, "ticket", self.ticket.as_str());
        r.push(',');
        push_string_member(&mut r, "verify_str", flattened.as_str());
        r.push('}');
        r
    }
}

} // verus!
