//! QR code login.

use vstd::prelude::*;

verus! {

/// How far a QR code login has come.
#[derive(Debug, Clone, Copy, PartialEq, Eq, Structural)]
pub enum QRCodeStatus {
    Created,
    Scanned,
    Confirmed,
}

impl QRCodeStatus {
    /// The status with the given name, if there is one.
    pub open spec fn of_name(name: Seq<char>) -> Option<QRCodeStatus> {
        if name == "Created"@ {
            Some(QRCodeStatus::Created)
        } else if name == "Scanned"@ {
            Some(QRCodeStatus::Scanned)
        } else if name == "Confirmed"@ {
            Some(QRCodeStatus::Confirmed)
        } else {
            None
        }
    }

    /// Reads a status from its name.
    pub fn from_name(name: &str) -> (r: Option<QRCodeStatus>)
        ensures
            r == Self::of_name(name@),
    {
        if name.eq("Created") {
            Some(QRCodeStatus::Created)
        } else if name.eq("Scanned") {
            Some(QRCodeStatus::Scanned)
        } else if name.eq("Confirmed") {
            Some(QRCodeStatus::Confirmed)
        } else {
            None
        }
    }
}

/// A freshly created QR code login.
#[derive(Debug, Clone, PartialEq, Eq)]
pub struct QRCodeCreationResult {
    pub ticket: String,
    pub url: String,
}

/// The contents of a [`QRCodeCreationResult`].
pub struct QRCodeCreationResultView {
    pub ticket: Seq<char>,
    pub url: Seq<char>,
}

impl View for QRCodeCreationResult {
    type V = QRCodeCreationResultView;

    open spec fn view(&self) -> QRCodeCreationResultView {
        QRCodeCreationResultView { ticket: self.ticket@, url: self.url@ }
    }
}

} // verus!
