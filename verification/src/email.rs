//! Outgoing mail.

use vstd::prelude::*;

verus! {

/// A message to one recipient. Mail programs that do not show HTML fall back
/// to the plain text.
#[derive(Debug, Clone)]
pub struct EmailMessage {
    /// The normalised address of the recipient.
    pub to: String,
    pub subject: String,
    pub text_body: String,
    pub html_body: Option<String>,
}

} // verus!
