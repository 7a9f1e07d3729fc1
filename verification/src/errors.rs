//! Error values of the bot and of the web server.
use vstd::prelude::*;

use crate::text::{concat2, owned};

verus! {

/// An error of the bot, carrying a human-readable message.
#[derive(Debug)]
pub struct BotError {
    message: String,
}

impl Clone for BotError {
    fn clone(&self) -> (e: Self)
        ensures
            e@ == self@,
    {
        BotError { message: self.message.clone() }
    }
}

impl View for BotError {
    type V = Seq<char>;

    /// The message carried by the error.
    closed spec fn view(&self) -> Seq<char> {
        self.message@
    }
}

impl BotError {
    /// An error carrying `message`.
    pub fn new(message: String) -> (e: BotError)
        ensures
            e@ == message@,
    {
        BotError { message }
    }

    /// The message carried by the error.
    pub fn message(&self) -> (m: &str)
        ensures
            m@ == self@,
    {
        self.message.as_str()
    }

    /// The text the error is shown as: its message, unchanged.
    pub fn to_string(&self) -> (s: String)
        ensures
            s@ == self@,
    {
        owned(self.message.as_str())
    }
}

/// An error of the web server, carrying a human-readable message.
#[derive(Debug)]
pub struct WebServerError {
    message: String,
}

impl View for WebServerError {
    type V = Seq<char>;

    /// The message carried by the error.
    closed spec fn view(&self) -> Seq<char> {
        self.message@
    }
}

impl WebServerError {
    /// An error carrying `message`.
    pub fn new(message: String) -> (e: WebServerError)
        ensures
            e@ == message@,
    {
        WebServerError { message }
    }

    /// The error for a failed input/output operation described by `detail`.
    pub fn from_io(detail: &str) -> (e: WebServerError)
        ensures
            e@ == "IO Error: "@ + detail@,
    {
        WebServerError { message: concat2("IO Error: ", detail) }
    }

    /// The error for a server that stopped with the failure `detail`.
    pub fn server(detail: &str) -> (e: WebServerError)
        ensures
            e@ == "Server error: "@ + detail@,
    {
        WebServerError { message: concat2("Server error: ", detail) }
    }

    /// The message carried by the error.
    pub fn message(&self) -> (m: &str)
        ensures
            m@ == self@,
    {
        self.message.as_str()
    }

    /// The text the error is shown as: `Web Error: ` and its message.
    pub fn to_string(&self) -> (s: String)
        ensures
            s@ == "Web Error: "@ + self@,
    {
        concat2("Web Error: ", self.message.as_str())
    }
}

} // verus!
