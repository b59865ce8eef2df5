//! The error of every operation on the configuration: a message for the user.

use vstd::prelude::*;
use vstd::string::*;

verus! {

/// An error that carries the message shown to the user.
#[derive(Debug, PartialEq, Eq)]
pub struct ConfigError {
    message: String,
}

impl View for ConfigError {
    type V = Seq<char>;

    /// The message of the error.
    closed spec fn view(&self) -> Seq<char> {
        self.message@
    }
}

impl ConfigError {
    /// The string that holds the message.
    pub closed spec fn text(&self) -> String {
        self.message
    }

    /// An error whose message is the text that `e` displays as.
    pub fn new<E: core::fmt::Display + ?Sized>(e: &E) -> (error: Self)
        ensures
            to_string_from_display_ensures::<E>(e, error.text()),
            error@ == error.text()@,
    {
        Self { message: e.to_string() }
    }

    /// An error with the given message.
    pub fn from_string(message: String) -> (error: Self)
        ensures
            error@ == message@,
    {
        Self { message }
    }

    /// The message of the error.
    pub fn to_string(&self) -> (text: String)
        ensures
            text@ == self@,
    {
        self.message.clone()
    }
}

} // verus!
