//! The two-field result that every fallible entry point returns.

use crate::errno::ERR_SUCCESS;
use crate::marshal::{host_string, string_out};
use vstd::prelude::*;
use vstd::utf8::encode_utf8;

verus! {

/// The outcome of a bridge operation: a status code and a message.
#[derive(Debug, PartialEq, Eq)]
pub struct PluginReturn {
    pub code: i32,
    pub msg: String,
}

/// What a [`PluginReturn`] holds, as mathematical values.
pub struct ReturnView {
    pub code: int,
    pub msg: Seq<char>,
}

impl View for PluginReturn {
    type V = ReturnView;

    open spec fn view(&self) -> ReturnView {
        ReturnView { code: self.code as int, msg: self.msg@ }
    }
}

impl ReturnView {
    /// The message is empty exactly when the code reports success.
    pub open spec fn well_formed(self) -> bool {
        self.code == ERR_SUCCESS <==> self.msg.len() == 0
    }
}

/// The result of a successful operation: code zero, no message.
pub open spec fn success_view() -> ReturnView {
    ReturnView { code: ERR_SUCCESS as int, msg: Seq::empty() }
}

impl PluginReturn {
    /// The result of a successful operation.
    pub fn success() -> (ret: PluginReturn)
        ensures
            ret@ == success_view(),
            ret@.well_formed(),
    {
        PluginReturn { code: ERR_SUCCESS, msg: String::new() }
    }

    /// A result with the given code and a copy of the given message.
    pub fn new(code: i32, msg: &str) -> (ret: PluginReturn)
        ensures
            ret@ == (ReturnView { code: code as int, msg: msg@ }),
    {
        PluginReturn { code, msg: msg.to_owned() }
    }

    /// Whether the code reports success.
    pub fn is_success(&self) -> (ok: bool)
        ensures
            ok == (self@.code == ERR_SUCCESS),
    {
        self.code == ERR_SUCCESS
    }

    /// The message as the host receives it: nothing, which stands for a
    /// null pointer, where the message is empty, else a null-terminated
    /// buffer that the host owns from then on.
    pub fn host_message(&self) -> (buffer: Option<Vec<u8>>)
        ensures
            match buffer {
                None => self@.msg.len() == 0,
                Some(bytes) => self@.msg.len() > 0 && bytes@ == host_string(encode_utf8(self@.msg)),
            },
    {
        if self.msg.as_str().is_empty() {
            None
        } else {
            Some(string_out(self.msg.as_str()))
        }
    }
}

} // verus!
