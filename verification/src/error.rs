//! The error type shared by compilation, execution and conversion.
use vstd::prelude::*;

verus! {

use crate::strutil::i_dec;
use crate::strutil::pad3;
use crate::strutil::pad4;
use crate::strutil::push_i64_dec;
use crate::strutil::push_pad3;
use crate::strutil::push_pad4;
use crate::strutil::push_u64_dec;
use crate::strutil::string_from_chars;
use crate::strutil::u_dec;
use vstd::string::StringExecFns;

/// Which layer an error originated from.
#[derive(Debug, Clone, Copy, PartialEq, Eq, Structural)]
pub enum Type {
    Cs,
    Client,
    Server,
    Library,
}

impl Default for Type {
    fn default() -> (r: Self)
        ensures
            r == Type::Library,
    {
        Type::Library
    }
}

/// A diagnostic or failure: its origin, optional code and severity, and
/// the descriptive text.
#[derive(Debug)]
pub struct Error {
    pub type_: Type,
    pub code: Option<i32>,
    pub desc: String,
    pub severity: Option<i32>,
}

impl Error {
    /// An error carrying just a description.
    pub fn from_message(desc: &str) -> (r: Self)
        ensures
            r.type_ == Type::Library,
            r.code is None,
            r.severity is None,
            r.desc@ == desc@,
    {
        Error { type_: Type::Library, code: None, desc: desc.to_owned(), severity: None }
    }

    /// An error reporting that the named operation failed.
    pub fn from_failure(fn_name: &str) -> (r: Self)
        ensures
            r.type_ == Type::Library,
            r.code is None,
            r.severity is None,
            r.desc@ == fn_name@ + " failed"@,
    {
        let desc = fn_name.to_owned().concat(" failed");
        Error { type_: Type::Library, code: None, desc, severity: None }
    }

    pub fn code(&self) -> (r: Option<i32>)
        ensures
            r == self.code,
    {
        self.code
    }

    pub fn desc(&self) -> (r: &str)
        ensures
            r@ == self.desc@,
    {
        self.desc.as_str()
    }

    pub fn type_(&self) -> (r: Type)
        ensures
            r == self.type_,
    {
        self.type_
    }

    pub fn severity(&self) -> (r: Option<i32>)
        ensures
            r == self.severity,
    {
        self.severity
    }

    /// The full message text: origin label, then the code and severity
    /// fields when present, then the description.
    pub fn display_string(&self) -> (r: String)
        ensures
            r@ == display_text(*self),
    {
        let mut out = match self.type_ {
            Type::Cs => String::from_str("CS library error"),
            Type::Client => String::from_str("Client library error"),
            Type::Server => String::from_str("Server error"),
            Type::Library => String::from_str("FreeTDS error"),
        };
        match self.code {
            Some(c) => {
                out.append(" #");
                let mut digits: Vec<char> = Vec::new();
                push_code_field(&mut digits, c);
                let t = string_from_chars(&digits);
                out.append(t.as_str());
            },
            None => {},
        }
        match self.severity {
            Some(s) => {
                out.append(" severity ");
                let mut digits: Vec<char> = Vec::new();
                push_i64_dec(&mut digits, s as i64);
                let t = string_from_chars(&digits);
                out.append(t.as_str());
            },
            None => {},
        }
        out.append(": ");
        out.append(self.desc.as_str());
        out
    }
}

/// An error code rendered at least four characters wide, zero padded,
/// the sign included in the width.
pub open spec fn code_field(c: int) -> Seq<char> {
    if 0 <= c < 10000 {
        pad4(c)
    } else if c >= 10000 {
        u_dec(c as nat)
    } else if -c < 1000 {
        seq!['-'] + pad3(-c)
    } else {
        seq!['-'] + u_dec((-c) as nat)
    }
}

fn push_code_field(out: &mut Vec<char>, c: i32)
    ensures
        final(out)@ == old(out)@ + code_field(c as int),
{
    if c >= 0 {
        if c < 10000 {
            push_pad4(out, c as u32);
        } else {
            push_u64_dec(out, c as u64);
        }
    } else {
        out.push('-');
        let m: u32 = if c == i32::MIN {
            2147483648u32
        } else {
            (-c) as u32
        };
        if m < 1000 {
            push_pad3(out, m);
        } else {
            push_u64_dec(out, m as u64);
        }
        assert(out@ =~= old(out)@ + code_field(c as int));
    }
}

impl Clone for Error {
    /// The clone carries the same origin, code, severity and text.
    fn clone(&self) -> (r: Self)
        ensures
            r == *self,
    {
        Error {
            type_: self.type_,
            code: self.code,
            desc: self.desc.clone(),
            severity: self.severity,
        }
    }
}

/// The text `display_string` renders.
pub open spec fn display_text(e: Error) -> Seq<char> {
    type_label(e.type_) + (match e.code {
        Some(c) => " #"@ + code_field(c as int),
        None => Seq::<char>::empty(),
    }) + (match e.severity {
        Some(s) => " severity "@ + i_dec(s as int),
        None => Seq::<char>::empty(),
    }) + ": "@ + e.desc@
}

pub open spec fn type_label(t: Type) -> Seq<char> {
    match t {
        Type::Cs => "CS library error"@,
        Type::Client => "Client library error"@,
        Type::Server => "Server error"@,
        Type::Library => "FreeTDS error"@,
    }
}

} // verus!
