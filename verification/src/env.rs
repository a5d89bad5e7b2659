//! Values read from files that the environment names, and what can go wrong
//! while reading them.

use vstd::prelude::*;

verus! {

/// What went wrong while a value was read from a file.
#[non_exhaustive]
#[derive(Debug)]
pub enum ErrorKind {
    /// The content was read but is not a value of the wanted type.
    ParseFailure(String),
    /// The file could not be opened or read; the text is the system's message.
    Io(String),
    /// The environment variable is not set or not Unicode; the text is the
    /// system's message.
    Var(String),
}

impl ErrorKind {
    /// The text that the kind carries.
    pub open spec fn spec_text(&self) -> Seq<char> {
        match self {
            ErrorKind::ParseFailure(text) => text@,
            ErrorKind::Io(text) => text@,
            ErrorKind::Var(text) => text@,
        }
    }

    /// Whether two kinds are the same variant.
    pub open spec fn same_variant(&self, other: &ErrorKind) -> bool {
        match (self, other) {
            (ErrorKind::ParseFailure(_), ErrorKind::ParseFailure(_)) => true,
            (ErrorKind::Io(_), ErrorKind::Io(_)) => true,
            (ErrorKind::Var(_), ErrorKind::Var(_)) => true,
            _ => false,
        }
    }

    /// Kinds are the same where they are the same variant with the same
    /// text.
    pub open spec fn same(&self, other: &ErrorKind) -> bool {
        self.same_variant(other) && self.spec_text() == other.spec_text()
    }
}

impl vstd::std_specs::cmp::PartialEqSpecImpl for ErrorKind {
    open spec fn obeys_eq_spec() -> bool {
        true
    }

    open spec fn eq_spec(&self, other: &ErrorKind) -> bool {
        self.same(other)
    }
}

impl PartialEq for ErrorKind {
    fn eq(&self, other: &ErrorKind) -> (r: bool) {
        match (self, other) {
            (ErrorKind::ParseFailure(a), ErrorKind::ParseFailure(b)) => *a == *b,
            (ErrorKind::Io(a), ErrorKind::Io(b)) => *a == *b,
            (ErrorKind::Var(a), ErrorKind::Var(b)) => *a == *b,
            _ => false,
        }
    }
}

impl Eq for ErrorKind {

}

#[derive(Debug)]
pub struct Error(pub Box<ErrorKind>);

impl vstd::std_specs::cmp::PartialEqSpecImpl for Error {
    open spec fn obeys_eq_spec() -> bool {
        true
    }

    open spec fn eq_spec(&self, other: &Error) -> bool {
        self.spec_kind().same(&other.spec_kind())
    }
}

impl PartialEq for Error {
    fn eq(&self, other: &Error) -> (r: bool) {
        *self.kind() == *other.kind()
    }
}

impl Eq for Error {

}

impl Error {
    pub fn new(kind: ErrorKind) -> (r: Self)
        ensures
            *r.0 == kind,
    {
        Error(Box::new(kind))
    }

    pub open spec fn spec_kind(&self) -> ErrorKind {
        *self.0
    }

    pub fn kind(&self) -> (r: &ErrorKind)
        ensures
            *r == self.spec_kind(),
    {
        &*self.0
    }

    /// What the error says: the kind in words, a colon, and the text.
    pub open spec fn spec_message(&self) -> Seq<char> {
        match self.spec_kind() {
            ErrorKind::ParseFailure(text) => "Parse failure: "@ + text@,
            ErrorKind::Io(text) => "IO error: "@ + text@,
            ErrorKind::Var(text) => "Environment variable error: "@ + text@,
        }
    }

    pub fn to_string(&self) -> (r: String)
        ensures
            r@ == self.spec_message(),
    {
        match self.kind() {
            ErrorKind::ParseFailure(text) => {
                let mut message = String::from_str("Parse failure: ");
                message.append(text.as_str());
                message
            },
            ErrorKind::Io(text) => {
                let mut message = String::from_str("IO error: ");
                message.append(text.as_str());
                message
            },
            ErrorKind::Var(text) => {
                let mut message = String::from_str("Environment variable error: ");
                message.append(text.as_str());
                message
            },
        }
    }
}

/// Turns the content of the file that an environment variable names into a
/// value. `content` is what reading gave; `parse` reads a value out of the
/// text and answers with a message where the text holds none.
///
/// A failed read is handed on unchanged. A text that does not parse gives
/// `ParseFailure` with the parser's message.
pub fn read_from_env_file<T, F>(content: Result<String, Error>, parse: F) -> (r: Result<T, Error>)
    where F: FnOnce(String) -> Result<T, String>
    requires
        content matches Ok(text) ==> parse.requires((text,)),
    ensures
        match content {
            Err(e) => r == Err::<T, Error>(e),
            Ok(text) => match r {
                Ok(value) => parse.ensures((text,), Ok(value)),
                Err(e) => exists|message: String| #[trigger] parse.ensures((text,), Err(message))
                    && e.spec_kind() == ErrorKind::ParseFailure(message),
            },
        },
{
    match content {
        Err(e) => Err(e),
        Ok(text) => match parse(text) {
            Ok(value) => Ok(value),
            Err(message) => Err(Error::new(ErrorKind::ParseFailure(message))),
        },
    }
}

} // verus!
