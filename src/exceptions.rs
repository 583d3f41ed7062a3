use vstd::prelude::*;
use vstd::string::StringExecFns;

verus! {

/// Builds `prefix + body + suffix` as an owned string.
fn framed(prefix: &str, body: &str, suffix: &str) -> (r: String)
    ensures
        r@ == prefix@ + body@ + suffix@,
{
    let mut s = String::from_str(prefix);
    s.append(body);
    s.append(suffix);
    s
}

/// Raised when a query runs past its deadline and is interrupted.
#[derive(Debug, Clone, Copy)]
pub struct InterruptedException;

impl InterruptedException {
    pub fn to_string(&self) -> (r: String)
        ensures
            r@ == "Interruption request received."@,
    {
        String::from_str("Interruption request received.")
    }
}

/// Raised when the received text is not a valid query (syntax error).
#[derive(Debug)]
pub struct QueryException {
    message: String,
}

impl View for QueryException {
    type V = Seq<char>;

    closed spec fn view(&self) -> Seq<char> {
        self.message@
    }
}

impl QueryException {
    pub fn new(message: &str) -> (r: Self)
        ensures
            r@ == message@,
    {
        QueryException { message: String::from_str(message) }
    }

    pub fn to_string(&self) -> (r: String)
        ensures
            r@ == self@,
    {
        self.message.clone()
    }
}

/// A syntax error in a query.
pub type QueryParsingException = QueryException;

/// Raised when a query is well formed but semantically wrong.
#[derive(Debug)]
pub struct QuerySemanticException {
    message: String,
}

impl View for QuerySemanticException {
    type V = Seq<char>;

    closed spec fn view(&self) -> Seq<char> {
        self.message@
    }
}

impl QuerySemanticException {
    pub fn new(msg: &str) -> (r: Self)
        ensures
            r@ == "Bad query semantic: `"@ + msg@ + "`."@,
    {
        QuerySemanticException { message: framed("Bad query semantic: `", msg, "`.") }
    }

    pub fn to_string(&self) -> (r: String)
        ensures
            r@ == self@,
    {
        self.message.clone()
    }
}

/// Raised when a correct query fails during execution for an expected
/// reason (for example, running out of buffers); not a sign of a bug.
#[derive(Debug)]
pub struct QueryExecutionException {
    message: String,
}

impl View for QueryExecutionException {
    type V = Seq<char>;

    closed spec fn view(&self) -> Seq<char> {
        self.message@
    }
}

impl QueryExecutionException {
    pub fn new(msg: &str) -> (r: Self)
        ensures
            r@ == "Error in query execution: `"@ + msg@ + "`."@,
    {
        QueryExecutionException { message: framed("Error in query execution: `", msg, "`.") }
    }

    pub fn to_string(&self) -> (r: String)
        ensures
            r@ == self@,
    {
        self.message.clone()
    }
}

/// Reports faulty logic inside the server: a violated precondition or
/// class invariant. It always points at a bug or at corrupted data.
#[derive(Debug)]
pub struct LogicException {
    message: String,
}

impl View for LogicException {
    type V = Seq<char>;

    closed spec fn view(&self) -> Seq<char> {
        self.message@
    }
}

impl LogicException {
    pub fn new(msg: &str) -> (r: Self)
        ensures
            r@ == "Logic Error: `"@ + msg@ + "`."@,
    {
        LogicException { message: framed("Logic Error: `", msg, "`.") }
    }

    pub fn to_string(&self) -> (r: String)
        ensures
            r@ == self@,
    {
        self.message.clone()
    }
}

/// Raised when a query needs a feature that is not supported yet.
#[derive(Debug)]
pub struct NotSupportedException {
    message: String,
}

impl View for NotSupportedException {
    type V = Seq<char>;

    closed spec fn view(&self) -> Seq<char> {
        self.message@
    }
}

impl NotSupportedException {
    pub fn new(operation: &str) -> (r: Self)
        ensures
            r@ == "Operation `"@ + operation@ + "` not supported yet."@,
    {
        NotSupportedException { message: framed("Operation `", operation, "` not supported yet.") }
    }

    pub fn to_string(&self) -> (r: String)
        ensures
            r@ == self@,
    {
        self.message.clone()
    }
}

/// A failure on a client connection.
#[derive(Debug)]
pub struct ConnectionException {
    message: String,
}

impl View for ConnectionException {
    type V = Seq<char>;

    closed spec fn view(&self) -> Seq<char> {
        self.message@
    }
}

impl ConnectionException {
    pub fn new(message: &str) -> (r: Self)
        ensures
            r@ == message@,
    {
        ConnectionException { message: String::from_str(message) }
    }

    pub fn to_string(&self) -> (r: String)
        ensures
            r@ == self@,
    {
        self.message.clone()
    }
}

} // verus!
