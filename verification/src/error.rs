//! Errors reported for configuration values.
use vstd::prelude::*;
use vstd::string::StringExecFns;

verus! {

/// The broad class of a failure.
#[derive(Debug, Clone, Copy, PartialEq, Eq, Structural)]
pub enum ErrorKind {
    /// A configuration value is malformed.
    Invalid,
    /// Any other failure, such as a sink that cannot be opened.
    Other,
}

/// A failure together with a message for the person who reads it.
#[derive(Debug, Clone, PartialEq, Eq)]
pub struct Error {
    pub kind: ErrorKind,
    pub message: String,
}

/// The message for a literal that names no value: the description, then the
/// literal itself between double quotes.
pub open spec fn undefined_message(what: Seq<char>, literal: Seq<char>) -> Seq<char> {
    what + seq!['"'] + literal + seq!['"']
}

impl Error {
    /// The class of this failure.
    pub fn kind(&self) -> (k: ErrorKind)
        ensures
            k == self.kind,
    {
        self.kind
    }

    /// The message of this failure.
    pub fn message(&self) -> (m: &str)
        ensures
            m@ == self.message@,
    {
        self.message.as_str()
    }

    /// The message of this failure as an owned string.
    pub fn to_string(&self) -> (m: String)
        ensures
            m@ == self.message@,
    {
        self.message.clone()
    }

    /// An `Invalid` error for `literal`, which was read where `what` names the
    /// kind of value that was expected.
    pub fn undefined(what: &str, literal: &str) -> (e: Error)
        ensures
            e.kind == ErrorKind::Invalid,
            e.message@ == undefined_message(what@, literal@),
            cites(e.message@, literal@),
    {
        let mut message = String::from_str(what);
        message.append("\"");
        message.append(literal);
        message.append("\"");
        proof {
            reveal_strlit("\"");
            assert("\""@ =~= seq!['"']);
            assert(message@ =~= undefined_message(what@, literal@));
            lemma_undefined_message_cites_literal(what@, literal@);
        }
        Error { kind: ErrorKind::Invalid, message }
    }
}

/// Whether `message` holds `literal` somewhere, character by character.
pub open spec fn cites(message: Seq<char>, literal: Seq<char>) -> bool {
    exists|at: int|
        0 <= at && at + literal.len() <= message.len() && #[trigger] message.subrange(
            at,
            at + literal.len(),
        ) == literal
}

/// A message built for an unknown literal starts with the description and
/// cites the literal unchanged.
pub proof fn lemma_undefined_message_cites_literal(what: Seq<char>, literal: Seq<char>)
    ensures
        undefined_message(what, literal).len() == what.len() + literal.len() + 2,
        undefined_message(what, literal).subrange(0, what.len() as int) == what,
        cites(undefined_message(what, literal), literal),
{
    let m = undefined_message(what, literal);
    let at = what.len() as int + 1;
    assert(m.subrange(at, at + literal.len()) =~= literal);
    assert(m.subrange(0, what.len() as int) =~= what);
}

} // verus!
