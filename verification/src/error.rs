//! The errors of this library, and the kinds of failure that their reasons
//! tell apart.
use vstd::prelude::*;
use vstd::string::StringExecFns;

verus! {

/// What went wrong with a schema or with records.
#[derive(Debug)]
pub enum AvroError {
    /// The input is not a schema that can be fingerprinted; the reason is attached.
    InvalidSchema(String),
    /// The records do not fit their schema.
    InvalidRecords(),
}

/// Why an input is no schema of this library.
#[derive(Clone, Copy, Debug, PartialEq, Eq)]
pub enum FailureKind {
    /// The bytes are not UTF-8.
    NotUtf8,
    /// The text is JSON that the parser cannot be given.
    Unreadable,
    /// The text is no JSON.
    Syntax,
    /// The text names a type that is neither primitive nor defined in it.
    UnknownType,
    /// A union has two branches that cannot be told apart.
    DuplicateBranch,
    /// The parser rejects the text for another reason.
    Rejected,
    /// The schema cannot be written as JSON.
    NoDocument,
    /// The schema defines a name twice.
    DuplicateName,
    /// The schema has no canonical form.
    NoCanonicalForm,
}

impl FailureKind {
    /// How the reason of a failure of this kind begins.
    pub open spec fn label(self) -> Seq<char> {
        match self {
            FailureKind::NotUtf8 => "bytes are not UTF-8: "@,
            FailureKind::Unreadable => "the text cannot be read as a schema"@,
            FailureKind::Syntax => "malformed syntax: "@,
            FailureKind::UnknownType => "unknown type: "@,
            FailureKind::DuplicateBranch => "duplicate union branch: "@,
            FailureKind::Rejected => "rejected by the parser: "@,
            FailureKind::NoDocument => "no JSON can hold the schema"@,
            FailureKind::DuplicateName => "a name is defined twice"@,
            FailureKind::NoCanonicalForm => "canonical form is not defined on the schema"@,
        }
    }

    /// Whether the reason of a failure of this kind is its label and nothing
    /// more. The other kinds add what the parser, or std, says of the input.
    pub open spec fn is_exact(self) -> bool {
        match self {
            FailureKind::Unreadable => true,
            FailureKind::NoDocument => true,
            FailureKind::DuplicateName => true,
            FailureKind::NoCanonicalForm => true,
            _ => false,
        }
    }

    /// Whether a reason is one of a failure of this kind: the label itself for
    /// an exact kind, and a text that begins with the label for another.
    pub open spec fn is_said_by(self, reason: Seq<char>) -> bool {
        if self.is_exact() {
            reason == self.label()
        } else {
            self.label().is_prefix_of(reason)
        }
    }

    /// Writes the label of this kind.
    pub fn write_label(self) -> (text: String)
        ensures
            text@ == self.label(),
    {
        match self {
            FailureKind::NotUtf8 => "bytes are not UTF-8: ".to_owned(),
            FailureKind::Unreadable => "the text cannot be read as a schema".to_owned(),
            FailureKind::Syntax => "malformed syntax: ".to_owned(),
            FailureKind::UnknownType => "unknown type: ".to_owned(),
            FailureKind::DuplicateBranch => "duplicate union branch: ".to_owned(),
            FailureKind::Rejected => "rejected by the parser: ".to_owned(),
            FailureKind::NoDocument => "no JSON can hold the schema".to_owned(),
            FailureKind::DuplicateName => "a name is defined twice".to_owned(),
            FailureKind::NoCanonicalForm => "canonical form is not defined on the schema".to_owned(),
        }
    }

    /// Whether this kind is exact.
    pub fn exact(self) -> (b: bool)
        ensures
            b == self.is_exact(),
    {
        match self {
            FailureKind::Unreadable => true,
            FailureKind::NoDocument => true,
            FailureKind::DuplicateName => true,
            FailureKind::NoCanonicalForm => true,
            _ => false,
        }
    }
}

impl AvroError {
    /// Whether this error is `InvalidSchema` with a reason of the given kind.
    pub open spec fn is_failure(self, kind: FailureKind) -> bool {
        self matches AvroError::InvalidSchema(reason) && kind.is_said_by(reason@)
    }

    /// The message that describes the error.
    pub open spec fn message_text(self) -> Seq<char> {
        match self {
            AvroError::InvalidSchema(reason) => "Invalid avro schema: "@ + reason@,
            AvroError::InvalidRecords() => "Invalid avro records"@,
        }
    }

    /// Makes the `InvalidSchema` of a failure of the given kind. Its reason is
    /// the label of the kind, followed by `detail` where the kind is not exact.
    pub fn failure(kind: FailureKind, detail: &str) -> (error: AvroError)
        ensures
            error.is_failure(kind),
            error matches AvroError::InvalidSchema(reason) && reason@ == if kind.is_exact() {
                kind.label()
            } else {
                kind.label() + detail@
            },
    {
        let mut reason = kind.write_label();
        if !kind.exact() {
            reason.append(detail);
            assert(kind.label() =~= (kind.label() + detail@).subrange(0, kind.label().len() as int));
        }
        AvroError::InvalidSchema(reason)
    }

    /// Writes the error out as a message.
    pub fn message(&self) -> (text: String)
        ensures
            text@ == self.message_text(),
    {
        match self {
            AvroError::InvalidSchema(reason) => {
                let mut text = "Invalid avro schema: ".to_owned();
                text.append(reason.as_str());
                text
            },
            AvroError::InvalidRecords() => "Invalid avro records".to_owned(),
        }
    }
}

} // verus!
