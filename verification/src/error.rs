//! Why a document was turned down.

use vstd::prelude::*;
use vstd::string::StringExecFns;
use crate::schema::{Field, Kind};

verus! {

/// The one fault that a document was turned down for.
#[derive(Debug, Clone, Copy, PartialEq, Eq, Structural)]
pub enum ConfigError {
    /// The text is not a well-formed document.
    Syntax,
    /// `field` is given, with a value that is not of the kind `expected`.
    TypeMismatch { field: Field, expected: Kind },
    /// The `fonts` table is given without `field`.
    MissingField { field: Field },
}

impl ConfigError {
    /// The words that tell a reader of the document what to mend.
    pub open spec fn message_text(self) -> Seq<char> {
        match self {
            ConfigError::Syntax => "the document is not well-formed TOML"@,
            ConfigError::TypeMismatch { field, expected } => "wrong type for `"@
                + field.key_text() + "`: expected a "@ + expected.name_text(),
            ConfigError::MissingField { field } => "missing field `"@ + field.key_text()
                + "` in `fonts`"@,
        }
    }

    /// The words that tell a reader of the document what to mend.
    pub fn message(&self) -> (message: String)
        ensures
            message@ == self.message_text(),
    {
        match self {
            ConfigError::Syntax => "the document is not well-formed TOML".to_owned(),
            ConfigError::TypeMismatch { field, expected } => {
                let mut message = "wrong type for `".to_owned();
                message.append(field.key());
                message.append("`: expected a ");
                message.append(expected.name());
                message
            },
            ConfigError::MissingField { field } => {
                let mut message = "missing field `".to_owned();
                message.append(field.key());
                message.append("` in `fonts`");
                message
            },
        }
    }
}

} // verus!
