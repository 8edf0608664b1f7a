//! Why a description could not be turned into a specification.

use vstd::prelude::*;
use yaml_rust::ScanError;

verus! {

/// Why building a specification failed.
#[derive(Debug)]
pub enum Error {
    /// The text is not well-formed YAML; carries the scanner's diagnostic.
    ParseYaml(ScanError),
    /// The text holds no document.
    NoDocs,
    /// The text holds more than one document.
    MultiDocs,
}

/// The message of a failure, where `diagnostic` is the text of the scanner's
/// diagnostic, which only a `ParseYaml` failure shows.
pub open spec fn message_of(error: Error, diagnostic: Seq<char>) -> Seq<char> {
    match error {
        Error::ParseYaml(_) => "parse yaml error: "@ + diagnostic,
        Error::NoDocs => "no docs detected in the given yaml"@,
        Error::MultiDocs => "multi-docs detected in the given yaml, which is not supported"@,
    }
}

/// Formats a `yaml_rust::ScanError` by its `Display`. Nothing is claimed of
/// the text.
#[verifier::external_body]
fn diagnostic_text(diagnostic: &ScanError) -> String {
    format!("{}", diagnostic)
}

impl Error {
    /// The message of this failure around the given text of the diagnostic.
    pub fn message_with(&self, diagnostic: &str) -> (r: String)
        ensures
            r@ == message_of(*self, diagnostic@),
    {
        match self {
            Error::ParseYaml(_) => "parse yaml error: ".to_owned().concat(diagnostic),
            Error::NoDocs => "no docs detected in the given yaml".to_owned(),
            Error::MultiDocs => "multi-docs detected in the given yaml, which is not supported"
                .to_owned(),
        }
    }

    /// The message of this failure; that of `ParseYaml` ends in the scanner's
    /// diagnostic as the scanner words it.
    pub fn message(&self) -> (r: String)
        ensures
            self is ParseYaml ==> exists|diagnostic: Seq<char>|
                r@ == #[trigger] message_of(*self, diagnostic),
            !(self is ParseYaml) ==> r@ == message_of(*self, Seq::empty()),
    {
        match self {
            Error::ParseYaml(diagnostic) => {
                let text = diagnostic_text(diagnostic);
                self.message_with(text.as_str())
            },
            _ => {
                proof {
                    reveal_strlit("");
                }
                self.message_with("")
            },
        }
    }
}

impl From<ScanError> for Error {
    /// A scanner's diagnostic as a `ParseYaml` failure.
    fn from(diagnostic: ScanError) -> (r: Error) {
        Error::ParseYaml(diagnostic)
    }
}

impl vstd::std_specs::convert::FromSpecImpl<ScanError> for Error {
    open spec fn obeys_from_spec() -> bool {
        true
    }

    open spec fn from_spec(diagnostic: ScanError) -> Error {
        Error::ParseYaml(diagnostic)
    }
}

} // verus!
