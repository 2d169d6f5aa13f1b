//! Failure kinds. Every error aborts the whole operation; the variants only
//! say what was wrong and, where a name helps, which field or file it was.

use vstd::prelude::*;

verus! {

/// Why reading, parsing or planning failed.
#[derive(Debug, PartialEq)]
pub enum ThemeError {
    /// The text is not JSON at all.
    JsonSyntax,
    /// The top-level JSON value is not an object with a `theme` field.
    MissingTheme,
    /// The `theme` field is not an object.
    ThemeNotObject,
    /// `theme.templates` is missing or is not an object.
    TemplatesNotObject,
    /// A required template field is missing or is not a string; carries the
    /// field's wire name.
    BadTemplate(String),
    /// The metadata document is not an object with string `id` and `name`.
    BadMetadata,
    /// A required file is absent; carries its relative path.
    MissingFile(String),
}

impl ThemeError {
    /// A human-readable message for the invoking shell.
    pub fn describe(&self) -> (r: String)
        ensures
            match *self {
                ThemeError::JsonSyntax => r@ == "the text is not valid JSON"@,
                ThemeError::MissingTheme => r@ == "the top-level JSON value has no theme field"@,
                ThemeError::ThemeNotObject => r@ == "the theme field is not an object"@,
                ThemeError::TemplatesNotObject => r@
                    == "theme.templates is missing or not an object"@,
                ThemeError::BadTemplate(n) => r@
                    == "template field missing or not a string: "@ + n@,
                ThemeError::BadMetadata => r@
                    == "metadata.json must be an object with string id and name fields"@,
                ThemeError::MissingFile(p) => r@ == "missing file: "@ + p@,
            },
    {
        match self {
            ThemeError::JsonSyntax => "the text is not valid JSON".to_owned(),
            ThemeError::MissingTheme => "the top-level JSON value has no theme field".to_owned(),
            ThemeError::ThemeNotObject => "the theme field is not an object".to_owned(),
            ThemeError::TemplatesNotObject => "theme.templates is missing or not an object"
                .to_owned(),
            ThemeError::BadTemplate(n) => "template field missing or not a string: "
                .to_owned()
                .concat(n.as_str()),
            ThemeError::BadMetadata => "metadata.json must be an object with string id and name fields"
                .to_owned(),
            ThemeError::MissingFile(p) => "missing file: ".to_owned().concat(p.as_str()),
        }
    }
}

} // verus!
