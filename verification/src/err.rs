//! The error kinds a generation run can end with.

use vstd::prelude::*;
use vstd::string::StringExecFns;

verus! {

/// The identity of a rejected parameter type: the raw type text, and the
/// function and input that declared it.
#[derive(Debug, Clone, PartialEq, Eq)]
pub struct UnsupportedType {
    pub function: String,
    pub input: String,
    pub type_text: String,
}

/// A fatal generation error. Every error aborts the whole run: no partial
/// output is ever produced.
#[derive(Debug, Clone, PartialEq, Eq)]
pub enum GenError {
    /// The interface description is not well-formed JSON.
    MalformedDescription,
    /// A parameter type lies outside the supported ABI type grammar; the
    /// payload names the offending type text and the function and input
    /// that declared it.
    UnsupportedAbiType(UnsupportedType),
}

/// The diagnostic text of an error, by kind.
pub open spec fn spec_message(e: GenError) -> Seq<char> {
    match e {
        GenError::MalformedDescription => "malformed interface description"@,
        GenError::UnsupportedAbiType(u) => "unsupported ABI type `"@ + u.type_text@
            + "` of input `"@ + u.input@ + "` in function `"@ + u.function@ + "`"@,
    }
}

impl GenError {
    /// A single descriptive message for this error.
    pub fn message(&self) -> (r: String)
        ensures
            r@ == spec_message(*self),
    {
        match self {
            GenError::MalformedDescription => "malformed interface description".to_owned(),
            GenError::UnsupportedAbiType(u) => {
                let mut s = String::from_str("unsupported ABI type `");
                s.append(u.type_text.as_str());
                s.append("` of input `");
                s.append(u.input.as_str());
                s.append("` in function `");
                s.append(u.function.as_str());
                s.append("`");
                s
            },
        }
    }
}

} // verus!
