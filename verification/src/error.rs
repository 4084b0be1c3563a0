//! The single discriminated error of the compiler. Every failure of
//! tokenizing, parsing, resolution or type checking is one of these values;
//! the first failure anywhere aborts the whole compile.

use vstd::prelude::*;
use crate::name::{GName, Name};
use crate::token::TokenKind;
use crate::types::{GType, Type};

verus! {

/// Mathematical model of a [`PError`].
pub ghost enum GErr {
    /// A mandatory token was absent: the kind that was required, and the kind
    /// that was found (`None` at end of input or on an unreadable character).
    Syntax { expected: TokenKind, found: Option<TokenKind> },
    /// An annotation that may appear once appeared again, in the named scope.
    DuplicateAnnotation { which: Seq<char>, scope: GName },
    /// An annotation that must appear is missing from the named scope.
    MissingAnnotation { which: Seq<char>, scope: GName },
    /// An annotation identifier other than `return`/`spawn`.
    UnknownAnnotation { name: Seq<char> },
    /// An attribute identifier other than `use`.
    UnknownAttribute { name: Seq<char> },
    /// A name that no definition answers, with the imports that were tried.
    UnresolvedName { name: GName, imports: Seq<GName> },
    /// Two types that had to agree and do not: the required one, then the one
    /// actually found.
    TypeMismatch { expected: GType, actual: GType },
}

/// A terminal compile error. Carries enough context to render a message; the
/// compiler itself never prints.
#[derive(Debug, PartialEq)]
pub enum PError {
    Syntax { expected: TokenKind, found: Option<TokenKind> },
    DuplicateAnnotation { which: String, scope: Name },
    MissingAnnotation { which: String, scope: Name },
    UnknownAnnotation { name: String },
    UnknownAttribute { name: String },
    UnresolvedName { name: Name, imports: Vec<Name> },
    TypeMismatch { expected: Type, actual: Type },
}

impl View for PError {
    type V = GErr;

    open spec fn view(&self) -> GErr {
        match self {
            PError::Syntax { expected, found } => GErr::Syntax {
                expected: *expected,
                found: *found,
            },
            PError::DuplicateAnnotation { which, scope } => GErr::DuplicateAnnotation {
                which: which@,
                scope: scope@,
            },
            PError::MissingAnnotation { which, scope } => GErr::MissingAnnotation {
                which: which@,
                scope: scope@,
            },
            PError::UnknownAnnotation { name } => GErr::UnknownAnnotation { name: name@ },
            PError::UnknownAttribute { name } => GErr::UnknownAttribute { name: name@ },
            PError::UnresolvedName { name, imports } => GErr::UnresolvedName {
                name: name@,
                imports: imports@.map_values(|n: Name| n@),
            },
            PError::TypeMismatch { expected, actual } => GErr::TypeMismatch {
                expected: expected@,
                actual: actual@,
            },
        }
    }
}

/// A compile result: the value, or the first error.
pub type PResult<T> = Result<T, PError>;

} // verus!
