//! The error taxonomy of the store.

use vstd::prelude::*;
use crate::schema::{Problem, ValidationError};

verus! {

/// Why an operation of the store failed.
#[derive(Debug)]
pub enum StoreError {
    /// A caller-supplied name is not one plain path segment.
    InvalidPath,
    /// The referenced file or entity is absent.
    NotFound,
    /// A stored file is not well-formed JSON, or not of the expected shape.
    ParseError,
    /// A document is well-formed JSON of the wrong shape.
    Validation(ValidationError),
    /// A provider with the same alias exists.
    DuplicateAlias,
    /// An action with the same name exists.
    DuplicateName,
    /// An action bundle failed its checks.
    InvalidBundle,
    /// A value lies outside its closed set of choices.
    InvalidValue,
}

/// The mathematical view of a [`StoreError`].
pub enum Fault {
    InvalidPath,
    NotFound,
    ParseError,
    Invalid(Seq<char>, Problem),
    DuplicateAlias,
    DuplicateName,
    InvalidBundle,
    InvalidValue,
}

impl View for StoreError {
    type V = Fault;

    open spec fn view(&self) -> Fault {
        match self {
            StoreError::InvalidPath => Fault::InvalidPath,
            StoreError::NotFound => Fault::NotFound,
            StoreError::ParseError => Fault::ParseError,
            StoreError::Validation(e) => Fault::Invalid(e@.0, e@.1),
            StoreError::DuplicateAlias => Fault::DuplicateAlias,
            StoreError::DuplicateName => Fault::DuplicateName,
            StoreError::InvalidBundle => Fault::InvalidBundle,
            StoreError::InvalidValue => Fault::InvalidValue,
        }
    }
}

/// The fault of a violation found by a validator.
pub open spec fn invalid(v: (Seq<char>, Problem)) -> Fault {
    Fault::Invalid(v.0, v.1)
}

/// A result with its error seen as a [`Fault`].
pub open spec fn outcome<T>(r: Result<T, StoreError>) -> Result<T, Fault> {
    match r {
        Ok(v) => Ok(v),
        Err(e) => Err(e@),
    }
}

} // verus!
