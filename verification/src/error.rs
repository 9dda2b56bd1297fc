//! The failures an operation can end in. Each is fatal to the call that
//! raised it: nothing the call staged is committed.

use crate::address::Address;
use vstd::prelude::*;

verus! {

/// Why an operation was refused.
#[derive(Clone, Copy, Debug, PartialEq, Eq)]
pub enum ErrorKind {
    /// A required signature is missing, or the caller is not the owner.
    Authorization,
    /// An address derived again from its seeds differs from the handle that
    /// was supplied, or a handle differs from what the record names.
    AddressMismatch,
    /// The operation is not valid in the record's current state.
    State,
    /// A value movement would overflow or go below zero.
    Arithmetic,
    /// The token service refused a transfer or a mint.
    ExternalService,
}

/// A refusal: its kind, and the address of the record it is about.
#[derive(Clone, Copy, Debug, PartialEq, Eq)]
pub struct EngineError {
    pub kind: ErrorKind,
    pub address: Address,
}

impl EngineError {
    pub open spec fn authorization(address: Address) -> EngineError {
        EngineError { kind: ErrorKind::Authorization, address }
    }

    pub open spec fn mismatch(address: Address) -> EngineError {
        EngineError { kind: ErrorKind::AddressMismatch, address }
    }

    pub open spec fn state(address: Address) -> EngineError {
        EngineError { kind: ErrorKind::State, address }
    }

    pub open spec fn arithmetic(address: Address) -> EngineError {
        EngineError { kind: ErrorKind::Arithmetic, address }
    }

    pub open spec fn service(address: Address) -> EngineError {
        EngineError { kind: ErrorKind::ExternalService, address }
    }

    /// The name of the kind, for messages.
    pub fn describe(&self) -> (text: &'static str)
        ensures
            text@ == kind_name(self.kind)@,
    {
        match self.kind {
            ErrorKind::Authorization => "authorization error",
            ErrorKind::AddressMismatch => "address mismatch",
            ErrorKind::State => "state error",
            ErrorKind::Arithmetic => "arithmetic error",
            ErrorKind::ExternalService => "external service error",
        }
    }
}

/// The name each kind is reported under.
pub open spec fn kind_name(kind: ErrorKind) -> &'static str {
    match kind {
        ErrorKind::Authorization => "authorization error",
        ErrorKind::AddressMismatch => "address mismatch",
        ErrorKind::State => "state error",
        ErrorKind::Arithmetic => "arithmetic error",
        ErrorKind::ExternalService => "external service error",
    }
}

} // verus!
