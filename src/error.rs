//! Failures reported by the contract operations.

use vstd::prelude::*;

verus! {

/// The kind of a failure; callers branch on it for control flow.
#[derive(Debug, Clone, Copy, PartialEq, Eq, Hash, Structural)]
pub enum ErrorKind {
    /// The device or service cannot be reached.
    Unreachable,
    /// A lease token that does not belong to the current holder.
    OwnershipViolation,
    /// An unknown task, or a release while no lease is held.
    NotFound,
    /// A result asked for before the task reached a terminal status.
    NotReady,
    /// A malformed task submission.
    InvalidPayload,
    /// A fatal condition on the backend side.
    Backend,
}

impl ErrorKind {
    /// A short name of the kind, which leads every message of this kind.
    pub fn label(&self) -> (r: &'static str)
        ensures
            r@.len() > 0,
    {
        proof {
            reveal_strlit("unreachable");
            reveal_strlit("ownership violation");
            reveal_strlit("not found");
            reveal_strlit("not ready");
            reveal_strlit("invalid payload");
            reveal_strlit("backend failure");
        }
        match self {
            ErrorKind::Unreachable => "unreachable",
            ErrorKind::OwnershipViolation => "ownership violation",
            ErrorKind::NotFound => "not found",
            ErrorKind::NotReady => "not ready",
            ErrorKind::InvalidPayload => "invalid payload",
            ErrorKind::Backend => "backend failure",
        }
    }
}

/// A failed outcome carries a message a person can read.
pub open spec fn reported<T>(r: Result<T, QrmiError>) -> bool {
    r is Err ==> r->Err_0.message@.len() > 0
}

/// A failure: its kind and a human-readable message.
#[derive(Debug, Clone)]
pub struct QrmiError {
    pub kind: ErrorKind,
    pub message: String,
}

impl QrmiError {
    /// A failure of `kind`; its message is the kind's label followed by `detail`.
    pub fn new(kind: ErrorKind, detail: &str) -> (r: QrmiError)
        ensures
            r.kind == kind,
            r.message@.len() > 0,
            r.message@.len() >= detail@.len(),
            r.message@.subrange(r.message@.len() - detail@.len(), r.message@.len() as int)
                == detail@,
    {
        let mut message = String::from_str(kind.label());
        message.append(": ");
        message.append(detail);
        proof {
            let m = message@;
            assert(m.subrange(m.len() - detail@.len(), m.len() as int) =~= detail@);
        }
        QrmiError { kind, message }
    }

    pub fn kind(&self) -> (r: ErrorKind)
        ensures
            r == self.kind,
    {
        self.kind
    }

    /// The message, as the caller sees it.
    pub fn to_string(&self) -> (r: String)
        ensures
            r@ == self.message@,
    {
        self.message.clone()
    }
}

} // verus!
