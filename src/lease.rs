//! The mutual-exclusion lease over one shared resource.

use vstd::prelude::*;
use crate::decimal::{decimal, decimal_string, lemma_decimal_injective};
use crate::error::{reported, ErrorKind, QrmiError};

verus! {

/// The token handed out by the `k`-th successful acquisition: `t1`, `t2`, ...
pub open spec fn token_text(k: nat) -> Seq<char> {
    seq!['t'] + decimal(k)
}

/// Tokens of distinct acquisitions differ.
pub proof fn lemma_tokens_distinct(j: nat, k: nat)
    ensures
        j != k ==> token_text(j) != token_text(k),
{
    if token_text(j) == token_text(k) {
        assert(decimal(j) == token_text(j).drop_first());
        assert(decimal(k) == token_text(k).drop_first());
        lemma_decimal_injective(j, k);
    }
}

/// The outcome of one acquisition attempt that did not fail.
#[derive(Debug, Clone, PartialEq, Eq)]
pub enum Acquire {
    /// The lease was free and now belongs to the bearer of this token.
    Granted(String),
    /// Another party holds the lease: wait, then try again.
    Wait,
}

/// What one acquisition attempt does: a held lease stays as it is and the caller is
/// told to wait; a free one goes to the next token, which is returned; only when no
/// token is left does the attempt fail.
pub open spec fn acquired(before: Lease, after: Lease, r: Result<Acquire, QrmiError>) -> bool {
    if before.holder() is Some {
        r == Ok::<Acquire, QrmiError>(Acquire::Wait) && after.holder() == before.holder()
            && after.issued() == before.issued()
    } else if before.issued() < u64::MAX {
        match r {
            Ok(Acquire::Granted(t)) => t@ == token_text(before.issued() + 1) && after.holder()
                == Some(t@) && after.issued() == before.issued() + 1,
            _ => false,
        }
    } else {
        r is Err && r->Err_0.kind == ErrorKind::Backend && after.holder() == before.holder()
            && after.issued() == before.issued()
    }
}

/// What a release with `token` does: the holder's own token frees the lease; any
/// other is an ownership violation, and with no holder the lease is not found. A
/// failed release changes nothing.
pub open spec fn released(
    before: Lease,
    after: Lease,
    token: Seq<char>,
    r: Result<(), QrmiError>,
) -> bool {
    &&& after.issued() == before.issued()
    &&& match before.holder() {
        None => r is Err && r->Err_0.kind == ErrorKind::NotFound && after.holder() is None,
        Some(h) => if h == token {
            r is Ok && after.holder() is None
        } else {
            r is Err && r->Err_0.kind == ErrorKind::OwnershipViolation && after.holder()
                == before.holder()
        },
    }
}

/// An acquisition followed at once by a release with the token it returned succeeds
/// and leaves the lease free.
pub proof fn lemma_acquire_then_release(
    l0: Lease,
    l1: Lease,
    l2: Lease,
    t: String,
    r: Result<(), QrmiError>,
)
    requires
        acquired(l0, l1, Ok(Acquire::Granted(t))),
        released(l1, l2, t@, r),
    ensures
        r is Ok,
        l2.holder() is None,
{
}

/// A token other than the one returned by the holder's acquisition is refused as an ownership violation and frees nothing.
pub proof fn lemma_foreign_token_refused(
    l: Lease,
    after: Lease,
    token: Seq<char>,
    r: Result<(), QrmiError>,
)
    requires
        l.wf(),
        l.holder() is Some,
        token != token_text(l.issued()),
        released(l, after, token, r),
    ensures
        r is Err,
        r->Err_0.kind == ErrorKind::OwnershipViolation,
        after.holder() == l.holder(),
{
}

/// Tokens of earlier acquisitions no longer open the lease.
pub proof fn lemma_stale_token_refused(
    l: Lease,
    after: Lease,
    j: nat,
    r: Result<(), QrmiError>,
)
    requires
        l.wf(),
        l.holder() is Some,
        j < l.issued(),
        released(l, after, token_text(j), r),
    ensures
        r is Err,
        r->Err_0.kind == ErrorKind::OwnershipViolation,
{
    lemma_tokens_distinct(j, l.issued());
}

/// Mutual exclusion: while one party holds the lease, an acquisition attempt by any
/// other party on the same lease (another handle on the same resource) is told to wait and leaves the holder in place; once the holder releases it with its
/// token, the next attempt is granted under a token that differs from the first.
pub proof fn lemma_mutual_exclusion(
    l0: Lease,
    l1: Lease,
    first: String,
    l2: Lease,
    waiting: Result<Acquire, QrmiError>,
    l3: Lease,
    freed: Result<(), QrmiError>,
    l4: Lease,
    second: Result<Acquire, QrmiError>,
)
    requires
        l1.issued() < u64::MAX,
        acquired(l0, l1, Ok(Acquire::Granted(first))),
        acquired(l1, l2, waiting),
        released(l2, l3, first@, freed),
        acquired(l3, l4, second),
    ensures
        waiting == Ok::<Acquire, QrmiError>(Acquire::Wait),
        l2.holder() == Some(first@),
        freed is Ok,
        second is Ok && second->Ok_0 is Granted,
        second->Ok_0->Granted_0@ != first@,
        l4.holder() == Some(second->Ok_0->Granted_0@),
{
    lemma_tokens_distinct(l1.issued(), l4.issued());
}

/// Who holds the lease, and how many acquisitions have been granted so far.
pub struct Lease {
    holder: Option<String>,
    issued: u64,
}

impl Lease {
    /// The current holder's token, if the lease is held.
    pub closed spec fn holder(&self) -> Option<Seq<char>> {
        match self.holder {
            Some(t) => Some(t@),
            None => None,
        }
    }

    /// The number of acquisitions granted so far.
    pub closed spec fn issued(&self) -> nat {
        self.issued as nat
    }

    /// A held lease is held by the token of the latest acquisition.
    pub open spec fn wf(&self) -> bool {
        self.holder() is Some ==> self.holder() == Some(token_text(self.issued()))
    }

    pub fn new() -> (r: Lease)
        ensures
            r.wf(),
            r.holder() is None,
            r.issued() == 0,
    {
        Lease { holder: None, issued: 0 }
    }

    pub fn is_held(&self) -> (r: bool)
        ensures
            r == self.holder() is Some,
    {
        self.holder.is_some()
    }

    /// One acquisition attempt. A free lease is granted at once under a fresh token;
    /// a held one leaves everything as it was and tells the caller to wait.
    pub fn try_acquire(&mut self) -> (r: Result<Acquire, QrmiError>)
        requires
            old(self).wf(),
        ensures
            final(self).wf(),
            reported(r),
            acquired(*old(self), *final(self), r),
    {
        if self.holder.is_some() {
            return Ok(Acquire::Wait);
        }
        if self.issued == u64::MAX {
            return Err(QrmiError::new(ErrorKind::Backend, "no acquisition tokens are left"));
        }
        self.issued = self.issued + 1;
        let mut token = String::from_str("t");
        token.append(decimal_string(self.issued).as_str());
        proof {
            reveal_strlit("t");
            assert(token@ =~= token_text(self.issued as nat));
        }
        let granted = token.clone();
        self.holder = Some(token);
        Ok(Acquire::Granted(granted))
    }

    /// Gives the lease up. Only the bearer of the current holder's token may do so.
    pub fn release(&mut self, token: &str) -> (r: Result<(), QrmiError>)
        requires
            old(self).wf(),
        ensures
            final(self).wf(),
            reported(r),
            released(*old(self), *final(self), token@, r),
    {
        match &self.holder {
            None => Err(QrmiError::new(ErrorKind::NotFound, "no lease is held")),
            Some(h) => {
                let presented = String::from_str(token);
                if *h == presented {
                    self.holder = None;
                    Ok(())
                } else {
                    Err(
                        QrmiError::new(
                            ErrorKind::OwnershipViolation,
                            "the token does not belong to the lease holder",
                        ),
                    )
                }
            },
        }
    }
}

} // verus!
