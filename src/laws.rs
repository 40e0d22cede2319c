//! Laws that relate several operations of the ledger, stated over the
//! mathematical state that the operations' contracts speak of.
use vstd::prelude::*;

use crate::ledger::{royalty, LedgerError, LedgerState};

verus! {

/// A spend exactly at the ceiling is approved, and one unit more is not,
/// while the ledger is active.
pub proof fn lemma_spend_ceiling_inclusive(s: LedgerState)
    requires
        !s.paused,
    ensures
        s.approves(s.autonomous_limit),
        !s.approves(s.autonomous_limit + 1),
{
}

/// An administrative call by anyone but the creator is refused with
/// `NotAuthorized` and leaves the state as it was, whatever it asked for.
pub proof fn lemma_only_creator_administers(
    s: LedgerState,
    caller: Seq<char>,
    paused: bool,
    limit: nat,
)
    requires
        caller != s.creator,
    ensures
        s.admin_result(caller) == Err::<(), LedgerError>(LedgerError::NotAuthorized),
        s.after_set_paused(caller, paused) == s,
        s.after_set_limit(caller, limit) == s,
{
}

/// Pausing twice leaves the same state, and the same answer, as pausing once.
pub proof fn lemma_pause_idempotent(s: LedgerState, caller: Seq<char>)
    ensures
        s.after_set_paused(caller, true).after_set_paused(caller, true) == s.after_set_paused(
            caller,
            true,
        ),
        s.after_set_paused(caller, true).admin_result(caller) == s.admin_result(caller),
{
}

/// Two successful distributions add both amounts to the revenue and both
/// royalties to the royalty paid.
pub proof fn lemma_distributions_accumulate(s: LedgerState, a: nat, b: nat)
    requires
        s.distribution_result(a) is Ok,
        s.after_distribution(a).distribution_result(b) is Ok,
    ensures
        s.after_distribution(a).after_distribution(b).total_revenue == s.total_revenue + a + b,
        s.after_distribution(a).after_distribution(b).total_royalty_paid == s.total_royalty_paid
            + royalty(a, s.royalty_bps) + royalty(b, s.royalty_bps),
{
}

} // verus!
