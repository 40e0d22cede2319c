//! The ledger state and its operations: revenue distribution with a fixed
//! royalty to the creator, the autonomous spending gate, and the creator's
//! administrative controls.
use vstd::prelude::*;

use crate::account::Account;

verus! {

/// Royalty rate, in basis points, that every ledger is created with (15%).
pub const DEFAULT_ROYALTY_BPS: u16 = 1500;

/// Spending ceiling, in the token's smallest unit, that every ledger is
/// created with.
pub const DEFAULT_AUTONOMOUS_LIMIT: u128 = 1_000_000_000_000_000_000_000_000;

/// Basis points in a whole.
pub const BPS_DENOMINATOR: u128 = 10000;

/// Why an operation was refused. A refused operation changes nothing.
#[derive(Debug, Clone, Copy, PartialEq, Eq, Structural)]
pub enum LedgerError {
    /// The caller is not the creator.
    NotAuthorized,
    /// Revenue cannot be distributed while the ledger is paused.
    Paused,
    /// A running total would leave the 128-bit range.
    ArithmeticOverflow,
}

/// The royalty owed on `amount` at `bps` basis points, rounded down.
pub open spec fn royalty(amount: nat, bps: nat) -> nat {
    (amount * bps / BPS_DENOMINATOR as nat) as nat
}

/// The mathematical content of a ledger.
pub ghost struct LedgerState {
    pub creator: Seq<char>,
    pub royalty_bps: nat,
    pub autonomous_limit: nat,
    pub self_sustaining: bool,
    pub total_revenue: nat,
    pub total_royalty_paid: nat,
    pub paused: bool,
}

impl LedgerState {
    /// The state of a freshly created ledger.
    pub open spec fn initial(creator: Seq<char>) -> LedgerState {
        LedgerState {
            creator,
            royalty_bps: DEFAULT_ROYALTY_BPS as nat,
            autonomous_limit: DEFAULT_AUTONOMOUS_LIMIT as nat,
            self_sustaining: false,
            total_revenue: 0,
            total_royalty_paid: 0,
            paused: false,
        }
    }

    /// The rate is the fixed one, and the royalty paid so far is no more than
    /// the rate applied to all revenue so far.
    pub open spec fn wf(self) -> bool {
        &&& self.royalty_bps == DEFAULT_ROYALTY_BPS as nat
        &&& self.total_royalty_paid * BPS_DENOMINATOR <= self.total_revenue * self.royalty_bps
    }

    /// Whether a spend of `amount` is approved without the creator.
    pub open spec fn approves(self, amount: nat) -> bool {
        !self.paused && amount <= self.autonomous_limit
    }

    /// Whether distributing `amount` would take a running total past the
    /// 128-bit range.
    pub open spec fn distribution_overflows(self, amount: nat) -> bool {
        ||| self.total_revenue + amount > u128::MAX
        ||| self.total_royalty_paid + royalty(amount, self.royalty_bps) > u128::MAX
    }

    /// The state after `amount` has been distributed.
    pub open spec fn with_distribution(self, amount: nat) -> LedgerState {
        LedgerState {
            total_revenue: self.total_revenue + amount,
            total_royalty_paid: self.total_royalty_paid + royalty(amount, self.royalty_bps),
            ..self
        }
    }

    /// The outcome of distributing `amount`: the royalty paid out, or why
    /// nothing happened.
    pub open spec fn distribution_result(self, amount: nat) -> Result<nat, LedgerError> {
        if self.paused {
            Err(LedgerError::Paused)
        } else if self.distribution_overflows(amount) {
            Err(LedgerError::ArithmeticOverflow)
        } else {
            Ok(royalty(amount, self.royalty_bps))
        }
    }

    /// The state after distributing `amount`, whatever the outcome.
    pub open spec fn after_distribution(self, amount: nat) -> LedgerState {
        if self.distribution_result(amount) is Ok {
            self.with_distribution(amount)
        } else {
            self
        }
    }

    /// The outcome of an administrative call by `caller`.
    pub open spec fn admin_result(self, caller: Seq<char>) -> Result<(), LedgerError> {
        if caller == self.creator {
            Ok(())
        } else {
            Err(LedgerError::NotAuthorized)
        }
    }

    /// The state after `caller` asks to set the pause flag to `paused`.
    pub open spec fn after_set_paused(self, caller: Seq<char>, paused: bool) -> LedgerState {
        if caller == self.creator {
            LedgerState { paused, ..self }
        } else {
            self
        }
    }

    /// The state after `caller` asks to set the spending ceiling to `limit`.
    pub open spec fn after_set_limit(self, caller: Seq<char>, limit: nat) -> LedgerState {
        if caller == self.creator {
            LedgerState { autonomous_limit: limit, ..self }
        } else {
            self
        }
    }
}

/// A transfer that a distribution asks the host runtime to make. It is
/// requested, not confirmed: the ledger has counted it already.
pub struct PayoutRequest {
    pub recipient: Account,
    pub amount: u128,
}

/// A point-in-time copy of the ledger, for observers.
pub struct GorkStatus {
    pub total_revenue: u128,
    pub total_royalty_paid: u128,
    pub self_sustaining: bool,
    pub paused: bool,
    pub creator: Account,
    pub royalty_bps: u16,
}

/// The ledger of one autonomous actor and its creator.
pub struct GorkConstitution {
    creator: Account,
    royalty_bps: u16,
    autonomous_limit: u128,
    self_sustaining: bool,
    total_revenue: u128,
    total_royalty_paid: u128,
    paused: bool,
}

impl View for GorkConstitution {
    type V = LedgerState;

    closed spec fn view(&self) -> LedgerState {
        LedgerState {
            creator: self.creator@,
            royalty_bps: self.royalty_bps as nat,
            autonomous_limit: self.autonomous_limit as nat,
            self_sustaining: self.self_sustaining,
            total_revenue: self.total_revenue as nat,
            total_royalty_paid: self.total_royalty_paid as nat,
            paused: self.paused,
        }
    }
}

impl GorkConstitution {
    #[verifier::type_invariant]
    spec fn inv(&self) -> bool {
        self@.wf()
    }

    /// Creates the ledger of `creator`, with the fixed royalty rate, the
    /// default spending ceiling, empty totals, and not paused.
    pub fn new(creator: Account) -> (r: GorkConstitution)
        ensures
            r@ == LedgerState::initial(creator@),
            r@.wf(),
    {
        GorkConstitution {
            creator,
            royalty_bps: DEFAULT_ROYALTY_BPS,
            autonomous_limit: DEFAULT_AUTONOMOUS_LIMIT,
            self_sustaining: false,
            total_revenue: 0,
            total_royalty_paid: 0,
            paused: false,
        }
    }

    /// Counts `amount` as revenue and pays the royalty on it, rounded down,
    /// to the creator. The amount is taken as the caller states it.
    ///
    /// On success both totals have advanced and the payout to request from
    /// the host runtime is returned. A paused ledger refuses with `Paused`;
    /// one whose totals would overflow refuses with `ArithmeticOverflow`.
    /// A refusal changes nothing.
    pub fn distribute_revenue(&mut self, amount: u128) -> (r: Result<PayoutRequest, LedgerError>)
        ensures
            final(self)@ == old(self)@.after_distribution(amount as nat),
            final(self)@.wf(),
            r is Ok <==> old(self)@.distribution_result(amount as nat) is Ok,
            r matches Err(e) ==> old(self)@.distribution_result(amount as nat)
                == Err::<nat, LedgerError>(e),
            r matches Ok(p) ==> {
                &&& p.recipient@ == old(self)@.creator
                &&& p.amount == royalty(amount as nat, DEFAULT_ROYALTY_BPS as nat)
                &&& final(self)@.total_revenue == old(self)@.total_revenue + amount
                &&& final(self)@.total_royalty_paid == old(self)@.total_royalty_paid + amount
                    * DEFAULT_ROYALTY_BPS / (BPS_DENOMINATOR as int)
            },
            old(self)@.paused ==> (r matches Err(LedgerError::Paused)) && final(self)@ == old(self)@,
    {
        proof {
            use_type_invariant(&*self);
        }
        if self.paused {
            return Err(LedgerError::Paused);
        }
        if amount > u128::MAX - self.total_revenue {
            return Err(LedgerError::ArithmeticOverflow);
        }
        let paid = compute_royalty(amount, self.royalty_bps);
        if paid > u128::MAX - self.total_royalty_paid {
            return Err(LedgerError::ArithmeticOverflow);
        }
        proof {
            let (a, rev, tot, p, b) = (
                amount as int,
                self.total_revenue as int,
                self.total_royalty_paid as int,
                paid as int,
                self.royalty_bps as int,
            );
            assert(p * 10000 <= a * b) by {
                vstd::arithmetic::div_mod::lemma_fundamental_div_mod(a * b, 10000);
            }
            assert(tot * 10000 <= (rev + a) * b) by (nonlinear_arith)
                requires
                    tot * 10000 <= rev * b,
                    0 <= a,
                    0 <= b,
            ;
            assert((tot + p) * 10000 <= (rev + a) * b) by (nonlinear_arith)
                requires
                    tot * 10000 <= rev * b,
                    p * 10000 <= a * b,
            ;
        }
        let recipient = self.creator.clone();
        self.total_revenue = self.total_revenue + amount;
        self.total_royalty_paid = self.total_royalty_paid + paid;
        Ok(PayoutRequest { recipient, amount: paid })
    }

    /// Whether a spend of `amount` is approved without the creator: the
    /// ledger is not paused and `amount` is at most the ceiling.
    pub fn can_spend(&self, amount: u128) -> (r: bool)
        ensures
            r == self@.approves(amount as nat),
            r == (!self@.paused && amount <= self@.autonomous_limit),
    {
        !self.paused && amount <= self.autonomous_limit
    }

    /// A copy of the totals, the flags, the creator and the royalty rate.
    pub fn get_status(&self) -> (r: GorkStatus)
        ensures
            r.total_revenue == self@.total_revenue,
            r.total_royalty_paid == self@.total_royalty_paid,
            r.self_sustaining == self@.self_sustaining,
            r.paused == self@.paused,
            r.creator@ == self@.creator,
            r.royalty_bps == self@.royalty_bps,
    {
        GorkStatus {
            total_revenue: self.total_revenue,
            total_royalty_paid: self.total_royalty_paid,
            self_sustaining: self.self_sustaining,
            paused: self.paused,
            creator: self.creator.clone(),
            royalty_bps: self.royalty_bps,
        }
    }

    /// Pauses the ledger on behalf of `caller`, who must be the creator.
    /// Pausing a paused ledger succeeds and changes nothing.
    pub fn pause(&mut self, caller: &Account) -> (r: Result<(), LedgerError>)
        ensures
            r == old(self)@.admin_result(caller@),
            final(self)@ == old(self)@.after_set_paused(caller@, true),
            final(self)@.wf(),
    {
        self.assert_creator(caller)?;
        self.paused = true;
        Ok(())
    }

    /// Lifts the pause on behalf of `caller`, who must be the creator.
    /// Resuming an active ledger succeeds and changes nothing.
    pub fn resume(&mut self, caller: &Account) -> (r: Result<(), LedgerError>)
        ensures
            r == old(self)@.admin_result(caller@),
            final(self)@ == old(self)@.after_set_paused(caller@, false),
            final(self)@.wf(),
    {
        self.assert_creator(caller)?;
        self.paused = false;
        Ok(())
    }

    /// Replaces the spending ceiling on behalf of `caller`, who must be the
    /// creator. Any value is accepted, zero and the largest included.
    pub fn set_autonomous_limit(
        &mut self,
        caller: &Account,
        new_limit: u128,
    ) -> (r: Result<(), LedgerError>)
        ensures
            r == old(self)@.admin_result(caller@),
            final(self)@ == old(self)@.after_set_limit(caller@, new_limit as nat),
            final(self)@.wf(),
    {
        self.assert_creator(caller)?;
        self.autonomous_limit = new_limit;
        Ok(())
    }

    /// Rebuilds a ledger from its stored fields; `None` when they could not
    /// have been reached: a rate other than the fixed one, or more royalty
    /// paid than the rate allows on the revenue.
    pub fn restore(
        creator: Account,
        royalty_bps: u16,
        autonomous_limit: u128,
        self_sustaining: bool,
        total_revenue: u128,
        total_royalty_paid: u128,
        paused: bool,
    ) -> (r: Option<GorkConstitution>)
        ensures
            r is Some <==> (royalty_bps == DEFAULT_ROYALTY_BPS && total_royalty_paid
                * BPS_DENOMINATOR <= total_revenue * royalty_bps),
            r matches Some(g) ==> {
                &&& g@.creator == creator@
                &&& g@.royalty_bps == royalty_bps
                &&& g@.autonomous_limit == autonomous_limit
                &&& g@.self_sustaining == self_sustaining
                &&& g@.total_revenue == total_revenue
                &&& g@.total_royalty_paid == total_royalty_paid
                &&& g@.paused == paused
            },
    {
        if royalty_bps != DEFAULT_ROYALTY_BPS {
            return None;
        }
        let ceiling = compute_royalty(total_revenue, royalty_bps);
        proof {
            let (x, p, c) = (total_revenue * royalty_bps, total_royalty_paid as int, ceiling as int);
            vstd::arithmetic::div_mod::lemma_fundamental_div_mod(x, 10000);
            if p * 10000 <= x {
                vstd::arithmetic::div_mod::lemma_div_is_ordered(p * 10000, x, 10000);
                vstd::arithmetic::div_mod::lemma_div_by_multiple(p, 10000);
            }
            if p <= c {
                assert(p * 10000 <= c * 10000) by (nonlinear_arith)
                    requires
                        p <= c,
                ;
            }
        }
        if total_royalty_paid > ceiling {
            return None;
        }
        Some(
            GorkConstitution {
                creator,
                royalty_bps,
                autonomous_limit,
                self_sustaining,
                total_revenue,
                total_royalty_paid,
                paused,
            },
        )
    }

    /// The current spending ceiling.
    pub fn autonomous_limit(&self) -> (r: u128)
        ensures
            r == self@.autonomous_limit,
    {
        self.autonomous_limit
    }

    /// `Ok` exactly when `caller` is the creator.
    fn assert_creator(&self, caller: &Account) -> (r: Result<(), LedgerError>)
        ensures
            r == self@.admin_result(caller@),
            self@.wf(),
    {
        proof {
            use_type_invariant(self);
        }
        if *caller == self.creator {
            Ok(())
        } else {
            Err(LedgerError::NotAuthorized)
        }
    }
}

/// `amount * bps / 10000`, computed without an intermediate product that
/// could leave the 128-bit range.
fn compute_royalty(amount: u128, bps: u16) -> (r: u128)
    requires
        bps <= BPS_DENOMINATOR,
    ensures
        r == royalty(amount as nat, bps as nat),
        r <= amount,
{
    let q = amount / BPS_DENOMINATOR;
    let rem = amount % BPS_DENOMINATOR;
    let b = bps as u128;
    proof {
        let (a, qi, ri, bi) = (amount as int, q as int, rem as int, b as int);
        assert(a == 10000 * qi + ri);
        assert(qi * bi <= qi * 10000) by (nonlinear_arith)
            requires
                0 <= qi,
                0 <= bi <= 10000,
        ;
        assert(ri * bi <= ri * 10000) by (nonlinear_arith)
            requires
                0 <= ri,
                0 <= bi <= 10000,
        ;
        assert(a * bi == ri * bi + (qi * bi) * 10000) by (nonlinear_arith)
            requires
                a == 10000 * qi + ri,
        ;
        vstd::arithmetic::div_mod::lemma_hoist_over_denominator(ri * bi, qi * bi, 10000);
        assert((ri * bi) / 10000 <= ri) by {
            vstd::arithmetic::div_mod::lemma_div_is_ordered(ri * bi, ri * 10000, 10000);
            vstd::arithmetic::div_mod::lemma_div_by_multiple(ri, 10000);
        }
    }
    q * b + rem * b / BPS_DENOMINATOR
}

} // verus!
