use vstd::prelude::*;
use crate::access::{owner_check, AccessController, PauseSwitch};
use crate::allowance::{live_amount, AllowanceRegistry};
use crate::error::TokenError;
use crate::identity::Identity;
use crate::ledger::{balance_in, sum_of, LedgerStore};
use crate::model::{
    approved_state, initial_state, mint_check, minted, transfer_check, transfer_from_check,
    transferred, transferred_from, with_minter, with_pause, EngineState, INITIAL_SUPPLY,
    MAX_MINT_AMOUNT,
};
use crate::rate_limit::RateLimiter;

verus! {

/// The ledger with its allowances, minting rights, halt flag and rate
/// limiter. Every operation checks all it has to check before it changes
/// anything, so a refused call leaves the engine as it was.
pub struct TokenEngine {
    access: AccessController,
    pause: PauseSwitch,
    limiter: RateLimiter,
    allowances: AllowanceRegistry,
    ledger: LedgerStore,
}

impl View for TokenEngine {
    type V = EngineState;

    closed spec fn view(&self) -> EngineState {
        EngineState {
            owner: self.access.owner(),
            minters: self.access.minters(),
            paused: self.pause.paused(),
            balances: self.ledger.balances(),
            total_supply: self.ledger.supply(),
            allowances: self.allowances.grants(),
            rate_limits: self.limiter.records(),
        }
    }
}

impl TokenEngine {
    /// Every part of the engine is well-formed; in particular the total
    /// supply is the sum of the balances.
    pub closed spec fn wf(&self) -> bool {
        &&& self.access.wf()
        &&& self.limiter.wf()
        &&& self.allowances.wf()
        &&& self.ledger.wf()
    }

    /// In a well-formed engine the balances add up to the total supply.
    pub proof fn lemma_supply_is_sum(&self)
        requires
            self.wf(),
        ensures
            self@.balances.dom().finite(),
            self@.total_supply == sum_of(self@.balances),
            self@.total_supply <= u64::MAX,
    {
        self.ledger.lemma_wf();
    }

    /// Sets the engine up for `founder`, who becomes its owner and only
    /// minter and receives the initial supply.
    pub fn initialize(founder: &Identity) -> (engine: TokenEngine)
        ensures
            engine.wf(),
            engine@ == initial_state(founder@),
    {
        let mut ledger = LedgerStore::new();
        ledger.credit(founder, INITIAL_SUPPLY);
        let engine = TokenEngine {
            access: AccessController::new(founder),
            pause: PauseSwitch::new(),
            limiter: RateLimiter::new(),
            allowances: AllowanceRegistry::new(),
            ledger,
        };
        assert(engine@.balances =~= initial_state(founder@).balances);
        engine
    }

    /// Lets `minter` mint, if the owner asks for it.
    pub fn add_minter(&mut self, caller: &Identity, minter: &Identity) -> (r: Result<
        (),
        TokenError,
    >)
        requires
            old(self).wf(),
        ensures
            final(self).wf(),
            r == owner_check(old(self)@.owner, caller@),
            r is Ok ==> final(self)@ == with_minter(old(self)@, minter@),
            r is Err ==> *final(self) == *old(self),
    {
        self.access.add_minter(caller, minter)
    }

    /// Creates `amount` new units for `to`, if a minter asks for no more
    /// than one call may mint and the total supply stays representable.
    pub fn mint(&mut self, caller: &Identity, to: &Identity, amount: u64) -> (r: Result<
        (),
        TokenError,
    >)
        requires
            old(self).wf(),
        ensures
            final(self).wf(),
            r == mint_check(old(self)@, caller@, amount),
            r is Ok ==> final(self)@ == minted(old(self)@, to@, amount),
            r is Err ==> *final(self) == *old(self),
    {
        if amount > MAX_MINT_AMOUNT {
            return Err(TokenError::InvalidAmount);
        }
        if !self.access.is_minter(caller) {
            return Err(TokenError::Unauthorized);
        }
        if amount > u64::MAX - self.ledger.total_supply() {
            return Err(TokenError::InvalidAmount);
        }
        self.ledger.credit(to, amount);
        Ok(())
    }

    /// Moves `amount` from `caller` to `to` and counts the transaction
    /// against the rate limit of `caller`.
    pub fn transfer(&mut self, caller: &Identity, to: &Identity, amount: u64, now: u64) -> (r:
        Result<(), TokenError>)
        requires
            old(self).wf(),
        ensures
            final(self).wf(),
            r == transfer_check(old(self)@, caller@, amount, now),
            r is Ok ==> final(self)@ == transferred(old(self)@, caller@, to@, amount, now),
            r is Err ==> *final(self) == *old(self),
    {
        if self.pause.is_paused() {
            return Err(TokenError::ContractPaused);
        }
        if self.limiter.check_limit(caller, now).is_err() {
            return Err(TokenError::RateLimitExceeded);
        }
        if self.ledger.move_funds(caller, to, amount).is_err() {
            return Err(TokenError::InsufficientBalance);
        }
        self.limiter.record_transaction(caller, now);
        Ok(())
    }

    /// Grants `spender` the right to spend up to `amount` of `caller`'s
    /// for `duration` from `now`, in place of any earlier grant. Always
    /// succeeds.
    pub fn approve(
        &mut self,
        caller: &Identity,
        spender: &Identity,
        amount: u64,
        duration: u64,
        now: u64,
    ) -> (r: Result<(), TokenError>)
        requires
            old(self).wf(),
        ensures
            final(self).wf(),
            r == Ok::<(), TokenError>(()),
            final(self)@ == approved_state(old(self)@, caller@, spender@, amount, duration, now),
    {
        self.allowances.approve(caller, spender, amount, duration, now);
        Ok(())
    }

    /// Moves `amount` from `from` to `to` on the allowance that `from`
    /// granted `caller`, takes `amount` off that allowance and counts the
    /// transaction against the rate limit of `caller`.
    pub fn transfer_from(
        &mut self,
        caller: &Identity,
        from: &Identity,
        to: &Identity,
        amount: u64,
        now: u64,
    ) -> (r: Result<(), TokenError>)
        requires
            old(self).wf(),
        ensures
            final(self).wf(),
            r == transfer_from_check(old(self)@, caller@, from@, amount, now),
            r is Ok ==> final(self)@ == transferred_from(
                old(self)@,
                caller@,
                from@,
                to@,
                amount,
                now,
            ),
            r is Err ==> *final(self) == *old(self),
    {
        if self.pause.is_paused() {
            return Err(TokenError::ContractPaused);
        }
        if self.limiter.check_limit(caller, now).is_err() {
            return Err(TokenError::RateLimitExceeded);
        }
        match self.allowances.check(from, caller, amount, now) {
            Err(e) => {
                return Err(e);
            },
            Ok(()) => {},
        }
        if self.ledger.balance_of(from) < amount {
            return Err(TokenError::InsufficientBalance);
        }
        let spent = self.allowances.consume(from, caller, amount, now);
        let moved = self.ledger.move_funds(from, to, amount);
        assert(spent is Ok && moved is Ok);
        self.limiter.record_transaction(caller, now);
        Ok(())
    }

    /// Halts transfers, if the owner asks for it.
    pub fn pause(&mut self, caller: &Identity) -> (r: Result<(), TokenError>)
        requires
            old(self).wf(),
        ensures
            final(self).wf(),
            r == owner_check(old(self)@.owner, caller@),
            r is Ok ==> final(self)@ == with_pause(old(self)@, true),
            r is Err ==> *final(self) == *old(self),
    {
        self.pause.pause(&self.access, caller)
    }

    /// Lets transfers run again, if the owner asks for it.
    pub fn unpause(&mut self, caller: &Identity) -> (r: Result<(), TokenError>)
        requires
            old(self).wf(),
        ensures
            final(self).wf(),
            r == owner_check(old(self)@.owner, caller@),
            r is Ok ==> final(self)@ == with_pause(old(self)@, false),
            r is Err ==> *final(self) == *old(self),
    {
        self.pause.unpause(&self.access, caller)
    }

    /// What `who` holds; 0 for an identity that the engine has never seen.
    pub fn balance_of(&self, who: &Identity) -> (balance: u64)
        requires
            self.wf(),
        ensures
            balance == balance_in(self@.balances, who@),
    {
        self.ledger.balance_of(who)
    }

    /// What `spender` may still spend of `owner`'s at `now`: 0 without a
    /// grant or after its expiry.
    pub fn allowance(&self, owner: &Identity, spender: &Identity, now: u64) -> (amount: u64)
        requires
            self.wf(),
        ensures
            amount == live_amount(self@.allowances, owner@, spender@, now),
    {
        self.allowances.query(owner, spender, now)
    }

    /// The total supply.
    pub fn total_supply(&self) -> (supply: u64)
        ensures
            supply == self@.total_supply,
    {
        self.ledger.total_supply()
    }
}

} // verus!
