use vstd::prelude::*;
use crate::error::TokenError;
use crate::identity::Identity;
use crate::keyed_map::{Key, KeyedMap};

verus! {

/// An owner and the spender that the owner has granted an allowance to.
pub struct Delegation {
    pub owner: Identity,
    pub spender: Identity,
}

impl Key for Delegation {
    type Model = (Seq<u8>, Seq<u8>);

    open spec fn model(&self) -> (Seq<u8>, Seq<u8>) {
        (self.owner@, self.spender@)
    }

    fn matches(&self, other: &Delegation) -> (r: bool) {
        self.owner.same(&other.owner) && self.spender.same(&other.spender)
    }

    fn replica(&self) -> (copy: Delegation) {
        Delegation { owner: self.owner.clone(), spender: self.spender.clone() }
    }
}

/// A permission to spend up to `amount`, usable until `expires_at`
/// inclusive.
#[derive(Clone, Copy, Debug, PartialEq, Eq, Structural)]
pub struct Allowance {
    pub amount: u64,
    pub expires_at: u64,
}

/// When an allowance granted at `now` for `duration` expires: their sum,
/// or the last representable moment where the sum does not fit.
pub open spec fn expiry(now: u64, duration: u64) -> u64 {
    if now + duration > u64::MAX {
        u64::MAX
    } else {
        (now + duration) as u64
    }
}

/// The grants after `owner` has approved `spender` at `now`.
pub open spec fn approved(
    grants: Map<(Seq<u8>, Seq<u8>), Allowance>,
    owner: Seq<u8>,
    spender: Seq<u8>,
    amount: u64,
    duration: u64,
    now: u64,
) -> Map<(Seq<u8>, Seq<u8>), Allowance> {
    grants.insert((owner, spender), Allowance { amount, expires_at: expiry(now, duration) })
}

/// What `spender` may still spend of `owner`'s at `now`: nothing without a
/// grant or after its expiry.
pub open spec fn live_amount(
    grants: Map<(Seq<u8>, Seq<u8>), Allowance>,
    owner: Seq<u8>,
    spender: Seq<u8>,
    now: u64,
) -> u64 {
    if grants.contains_key((owner, spender)) && now <= grants[(owner, spender)].expires_at {
        grants[(owner, spender)].amount
    } else {
        0
    }
}

/// The answer to `spender`, who wants to spend `amount` of `owner`'s at
/// `now`.
pub open spec fn spend_check(
    grants: Map<(Seq<u8>, Seq<u8>), Allowance>,
    owner: Seq<u8>,
    spender: Seq<u8>,
    amount: u64,
    now: u64,
) -> Result<(), TokenError> {
    if !grants.contains_key((owner, spender)) {
        Err(TokenError::InsufficientAllowance)
    } else if now > grants[(owner, spender)].expires_at {
        Err(TokenError::ExpiredAllowance)
    } else if amount > grants[(owner, spender)].amount {
        Err(TokenError::InsufficientAllowance)
    } else {
        Ok(())
    }
}

/// The grants after `spender` has spent `amount` of `owner`'s. The entry
/// stays, also where nothing is left of it.
pub open spec fn consumed(
    grants: Map<(Seq<u8>, Seq<u8>), Allowance>,
    owner: Seq<u8>,
    spender: Seq<u8>,
    amount: u64,
) -> Map<(Seq<u8>, Seq<u8>), Allowance> {
    grants.insert(
        (owner, spender),
        Allowance {
            amount: (grants[(owner, spender)].amount - amount) as u64,
            expires_at: grants[(owner, spender)].expires_at,
        },
    )
}

/// The allowance of each pair of owner and spender. An expired entry
/// stays until the owner approves the spender again.
pub struct AllowanceRegistry {
    grants: KeyedMap<Delegation, Allowance>,
}

impl AllowanceRegistry {
    /// The grant of each pair of owner and spender that has one.
    pub closed spec fn grants(&self) -> Map<(Seq<u8>, Seq<u8>), Allowance> {
        self.grants@
    }

    pub closed spec fn wf(&self) -> bool {
        self.grants.wf()
    }

    /// A registry without grants.
    pub fn new() -> (registry: AllowanceRegistry)
        ensures
            registry.wf(),
            registry.grants() == Map::<(Seq<u8>, Seq<u8>), Allowance>::empty(),
    {
        AllowanceRegistry { grants: KeyedMap::new() }
    }

    /// Grants `spender` the right to spend up to `amount` of `owner`'s for
    /// `duration` from `now`. Replaces any earlier grant for the pair.
    pub fn approve(
        &mut self,
        owner: &Identity,
        spender: &Identity,
        amount: u64,
        duration: u64,
        now: u64,
    )
        requires
            old(self).wf(),
        ensures
            final(self).wf(),
            final(self).grants() == approved(
                old(self).grants(),
                owner@,
                spender@,
                amount,
                duration,
                now,
            ),
    {
        let expires_at: u64 = match now.checked_add(duration) {
            Some(t) => t,
            None => u64::MAX,
        };
        let pair = Delegation { owner: owner.clone(), spender: spender.clone() };
        self.grants.insert(&pair, Allowance { amount, expires_at });
    }

    /// Whether `spender` may spend `amount` of `owner`'s at `now`. Changes
    /// nothing.
    pub fn check(&self, owner: &Identity, spender: &Identity, amount: u64, now: u64) -> (r: Result<
        (),
        TokenError,
    >)
        requires
            self.wf(),
        ensures
            r == spend_check(self.grants(), owner@, spender@, amount, now),
    {
        let pair = Delegation { owner: owner.clone(), spender: spender.clone() };
        match self.grants.get(&pair) {
            None => Err(TokenError::InsufficientAllowance),
            Some(grant) => {
                if now > grant.expires_at {
                    Err(TokenError::ExpiredAllowance)
                } else if amount > grant.amount {
                    Err(TokenError::InsufficientAllowance)
                } else {
                    Ok(())
                }
            },
        }
    }

    /// Takes `amount` off the allowance that `owner` granted `spender`, or
    /// refuses and changes nothing.
    pub fn consume(&mut self, owner: &Identity, spender: &Identity, amount: u64, now: u64) -> (r:
        Result<(), TokenError>)
        requires
            old(self).wf(),
        ensures
            final(self).wf(),
            r == spend_check(old(self).grants(), owner@, spender@, amount, now),
            r is Ok ==> final(self).grants() == consumed(
                old(self).grants(),
                owner@,
                spender@,
                amount,
            ),
            r is Err ==> *final(self) == *old(self),
    {
        let pair = Delegation { owner: owner.clone(), spender: spender.clone() };
        let grant: Allowance = match self.grants.get(&pair) {
            None => {
                return Err(TokenError::InsufficientAllowance);
            },
            Some(grant) => *grant,
        };
        if now > grant.expires_at {
            return Err(TokenError::ExpiredAllowance);
        }
        if amount > grant.amount {
            return Err(TokenError::InsufficientAllowance);
        }
        self.grants.insert(
            &pair,
            Allowance { amount: grant.amount - amount, expires_at: grant.expires_at },
        );
        Ok(())
    }

    /// What `spender` may still spend of `owner`'s at `now`. Changes
    /// nothing.
    pub fn query(&self, owner: &Identity, spender: &Identity, now: u64) -> (amount: u64)
        requires
            self.wf(),
        ensures
            amount == live_amount(self.grants(), owner@, spender@, now),
    {
        let pair = Delegation { owner: owner.clone(), spender: spender.clone() };
        match self.grants.get(&pair) {
            Some(grant) => {
                if now <= grant.expires_at {
                    grant.amount
                } else {
                    0
                }
            },
            None => 0,
        }
    }
}

} // verus!
