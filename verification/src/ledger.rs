use vstd::prelude::*;
use crate::error::TokenError;
use crate::identity::Identity;
use crate::keyed_map::KeyedMap;

verus! {

/// What `balances` holds for `who`: nothing where it has no entry.
pub open spec fn balance_in<K>(balances: Map<K, u64>, who: K) -> nat {
    if balances.contains_key(who) {
        balances[who] as nat
    } else {
        0
    }
}

/// The sum of all the balances of a finite map.
pub open spec fn sum_of<K>(balances: Map<K, u64>) -> nat
    decreases balances.dom().len(),
    when balances.dom().finite()
{
    if balances.dom().len() == 0 {
        0
    } else {
        let who = balances.dom().choose();
        balances[who] as nat + sum_of(balances.remove(who))
    }
}

/// `balances` after `amount` has left `from` and then arrived at `to`.
pub open spec fn moved<K>(balances: Map<K, u64>, from: K, to: K, amount: u64) -> Map<K, u64> {
    let debited = balances.insert(from, (balance_in(balances, from) - amount) as u64);
    debited.insert(to, (balance_in(debited, to) + amount) as u64)
}

/// `balances` after `amount` has been added to what `who` holds.
pub open spec fn credited<K>(balances: Map<K, u64>, who: K, amount: u64) -> Map<K, u64> {
    balances.insert(who, (balance_in(balances, who) + amount) as u64)
}

/// The sum can be taken starting from any holder.
pub proof fn lemma_sum_split<K>(balances: Map<K, u64>, who: K)
    requires
        balances.dom().finite(),
        balances.contains_key(who),
    ensures
        sum_of(balances) == balances[who] + sum_of(balances.remove(who)),
    decreases balances.dom().len(),
{
    let first = balances.dom().choose();
    if first != who {
        let rest = balances.remove(first);
        lemma_sum_split(rest, who);
        lemma_sum_split(balances.remove(who), first);
        assert(rest.remove(who) =~= balances.remove(who).remove(first));
    }
}

/// Writing a balance changes the sum by the difference to what stood there.
pub proof fn lemma_sum_insert<K>(balances: Map<K, u64>, who: K, amount: u64)
    requires
        balances.dom().finite(),
    ensures
        sum_of(balances.insert(who, amount)) == sum_of(balances) - balance_in(balances, who)
            + amount,
{
    let after = balances.insert(who, amount);
    lemma_sum_split(after, who);
    assert(after.remove(who) =~= balances.remove(who));
    if balances.contains_key(who) {
        lemma_sum_split(balances, who);
    } else {
        assert(balances.remove(who) =~= balances);
    }
}

/// No holder has more than the sum.
pub proof fn lemma_balance_within_sum<K>(balances: Map<K, u64>, who: K)
    requires
        balances.dom().finite(),
    ensures
        balance_in(balances, who) <= sum_of(balances),
{
    if balances.contains_key(who) {
        lemma_sum_split(balances, who);
    }
}

/// Moving an amount that the sender holds leaves the sum as it was, and
/// every balance still fits.
pub proof fn lemma_moved_keeps_sum<K>(balances: Map<K, u64>, from: K, to: K, amount: u64)
    requires
        balances.dom().finite(),
        sum_of(balances) <= u64::MAX,
        amount <= balance_in(balances, from),
    ensures
        moved(balances, from, to, amount).dom().finite(),
        sum_of(moved(balances, from, to, amount)) == sum_of(balances),
        balance_in(balances.insert(from, (balance_in(balances, from) - amount) as u64), to)
            + amount <= u64::MAX,
{
    let debited = balances.insert(from, (balance_in(balances, from) - amount) as u64);
    lemma_sum_insert(balances, from, (balance_in(balances, from) - amount) as u64);
    lemma_balance_within_sum(debited, to);
    lemma_sum_insert(debited, to, (balance_in(debited, to) + amount) as u64);
}

/// The balances and the total supply. The total supply is the sum of the
/// balances at every point at which the store can be observed.
pub struct LedgerStore {
    balances: KeyedMap<Identity, u64>,
    total_supply: u64,
}

impl LedgerStore {
    /// The balance of each identity that the store has an entry for.
    pub closed spec fn balances(&self) -> Map<Seq<u8>, u64> {
        self.balances@
    }

    /// The total supply.
    pub closed spec fn supply(&self) -> nat {
        self.total_supply as nat
    }

    /// The store holds finitely many balances, and they add up to the
    /// total supply.
    pub closed spec fn wf(&self) -> bool {
        &&& self.balances.wf()
        &&& self.balances@.dom().finite()
        &&& self.total_supply == sum_of(self.balances@)
    }

    /// What a well-formed store has by being one.
    pub proof fn lemma_wf(&self)
        requires
            self.wf(),
        ensures
            self.balances().dom().finite(),
            self.supply() == sum_of(self.balances()),
            self.supply() <= u64::MAX,
    {
    }

    /// A store without balances and without supply.
    pub fn new() -> (store: LedgerStore)
        ensures
            store.wf(),
            store.balances() == Map::<Seq<u8>, u64>::empty(),
            store.supply() == 0,
    {
        LedgerStore { balances: KeyedMap::new(), total_supply: 0 }
    }

    /// What `who` holds; 0 for an identity that the store has never seen.
    pub fn balance_of(&self, who: &Identity) -> (balance: u64)
        requires
            self.wf(),
        ensures
            balance == balance_in(self.balances(), who@),
    {
        match self.balances.get(who) {
            Some(balance) => *balance,
            None => 0,
        }
    }

    /// The total supply.
    pub fn total_supply(&self) -> (supply: u64)
        ensures
            supply == self.supply(),
    {
        self.total_supply
    }

    /// Adds `amount` to what `who` holds and to the total supply.
    pub fn credit(&mut self, who: &Identity, amount: u64)
        requires
            old(self).wf(),
            old(self).supply() + amount <= u64::MAX,
        ensures
            final(self).wf(),
            final(self).balances() == credited(old(self).balances(), who@, amount),
            final(self).supply() == old(self).supply() + amount,
    {
        let held = self.balance_of(who);
        proof {
            lemma_balance_within_sum(self.balances@, who@);
            lemma_sum_insert(self.balances@, who@, (held + amount) as u64);
        }
        self.balances.insert(who, held + amount);
        self.total_supply = self.total_supply + amount;
    }

    /// Moves `amount` from `from` to `to` in one step, or refuses and
    /// changes nothing where `from` holds less than `amount`.
    pub fn move_funds(&mut self, from: &Identity, to: &Identity, amount: u64) -> (r: Result<
        (),
        TokenError,
    >)
        requires
            old(self).wf(),
        ensures
            final(self).wf(),
            r == if balance_in(old(self).balances(), from@) < amount {
                Err::<(), TokenError>(TokenError::InsufficientBalance)
            } else {
                Ok(())
            },
            r is Err ==> *final(self) == *old(self),
            r is Ok ==> final(self).balances() == moved(old(self).balances(), from@, to@, amount),
            final(self).supply() == old(self).supply(),
    {
        proof {
            if amount <= balance_in(self.balances@, from@) {
                lemma_moved_keeps_sum(self.balances@, from@, to@, amount);
            }
        }
        match self.debit(from, amount) {
            Err(e) => Err(e),
            Ok(()) => {
                self.deposit(to, amount);
                Ok(())
            },
        }
    }

    /// Takes `amount` off what `who` holds, or refuses and changes nothing
    /// where `who` holds less. The comparison comes before the
    /// subtraction. The total supply is left alone, so this is one half of
    /// a move and not an operation of its own.
    fn debit(&mut self, who: &Identity, amount: u64) -> (r: Result<(), TokenError>)
        requires
            old(self).balances.wf(),
        ensures
            final(self).balances.wf(),
            final(self).total_supply == old(self).total_supply,
            r == if balance_in(old(self).balances@, who@) < amount {
                Err::<(), TokenError>(TokenError::InsufficientBalance)
            } else {
                Ok(())
            },
            r is Err ==> *final(self) == *old(self),
            r is Ok ==> final(self).balances@ == old(self).balances@.insert(
                who@,
                (balance_in(old(self).balances@, who@) - amount) as u64,
            ),
    {
        let held: u64 = match self.balances.get(who) {
            Some(balance) => *balance,
            None => 0,
        };
        if held < amount {
            return Err(TokenError::InsufficientBalance);
        }
        self.balances.insert(who, held - amount);
        Ok(())
    }

    /// Adds `amount` to what `who` holds and leaves the total supply
    /// alone: the other half of a move.
    fn deposit(&mut self, who: &Identity, amount: u64)
        requires
            old(self).balances.wf(),
            balance_in(old(self).balances@, who@) + amount <= u64::MAX,
        ensures
            final(self).balances.wf(),
            final(self).total_supply == old(self).total_supply,
            final(self).balances@ == old(self).balances@.insert(
                who@,
                (balance_in(old(self).balances@, who@) + amount) as u64,
            ),
    {
        let held: u64 = match self.balances.get(who) {
            Some(balance) => *balance,
            None => 0,
        };
        self.balances.insert(who, held + amount);
    }
}

} // verus!
