use vstd::prelude::*;
use crate::allowance::{approved, live_amount, spend_check, Allowance};
use crate::error::TokenError;
use crate::ledger::{
    balance_in, lemma_balance_within_sum, lemma_moved_keeps_sum, lemma_sum_insert, moved, sum_of,
};
use crate::model::{
    approved_state, initial_state, mint_check, outcome, run, step, transfer_check,
    transfer_from_check, transferred_from, with_pause, Call, EngineState, INITIAL_SUPPLY,
};
use crate::rate_limit::{next_count, permits, within_window, MAX_PER_WINDOW};

verus! {

/// The state holds finitely many balances, and they add up to the total
/// supply, which fits the ledger's counter.
pub open spec fn conserved(s: EngineState) -> bool {
    &&& s.balances.dom().finite()
    &&& s.total_supply == sum_of(s.balances)
    &&& s.total_supply <= u64::MAX
}

/// Right after the set-up the founder holds the whole initial supply, and
/// the balances add up to it.
pub proof fn law_initial_supply(founder: Seq<u8>)
    ensures
        conserved(initial_state(founder)),
        initial_state(founder).total_supply == INITIAL_SUPPLY,
        balance_in(initial_state(founder).balances, founder) == INITIAL_SUPPLY,
{
    lemma_sum_insert(Map::<Seq<u8>, u64>::empty(), founder, INITIAL_SUPPLY);
}

/// Whatever is called and however the engine answers, the balances add
/// up to the total supply afterwards if they did before.
pub proof fn law_step_conserves_supply(s: EngineState, call: Call)
    requires
        conserved(s),
    ensures
        conserved(step(s, call)),
{
    if outcome(s, call) is Ok {
        match call {
            Call::Mint { to, amount, .. } => {
                lemma_balance_within_sum(s.balances, to);
                lemma_sum_insert(s.balances, to, (balance_in(s.balances, to) + amount) as u64);
            },
            Call::Transfer { caller, to, amount, .. } => {
                lemma_moved_keeps_sum(s.balances, caller, to, amount);
            },
            Call::TransferFrom { from, to, amount, .. } => {
                lemma_moved_keeps_sum(s.balances, from, to, amount);
            },
            _ => {},
        }
    }
}

/// After the set-up and any sequence of calls, the total supply is the
/// sum of the balances of all identities that the ledger knows.
pub proof fn law_supply_conserved(founder: Seq<u8>, calls: Seq<Call>)
    ensures
        conserved(run(initial_state(founder), calls)),
    decreases calls.len(),
{
    if calls.len() == 0 {
        law_initial_supply(founder);
    } else {
        law_supply_conserved(founder, calls.drop_last());
        law_step_conserves_supply(run(initial_state(founder), calls.drop_last()), calls.last());
    }
}

/// Only an accepted mint changes the total supply, and it adds exactly
/// the minted amount.
pub proof fn law_supply_changes_only_by_minting(s: EngineState, call: Call)
    ensures
        step(s, call).total_supply == if outcome(s, call) is Ok && call is Mint {
            s.total_supply + call->Mint_amount
        } else {
            s.total_supply as int
        },
{
}

/// A call that the engine refuses leaves balances, allowances, total
/// supply, rate-limit records, minters and halt flag as they were.
pub proof fn law_refused_call_changes_nothing(s: EngineState, call: Call)
    requires
        outcome(s, call) is Err,
    ensures
        step(s, call) == s,
{
}

/// No call changes the owner, and no call removes a minter, a balance,
/// an allowance or a rate-limit record: entries are only added or
/// overwritten, an expired allowance included.
pub proof fn law_nothing_is_forgotten(s: EngineState, call: Call)
    ensures
        step(s, call).owner == s.owner,
        s.minters.subset_of(step(s, call).minters),
        s.balances.dom().subset_of(step(s, call).balances.dom()),
        s.allowances.dom().subset_of(step(s, call).allowances.dom()),
        s.rate_limits.dom().subset_of(step(s, call).rate_limits.dom()),
{
}

/// What a move does to each balance: `amount` less for the sender,
/// `amount` more for the receiver, nothing for anybody else, and nothing
/// at all where sender and receiver are one.
pub proof fn law_move_is_exact(
    balances: Map<Seq<u8>, u64>,
    from: Seq<u8>,
    to: Seq<u8>,
    amount: u64,
    who: Seq<u8>,
)
    requires
        balances.dom().finite(),
        sum_of(balances) <= u64::MAX,
        amount <= balance_in(balances, from),
    ensures
        balance_in(moved(balances, from, to, amount), who) == balance_in(balances, who) - (if who
            == from {
            amount as int
        } else {
            0
        }) + (if who == to {
            amount as int
        } else {
            0
        }),
{
    lemma_moved_keeps_sum(balances, from, to, amount);
}

/// A transfer of more than the sender holds is refused with
/// `InsufficientBalance` once the halt flag and the rate limiter have let
/// it pass, and no balance changes; so no transfer takes a balance below
/// zero.
pub proof fn law_transfer_never_overdraws(
    s: EngineState,
    caller: Seq<u8>,
    to: Seq<u8>,
    amount: u64,
    now: u64,
)
    requires
        balance_in(s.balances, caller) < amount,
    ensures
        transfer_check(s, caller, amount, now) is Err,
        !s.paused && permits(s.rate_limits, caller, now) ==> transfer_check(s, caller, amount, now)
            == Err::<(), TokenError>(TokenError::InsufficientBalance),
        step(s, Call::Transfer { caller, to, amount, now }) == s,
{
}

/// A delegated transfer of more than the source holds is refused, with
/// `InsufficientBalance` once halt flag, rate limiter and allowance have
/// let it pass, and neither a balance nor the allowance changes.
pub proof fn law_transfer_from_never_overdraws(
    s: EngineState,
    caller: Seq<u8>,
    from: Seq<u8>,
    to: Seq<u8>,
    amount: u64,
    now: u64,
)
    requires
        balance_in(s.balances, from) < amount,
    ensures
        transfer_from_check(s, caller, from, amount, now) is Err,
        !s.paused && permits(s.rate_limits, caller, now) && spend_check(
            s.allowances,
            from,
            caller,
            amount,
            now,
        ) is Ok ==> transfer_from_check(s, caller, from, amount, now) == Err::<(), TokenError>(
            TokenError::InsufficientBalance,
        ),
        step(s, Call::TransferFrom { caller, from, to, amount, now }) == s,
{
}

/// An accepted delegated transfer takes exactly `amount` off what the
/// spender may still spend of the owner's, and the rest is not negative.
pub proof fn law_allowance_decreases_by_amount(
    s: EngineState,
    spender: Seq<u8>,
    owner: Seq<u8>,
    to: Seq<u8>,
    amount: u64,
    now: u64,
)
    requires
        transfer_from_check(s, spender, owner, amount, now) is Ok,
    ensures
        live_amount(transferred_from(s, spender, owner, to, amount, now).allowances, owner, spender, now)
            == live_amount(s.allowances, owner, spender, now) - amount,
        live_amount(s.allowances, owner, spender, now) - amount >= 0,
{
}

/// A second approval for the same pair replaces the first: amount and
/// expiry are those of the second, as if the first had never been given.
pub proof fn law_approve_replaces(
    grants: Map<(Seq<u8>, Seq<u8>), Allowance>,
    owner: Seq<u8>,
    spender: Seq<u8>,
    first_amount: u64,
    first_duration: u64,
    first_now: u64,
    amount: u64,
    duration: u64,
    now: u64,
)
    ensures
        approved(
            approved(grants, owner, spender, first_amount, first_duration, first_now),
            owner,
            spender,
            amount,
            duration,
            now,
        ) == approved(grants, owner, spender, amount, duration, now),
        live_amount(approved(grants, owner, spender, amount, duration, now), owner, spender, now)
            == amount,
{
    assert(approved(
        approved(grants, owner, spender, first_amount, first_duration, first_now),
        owner,
        spender,
        amount,
        duration,
        now,
    ) =~= approved(grants, owner, spender, amount, duration, now));
}

/// Once halt flag and rate limiter have let a delegated transfer pass, an
/// allowance that has expired refuses it with `ExpiredAllowance`, however
/// small the amount.
pub proof fn law_expired_allowance_refused(
    s: EngineState,
    caller: Seq<u8>,
    from: Seq<u8>,
    amount: u64,
    now: u64,
)
    requires
        !s.paused,
        permits(s.rate_limits, caller, now),
        s.allowances.contains_key((from, caller)),
        now > s.allowances[(from, caller)].expires_at,
    ensures
        transfer_from_check(s, caller, from, amount, now) == Err::<(), TokenError>(
            TokenError::ExpiredAllowance,
        ),
{
}

/// While the engine is halted every transfer and every delegated
/// transfer is refused with `ContractPaused`; minting is answered as if
/// the engine were running, and approving still succeeds.
pub proof fn law_pause_gates_transfers_only(
    s: EngineState,
    caller: Seq<u8>,
    other: Seq<u8>,
    amount: u64,
    duration: u64,
    now: u64,
)
    requires
        s.paused,
    ensures
        transfer_check(s, caller, amount, now) == Err::<(), TokenError>(TokenError::ContractPaused),
        transfer_from_check(s, caller, other, amount, now) == Err::<(), TokenError>(
            TokenError::ContractPaused,
        ),
        mint_check(s, caller, amount) == mint_check(with_pause(s, false), caller, amount),
        outcome(s, Call::Approve { caller, spender: other, amount, duration, now }) is Ok,
        step(s, Call::Approve { caller, spender: other, amount, duration, now }) == approved_state(
            s,
            caller,
            other,
            amount,
            duration,
            now,
        ),
{
}

/// An identity whose count has reached the cap is refused for as long as
/// it asks less than a window after its last accepted transaction, and the
/// refusal does not move that time; once a full window has passed it is
/// let through, and its count starts again at 1.
pub proof fn law_blocked_until_idle_window(
    s: EngineState,
    caller: Seq<u8>,
    to: Seq<u8>,
    amount: u64,
    now: u64,
)
    requires
        !s.paused,
        s.rate_limits.contains_key(caller),
        s.rate_limits[caller].count >= MAX_PER_WINDOW,
    ensures
        within_window(s.rate_limits[caller].last_transaction_time, now) ==> transfer_check(
            s,
            caller,
            amount,
            now,
        ) == Err::<(), TokenError>(TokenError::RateLimitExceeded) && step(
            s,
            Call::Transfer { caller, to, amount, now },
        ) == s,
        !within_window(s.rate_limits[caller].last_transaction_time, now) ==> transfer_check(
            s,
            caller,
            amount,
            now,
        ) != Err::<(), TokenError>(TokenError::RateLimitExceeded) && next_count(
            s.rate_limits,
            caller,
            now,
        ) == 1,
{
}

/// The calls by which `caller` transfers `amounts[i]` to `recipients[i]`
/// at `times[i]`, one after the other.
pub open spec fn transfers(
    caller: Seq<u8>,
    recipients: Seq<Seq<u8>>,
    amounts: Seq<u64>,
    times: Seq<u64>,
) -> Seq<Call> {
    Seq::new(
        times.len(),
        |i: int| Call::Transfer { caller, to: recipients[i], amount: amounts[i], now: times[i] },
    )
}

/// Running one call more is one step more.
pub proof fn lemma_run_one_more(s: EngineState, calls: Seq<Call>, k: int)
    requires
        0 <= k < calls.len(),
    ensures
        run(s, calls.take(k + 1)) == step(run(s, calls.take(k)), calls[k]),
{
    let longer = calls.take(k + 1);
    assert(longer.drop_last() =~= calls.take(k));
    assert(longer.last() == calls[k]);
}

/// After `k` transfers of an identity that had no record, its count is at
/// most `k`; where all of them were accepted and each came less than a
/// window after the one before, the engine is not halted, the count is
/// exactly `k` and the record carries the time of the last.
proof fn lemma_count_after_transfers(
    s: EngineState,
    caller: Seq<u8>,
    recipients: Seq<Seq<u8>>,
    amounts: Seq<u64>,
    times: Seq<u64>,
    k: int,
)
    requires
        !s.rate_limits.contains_key(caller),
        recipients.len() == times.len(),
        amounts.len() == times.len(),
        0 <= k <= times.len(),
        k <= MAX_PER_WINDOW,
    ensures
        ({
            let calls = transfers(caller, recipients, amounts, times);
            let reached = run(s, calls.take(k));
            &&& reached.paused == s.paused
            &&& reached.rate_limits.contains_key(caller) ==> reached.rate_limits[caller].count <= k
            &&& (forall|i: int| 0 <= i < k ==> outcome(run(s, calls.take(i)), #[trigger] calls[i]) is Ok)
                && (forall|i: int| 0 <= i < k - 1 ==> within_window(#[trigger] times[i], times[i + 1]))
                && k > 0 ==> reached.rate_limits.contains_key(caller)
                && reached.rate_limits[caller].count == k
                && reached.rate_limits[caller].last_transaction_time == times[k - 1]
        }),
    decreases k,
{
    let calls = transfers(caller, recipients, amounts, times);
    if k == 0 {
        assert(calls.take(0) =~= Seq::<Call>::empty());
    } else {
        lemma_count_after_transfers(s, caller, recipients, amounts, times, k - 1);
        lemma_run_one_more(s, calls, k - 1);
        let before = run(s, calls.take(k - 1));
        let reached = run(s, calls.take(k));
        assert(reached == step(before, calls[k - 1]));
        if (forall|i: int| 0 <= i < k ==> outcome(run(s, calls.take(i)), #[trigger] calls[i]) is Ok)
            && (forall|i: int| 0 <= i < k - 1 ==> within_window(#[trigger] times[i], times[i + 1])) {
            assert(outcome(before, calls[k - 1]) is Ok);
            if k > 1 {
                assert(within_window(times[k - 2], times[k - 2 + 1]));
            }
        }
    }
}

/// Among the first hundred transfers of an identity that had no record,
/// the rate limiter refuses none, whenever they are made.
pub proof fn law_rate_limit_spares_first_hundred(
    s: EngineState,
    caller: Seq<u8>,
    recipients: Seq<Seq<u8>>,
    amounts: Seq<u64>,
    times: Seq<u64>,
    k: int,
)
    requires
        !s.rate_limits.contains_key(caller),
        recipients.len() == times.len(),
        amounts.len() == times.len(),
        times.len() <= MAX_PER_WINDOW,
        0 <= k < times.len(),
    ensures
        outcome(
            run(s, transfers(caller, recipients, amounts, times).take(k)),
            transfers(caller, recipients, amounts, times)[k],
        ) != Err::<(), TokenError>(TokenError::RateLimitExceeded),
{
    lemma_count_after_transfers(s, caller, recipients, amounts, times, k);
}

/// After exactly a hundred accepted transfers of an identity that had no
/// record, each less than a window after the one before, any further
/// transfer of that identity less than a window after the last is refused
/// with `RateLimitExceeded`.
pub proof fn law_rate_limit_refuses_hundred_and_first(
    s: EngineState,
    caller: Seq<u8>,
    recipients: Seq<Seq<u8>>,
    amounts: Seq<u64>,
    times: Seq<u64>,
    amount: u64,
    now: u64,
)
    requires
        !s.rate_limits.contains_key(caller),
        recipients.len() == times.len(),
        amounts.len() == times.len(),
        times.len() == MAX_PER_WINDOW,
        forall|i: int|
            0 <= i < times.len() ==> outcome(
                run(s, transfers(caller, recipients, amounts, times).take(i)),
                #[trigger] transfers(caller, recipients, amounts, times)[i],
            ) is Ok,
        forall|i: int| 0 <= i < times.len() - 1 ==> within_window(#[trigger] times[i], times[i + 1]),
        within_window(times.last(), now),
    ensures
        transfer_check(
            run(s, transfers(caller, recipients, amounts, times)),
            caller,
            amount,
            now,
        ) == Err::<(), TokenError>(TokenError::RateLimitExceeded),
{
    let calls = transfers(caller, recipients, amounts, times);
    lemma_count_after_transfers(s, caller, recipients, amounts, times, times.len() as int);
    assert(calls.take(times.len() as int) =~= calls);
    assert(calls.take(0) =~= Seq::<Call>::empty());
    assert(outcome(run(s, calls.take(0)), calls[0]) is Ok);
}

} // verus!
