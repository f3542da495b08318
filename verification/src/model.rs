use vstd::prelude::*;
use crate::access::owner_check;
use crate::allowance::{approved, consumed, spend_check, Allowance};
use crate::error::TokenError;
use crate::ledger::{balance_in, credited, moved};
use crate::rate_limit::{permits, recorded, RateLimitRecord};

verus! {

/// What the first owner holds after the engine has been set up.
pub const INITIAL_SUPPLY: u64 = 1_000_000;

/// The most that one call may mint.
pub const MAX_MINT_AMOUNT: u64 = 1_000_000_000;

/// The whole state of the engine, as mathematics.
pub struct EngineState {
    pub owner: Seq<u8>,
    pub minters: Set<Seq<u8>>,
    pub paused: bool,
    pub balances: Map<Seq<u8>, u64>,
    pub total_supply: nat,
    pub allowances: Map<(Seq<u8>, Seq<u8>), Allowance>,
    pub rate_limits: Map<Seq<u8>, RateLimitRecord>,
}

/// The state right after `founder` has set the engine up: `founder` owns
/// it, is its only minter and holds the whole initial supply.
pub open spec fn initial_state(founder: Seq<u8>) -> EngineState {
    EngineState {
        owner: founder,
        minters: Set::<Seq<u8>>::empty().insert(founder),
        paused: false,
        balances: Map::<Seq<u8>, u64>::empty().insert(founder, INITIAL_SUPPLY),
        total_supply: INITIAL_SUPPLY as nat,
        allowances: Map::empty(),
        rate_limits: Map::empty(),
    }
}

/// The answer to `caller`, who wants to mint `amount`. The halt flag plays
/// no part in it.
pub open spec fn mint_check(s: EngineState, caller: Seq<u8>, amount: u64) -> Result<(), TokenError> {
    if amount > MAX_MINT_AMOUNT {
        Err(TokenError::InvalidAmount)
    } else if !s.minters.contains(caller) {
        Err(TokenError::Unauthorized)
    } else if s.total_supply + amount > u64::MAX {
        Err(TokenError::InvalidAmount)
    } else {
        Ok(())
    }
}

/// The state after `amount` has been minted to `to`.
pub open spec fn minted(s: EngineState, to: Seq<u8>, amount: u64) -> EngineState {
    EngineState {
        balances: credited(s.balances, to, amount),
        total_supply: (s.total_supply + amount) as nat,
        ..s
    }
}

/// The answer to `caller`, who wants to transfer `amount` of their own at
/// `now`: the halt flag first, then the rate limit, then the balance.
pub open spec fn transfer_check(s: EngineState, caller: Seq<u8>, amount: u64, now: u64) -> Result<
    (),
    TokenError,
> {
    if s.paused {
        Err(TokenError::ContractPaused)
    } else if !permits(s.rate_limits, caller, now) {
        Err(TokenError::RateLimitExceeded)
    } else if balance_in(s.balances, caller) < amount {
        Err(TokenError::InsufficientBalance)
    } else {
        Ok(())
    }
}

/// The state after `caller` has transferred `amount` to `to` at `now`.
pub open spec fn transferred(s: EngineState, caller: Seq<u8>, to: Seq<u8>, amount: u64, now: u64) -> EngineState {
    EngineState {
        balances: moved(s.balances, caller, to, amount),
        rate_limits: recorded(s.rate_limits, caller, now),
        ..s
    }
}

/// The answer to `caller`, who wants to transfer `amount` of `from`'s at
/// `now`: the halt flag first, then the rate limit of `caller`, then the
/// allowance that `from` granted `caller`, then the balance of `from`.
pub open spec fn transfer_from_check(
    s: EngineState,
    caller: Seq<u8>,
    from: Seq<u8>,
    amount: u64,
    now: u64,
) -> Result<(), TokenError> {
    if s.paused {
        Err(TokenError::ContractPaused)
    } else if !permits(s.rate_limits, caller, now) {
        Err(TokenError::RateLimitExceeded)
    } else if spend_check(s.allowances, from, caller, amount, now) is Err {
        spend_check(s.allowances, from, caller, amount, now)
    } else if balance_in(s.balances, from) < amount {
        Err(TokenError::InsufficientBalance)
    } else {
        Ok(())
    }
}

/// The state after `caller` has transferred `amount` from `from` to `to`
/// at `now`.
pub open spec fn transferred_from(
    s: EngineState,
    caller: Seq<u8>,
    from: Seq<u8>,
    to: Seq<u8>,
    amount: u64,
    now: u64,
) -> EngineState {
    EngineState {
        balances: moved(s.balances, from, to, amount),
        allowances: consumed(s.allowances, from, caller, amount),
        rate_limits: recorded(s.rate_limits, caller, now),
        ..s
    }
}

/// The state after `caller` has approved `spender` at `now`.
pub open spec fn approved_state(
    s: EngineState,
    caller: Seq<u8>,
    spender: Seq<u8>,
    amount: u64,
    duration: u64,
    now: u64,
) -> EngineState {
    EngineState {
        allowances: approved(s.allowances, caller, spender, amount, duration, now),
        ..s
    }
}

/// The state after `minter` has been added to the minters.
pub open spec fn with_minter(s: EngineState, minter: Seq<u8>) -> EngineState {
    EngineState { minters: s.minters.insert(minter), ..s }
}

/// The state with the halt flag set to `paused`.
pub open spec fn with_pause(s: EngineState, paused: bool) -> EngineState {
    EngineState { paused, ..s }
}

/// One call of a state-changing operation, with the caller and the time
/// that the host supplied.
pub enum Call {
    AddMinter { caller: Seq<u8>, minter: Seq<u8> },
    Mint { caller: Seq<u8>, to: Seq<u8>, amount: u64 },
    Transfer { caller: Seq<u8>, to: Seq<u8>, amount: u64, now: u64 },
    Approve { caller: Seq<u8>, spender: Seq<u8>, amount: u64, duration: u64, now: u64 },
    TransferFrom { caller: Seq<u8>, from: Seq<u8>, to: Seq<u8>, amount: u64, now: u64 },
    Pause { caller: Seq<u8> },
    Unpause { caller: Seq<u8> },
}

/// The answer of the engine to `call` in the state `s`.
pub open spec fn outcome(s: EngineState, call: Call) -> Result<(), TokenError> {
    match call {
        Call::AddMinter { caller, .. } => owner_check(s.owner, caller),
        Call::Mint { caller, amount, .. } => mint_check(s, caller, amount),
        Call::Transfer { caller, amount, now, .. } => transfer_check(s, caller, amount, now),
        Call::Approve { .. } => Ok(()),
        Call::TransferFrom { caller, from, amount, now, .. } => transfer_from_check(
            s,
            caller,
            from,
            amount,
            now,
        ),
        Call::Pause { caller } => owner_check(s.owner, caller),
        Call::Unpause { caller } => owner_check(s.owner, caller),
    }
}

/// The state that `call` leaves behind where the engine accepts it.
pub open spec fn effect(s: EngineState, call: Call) -> EngineState {
    match call {
        Call::AddMinter { minter, .. } => with_minter(s, minter),
        Call::Mint { to, amount, .. } => minted(s, to, amount),
        Call::Transfer { caller, to, amount, now } => transferred(s, caller, to, amount, now),
        Call::Approve { caller, spender, amount, duration, now } => approved_state(
            s,
            caller,
            spender,
            amount,
            duration,
            now,
        ),
        Call::TransferFrom { caller, from, to, amount, now } => transferred_from(
            s,
            caller,
            from,
            to,
            amount,
            now,
        ),
        Call::Pause { .. } => with_pause(s, true),
        Call::Unpause { .. } => with_pause(s, false),
    }
}

/// The state after `call`: its effect where the engine accepts it, and
/// the state as it was where the engine refuses.
pub open spec fn step(s: EngineState, call: Call) -> EngineState {
    if outcome(s, call) is Ok {
        effect(s, call)
    } else {
        s
    }
}

/// The state after a sequence of calls, the first call first.
pub open spec fn run(s: EngineState, calls: Seq<Call>) -> EngineState
    decreases calls.len(),
{
    if calls.len() == 0 {
        s
    } else {
        step(run(s, calls.drop_last()), calls.last())
    }
}

} // verus!
