use vstd::prelude::*;
use crate::error::TokenError;
use crate::identity::Identity;
use crate::keyed_map::KeyedMap;

verus! {

/// The answer to a caller who asks for something that only `owner` may do.
pub open spec fn owner_check(owner: Seq<u8>, caller: Seq<u8>) -> Result<(), TokenError> {
    if caller == owner {
        Ok(())
    } else {
        Err(TokenError::Unauthorized)
    }
}

/// Who owns the ledger and who may mint. The owner is set once and never
/// changes; minters are only ever added.
pub struct AccessController {
    owner: Identity,
    minters: KeyedMap<Identity, ()>,
}

impl AccessController {
    /// The owner.
    pub closed spec fn owner(&self) -> Seq<u8> {
        self.owner@
    }

    /// The identities that may mint.
    pub closed spec fn minters(&self) -> Set<Seq<u8>> {
        self.minters@.dom()
    }

    pub closed spec fn wf(&self) -> bool {
        self.minters.wf()
    }

    /// A controller owned by `owner`, who is also its only minter.
    pub fn new(owner: &Identity) -> (access: AccessController)
        ensures
            access.wf(),
            access.owner() == owner@,
            access.minters() == Set::<Seq<u8>>::empty().insert(owner@),
    {
        let mut minters: KeyedMap<Identity, ()> = KeyedMap::new();
        minters.insert(owner, ());
        assert(minters@.dom() =~= Set::<Seq<u8>>::empty().insert(owner@));
        AccessController { owner: owner.clone(), minters }
    }

    /// Passes for the owner and for nobody else.
    pub fn require_owner(&self, caller: &Identity) -> (r: Result<(), TokenError>)
        ensures
            r == owner_check(self.owner(), caller@),
    {
        if caller.same(&self.owner) {
            Ok(())
        } else {
            Err(TokenError::Unauthorized)
        }
    }

    /// Lets `identity` mint, if the owner asks for it. Adding a minter a
    /// second time changes nothing.
    pub fn add_minter(&mut self, caller: &Identity, identity: &Identity) -> (r: Result<
        (),
        TokenError,
    >)
        requires
            old(self).wf(),
        ensures
            final(self).wf(),
            r == owner_check(old(self).owner(), caller@),
            final(self).owner() == old(self).owner(),
            r is Ok ==> final(self).minters() == old(self).minters().insert(identity@),
            r is Err ==> *final(self) == *old(self),
    {
        if !caller.same(&self.owner) {
            return Err(TokenError::Unauthorized);
        }
        self.minters.insert(identity, ());
        assert(self.minters@.dom() =~= old(self).minters@.dom().insert(identity@));
        Ok(())
    }

    /// Whether `identity` may mint.
    pub fn is_minter(&self, identity: &Identity) -> (r: bool)
        requires
            self.wf(),
        ensures
            r == self.minters().contains(identity@),
    {
        self.minters.get(identity).is_some()
    }
}

/// The emergency halt flag. Only the owner can set or clear it.
pub struct PauseSwitch {
    paused: bool,
}

impl PauseSwitch {
    /// Whether the ledger is halted.
    pub closed spec fn paused(&self) -> bool {
        self.paused
    }

    /// A switch that is not set.
    pub fn new() -> (switch: PauseSwitch)
        ensures
            !switch.paused(),
    {
        PauseSwitch { paused: false }
    }

    /// Whether the ledger is halted.
    pub fn is_paused(&self) -> (r: bool)
        ensures
            r == self.paused(),
    {
        self.paused
    }

    /// Halts the ledger, if the owner asks for it. Halting a halted ledger
    /// succeeds and changes nothing.
    pub fn pause(&mut self, access: &AccessController, caller: &Identity) -> (r: Result<
        (),
        TokenError,
    >)
        ensures
            r == owner_check(access.owner(), caller@),
            final(self).paused() == (r is Ok || old(self).paused()),
            r is Err ==> *final(self) == *old(self),
    {
        match access.require_owner(caller) {
            Ok(()) => {
                self.paused = true;
                Ok(())
            },
            Err(e) => Err(e),
        }
    }

    /// Lets the ledger run again, if the owner asks for it.
    pub fn unpause(&mut self, access: &AccessController, caller: &Identity) -> (r: Result<
        (),
        TokenError,
    >)
        ensures
            r == owner_check(access.owner(), caller@),
            final(self).paused() == (r is Err && old(self).paused()),
            r is Err ==> *final(self) == *old(self),
    {
        match access.require_owner(caller) {
            Ok(()) => {
                self.paused = false;
                Ok(())
            },
            Err(e) => Err(e),
        }
    }
}

} // verus!
