//! Identities of the parties, and the authorisation a caller presents.

use vstd::prelude::*;

verus! {

/// What an identity names: a user's account or a deployed contract.
#[derive(Clone, Copy, Debug, PartialEq, Eq, Structural)]
pub enum IdentityKind {
    Account,
    Contract,
}

/// An opaque party: a client, a coach, the custodian or the payment asset.
///
/// Two identities are the same party exactly when kind and key agree.
#[derive(Clone, Copy, Debug, Eq)]
pub struct Identity {
    pub kind: IdentityKind,
    pub key: [u8; 32],
}

impl PartialEq for Identity {
    fn eq(&self, other: &Identity) -> (same: bool) {
        if self.kind != other.kind {
            return false;
        }
        let mut i: usize = 0;
        while i < 32
            invariant
                i <= 32,
                forall|j: int| 0 <= j < i ==> self.key[j] == other.key[j],
            decreases 32 - i,
        {
            if self.key[i] != other.key[i] {
                return false;
            }
            i += 1;
        }
        assert(self.key =~= other.key);
        true
    }
}

impl vstd::std_specs::cmp::PartialEqSpecImpl for Identity {
    open spec fn obeys_eq_spec() -> bool {
        true
    }

    open spec fn eq_spec(&self, other: &Identity) -> bool {
        *self == *other
    }
}

impl Identity {
    /// The account with the given key.
    pub fn account(key: [u8; 32]) -> (id: Identity)
        ensures
            id == (Identity { kind: IdentityKind::Account, key }),
    {
        Identity { kind: IdentityKind::Account, key }
    }

    /// The contract with the given key.
    pub fn contract(key: [u8; 32]) -> (id: Identity)
        ensures
            id == (Identity { kind: IdentityKind::Contract, key }),
    {
        Identity { kind: IdentityKind::Contract, key }
    }

    /// Whether this identity names a contract.
    pub fn is_contract(&self) -> (yes: bool)
        ensures
            yes == (self.kind == IdentityKind::Contract),
    {
        self.kind == IdentityKind::Contract
    }
}

/// The authorisation that the caller of an operation presents: the identity
/// that it has proved to control, if any.
#[derive(Clone, Copy, Debug)]
pub struct AuthContext {
    pub caller: Option<Identity>,
}

impl AuthContext {
    /// The authorisation of a caller that controls `caller`.
    pub fn new(caller: Identity) -> (auth: AuthContext)
        ensures
            auth.caller == Some(caller),
    {
        AuthContext { caller: Some(caller) }
    }

    /// The authorisation of a caller that has proved nothing.
    pub fn anonymous() -> (auth: AuthContext)
        ensures
            auth.caller is None,
    {
        AuthContext { caller: None }
    }

    /// Whether the caller is authorised to act as `who`.
    pub open spec fn authorizes(&self, who: Identity) -> bool {
        self.caller == Some(who)
    }

    /// Whether the caller is authorised to act as `who`.
    pub fn is_authorized_as(&self, who: &Identity) -> (ok: bool)
        ensures
            ok == self.authorizes(*who),
    {
        match self.caller {
            Some(caller) => caller == *who,
            None => false,
        }
    }
}

} // verus!
