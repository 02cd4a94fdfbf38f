//! Moving the payment asset on the token ledger.

use vstd::prelude::*;
use soroban_sdk::address_payload::AddressPayload::AccountIdPublicKeyEd25519;
use soroban_sdk::address_payload::AddressPayload::ContractIdHash;
use soroban_sdk::token::TokenClient;
use soroban_sdk::BytesN;
use soroban_sdk::Env;
use soroban_sdk::InvokeError;
use crate::error::Error;
use crate::identity::Identity;
use crate::identity::IdentityKind;

verus! {

/// The host environment of `soroban_sdk`, through which the token ledger is
/// reached. Nothing is known of what it holds.
#[verifier::external_type_specification]
#[verifier::external_body]
pub struct ExEnv(Env);

/// The error code with which the Stellar Asset Contract rejects a transfer
/// that the payer's balance does not cover.
pub const BALANCE_TOO_LOW: u32 = 10;

/// A request to move `amount` of `asset` from one party to another.
#[derive(Clone, Copy, Debug, PartialEq, Eq)]
pub struct Transfer {
    pub asset: Identity,
    pub from: Identity,
    pub to: Identity,
    pub amount: i128,
}

/// Why the ledger did not carry out a transfer.
#[derive(Clone, Copy, Debug, PartialEq, Eq, Structural)]
pub enum TransferFault {
    /// The token contract refused, with this error code of its own.
    Rejected(u32),
    /// The call failed in any other way.
    Aborted,
}

impl TransferFault {
    /// The error that an operation reports for this fault.
    pub open spec fn as_error(self) -> Error {
        match self {
            TransferFault::Rejected(code) => if code == BALANCE_TOO_LOW {
                Error::InsufficientFunds
            } else {
                Error::TransferFailed
            },
            TransferFault::Aborted => Error::TransferFailed,
        }
    }

    /// The error that an operation reports for this fault.
    pub fn to_error(&self) -> (error: Error)
        ensures
            error == self.as_error(),
    {
        match self {
            TransferFault::Rejected(code) => if *code == BALANCE_TOO_LOW {
                Error::InsufficientFunds
            } else {
                Error::TransferFailed
            },
            TransferFault::Aborted => Error::TransferFailed,
        }
    }
}

/// Calls `try_transfer` of `soroban_sdk::token::TokenClient` on the token
/// contract that `request.asset` names, with the addresses that
/// `AddressPayload::to_address` makes of the three identities.
///
/// Nothing is claimed of the outcome: it depends on the ledger. `Ok` stands
/// for a call that returned without a value, as a transfer that was carried
/// out does; `Rejected` for an error code that the token contract returned;
/// `Aborted` for every other answer. The asset has to name a contract, since
/// the host traps on a call to an account. It also traps, whatever the
/// arguments, once its budget is spent.
#[verifier::external_body]
fn ledger_transfer(env: &mut Env, request: &Transfer) -> (outcome: Result<(), TransferFault>)
    requires
        request.asset.kind == IdentityKind::Contract,
{
    let key = |id: &Identity| BytesN::from_array(env, &id.key);
    let address = |id: &Identity| match id.kind {
        IdentityKind::Account => AccountIdPublicKeyEd25519(key(id)).to_address(env),
        IdentityKind::Contract => ContractIdHash(key(id)).to_address(env),
    };
    let token = TokenClient::new(env, &address(&request.asset));
    match token.try_transfer(&address(&request.from), address(&request.to), &request.amount) {
        Ok(Ok(())) => Ok(()),
        Err(Ok(error)) => match InvokeError::from(error) {
            InvokeError::Contract(code) => Err(TransferFault::Rejected(code)),
            InvokeError::Abort => Err(TransferFault::Aborted),
        },
        _ => Err(TransferFault::Aborted),
    }
}

/// Asks the ledger to carry out `request` and reports what came of it.
///
/// An asset that is no contract cannot move anything: the request is then
/// aborted without a call, and the ledger is left as it was.
pub fn submit(env: &mut Env, request: &Transfer) -> (outcome: Result<(), TransferFault>)
    ensures
        request.asset.kind != IdentityKind::Contract ==> outcome == Err::<(), TransferFault>(
            TransferFault::Aborted,
        ) && *final(env) == *old(env),
{
    if request.asset.is_contract() {
        ledger_transfer(env, request)
    } else {
        Err(TransferFault::Aborted)
    }
}

} // verus!
