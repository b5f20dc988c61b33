//! The contract host's error values, as the fee contracts hand them back to it.
use vstd::prelude::*;

verus! {

#[verifier::external_type_specification]
#[verifier::external_body]
pub struct ExHostError(soroban_sdk::Error);

/// The host error value that `soroban_sdk::Error::from_contract_error` builds
/// for a contract error code. That function packs the code into the value
/// together with the tag "contract error", so the value depends on the code
/// alone.
pub uninterp spec fn contract_error_value(code: u32) -> soroban_sdk::Error;

/// Calls `soroban_sdk::Error::from_contract_error`: the result is the host
/// error of type "contract" that carries `code`. Nothing more is stated of
/// its bits than that it is the value named by `contract_error_value(code)`.
#[verifier::external_body]
pub(crate) fn contract_error(code: u32) -> (e: soroban_sdk::Error)
    ensures
        e == contract_error_value(code),
{
    soroban_sdk::Error::from_contract_error(code)
}

} // verus!
