use vstd::prelude::*;

use crate::address::{
    derive_registry_address, registry_address, registry_signer_seeds,
    registry_signer_seeds_spec,
};
use crate::error::SetupError;
use crate::frame::{
    build_initialize_frame, initialize_frame, CallFrame, FrameView, InitializeExtraAccountMetaList,
    INITIALIZE_EXTRA_ACCOUNT_META_LIST,
};
use crate::registry::{
    descriptor_entries, meta_list_image, registry_size, serialize_into, size_of, AccountDescriptor,
};
use crate::storage::{allocation_outcome, holds, index_of, ledger_wf, zeroed, Ledger, LedgerView};

verus! {

pub open spec fn frame_result(r: Result<CallFrame, SetupError>) -> Result<FrameView, SetupError> {
    match r {
        Ok(f) => Ok(f@),
        Err(e) => Err(e),
    }
}

/// What a setup request does: derive the registry address of the token under
/// the validator, require it to be the claimed registry account, size the
/// registry for `descriptors`, allocate it owned by the validator and funded
/// with `rent` by the payer, write the registry into it, and hand back the
/// initialize call for the validator. Any failure leaves the ledger as it was.
pub open spec fn setup_outcome(
    v: LedgerView,
    accounts: InitializeExtraAccountMetaList,
    descriptors: Seq<AccountDescriptor>,
    rent: u64,
) -> (Result<FrameView, SetupError>, LedgerView) {
    let token = accounts.mint.bytes@;
    let validator = accounts.transfer_hook_program.bytes@;
    match registry_address(token, validator) {
        None => (Err(SetupError::DerivationExhaustion), v),
        Some((a, n)) => if a != accounts.extra_account_meta_list.bytes@ {
            (Err(SetupError::AddressMismatch), v)
        } else {
            match registry_size(descriptors.len()) {
                None => (Err(SetupError::SizeOverflow), v),
                Some(size) => if size > u32::MAX {
                    (Err(SetupError::SizeOverflow), v)
                } else {
                    let (allocated, after) = allocation_outcome(
                        v,
                        accounts.payer.bytes@,
                        a,
                        registry_signer_seeds_spec(token, n),
                        validator,
                        size,
                        rent,
                        validator,
                    );
                    match allocated {
                        Err(e) => (Err(e), v),
                        Ok(_) => (
                            Ok(initialize_frame(accounts, INITIALIZE_EXTRA_ACCOUNT_META_LIST@)),
                            LedgerView {
                                data: after.data.update(
                                    index_of(after.addresses, a),
                                    meta_list_image(descriptor_entries(descriptors)),
                                ),
                                ..after
                            },
                        ),
                    }
                },
            }
        },
    }
}

/// Sets up the registry of the token in `accounts` in `ledger` and returns the
/// call that asks the hook validator to initialize it. `rent` is the
/// rent-exempt minimum for the registry's size.
pub fn initialize_hook_for_mint(
    ledger: &mut Ledger,
    accounts: &InitializeExtraAccountMetaList,
    descriptors: &Vec<AccountDescriptor>,
    rent: u64,
) -> (r: Result<CallFrame, SetupError>)
    requires
        old(ledger).well_formed(),
    ensures
        final(ledger).well_formed(),
        (frame_result(r), final(ledger)@) == setup_outcome(old(ledger)@, *accounts, descriptors@, rent),
{
    let derived = derive_registry_address(&accounts.mint, &accounts.transfer_hook_program);
    let derived = match derived {
        Ok(d) => d,
        Err(e) => {
            return Err(e);
        },
    };
    if !(derived.address == accounts.extra_account_meta_list) {
        return Err(SetupError::AddressMismatch);
    }
    let size = match size_of(descriptors.len()) {
        Ok(s) => s,
        Err(e) => {
            return Err(e);
        },
    };
    if size > 4294967295usize {
        return Err(SetupError::SizeOverflow);
    }
    let mut image = zeroed(size);
    let written = serialize_into(&mut image, descriptors);
    assert(written is Ok);
    let seeds = registry_signer_seeds(&accounts.mint, derived.nonce);
    let validator = accounts.transfer_hook_program;
    match ledger.allocate(&accounts.payer, &derived.address, &seeds, &validator, size, rent, &validator) {
        Ok(_) => {},
        Err(e) => {
            return Err(e);
        },
    }
    let ghost after = ledger@;
    proof {
        assert(after.addresses[after.addresses.len() - 1] == derived.address.bytes@);
    }
    ledger.overwrite(&derived.address, image);
    Ok(build_initialize_frame(accounts, INITIALIZE_EXTRA_ACCOUNT_META_LIST))
}

/// The result of a setup once the validator has answered the initialize call:
/// success, or the validator's error code passed on untouched.
pub fn complete_initialization(answer: Result<(), u64>) -> (r: Result<(), SetupError>)
    ensures
        match answer {
            Ok(_) => r is Ok,
            Err(code) => r == Err::<(), SetupError>(SetupError::RemoteCallFailure(code)),
        },
{
    match answer {
        Ok(_) => Ok(()),
        Err(code) => Err(SetupError::RemoteCallFailure(code)),
    }
}

/// Once the setup of a token's registry has succeeded, setting it up again with
/// the same accounts and descriptors fails with `AllocationConflict` and
/// leaves the ledger, the registry's bytes included, as the first setup left it.
pub proof fn lemma_setup_at_most_once(
    v: LedgerView,
    accounts: InitializeExtraAccountMetaList,
    descriptors: Seq<AccountDescriptor>,
    rent: u64,
    second_rent: u64,
)
    requires
        ledger_wf(v),
        setup_outcome(v, accounts, descriptors, rent).0 is Ok,
    ensures
        ({
            let after = setup_outcome(v, accounts, descriptors, rent).1;
            setup_outcome(after, accounts, descriptors, second_rent)
                == (Err::<FrameView, SetupError>(SetupError::AllocationConflict), after)
        }),
{
    let (a, n) = registry_address(accounts.mint.bytes@, accounts.transfer_hook_program.bytes@)->Some_0;
    let after = setup_outcome(v, accounts, descriptors, rent).1;
    assert(after.addresses[v.addresses.len() as int] == a);
}

} // verus!
