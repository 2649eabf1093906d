use vstd::prelude::*;

use crate::address::Address;

verus! {

/// The validator's tag for "initialize extra account meta list", as its
/// published interface gives it.
pub const INITIALIZE_EXTRA_ACCOUNT_META_LIST: [u8; 8] = [92, 197, 174, 197, 41, 124, 19, 3];

/// The accounts of a registry setup request.
#[derive(Clone, Copy, Debug)]
pub struct InitializeExtraAccountMetaList {
    pub payer: Address,
    pub extra_account_meta_list: Address,
    pub mint: Address,
    pub token_program: Address,
    pub associated_token_program: Address,
    pub system_program: Address,
    pub transfer_hook_program: Address,
}

/// One account reference of a remote call.
#[derive(Clone, Copy, Debug)]
pub struct AccountRef {
    pub address: Address,
    pub is_signer: bool,
    pub is_writable: bool,
}

/// A remote call: the program called, its ordered accounts and its payload.
#[derive(Clone, Debug)]
pub struct CallFrame {
    pub program_id: Address,
    pub accounts: Vec<AccountRef>,
    pub data: Vec<u8>,
}

/// An account reference as address bytes, signer flag and writable flag.
pub type RefView = (Seq<u8>, bool, bool);

pub struct FrameView {
    pub program_id: Seq<u8>,
    pub accounts: Seq<RefView>,
    pub data: Seq<u8>,
}

pub open spec fn ref_view(r: AccountRef) -> RefView {
    (r.address.bytes@, r.is_signer, r.is_writable)
}

impl CallFrame {
    pub open spec fn view(&self) -> FrameView {
        FrameView {
            program_id: self.program_id.bytes@,
            accounts: self.accounts@.map_values(|r: AccountRef| ref_view(r)),
            data: self.data@,
        }
    }
}

/// The call that asks the validator to initialize its registry: the funding
/// authority (writable, signer), the registry (writable), then the token, the
/// token program, the associated token program and the system program, all
/// read-only, with the operation tag as the whole payload.
pub open spec fn initialize_frame(accounts: InitializeExtraAccountMetaList, discriminator: Seq<u8>) -> FrameView {
    FrameView {
        program_id: accounts.transfer_hook_program.bytes@,
        accounts: seq![
            (accounts.payer.bytes@, true, true),
            (accounts.extra_account_meta_list.bytes@, false, true),
            (accounts.mint.bytes@, false, false),
            (accounts.token_program.bytes@, false, false),
            (accounts.associated_token_program.bytes@, false, false),
            (accounts.system_program.bytes@, false, false),
        ],
        data: discriminator,
    }
}

/// A writable account reference.
pub fn writable(address: Address, is_signer: bool) -> (r: AccountRef)
    ensures
        ref_view(r) == (address.bytes@, is_signer, true),
{
    AccountRef { address, is_signer, is_writable: true }
}

/// A read-only account reference.
pub fn readonly(address: Address, is_signer: bool) -> (r: AccountRef)
    ensures
        ref_view(r) == (address.bytes@, is_signer, false),
{
    AccountRef { address, is_signer, is_writable: false }
}

/// Builds the initialize call to the hook validator named in `accounts`,
/// tagged with `discriminator`.
pub fn build_initialize_frame(accounts: &InitializeExtraAccountMetaList, discriminator: [u8; 8]) -> (r: CallFrame)
    ensures
        r@ == initialize_frame(*accounts, discriminator@),
{
    let mut refs: Vec<AccountRef> = Vec::new();
    refs.push(writable(accounts.payer, true));
    refs.push(writable(accounts.extra_account_meta_list, false));
    refs.push(readonly(accounts.mint, false));
    refs.push(readonly(accounts.token_program, false));
    refs.push(readonly(accounts.associated_token_program, false));
    refs.push(readonly(accounts.system_program, false));
    let data: Vec<u8> = vstd::slice::slice_to_vec(discriminator.as_slice());
    let r = CallFrame { program_id: accounts.transfer_hook_program, accounts: refs, data };
    assert(r@.accounts =~= initialize_frame(*accounts, discriminator@).accounts);
    r
}

/// Two frames built for the same validator, accounts and tag agree on the
/// program called, every account reference and every payload byte.
pub proof fn lemma_frame_deterministic(
    accounts: InitializeExtraAccountMetaList,
    discriminator: [u8; 8],
    first: CallFrame,
    second: CallFrame,
)
    requires
        first@ == initialize_frame(accounts, discriminator@),
        second@ == initialize_frame(accounts, discriminator@),
    ensures
        first@ == second@,
        first.program_id == second.program_id,
        first.data@ == second.data@,
{
    assert(first.program_id.bytes =~= second.program_id.bytes);
}

} // verus!
