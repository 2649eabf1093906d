use anchor_lang::prelude::Pubkey;
use hook_registry::address::{derive_registry_address, registry_signer_seeds, seeds_reproduce};
use hook_registry::frame::build_initialize_frame;
use hook_registry::registry::{serialize_into, size_of};
use hook_registry::storage::Ledger;
use hook_registry::{
    complete_initialization, initialize_hook_for_mint, AccountDescriptor, Address, InitializeExtraAccountMetaList,
    ReferenceKind, SetupError, INITIALIZE_EXTRA_ACCOUNT_META_LIST,
};

fn addr(b: u8) -> Address {
    Address { bytes: [b; 32] }
}

fn registry_for(token: &Address, validator: &Address) -> Address {
    derive_registry_address(token, validator).unwrap().address
}

fn request(token: u8) -> InitializeExtraAccountMetaList {
    let mint = addr(token);
    let hook = addr(9);
    InitializeExtraAccountMetaList {
        payer: addr(1),
        extra_account_meta_list: registry_for(&mint, &hook),
        mint,
        token_program: addr(3),
        associated_token_program: addr(4),
        system_program: addr(5),
        transfer_hook_program: hook,
    }
}

fn funded_ledger(lamports: u64) -> Ledger {
    let mut ledger = Ledger::new();
    ledger.open_account(&addr(1), lamports, &addr(5)).unwrap();
    ledger
}

#[test]
fn derivation_matches_the_runtime_search() {
    let token = addr(7);
    let validator = addr(9);
    let d = derive_registry_address(&token, &validator).unwrap();
    let (k, n) = Pubkey::find_program_address(
        &[b"extra-account-metas", &token.bytes],
        &Pubkey::new_from_array(validator.bytes),
    );
    assert_eq!(d.address.bytes, k.to_bytes());
    assert_eq!(d.nonce, n);
    assert_ne!(d.address.bytes, token.bytes);
}

#[test]
fn derivation_is_deterministic() {
    let token = addr(7);
    let validator = addr(9);
    let a = derive_registry_address(&token, &validator).unwrap();
    let b = derive_registry_address(&token, &validator).unwrap();
    assert_eq!(a.address, b.address);
    assert_eq!(a.nonce, b.nonce);
    let other = derive_registry_address(&addr(8), &validator).unwrap();
    assert_ne!(a.address, other.address);
}

#[test]
fn signer_seeds_reproduce_the_registry_address() {
    let token = addr(7);
    let validator = addr(9);
    let d = derive_registry_address(&token, &validator).unwrap();
    let seeds = registry_signer_seeds(&token, d.nonce);
    assert_eq!(seeds.len(), 3);
    assert_eq!(seeds[0], b"extra-account-metas".to_vec());
    assert_eq!(seeds[2], vec![d.nonce]);
    assert!(seeds_reproduce(&seeds, &validator, &d.address));
    assert!(!seeds_reproduce(&seeds, &validator, &token));
    let wrong = registry_signer_seeds(&addr(8), d.nonce);
    assert!(!seeds_reproduce(&wrong, &validator, &d.address));
}

#[test]
fn registry_sizes() {
    assert_eq!(size_of(0), Ok(16));
    assert_eq!(size_of(1), Ok(51));
    assert_eq!(size_of(2), Ok(86));
    assert_eq!(size_of(usize::MAX), Err(SetupError::SizeOverflow));
}

#[test]
fn serialize_empty_registry() {
    let mut buf = vec![0u8; 16];
    assert_eq!(serialize_into(&mut buf, &Vec::new()), Ok(()));
    assert_ne!(&buf[0..8], &[0u8; 8]);
    assert_eq!(&buf[8..12], &[4, 0, 0, 0]);
    assert_eq!(&buf[12..16], &[0, 0, 0, 0]);
}

#[test]
fn serialize_one_descriptor() {
    let d = AccountDescriptor {
        kind: ReferenceKind::ProgramDerived,
        address_config: [6; 32],
        is_signer: false,
        is_writable: true,
    };
    let mut buf = vec![0u8; 51];
    assert_eq!(serialize_into(&mut buf, &vec![d]), Ok(()));
    let mut empty = vec![0u8; 16];
    serialize_into(&mut empty, &Vec::new()).unwrap();
    assert_eq!(&buf[0..8], &empty[0..8]);
    assert_eq!(&buf[8..12], &[39, 0, 0, 0]);
    assert_eq!(&buf[12..16], &[1, 0, 0, 0]);
    assert_eq!(buf[16], 1);
    assert_eq!(&buf[17..49], &[6u8; 32]);
    assert_eq!(buf[49], 0);
    assert_eq!(buf[50], 1);
}

#[test]
fn serialize_overwrites_stale_bytes() {
    let d = AccountDescriptor {
        kind: ReferenceKind::FixedAddress,
        address_config: [2; 32],
        is_signer: true,
        is_writable: false,
    };
    let mut buf = vec![0xAAu8; 51];
    assert_eq!(serialize_into(&mut buf, &vec![d]), Ok(()));
    assert_eq!(buf[16], 0);
    assert_eq!(buf[49], 1);
    assert_eq!(buf[50], 0);
}

#[test]
fn serialize_rejects_wrong_sizes() {
    for len in [0usize, 15, 17, 51] {
        let mut buf = vec![7u8; len];
        assert_eq!(serialize_into(&mut buf, &Vec::new()), Err(SetupError::LayoutSizeMismatch));
        assert_eq!(buf, vec![7u8; len]);
    }
    let d = AccountDescriptor {
        kind: ReferenceKind::OtherResolution,
        address_config: [0; 32],
        is_signer: false,
        is_writable: false,
    };
    let mut buf = vec![0u8; 16];
    assert_eq!(serialize_into(&mut buf, &vec![d]), Err(SetupError::LayoutSizeMismatch));
}

#[test]
fn initialize_frame_order_and_flags() {
    let req = request(7);
    let f = build_initialize_frame(&req, INITIALIZE_EXTRA_ACCOUNT_META_LIST);
    assert_eq!(f.program_id, req.transfer_hook_program);
    assert_eq!(f.data, vec![92, 197, 174, 197, 41, 124, 19, 3]);
    let expected = [
        (req.payer, true, true),
        (req.extra_account_meta_list, false, true),
        (req.mint, false, false),
        (req.token_program, false, false),
        (req.associated_token_program, false, false),
        (req.system_program, false, false),
    ];
    assert_eq!(f.accounts.len(), 6);
    for (r, (a, s, w)) in f.accounts.iter().zip(expected.iter()) {
        assert_eq!(r.address, *a);
        assert_eq!(r.is_signer, *s);
        assert_eq!(r.is_writable, *w);
    }
}

#[test]
fn initialize_frame_is_deterministic() {
    let req = request(7);
    let a = build_initialize_frame(&req, INITIALIZE_EXTRA_ACCOUNT_META_LIST);
    let b = build_initialize_frame(&req, INITIALIZE_EXTRA_ACCOUNT_META_LIST);
    assert_eq!(a.program_id, b.program_id);
    assert_eq!(a.data, b.data);
    assert_eq!(a.accounts.len(), b.accounts.len());
    for (x, y) in a.accounts.iter().zip(b.accounts.iter()) {
        assert_eq!(x.address, y.address);
        assert_eq!(x.is_signer, y.is_signer);
        assert_eq!(x.is_writable, y.is_writable);
    }
}

#[test]
fn frame_takes_a_configured_tag() {
    let req = request(7);
    let f = build_initialize_frame(&req, [1, 2, 3, 4, 5, 6, 7, 8]);
    assert_eq!(f.data, vec![1, 2, 3, 4, 5, 6, 7, 8]);
}

#[test]
fn setup_fresh_token_succeeds() {
    let req = request(7);
    let mut ledger = funded_ledger(5_000_000);
    let frame = initialize_hook_for_mint(&mut ledger, &req, &Vec::new(), 1_000_000).unwrap();
    assert!(ledger.contains(&req.extra_account_meta_list));
    assert_eq!(ledger.lamports_of(&req.extra_account_meta_list), Some(1_000_000));
    assert_eq!(ledger.lamports_of(&req.payer), Some(4_000_000));
    assert_eq!(ledger.owner_of(&req.extra_account_meta_list), Some(req.transfer_hook_program));
    let data = ledger.data_of(&req.extra_account_meta_list).unwrap();
    let mut expected = vec![0u8; 16];
    serialize_into(&mut expected, &Vec::new()).unwrap();
    assert_eq!(data, expected);
    assert_eq!(frame.program_id, req.transfer_hook_program);
    assert_eq!(frame.accounts.len(), 6);
    assert_eq!(complete_initialization(Ok(())), Ok(()));
}

#[test]
fn setup_repeated_conflicts() {
    let req = request(7);
    let mut ledger = funded_ledger(5_000_000);
    initialize_hook_for_mint(&mut ledger, &req, &Vec::new(), 1_000_000).unwrap();
    let before = ledger.data_of(&req.extra_account_meta_list).unwrap();
    let second = initialize_hook_for_mint(&mut ledger, &req, &Vec::new(), 1_000_000);
    assert_eq!(second.unwrap_err(), SetupError::AllocationConflict);
    assert_eq!(ledger.data_of(&req.extra_account_meta_list).unwrap(), before);
    assert_eq!(ledger.lamports_of(&req.payer), Some(4_000_000));
}

#[test]
fn setup_underfunded_payer_fails() {
    let req = request(7);
    let mut ledger = funded_ledger(999_999);
    let r = initialize_hook_for_mint(&mut ledger, &req, &Vec::new(), 1_000_000);
    assert_eq!(r.unwrap_err(), SetupError::InsufficientFunding);
    assert!(!ledger.contains(&req.extra_account_meta_list));
    assert_eq!(ledger.lamports_of(&req.payer), Some(999_999));
}

#[test]
fn setup_unknown_payer_fails() {
    let req = request(7);
    let mut ledger = Ledger::new();
    let r = initialize_hook_for_mint(&mut ledger, &req, &Vec::new(), 1);
    assert_eq!(r.unwrap_err(), SetupError::InsufficientFunding);
    assert!(!ledger.contains(&req.extra_account_meta_list));
}

#[test]
fn setup_wrong_registry_address_fails() {
    let mut req = request(7);
    req.extra_account_meta_list = addr(42);
    let mut ledger = funded_ledger(5_000_000);
    let r = initialize_hook_for_mint(&mut ledger, &req, &Vec::new(), 1_000_000);
    assert_eq!(r.unwrap_err(), SetupError::AddressMismatch);
    assert!(!ledger.contains(&addr(42)));
    assert_eq!(ledger.lamports_of(&req.payer), Some(5_000_000));
}

#[test]
fn setup_with_descriptors_sizes_the_slot() {
    let req = request(7);
    let d = AccountDescriptor {
        kind: ReferenceKind::FixedAddress,
        address_config: [3; 32],
        is_signer: false,
        is_writable: false,
    };
    let mut ledger = funded_ledger(5_000_000);
    initialize_hook_for_mint(&mut ledger, &req, &vec![d, d], 10).unwrap();
    assert_eq!(ledger.data_of(&req.extra_account_meta_list).unwrap().len(), 86);
}

#[test]
fn allocation_checks_seeds_then_presence_then_funds() {
    let token = addr(7);
    let validator = addr(9);
    let d = derive_registry_address(&token, &validator).unwrap();
    let seeds = registry_signer_seeds(&token, d.nonce);
    let mut ledger = funded_ledger(100);
    assert_eq!(
        ledger.allocate(&addr(1), &addr(42), &seeds, &validator, 16, 10, &validator),
        Err(SetupError::AddressMismatch)
    );
    assert_eq!(ledger.allocate(&addr(1), &d.address, &seeds, &validator, 16, 101, &validator), Err(SetupError::InsufficientFunding));
    assert_eq!(ledger.allocate(&addr(1), &d.address, &seeds, &validator, 16, 10, &validator), Ok(()));
    assert_eq!(ledger.data_of(&d.address), Some(vec![0u8; 16]));
    assert_eq!(
        ledger.allocate(&addr(1), &d.address, &seeds, &validator, 16, 10, &validator),
        Err(SetupError::AllocationConflict)
    );
    assert_eq!(ledger.lamports_of(&addr(1)), Some(90));
}

#[test]
fn opening_a_taken_account_conflicts() {
    let mut ledger = funded_ledger(1);
    assert_eq!(ledger.open_account(&addr(1), 5, &addr(5)), Err(SetupError::AllocationConflict));
    assert_eq!(ledger.lamports_of(&addr(1)), Some(1));
}

#[test]
fn remote_failure_is_passed_on() {
    assert_eq!(complete_initialization(Err(0x1_0000_0000)), Err(SetupError::RemoteCallFailure(0x1_0000_0000)));
    assert_eq!(complete_initialization(Err(3)), Err(SetupError::RemoteCallFailure(3)));
}
