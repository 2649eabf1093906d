use vstd::prelude::*;

use spl_tlv_account_resolution::account::ExtraAccountMeta;
use spl_tlv_account_resolution::state::ExtraAccountMetaList;
use spl_transfer_hook_interface::instruction::ExecuteInstruction;

use crate::error::SetupError;

verus! {

/// How the hook validator finds the account a descriptor stands for.
#[derive(Clone, Copy, Debug, PartialEq, Eq, Structural)]
pub enum ReferenceKind {
    /// The address is stored as is.
    FixedAddress,
    /// The address is derived from packed seed configurations.
    ProgramDerived,
    /// The address is read out of account or instruction data.
    OtherResolution,
}

/// One extra account that the hook validator needs at transfer time.
#[derive(Clone, Copy, Debug)]
pub struct AccountDescriptor {
    pub kind: ReferenceKind,
    pub address_config: [u8; 32],
    pub is_signer: bool,
    pub is_writable: bool,
}

/// A descriptor as stored: kind code, address configuration, signer and writable flags.
pub type EntryView = (u8, Seq<u8>, bool, bool);

pub open spec fn kind_code_spec(k: ReferenceKind) -> u8 {
    match k {
        ReferenceKind::FixedAddress => 0,
        ReferenceKind::ProgramDerived => 1,
        ReferenceKind::OtherResolution => 2,
    }
}

pub open spec fn descriptor_entry(d: AccountDescriptor) -> EntryView {
    (kind_code_spec(d.kind), d.address_config@, d.is_signer, d.is_writable)
}

pub open spec fn descriptor_entries(ds: Seq<AccountDescriptor>) -> Seq<EntryView> {
    ds.map_values(|d: AccountDescriptor| descriptor_entry(d))
}

pub open spec fn raw_entries(es: Seq<(u8, [u8; 32], bool, bool)>) -> Seq<EntryView> {
    es.map_values(|e: (u8, [u8; 32], bool, bool)| (e.0, e.1@, e.2, e.3))
}

/// The bytes of a registry that holds `entries` under the transfer-time
/// execute operation's tag.
pub uninterp spec fn meta_list_image(entries: Seq<EntryView>) -> Seq<u8>;

/// Size in bytes of a registry of `count` descriptors: a 12-byte entry header,
/// a 4-byte count and 35 bytes per descriptor, saturated at `usize::MAX`;
/// `None` when the descriptor area itself does not fit.
pub open spec fn registry_size(count: nat) -> Option<nat> {
    if 35 * count + 4 <= usize::MAX {
        if 35 * count + 16 <= usize::MAX {
            Some(35 * count + 16)
        } else {
            Some(usize::MAX as nat)
        }
    } else {
        None
    }
}

/// Relies on `ExtraAccountMetaList::size_of`: the TLV header length plus the
/// pod slice length of `count` entries, with a checked product and count.
#[verifier::external_body]
fn meta_list_size(count: usize) -> (r: Option<usize>)
    ensures
        match registry_size(count as nat) {
            Some(v) => r == Some(v as usize),
            None => r.is_none(),
        },
{
    ExtraAccountMetaList::size_of(count).ok()
}

/// Relies on `ExtraAccountMetaList::init::<ExecuteInstruction>`: on a zeroed
/// buffer of exactly the list's size it writes the execute entry's tag, its
/// length, the entry count and each entry, and succeeds.
#[verifier::external_body]
fn init_meta_list(buf: &mut Vec<u8>, entries: &Vec<(u8, [u8; 32], bool, bool)>) -> (r: bool)
    requires
        registry_size(entries@.len()) == Some(old(buf)@.len()),
        old(buf)@.len() <= u32::MAX,
        forall|i: int| 0 <= i < old(buf)@.len() ==> old(buf)@[i] == 0,
    ensures
        r,
        final(buf)@ == meta_list_image(raw_entries(entries@)),
{
    let metas: Vec<ExtraAccountMeta> = entries
        .iter()
        .map(|e| ExtraAccountMeta {
            discriminator: e.0,
            address_config: e.1,
            is_signer: e.2.into(),
            is_writable: e.3.into(),
        })
        .collect();
    ExtraAccountMetaList::init::<ExecuteInstruction>(buf.as_mut_slice(), &metas).is_ok()
}

impl ReferenceKind {
    /// The code under which this kind is stored.
    pub fn code(&self) -> (r: u8)
        ensures
            r == kind_code_spec(*self),
    {
        match self {
            ReferenceKind::FixedAddress => 0,
            ReferenceKind::ProgramDerived => 1,
            ReferenceKind::OtherResolution => 2,
        }
    }
}

/// The size in bytes of a registry that holds `count` descriptors.
pub fn size_of(count: usize) -> (r: Result<usize, SetupError>)
    ensures
        match registry_size(count as nat) {
            Some(v) => r == Ok::<usize, SetupError>(v as usize),
            None => r == Err::<usize, SetupError>(SetupError::SizeOverflow),
        },
{
    match meta_list_size(count) {
        Some(v) => Ok(v),
        None => Err(SetupError::SizeOverflow),
    }
}

/// Writes the registry of `descriptors` into `buffer`, which must be exactly
/// `size_of(descriptors.len())` bytes long; on failure `buffer` is untouched.
pub fn serialize_into(buffer: &mut Vec<u8>, descriptors: &Vec<AccountDescriptor>) -> (r: Result<(), SetupError>)
    ensures
        r == Err::<(), SetupError>(SetupError::LayoutSizeMismatch)
            <==> registry_size(descriptors@.len()) != Some(old(buffer)@.len()),
        r == Err::<(), SetupError>(SetupError::SizeOverflow)
            <==> (registry_size(descriptors@.len()) == Some(old(buffer)@.len()) && old(buffer)@.len() > u32::MAX),
        r is Ok <==> (registry_size(descriptors@.len()) == Some(old(buffer)@.len()) && old(buffer)@.len() <= u32::MAX),
        r is Ok ==> final(buffer)@ == meta_list_image(descriptor_entries(descriptors@)),
        r is Err ==> final(buffer)@ == old(buffer)@,
{
    let size = match size_of(descriptors.len()) {
        Ok(v) => v,
        Err(_) => {
            return Err(SetupError::LayoutSizeMismatch);
        },
    };
    if buffer.len() != size {
        return Err(SetupError::LayoutSizeMismatch);
    }
    if size > 4294967295usize {
        return Err(SetupError::SizeOverflow);
    }
    let mut entries: Vec<(u8, [u8; 32], bool, bool)> = Vec::new();
    let mut i: usize = 0;
    while i < descriptors.len()
        invariant
            i <= descriptors@.len(),
            raw_entries(entries@) =~= descriptor_entries(descriptors@.take(i as int)),
        decreases descriptors@.len() - i,
    {
        let d = &descriptors[i];
        let ghost prev = entries@;
        entries.push((d.kind.code(), d.address_config, d.is_signer, d.is_writable));
        proof {
            assert(raw_entries(entries@) =~= raw_entries(prev).push(descriptor_entry(descriptors@[i as int])));
            assert(descriptors@.take(i as int + 1) =~= descriptors@.take(i as int).push(descriptors@[i as int]));
            assert(descriptor_entries(descriptors@.take(i as int + 1)) =~= descriptor_entries(
                descriptors@.take(i as int),
            ).push(descriptor_entry(descriptors@[i as int])));
        }
        i = i + 1;
    }
    assert(descriptors@.take(i as int) =~= descriptors@);
    let mut j: usize = 0;
    while j < buffer.len()
        invariant
            j <= buffer@.len(),
            buffer@.len() == size,
            forall|k: int| 0 <= k < j ==> buffer@[k] == 0,
        decreases buffer@.len() - j,
    {
        buffer.set(j, 0);
        j = j + 1;
    }
    init_meta_list(buffer, &entries);
    Ok(())
}

} // verus!
