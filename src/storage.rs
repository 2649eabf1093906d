use vstd::prelude::*;

use crate::address::{program_address, seeds_reproduce, seeds_view, Address};
use crate::error::SetupError;

verus! {

/// The storage accounts a setup can see: address, balance, owner and data of each.
pub struct LedgerView {
    pub addresses: Seq<Seq<u8>>,
    pub lamports: Seq<u64>,
    pub owners: Seq<Seq<u8>>,
    pub data: Seq<Seq<u8>>,
}

pub open spec fn holds(addrs: Seq<Seq<u8>>, a: Seq<u8>) -> bool {
    exists|i: int| 0 <= i < addrs.len() && addrs[i] == a
}

pub open spec fn index_of(addrs: Seq<Seq<u8>>, a: Seq<u8>) -> int {
    choose|i: int| 0 <= i < addrs.len() && addrs[i] == a
}

/// Columns of equal length and no address twice.
pub open spec fn ledger_wf(v: LedgerView) -> bool {
    &&& v.lamports.len() == v.addresses.len()
    &&& v.owners.len() == v.addresses.len()
    &&& v.data.len() == v.addresses.len()
    &&& forall|i: int, j: int|
        0 <= i < v.addresses.len() && 0 <= j < v.addresses.len() && i != j ==> v.addresses[i] != v.addresses[j]
}

/// The ledger after a new account `a` with `lamports`, `owner` and `data`.
pub open spec fn with_account(v: LedgerView, a: Seq<u8>, lamports: u64, owner: Seq<u8>, data: Seq<u8>) -> LedgerView {
    LedgerView {
        addresses: v.addresses.push(a),
        lamports: v.lamports.push(lamports),
        owners: v.owners.push(owner),
        data: v.data.push(data),
    }
}

/// What allocating `size` zeroed bytes at `target`, owned by `owner` and funded
/// with `rent` lamports by `payer`, authorised by `seeds` under `program`, does
/// to the ledger: the seeds must reproduce the target, the target must be free,
/// and the payer must hold the rent.
pub open spec fn allocation_outcome(
    v: LedgerView,
    payer: Seq<u8>,
    target: Seq<u8>,
    seeds: Seq<Seq<u8>>,
    program: Seq<u8>,
    size: nat,
    rent: u64,
    owner: Seq<u8>,
) -> (Result<(), SetupError>, LedgerView) {
    if program_address(seeds, program) != Some(target) {
        (Err(SetupError::AddressMismatch), v)
    } else if holds(v.addresses, target) {
        (Err(SetupError::AllocationConflict), v)
    } else if !holds(v.addresses, payer) || v.lamports[index_of(v.addresses, payer)] < rent {
        (Err(SetupError::InsufficientFunding), v)
    } else {
        let p = index_of(v.addresses, payer);
        let debited = LedgerView { lamports: v.lamports.update(p, (v.lamports[p] - rent) as u64), ..v };
        (Ok(()), with_account(debited, target, rent, owner, Seq::new(size, |i: int| 0u8)))
    }
}

/// `size` zero bytes.
pub fn zeroed(size: usize) -> (r: Vec<u8>)
    ensures
        r@ == Seq::new(size as nat, |k: int| 0u8),
{
    let mut r: Vec<u8> = Vec::new();
    let mut i: usize = 0;
    while i < size
        invariant
            i <= size,
            r@ =~= Seq::new(i as nat, |k: int| 0u8),
        decreases size - i,
    {
        r.push(0);
        i = i + 1;
    }
    r
}

/// Storage accounts, each with its balance, owner and data.
pub struct Ledger {
    addresses: Vec<Address>,
    lamports: Vec<u64>,
    owners: Vec<Address>,
    data: Vec<Vec<u8>>,
}

impl Ledger {
    pub closed spec fn view(&self) -> LedgerView {
        LedgerView {
            addresses: self.addresses@.map_values(|a: Address| a.bytes@),
            lamports: self.lamports@,
            owners: self.owners@.map_values(|a: Address| a.bytes@),
            data: self.data@.map_values(|d: Vec<u8>| d@),
        }
    }

    pub open spec fn well_formed(&self) -> bool {
        ledger_wf(self@)
    }

    /// An empty ledger.
    pub fn new() -> (r: Ledger)
        ensures
            r.well_formed(),
            r@.addresses.len() == 0,
    {
        let r = Ledger { addresses: Vec::new(), lamports: Vec::new(), owners: Vec::new(), data: Vec::new() };
        assert(r@.addresses =~= Seq::<Seq<u8>>::empty());
        r
    }

    /// Where `a` stands, if it does.
    fn position(&self, a: &Address) -> (r: Option<usize>)
        requires
            self.well_formed(),
        ensures
            match r {
                Some(i) => i < self@.addresses.len() && self@.addresses[i as int] == a.bytes@
                    && index_of(self@.addresses, a.bytes@) == i,
                None => !holds(self@.addresses, a.bytes@),
            },
    {
        let mut i: usize = 0;
        while i < self.addresses.len()
            invariant
                self.well_formed(),
                i <= self.addresses@.len(),
                self@.addresses.len() == self.addresses@.len(),
                forall|j: int| 0 <= j < i ==> self@.addresses[j] != a.bytes@,
            decreases self.addresses@.len() - i,
        {
            if self.addresses[i] == *a {
                assert(self@.addresses[i as int] == a.bytes@);
                let ghost k = index_of(self@.addresses, a.bytes@);
                assert(self@.addresses[k] == a.bytes@);
                return Some(i);
            }
            i = i + 1;
        }
        None
    }

    /// Whether an account stands at `a`.
    pub fn contains(&self, a: &Address) -> (r: bool)
        requires
            self.well_formed(),
        ensures
            r == holds(self@.addresses, a.bytes@),
    {
        self.position(a).is_some()
    }

    /// The balance of the account at `a`, if there is one.
    pub fn lamports_of(&self, a: &Address) -> (r: Option<u64>)
        requires
            self.well_formed(),
        ensures
            match r {
                Some(l) => holds(self@.addresses, a.bytes@) && l == self@.lamports[index_of(self@.addresses, a.bytes@)],
                None => !holds(self@.addresses, a.bytes@),
            },
    {
        match self.position(a) {
            Some(i) => Some(self.lamports[i]),
            None => None,
        }
    }

    /// The owner of the account at `a`, if there is one.
    pub fn owner_of(&self, a: &Address) -> (r: Option<Address>)
        requires
            self.well_formed(),
        ensures
            match r {
                Some(o) => holds(self@.addresses, a.bytes@) && o.bytes@ == self@.owners[index_of(self@.addresses, a.bytes@)],
                None => !holds(self@.addresses, a.bytes@),
            },
    {
        match self.position(a) {
            Some(i) => Some(self.owners[i]),
            None => None,
        }
    }

    /// A copy of the data of the account at `a`, if there is one.
    pub fn data_of(&self, a: &Address) -> (r: Option<Vec<u8>>)
        requires
            self.well_formed(),
        ensures
            match r {
                Some(d) => holds(self@.addresses, a.bytes@) && d@ == self@.data[index_of(self@.addresses, a.bytes@)],
                None => !holds(self@.addresses, a.bytes@),
            },
    {
        match self.position(a) {
            Some(i) => Some(self.data[i].clone()),
            None => None,
        }
    }

    /// Opens an account at `a` holding `lamports`, owned by `owner`, with no data;
    /// fails with `AllocationConflict` when `a` is taken.
    pub fn open_account(&mut self, a: &Address, lamports: u64, owner: &Address) -> (r: Result<(), SetupError>)
        requires
            old(self).well_formed(),
        ensures
            final(self).well_formed(),
            holds(old(self)@.addresses, a.bytes@) ==> r == Err::<(), SetupError>(SetupError::AllocationConflict)
                && final(self)@ == old(self)@,
            !holds(old(self)@.addresses, a.bytes@) ==> r is Ok
                && final(self)@ == with_account(old(self)@, a.bytes@, lamports, owner.bytes@, Seq::empty()),
    {
        if self.contains(a) {
            return Err(SetupError::AllocationConflict);
        }
        self.push_account(a, lamports, owner, Vec::new());
        Ok(())
    }

    fn push_account(&mut self, a: &Address, lamports: u64, owner: &Address, data: Vec<u8>)
        requires
            old(self).well_formed(),
            !holds(old(self)@.addresses, a.bytes@),
        ensures
            final(self).well_formed(),
            final(self)@ == with_account(old(self)@, a.bytes@, lamports, owner.bytes@, data@),
    {
        let ghost v = self@;
        self.addresses.push(*a);
        self.lamports.push(lamports);
        self.owners.push(*owner);
        self.data.push(data);
        let ghost w = with_account(v, a.bytes@, lamports, owner.bytes@, data@);
        assert(self@.addresses =~= w.addresses);
        assert(self@.owners =~= w.owners);
        assert(self@.data =~= w.data);
        assert(self@.lamports =~= w.lamports);
        assert forall|i: int, j: int|
            0 <= i < self@.addresses.len() && 0 <= j < self@.addresses.len() && i != j
            implies self@.addresses[i] != self@.addresses[j] by {
            if i == v.addresses.len() {
                assert(self@.addresses[j] == v.addresses[j]);
            } else if j == v.addresses.len() {
                assert(self@.addresses[i] == v.addresses[i]);
            }
        }
    }

    /// Creates a slot of `size` zeroed bytes at `target`, owned by `owner`,
    /// moving `rent` lamports from `payer` into it, authorised by `seeds`
    /// under `program` in place of a signature.
    pub fn allocate(
        &mut self,
        payer: &Address,
        target: &Address,
        seeds: &Vec<Vec<u8>>,
        program: &Address,
        size: usize,
        rent: u64,
        owner: &Address,
    ) -> (r: Result<(), SetupError>)
        requires
            old(self).well_formed(),
        ensures
            final(self).well_formed(),
            (r, final(self)@) == allocation_outcome(
                old(self)@, payer.bytes@, target.bytes@, seeds_view(seeds@), program.bytes@, size as nat, rent, owner.bytes@,
            ),
    {
        if !seeds_reproduce(seeds, program, target) {
            return Err(SetupError::AddressMismatch);
        }
        if self.contains(target) {
            return Err(SetupError::AllocationConflict);
        }
        let p = match self.position(payer) {
            Some(p) => p,
            None => {
                return Err(SetupError::InsufficientFunding);
            },
        };
        let balance = self.lamports[p];
        if balance < rent {
            return Err(SetupError::InsufficientFunding);
        }
        let ghost v = self@;
        self.lamports.set(p, balance - rent);
        let ghost debited = LedgerView { lamports: v.lamports.update(p as int, (v.lamports[p as int] - rent) as u64), ..v };
        assert(self@.lamports =~= debited.lamports);
        assert(self@.addresses =~= debited.addresses);
        assert(self@.owners =~= debited.owners);
        assert(self@.data =~= debited.data);
        assert(!holds(self@.addresses, target.bytes@));
        let zeros = zeroed(size);
        self.push_account(target, rent, owner, zeros);
        Ok(())
    }

    /// Replaces the data of the account at `a` with `data` of the same length.
    pub(crate) fn overwrite(&mut self, a: &Address, data: Vec<u8>) -> (r: bool)
        requires
            old(self).well_formed(),
        ensures
            final(self).well_formed(),
            r == holds(old(self)@.addresses, a.bytes@),
            r ==> final(self)@ == (LedgerView {
                data: old(self)@.data.update(index_of(old(self)@.addresses, a.bytes@), data@),
                ..old(self)@
            }),
            !r ==> final(self)@ == old(self)@,
    {
        match self.position(a) {
            Some(i) => {
                let ghost v = self@;
                self.data.set(i, data);
                assert(self@.data =~= v.data.update(i as int, data@));
                assert(self@.addresses =~= v.addresses);
                assert(self@.owners =~= v.owners);
                true
            },
            None => false,
        }
    }
}

/// Once an allocation at `target` has succeeded, a second allocation at the
/// same address with the same seeds fails with `AllocationConflict` and leaves
/// every account, the new slot's bytes included, as the first one left it.
pub proof fn lemma_allocation_at_most_once(
    v: LedgerView,
    payer: Seq<u8>,
    target: Seq<u8>,
    seeds: Seq<Seq<u8>>,
    program: Seq<u8>,
    size: nat,
    rent: u64,
    owner: Seq<u8>,
    second_payer: Seq<u8>,
    second_size: nat,
    second_rent: u64,
    second_owner: Seq<u8>,
)
    requires
        ledger_wf(v),
        allocation_outcome(v, payer, target, seeds, program, size, rent, owner).0 is Ok,
    ensures
        ({
            let after = allocation_outcome(v, payer, target, seeds, program, size, rent, owner).1;
            allocation_outcome(after, second_payer, target, seeds, program, second_size, second_rent, second_owner)
                == (Err::<(), SetupError>(SetupError::AllocationConflict), after)
        }),
{
    let after = allocation_outcome(v, payer, target, seeds, program, size, rent, owner).1;
    assert(after.addresses[v.addresses.len() as int] == target);
}

} // verus!
