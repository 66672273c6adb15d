//! The accounts that the host ledger hands to a program: an address, the
//! program that owns the storage, a byte buffer, a balance and two flags.

use crate::wire::stored;
use vstd::prelude::*;

verus! {

/// The address of an account or of a program.
#[derive(Clone, Copy, Debug, PartialEq, Eq, Hash)]
pub struct Identity {
    pub bytes: [u8; 32],
}

impl View for Identity {
    type V = Seq<u8>;

    open spec fn view(&self) -> Seq<u8> {
        self.bytes@
    }
}

impl Identity {
    /// The address made of the given bytes.
    pub fn new(bytes: [u8; 32]) -> (id: Identity)
        ensures
            id@ == bytes@,
            id@.len() == 32,
    {
        Identity { bytes }
    }

    /// Whether two addresses are the same, byte for byte.
    pub fn same_as(&self, other: &Identity) -> (same: bool)
        ensures
            same == (self@ == other@),
    {
        let mut i: usize = 0;
        while i < 32
            invariant
                i <= 32,
                forall|j: int| 0 <= j < i ==> self.bytes@[j] == other.bytes@[j],
            decreases 32 - i,
        {
            if self.bytes[i] != other.bytes[i] {
                return false;
            }
            i += 1;
        }
        assert(self.bytes@ =~= other.bytes@);
        true
    }

    /// The address that `bytes` hold: exactly 32 of them.
    pub fn from_slice(bytes: &[u8]) -> (id: Option<Identity>)
        ensures
            match id {
                Some(id) => bytes@.len() == 32 && id@ == bytes@,
                None => bytes@.len() != 32,
            },
    {
        if bytes.len() != 32 {
            return None;
        }
        let mut out: [u8; 32] = [0u8; 32];
        let mut i: usize = 0;
        while i < 32
            invariant
                i <= 32,
                bytes@.len() == 32,
                forall|j: int| 0 <= j < i ==> out@[j] == bytes@[j],
            decreases 32 - i,
        {
            out[i] = bytes[i];
            i += 1;
        }
        assert(out@ =~= bytes@);
        Some(Identity { bytes: out })
    }

    /// Appends the 32 bytes of the address to `out`.
    pub fn append_to(&self, out: &mut Vec<u8>)
        ensures
            final(out)@ == old(out)@ + self@,
    {
        let mut i: usize = 0;
        while i < 32
            invariant
                i <= 32,
                out@ == old(out)@ + self@.subrange(0, i as int),
            decreases 32 - i,
        {
            out.push(self.bytes[i]);
            assert(self@.subrange(0, i + 1) =~= self@.subrange(0, i as int).push(self@[i as int]));
            i += 1;
        }
        assert(self@.subrange(0, 32) =~= self@);
    }
}

/// Two addresses with the same bytes are the same address.
pub proof fn lemma_identity_by_bytes(a: Identity, b: Identity)
    requires
        a@ == b@,
    ensures
        a == b,
{
    assert(a.bytes =~= b.bytes);
}

/// What an account is, as mathematics: the model that contracts speak of.
pub struct AccountView {
    pub key: Seq<u8>,
    pub owner: Seq<u8>,
    pub lamports: nat,
    pub data: Seq<u8>,
    pub is_signer: bool,
    pub is_writable: bool,
}

impl AccountView {
    /// What holds of the view of every account: both addresses have 32
    /// bytes, and the balance fits in 64 bits.
    pub open spec fn well_formed(self) -> bool {
        &&& self.key.len() == 32
        &&& self.owner.len() == 32
        &&& self.lamports <= u64::MAX
    }

    /// The same account holding `data` in its buffer.
    pub open spec fn with_data(self, data: Seq<u8>) -> AccountView {
        AccountView { data, ..self }
    }

    /// The same account after `amount` was added to its balance.
    pub open spec fn credited(self, amount: nat) -> AccountView {
        AccountView { lamports: self.lamports + amount, ..self }
    }

    /// The same account after `amount` was taken from its balance.
    pub open spec fn debited(self, amount: nat) -> AccountView
        recommends
            amount <= self.lamports,
    {
        AccountView { lamports: (self.lamports - amount) as nat, ..self }
    }
}

/// One account as the host presents it to an invocation.
#[derive(Debug, PartialEq, Eq)]
pub struct Account {
    /// The address of the account.
    pub key: Identity,
    /// The program that owns the storage.
    pub owner: Identity,
    /// The balance, in the ledger's unit of value.
    pub lamports: u64,
    /// The byte buffer that holds the account's record.
    pub data: Vec<u8>,
    /// Whether the holder of `key` authorised this invocation.
    pub is_signer: bool,
    /// Whether the invocation may write to the account.
    pub is_writable: bool,
}

impl Clone for Account {
    fn clone(&self) -> (copy: Self)
        ensures
            copy@ == self@,
    {
        let data = self.data.clone();
        assert(data@ =~= self.data@);
        Account {
            key: self.key,
            owner: self.owner,
            lamports: self.lamports,
            data,
            is_signer: self.is_signer,
            is_writable: self.is_writable,
        }
    }
}

impl View for Account {
    type V = AccountView;

    open spec fn view(&self) -> AccountView {
        AccountView {
            key: self.key@,
            owner: self.owner@,
            lamports: self.lamports as nat,
            data: self.data@,
            is_signer: self.is_signer,
            is_writable: self.is_writable,
        }
    }
}

/// An account after `bytes` were written over the beginning of its buffer.
pub open spec fn written(account: AccountView, bytes: Seq<u8>) -> AccountView {
    account.with_data(stored(account.data, bytes))
}

/// The view of every account is well formed.
pub proof fn lemma_view_well_formed(account: Account)
    ensures
        account@.well_formed(),
{
}

/// The views of a list of accounts, in the same order.
pub open spec fn views(accounts: Seq<Account>) -> Seq<AccountView> {
    Seq::new(accounts.len(), |i: int| accounts[i]@)
}

/// Why a movement of value was refused.
#[derive(Clone, Copy, Debug, PartialEq, Eq, Structural)]
pub enum TransferError {
    /// The paying account holds less than the amount.
    InsufficientFunds,
    /// The receiving balance cannot hold the amount.
    BalanceOverflow,
}

/// Why moving `amount` between two balances is refused, or `None` where it
/// goes through.
pub open spec fn transfer_fault(from: nat, to: nat, amount: u64) -> Option<TransferError> {
    if from < amount {
        Some(TransferError::InsufficientFunds)
    } else if to + amount > u64::MAX {
        Some(TransferError::BalanceOverflow)
    } else {
        None
    }
}

/// Tells whether `amount` can move from a balance of `from` to one of `to`.
pub fn check_transfer(from: u64, to: u64, amount: u64) -> (r: Result<(), TransferError>)
    ensures
        match r {
            Ok(_) => transfer_fault(from as nat, to as nat, amount) is None,
            Err(e) => transfer_fault(from as nat, to as nat, amount) == Some(e),
        },
{
    if from < amount {
        Err(TransferError::InsufficientFunds)
    } else if amount > u64::MAX - to {
        Err(TransferError::BalanceOverflow)
    } else {
        Ok(())
    }
}

/// Moves `amount` from one account's balance to another's, or changes
/// nothing and says why.
pub fn transfer(from: &mut Account, to: &mut Account, amount: u64) -> (r: Result<
    (),
    TransferError,
>)
    ensures
        match r {
            Ok(_) => {
                &&& transfer_fault(old(from)@.lamports, old(to)@.lamports, amount) is None
                &&& final(from)@ == old(from)@.debited(amount as nat)
                &&& final(to)@ == old(to)@.credited(amount as nat)
            },
            Err(e) => {
                &&& transfer_fault(old(from)@.lamports, old(to)@.lamports, amount) == Some(e)
                &&& *final(from) == *old(from)
                &&& *final(to) == *old(to)
            },
        },
{
    match check_transfer(from.lamports, to.lamports, amount) {
        Err(e) => Err(e),
        Ok(()) => {
            from.lamports = from.lamports - amount;
            to.lamports = to.lamports + amount;
            Ok(())
        },
    }
}

} // verus!
