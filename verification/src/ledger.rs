//! The ledger of token balances that a settlement moves funds on: accounts with an owner, an
//! asset type and a balance, and the one operation on them, a transfer that an authority
//! signs for.
//!
//! `transfer_spec` says what the engine relies on in a ledger. `Ledger` is a ledger in memory
//! that keeps to it.

use vstd::prelude::*;
use crate::error::TransferError;
use crate::identity::Identity;

verus! {

/// What the ledger records of one account.
pub struct Holding {
    /// Who may sign for a debit.
    pub owner: Seq<u8>,
    /// The asset type that the balance is counted in.
    pub mint: Seq<u8>,
    /// The balance.
    pub amount: u64,
}

/// The balances of a ledger, by the identity of each account.
pub type Balances = Map<Seq<u8>, Holding>;

/// An account of the ledger.
#[derive(Clone, Copy, Debug, PartialEq, Eq)]
pub struct TokenAccount {
    pub key: Identity,
    pub owner: Identity,
    pub mint: Identity,
    pub amount: u64,
}

impl View for TokenAccount {
    type V = Holding;

    open spec fn view(&self) -> Holding {
        Holding { owner: self.owner@, mint: self.mint@, amount: self.amount }
    }
}

/// The principal that signs for a transfer. It is handed to each transfer that it authorises
/// and has no standing beyond that call.
#[derive(Clone, Copy, Debug, PartialEq, Eq)]
pub enum Authority {
    /// An identity derived from a fixed label, which only the engine can sign for.
    Derived(Identity),
    /// An identity whose holder signed the unit of execution.
    Signer(Identity),
}

impl Authority {
    /// The identity that the authority signs as.
    pub open spec fn identity(self) -> Identity {
        match self {
            Authority::Derived(id) => id,
            Authority::Signer(id) => id,
        }
    }

    /// The identity that the authority signs as.
    pub fn key(&self) -> (id: Identity)
        ensures
            id == self.identity(),
    {
        match self {
            Authority::Derived(id) => *id,
            Authority::Signer(id) => *id,
        }
    }
}

/// A request to move `amount` from one account to another, signed for by `authority`.
#[derive(Clone, Copy, Debug, PartialEq, Eq)]
pub struct Transfer {
    pub from: Identity,
    pub to: Identity,
    pub authority: Authority,
    pub amount: u64,
}

/// What a transfer does to the balances, or why the ledger refuses it. A transfer is never
/// carried out in part. Both accounts must be on the ledger and hold the same asset type, the
/// authority must be the owner of the account that is debited, that account must hold the
/// amount, and the account that is credited must have room for it. A transfer from an account
/// to itself passes the same tests and changes nothing.
pub open spec fn transfer_spec(ledger: Balances, t: Transfer) -> Result<Balances, TransferError> {
    if !ledger.dom().contains(t.from@) || !ledger.dom().contains(t.to@) {
        Err(TransferError::UnknownAccount)
    } else {
        let from = ledger[t.from@];
        let to = ledger[t.to@];
        if from.mint != to.mint {
            Err(TransferError::AssetMismatch)
        } else if from.owner != t.authority.identity()@ {
            Err(TransferError::AuthorityMismatch)
        } else if from.amount < t.amount {
            Err(TransferError::InsufficientFunds)
        } else if t.from@ == t.to@ {
            Ok(ledger)
        } else if to.amount + t.amount > u64::MAX {
            Err(TransferError::BalanceOverflow)
        } else {
            Ok(
                ledger.insert(
                    t.from@,
                    Holding { amount: (from.amount - t.amount) as u64, ..from },
                ).insert(t.to@, Holding { amount: (to.amount + t.amount) as u64, ..to }),
            )
        }
    }
}

/// No two accounts of the sequence have the same identity.
pub open spec fn distinct_keys(s: Seq<TokenAccount>) -> bool {
    forall|i: int, j: int| 0 <= i < j < s.len() ==> (#[trigger] s[i]).key@ != (#[trigger] s[j]).key@
}

/// Whether an account of the sequence has the identity `key`.
pub open spec fn has_key(s: Seq<TokenAccount>, key: Seq<u8>) -> bool {
    exists|i: int| 0 <= i < s.len() && (#[trigger] s[i]).key@ == key
}

/// The balances that a sequence of accounts stands for.
pub open spec fn balances_of(s: Seq<TokenAccount>) -> Balances {
    Map::new(
        |key: Seq<u8>| has_key(s, key),
        |key: Seq<u8>| s[choose|i: int| 0 <= i < s.len() && (#[trigger] s[i]).key@ == key]@,
    )
}

proof fn lemma_balances_at(s: Seq<TokenAccount>, i: int)
    requires
        distinct_keys(s),
        0 <= i < s.len(),
    ensures
        balances_of(s).dom().contains(s[i].key@),
        balances_of(s)[s[i].key@] == s[i]@,
{
    let key = s[i].key@;
    assert(has_key(s, key));
    let c = choose|c: int| 0 <= c < s.len() && (#[trigger] s[c]).key@ == key;
    assert(c == i) by {
        if c < i {
            assert(s[c].key@ != s[i].key@);
        } else if i < c {
            assert(s[i].key@ != s[c].key@);
        }
    }
}

proof fn lemma_balances_update(s: Seq<TokenAccount>, i: int, a: TokenAccount)
    requires
        distinct_keys(s),
        0 <= i < s.len(),
        a.key@ == s[i].key@,
    ensures
        distinct_keys(s.update(i, a)),
        balances_of(s.update(i, a)) == balances_of(s).insert(a.key@, a@),
{
    let u = s.update(i, a);
    assert forall|x: int, y: int| 0 <= x < y < u.len() implies (#[trigger] u[x]).key@ != (
    #[trigger] u[y]).key@ by {
        assert(s[x].key@ != s[y].key@);
    }
    assert forall|key: Seq<u8>| has_key(u, key) == has_key(s, key) by {
        if has_key(u, key) {
            let c = choose|c: int| 0 <= c < u.len() && (#[trigger] u[c]).key@ == key;
            assert(s[c].key@ == key);
        }
        if has_key(s, key) {
            let c = choose|c: int| 0 <= c < s.len() && (#[trigger] s[c]).key@ == key;
            assert(u[c].key@ == key);
        }
    }
    assert forall|key: Seq<u8>| has_key(u, key) implies #[trigger] balances_of(u)[key]
        == balances_of(s).insert(a.key@, a@)[key] by {
        let c = choose|c: int| 0 <= c < u.len() && (#[trigger] u[c]).key@ == key;
        lemma_balances_at(u, c);
        if c != i {
            assert(s[c].key@ != s[i].key@) by {
                if c < i {
                    assert(s[c].key@ != s[i].key@);
                } else {
                    assert(s[i].key@ != s[c].key@);
                }
            }
            lemma_balances_at(s, c);
        }
    }
    assert(balances_of(u) =~= balances_of(s).insert(a.key@, a@));
}

proof fn lemma_balances_push(s: Seq<TokenAccount>, a: TokenAccount)
    requires
        distinct_keys(s),
        !has_key(s, a.key@),
    ensures
        distinct_keys(s.push(a)),
        balances_of(s.push(a)) == balances_of(s).insert(a.key@, a@),
{
    let u = s.push(a);
    assert forall|x: int, y: int| 0 <= x < y < u.len() implies (#[trigger] u[x]).key@ != (
    #[trigger] u[y]).key@ by {
        if y == s.len() {
            assert(s[x].key@ != a.key@);
        } else {
            assert(s[x].key@ != s[y].key@);
        }
    }
    assert forall|key: Seq<u8>| has_key(u, key) == (has_key(s, key) || key == a.key@) by {
        if has_key(u, key) {
            let c = choose|c: int| 0 <= c < u.len() && (#[trigger] u[c]).key@ == key;
            if c < s.len() {
                assert(s[c].key@ == key);
            }
        }
        if has_key(s, key) {
            let c = choose|c: int| 0 <= c < s.len() && (#[trigger] s[c]).key@ == key;
            assert(u[c].key@ == key);
        }
        if key == a.key@ {
            assert(u[s.len() as int].key@ == key);
        }
    }
    assert forall|key: Seq<u8>| has_key(u, key) implies #[trigger] balances_of(u)[key]
        == balances_of(s).insert(a.key@, a@)[key] by {
        let c = choose|c: int| 0 <= c < u.len() && (#[trigger] u[c]).key@ == key;
        lemma_balances_at(u, c);
        if c < s.len() {
            assert(s[c].key@ == key);
            lemma_balances_at(s, c);
        }
    }
    assert(balances_of(u) =~= balances_of(s).insert(a.key@, a@));
}

/// A ledger of token accounts, each under its own identity.
pub struct Ledger {
    accounts: Vec<TokenAccount>,
}

impl View for Ledger {
    type V = Balances;

    closed spec fn view(&self) -> Balances {
        balances_of(self.accounts@)
    }
}

impl Ledger {
    #[verifier::type_invariant]
    spec fn well_formed(self) -> bool {
        distinct_keys(self.accounts@)
    }

    /// A ledger without accounts.
    pub fn new() -> (ledger: Ledger)
        ensures
            ledger@ == Map::<Seq<u8>, Holding>::empty(),
    {
        let ledger = Ledger { accounts: Vec::new() };
        assert(ledger@ =~= Map::<Seq<u8>, Holding>::empty());
        ledger
    }

    fn find(&self, key: &Identity) -> (at: Option<usize>)
        ensures
            match at {
                Some(i) => i < self.accounts@.len() && self.accounts@[i as int].key@ == key@,
                None => !has_key(self.accounts@, key@),
            },
    {
        let mut i: usize = 0;
        while i < self.accounts.len()
            invariant
                i <= self.accounts@.len(),
                forall|j: int| 0 <= j < i ==> (#[trigger] self.accounts@[j]).key@ != key@,
            decreases self.accounts@.len() - i,
        {
            if self.accounts[i].key == *key {
                return Some(i);
            }
            i = i + 1;
        }
        None
    }

    /// Puts `account` on the ledger, unless an account with its identity is there already.
    /// Returns whether the account was put there.
    pub fn open(&mut self, account: TokenAccount) -> (opened: bool)
        ensures
            opened == !old(self)@.dom().contains(account.key@),
            opened ==> final(self)@ == old(self)@.insert(account.key@, account@),
            !opened ==> final(self)@ == old(self)@,
    {
        proof {
            use_type_invariant(&*self);
        }
        match self.find(&account.key) {
            Some(_) => false,
            None => {
                proof {
                    lemma_balances_push(self.accounts@, account);
                }
                let mut accounts: Vec<TokenAccount> = Vec::new();
                std::mem::swap(&mut self.accounts, &mut accounts);
                accounts.push(account);
                std::mem::swap(&mut self.accounts, &mut accounts);
                true
            },
        }
    }

    /// The account with the identity `key`, if the ledger has one.
    pub fn account(&self, key: &Identity) -> (found: Option<TokenAccount>)
        ensures
            found is Some == self@.dom().contains(key@),
            found matches Some(a) ==> a.key@ == key@ && a@ == self@[key@],
    {
        proof {
            use_type_invariant(self);
        }
        match self.find(key) {
            Some(i) => {
                proof {
                    lemma_balances_at(self.accounts@, i as int);
                }
                Some(self.accounts[i])
            },
            None => None,
        }
    }

    /// The balance of the account with the identity `key`, if the ledger has one.
    pub fn balance_of(&self, key: &Identity) -> (balance: Option<u64>)
        ensures
            balance == if self@.dom().contains(key@) {
                Some(self@[key@].amount)
            } else {
                None
            },
    {
        match self.account(key) {
            Some(a) => Some(a.amount),
            None => None,
        }
    }

    /// Carries out the transfer `t`, or refuses it and leaves every balance as it was.
    pub fn transfer(&mut self, t: &Transfer) -> (r: Result<(), TransferError>)
        ensures
            match transfer_spec(old(self)@, *t) {
                Ok(after) => r is Ok && final(self)@ == after,
                Err(e) => r == Err::<(), TransferError>(e) && final(self)@ == old(self)@,
            },
    {
        proof {
            use_type_invariant(&*self);
        }
        let (i, j) = match (self.find(&t.from), self.find(&t.to)) {
            (Some(i), Some(j)) => (i, j),
            _ => {
                return Err(TransferError::UnknownAccount);
            },
        };
        proof {
            lemma_balances_at(self.accounts@, i as int);
            lemma_balances_at(self.accounts@, j as int);
        }
        let from = self.accounts[i];
        let to = self.accounts[j];
        if from.mint != to.mint {
            return Err(TransferError::AssetMismatch);
        }
        if from.owner != t.authority.key() {
            return Err(TransferError::AuthorityMismatch);
        }
        if from.amount < t.amount {
            return Err(TransferError::InsufficientFunds);
        }
        if t.from == t.to {
            return Ok(());
        }
        if to.amount > u64::MAX - t.amount {
            return Err(TransferError::BalanceOverflow);
        }
        let debited = TokenAccount { amount: from.amount - t.amount, ..from };
        let credited = TokenAccount { amount: to.amount + t.amount, ..to };
        proof {
            lemma_balances_update(self.accounts@, i as int, debited);
            lemma_balances_update(self.accounts@.update(i as int, debited), j as int, credited);
        }
        let mut accounts: Vec<TokenAccount> = Vec::new();
        std::mem::swap(&mut self.accounts, &mut accounts);
        accounts.set(i, debited);
        accounts.set(j, credited);
        std::mem::swap(&mut self.accounts, &mut accounts);
        Ok(())
    }

    /// A ledger with the same accounts and balances.
    pub fn snapshot(&self) -> (copy: Ledger)
        ensures
            copy@ == self@,
    {
        proof {
            use_type_invariant(self);
        }
        let mut accounts: Vec<TokenAccount> = Vec::new();
        let mut i: usize = 0;
        while i < self.accounts.len()
            invariant
                i <= self.accounts@.len(),
                accounts@ == self.accounts@.subrange(0, i as int),
            decreases self.accounts@.len() - i,
        {
            accounts.push(self.accounts[i]);
            assert(accounts@ =~= self.accounts@.subrange(0, i + 1));
            i = i + 1;
        }
        assert(accounts@ =~= self.accounts@);
        Ledger { accounts }
    }
}

} // verus!
