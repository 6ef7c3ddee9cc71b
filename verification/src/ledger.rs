//! The balance ledger: one non-negative balance per user identifier.
//!
//! A balance outlives every connection. It is entered when a user first
//! identifies and only a purchase changes it afterwards.

use vstd::prelude::*;

verus! {

/// What a user holds when first seen by `get_or_init`.
pub const STARTING_BALANCE: u64 = 1000;

/// The balance that `balances` records for `user`, and zero where it
/// records none.
pub open spec fn balance_of(balances: Map<Seq<char>, u64>, user: Seq<char>) -> u64 {
    if balances.contains_key(user) {
        balances[user]
    } else {
        0
    }
}

/// The ledger after `get_or_init` for `user`.
pub open spec fn opened(balances: Map<Seq<char>, u64>, user: Seq<char>) -> Map<Seq<char>, u64> {
    if balances.contains_key(user) {
        balances
    } else {
        balances.insert(user, STARTING_BALANCE)
    }
}

/// Whether a debit of `amount` from `user` is covered.
pub open spec fn covers(balances: Map<Seq<char>, u64>, user: Seq<char>, amount: u64) -> bool {
    balance_of(balances, user) >= amount
}

/// The ledger after `try_debit` of `amount` from `user`: the balance goes
/// down by `amount` if it covers it and stays otherwise. A user never seen
/// before is entered with nothing.
pub open spec fn debited(balances: Map<Seq<char>, u64>, user: Seq<char>, amount: u64) -> Map<
    Seq<char>,
    u64,
> {
    if covers(balances, user, amount) {
        balances.insert(user, (balance_of(balances, user) - amount) as u64)
    } else {
        balances.insert(user, balance_of(balances, user))
    }
}

struct Account {
    user_id: String,
    balance: u64,
}

/// No user identifier has two accounts.
spec fn distinct_users(accounts: Seq<Account>) -> bool {
    forall|i: int, j: int|
        0 <= i < j < accounts.len() ==> accounts[i].user_id@ != accounts[j].user_id@
}

spec fn holds(accounts: Seq<Account>, user: Seq<char>) -> bool {
    exists|i: int| 0 <= i < accounts.len() && #[trigger] accounts[i].user_id@ == user
}

spec fn slot_of(accounts: Seq<Account>, user: Seq<char>) -> int {
    choose|i: int| 0 <= i < accounts.len() && #[trigger] accounts[i].user_id@ == user
}

/// The balance of each user that has an account.
spec fn balances(accounts: Seq<Account>) -> Map<Seq<char>, u64> {
    Map::new(
        |user: Seq<char>| holds(accounts, user),
        |user: Seq<char>| accounts[slot_of(accounts, user)].balance,
    )
}

/// An account for a user that had none adds one entry to the balances.
proof fn lemma_push(accounts: Seq<Account>, account: Account)
    requires
        distinct_users(accounts),
        !holds(accounts, account.user_id@),
    ensures
        distinct_users(accounts.push(account)),
        balances(accounts.push(account)) == balances(accounts).insert(
            account.user_id@,
            account.balance,
        ),
{
    let grown = accounts.push(account);
    let last = accounts.len() as int;
    assert forall|user: Seq<char>| holds(grown, user) <==> (holds(accounts, user) || user
        == account.user_id@) by {
        if holds(accounts, user) {
            assert(grown[slot_of(accounts, user)].user_id@ == user);
        }
        if user == account.user_id@ {
            assert(grown[last].user_id@ == user);
        }
    }
}

/// A new balance in one account changes one entry of the balances.
proof fn lemma_set_balance(accounts: Seq<Account>, changed: Seq<Account>, i: int)
    requires
        distinct_users(accounts),
        0 <= i < accounts.len(),
        changed.len() == accounts.len(),
        forall|k: int| 0 <= k < accounts.len() ==> changed[k].user_id@ == accounts[k].user_id@,
        forall|k: int|
            0 <= k < accounts.len() && k != i ==> changed[k].balance == accounts[k].balance,
    ensures
        distinct_users(changed),
        balances(changed) == balances(accounts).insert(accounts[i].user_id@, changed[i].balance),
{
}

/// Where the account of `user_id` stands, if it has one.
fn position(accounts: &Vec<Account>, user_id: &String) -> (found: Option<usize>)
    ensures
        match found {
            Some(i) => i < accounts.len() && accounts[i as int].user_id@ == user_id@,
            None => !holds(accounts@, user_id@),
        },
{
    let mut i: usize = 0;
    while i < accounts.len()
        invariant
            i <= accounts.len(),
            forall|k: int| 0 <= k < i ==> accounts[k].user_id@ != user_id@,
        decreases accounts.len() - i,
    {
        if accounts[i].user_id == *user_id {
            return Some(i);
        }
        i += 1;
    }
    None
}

/// Balances by user identifier.
pub struct BalanceLedger {
    accounts: Vec<Account>,
}

impl BalanceLedger {
    #[verifier::type_invariant]
    spec fn well_formed(&self) -> bool {
        distinct_users(self.accounts@)
    }

    /// The balances recorded, by user identifier.
    pub closed spec fn view(&self) -> Map<Seq<char>, u64> {
        balances(self.accounts@)
    }

    /// An empty ledger.
    pub fn new() -> (ledger: Self)
        ensures
            ledger@ == Map::<Seq<char>, u64>::empty(),
    {
        BalanceLedger { accounts: Vec::new() }
    }

    /// The balance recorded for `user_id`, without entering one.
    pub fn balance(&self, user_id: &String) -> (found: Option<u64>)
        ensures
            found == (if self@.contains_key(user_id@) {
                Some(self@[user_id@])
            } else {
                None
            }),
    {
        proof {
            use_type_invariant(self);
        }
        match position(&self.accounts, user_id) {
            Some(i) => Some(self.accounts[i].balance),
            None => None,
        }
    }

    /// The balance of `user_id`, entered as [`STARTING_BALANCE`] if the
    /// ledger had none.
    pub fn get_or_init(&mut self, user_id: &String) -> (balance: u64)
        ensures
            final(self)@ == opened(old(self)@, user_id@),
            balance == final(self)@[user_id@],
    {
        proof {
            use_type_invariant(&*self);
        }
        match position(&self.accounts, user_id) {
            Some(i) => self.accounts[i].balance,
            None => {
                let account = Account { user_id: user_id.clone(), balance: STARTING_BALANCE };
                proof {
                    lemma_push(self.accounts@, account);
                }
                let mut accounts: Vec<Account> = Vec::new();
                core::mem::swap(&mut self.accounts, &mut accounts);
                accounts.push(account);
                core::mem::swap(&mut self.accounts, &mut accounts);
                STARTING_BALANCE
            },
        }
    }

    /// Debits `amount` from `user_id` if the balance covers it, and says
    /// whether it did and what the balance is now. A refused debit leaves
    /// the balance as it was. A user without an account gets one that holds
    /// nothing, and is then debited like any other.
    pub fn try_debit(&mut self, user_id: &String, amount: u64) -> (outcome: (bool, u64))
        ensures
            final(self)@ == debited(old(self)@, user_id@, amount),
            outcome.0 == covers(old(self)@, user_id@, amount),
            outcome.1 == final(self)@[user_id@],
    {
        proof {
            use_type_invariant(&*self);
        }
        let mut accounts: Vec<Account> = Vec::new();
        core::mem::swap(&mut self.accounts, &mut accounts);
        let ghost before = accounts@;
        let slot: usize = match position(&accounts, user_id) {
            Some(i) => i,
            None => {
                let account = Account { user_id: user_id.clone(), balance: 0 };
                proof {
                    lemma_push(before, account);
                }
                accounts.push(account);
                accounts.len() - 1
            },
        };
        let ghost opened = accounts@;
        let current: u64 = accounts[slot].balance;
        let covered = current >= amount;
        if covered {
            accounts[slot].balance = current - amount;
        }
        proof {
            lemma_set_balance(opened, accounts@, slot as int);
        }
        let balance: u64 = accounts[slot].balance;
        core::mem::swap(&mut self.accounts, &mut accounts);
        (covered, balance)
    }
}

} // verus!
