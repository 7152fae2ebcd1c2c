use vstd::prelude::*;
use crate::decimal::{decimal, decimal_string, parse_u64, parsed_u64};

verus! {

/// One account: its identifier and its balance.
pub struct Account {
    pub id: String,
    pub balance: u64,
}

/// Why a transfer was refused.
#[derive(Clone, Copy, Debug, PartialEq, Eq, Structural)]
pub enum LedgerError {
    /// The amount is not the decimal text of a `u64`.
    InvalidAmount,
    /// The paying account does not exist.
    FromNotFound,
    /// The receiving account does not exist.
    ToNotFound,
    /// The paying account holds less than the amount.
    InsufficientFunds,
    /// The receiving balance would not fit in a `u64`.
    BalanceOverflow,
}

/// The errors that a well-formed request earns by breaking a rule of the
/// ledger, as opposed to carrying a malformed number.
pub open spec fn is_business_rule(e: LedgerError) -> bool {
    e == LedgerError::FromNotFound || e == LedgerError::ToNotFound || e
        == LedgerError::InsufficientFunds
}

/// The balance of `id`; an account that does not exist holds zero.
pub open spec fn balance_of(book: Map<Seq<char>, u64>, id: Seq<char>) -> u64 {
    if book.contains_key(id) {
        book[id]
    } else {
        0
    }
}

/// What a transfer of `amount` from `from` to `to` makes of the accounts,
/// or why it is refused. The checks come in this order: the amount, the
/// paying account, the receiving account, the funds, the receiving balance.
/// A transfer from an account to itself leaves the accounts as they are.
pub open spec fn transfer_outcome(
    book: Map<Seq<char>, u64>,
    from: Seq<char>,
    to: Seq<char>,
    amount: Seq<char>,
) -> Result<Map<Seq<char>, u64>, LedgerError> {
    match parsed_u64(amount) {
        None => Err(LedgerError::InvalidAmount),
        Some(a) => {
            if !book.contains_key(from) {
                Err(LedgerError::FromNotFound)
            } else if !book.contains_key(to) {
                Err(LedgerError::ToNotFound)
            } else if book[from] < a {
                Err(LedgerError::InsufficientFunds)
            } else if from == to {
                Ok(book)
            } else if book[to] + a > u64::MAX {
                Err(LedgerError::BalanceOverflow)
            } else {
                Ok(book.insert(from, (book[from] - a) as u64).insert(to, (book[to] + a) as u64))
            }
        },
    }
}

/// The accounts after a transfer: the new ones if it went through, the old
/// ones if it was refused.
pub open spec fn after_transfer(
    book: Map<Seq<char>, u64>,
    from: Seq<char>,
    to: Seq<char>,
    amount: Seq<char>,
) -> Map<Seq<char>, u64> {
    match transfer_outcome(book, from, to, amount) {
        Ok(after) => after,
        Err(_) => book,
    }
}

pub open spec fn created_message(id: Seq<char>, balance: u64) -> Seq<char> {
    "Account created: id="@ + id + ", balance="@ + decimal(balance as nat)
}

pub open spec fn transfer_message(from: Seq<char>, to: Seq<char>, amount: Seq<char>) -> Seq<char> {
    "Transfer successful: "@ + from + " to "@ + to + " amount "@ + amount
}

/// A transfer whose amount is a number no larger than the paying balance
/// keeps the sum of the two balances: what leaves `from` arrives at `to`.
pub proof fn lemma_transfer_conserves(
    book: Map<Seq<char>, u64>,
    from: Seq<char>,
    to: Seq<char>,
    amount: Seq<char>,
)
    requires
        parsed_u64(amount) is Some,
        parsed_u64(amount)->0 <= balance_of(book, from),
    ensures
        balance_of(after_transfer(book, from, to, amount), from) + balance_of(
            after_transfer(book, from, to, amount),
            to,
        ) == balance_of(book, from) + balance_of(book, to),
{
}

/// A transfer from an account to itself, of no more than it holds, leaves
/// its balance as it was.
pub proof fn lemma_self_transfer_unchanged(book: Map<Seq<char>, u64>, id: Seq<char>, amount: Seq<char>)
    requires
        parsed_u64(amount) is Some,
        parsed_u64(amount)->0 <= balance_of(book, id),
    ensures
        balance_of(after_transfer(book, id, id, amount), id) == balance_of(book, id),
{
}

/// A transfer of more than the paying account holds is refused for a
/// business rule, and both balances stay as they were.
pub proof fn lemma_overdraft_refused(
    book: Map<Seq<char>, u64>,
    from: Seq<char>,
    to: Seq<char>,
    amount: Seq<char>,
)
    requires
        parsed_u64(amount) is Some,
        parsed_u64(amount)->0 > balance_of(book, from),
    ensures
        transfer_outcome(book, from, to, amount) is Err,
        is_business_rule(transfer_outcome(book, from, to, amount)->Err_0),
        balance_of(after_transfer(book, from, to, amount), from) == balance_of(book, from),
        balance_of(after_transfer(book, from, to, amount), to) == balance_of(book, to),
{
}

/// Creating an account twice is no error: the second balance is the one
/// that stays.
pub proof fn lemma_create_overwrites(book: Map<Seq<char>, u64>, id: Seq<char>, first: u64, second: u64)
    ensures
        balance_of(book.insert(id, first).insert(id, second), id) == second,
{
}

/// The accounts of the node, each identifier held at most once.
pub struct Ledger {
    accounts: Vec<Account>,
}

impl View for Ledger {
    type V = Map<Seq<char>, u64>;

    /// Each identifier that an account holds, mapped to that account's
    /// balance.
    closed spec fn view(&self) -> Map<Seq<char>, u64> {
        Map::new(
            |k: Seq<char>| exists|i: int| 0 <= i < self.accounts.len() && #[trigger] self.accounts[i].id@ == k,
            |k: Seq<char>|
                self.accounts[choose|i: int|
                    0 <= i < self.accounts.len() && #[trigger] self.accounts[i].id@ == k].balance,
        )
    }
}

impl Ledger {
    /// No two accounts share an identifier.
    pub closed spec fn wf(&self) -> bool {
        forall|i: int, j: int|
            0 <= i < self.accounts.len() && 0 <= j < self.accounts.len() && i != j
                ==> #[trigger] self.accounts[i].id@ != #[trigger] self.accounts[j].id@
    }

    proof fn lemma_view_at(&self, i: int)
        requires
            self.wf(),
            0 <= i < self.accounts.len(),
        ensures
            self@.contains_key(self.accounts[i].id@),
            self@[self.accounts[i].id@] == self.accounts[i].balance,
    {
        let k = self.accounts[i].id@;
        assert(self.accounts[i].id@ == k);
        let j = choose|j: int| 0 <= j < self.accounts.len() && #[trigger] self.accounts[j].id@ == k;
        assert(j == i);
    }

    /// An empty ledger.
    pub fn new() -> (l: Ledger)
        ensures
            l.wf(),
            l@ == Map::<Seq<char>, u64>::empty(),
    {
        let l = Ledger { accounts: Vec::new() };
        assert(l@ =~= Map::<Seq<char>, u64>::empty());
        l
    }

    fn find(&self, id: &String) -> (r: Option<usize>)
        ensures
            match r {
                Some(i) => i < self.accounts.len() && self.accounts[i as int].id@ == id@,
                None => forall|i: int| 0 <= i < self.accounts.len() ==> self.accounts[i].id@ != id@,
            },
    {
        let mut i: usize = 0;
        while i < self.accounts.len()
            invariant
                i <= self.accounts.len(),
                forall|j: int| 0 <= j < i ==> self.accounts[j].id@ != id@,
            decreases self.accounts.len() - i,
        {
            if self.accounts[i].id == *id {
                return Some(i);
            }
            i += 1;
        }
        None
    }

    /// Gives the account at `i` a new balance.
    fn set_balance(&mut self, i: usize, balance: u64)
        requires
            old(self).wf(),
            i < old(self).accounts.len(),
        ensures
            final(self).wf(),
            final(self).accounts.len() == old(self).accounts.len(),
            forall|j: int|
                0 <= j < old(self).accounts.len() ==> #[trigger] final(self).accounts[j].id@
                    == old(self).accounts[j].id@,
            final(self)@ == old(self)@.insert(old(self).accounts[i as int].id@, balance),
    {
        let ghost before = self@;
        let ghost old_accounts = self.accounts@;
        let ghost key = self.accounts[i as int].id@;
        let id = self.accounts[i].id.clone();
        self.accounts.set(i, Account { id, balance });
        assert forall|k: Seq<char>| #[trigger] self@.contains_key(k) == before.insert(key, balance).contains_key(k) by {
            if before.contains_key(k) {
                let j = choose|j: int| 0 <= j < old_accounts.len() && #[trigger] old_accounts[j].id@ == k;
                assert(self.accounts[j].id@ == k);
            }
            if self@.contains_key(k) {
                let j = choose|j: int| 0 <= j < self.accounts.len() && #[trigger] self.accounts[j].id@ == k;
                assert(old_accounts[j].id@ == k);
            }
            assert(self.accounts[i as int].id@ == key);
        }
        assert forall|k: Seq<char>| #[trigger] self@.contains_key(k) implies self@[k] == before.insert(key, balance)[k] by {
            let j = choose|j: int| 0 <= j < self.accounts.len() && #[trigger] self.accounts[j].id@ == k;
            self.lemma_view_at(j);
            if k != key {
                assert(j != i);
                assert(old_accounts[j] == self.accounts[j]);
                assert(old_accounts[j].id@ == k);
                let o = choose|o: int| 0 <= o < old_accounts.len() && #[trigger] old_accounts[o].id@ == k;
                assert(self.accounts[o].id@ == k);
                assert(o == j);
            }
        }
        assert(self@ =~= before.insert(key, balance));
    }

    /// The balance of `id`, zero for an account that was never created.
    pub fn get(&self, id: &str) -> (r: u64)
        requires
            self.wf(),
        ensures
            r == balance_of(self@, id@),
    {
        let key = String::from_str(id);
        match self.find(&key) {
            Some(i) => {
                proof {
                    self.lemma_view_at(i as int);
                }
                self.accounts[i].balance
            },
            None => {
                assert(!self@.contains_key(id@));
                0
            },
        }
    }

    /// Sets the balance of `id`, creating the account if it does not exist
    /// and overwriting its balance if it does.
    pub fn create_or_overwrite(&mut self, id: &str, balance: u64) -> (msg: String)
        requires
            old(self).wf(),
        ensures
            final(self).wf(),
            final(self)@ == old(self)@.insert(id@, balance),
            msg@ == created_message(id@, balance),
    {
        let key = String::from_str(id);
        let ghost before = self@;
        match self.find(&key) {
            Some(i) => {
                self.set_balance(i, balance);
            },
            None => {
                let ghost old_accounts = self.accounts@;
                self.accounts.push(Account { id: key, balance });
                let n = self.accounts.len() - 1;
                assert forall|k: Seq<char>| #[trigger] self@.contains_key(k) == before.insert(id@, balance).contains_key(k) by {
                    if before.contains_key(k) {
                        let j = choose|j: int| 0 <= j < old_accounts.len() && #[trigger] old_accounts[j].id@ == k;
                        assert(self.accounts[j].id@ == k);
                    }
                    if self@.contains_key(k) && k != id@ {
                        let j = choose|j: int| 0 <= j < self.accounts.len() && #[trigger] self.accounts[j].id@ == k;
                        assert(j != n);
                        assert(old_accounts[j].id@ == k);
                    }
                    assert(self.accounts[n as int].id@ == id@);
                }
                assert forall|k: Seq<char>| #[trigger] self@.contains_key(k) implies self@[k] == before.insert(id@, balance)[k] by {
                    let j = choose|j: int| 0 <= j < self.accounts.len() && #[trigger] self.accounts[j].id@ == k;
                    self.lemma_view_at(j);
                    if k != id@ {
                        assert(j != n);
                        assert(old_accounts[j] == self.accounts[j]);
                        let o = choose|o: int| 0 <= o < old_accounts.len() && #[trigger] old_accounts[o].id@ == k;
                        assert(self.accounts[o].id@ == k);
                        assert(o == j);
                    }
                }
                assert(self@ =~= before.insert(id@, balance));
            },
        }
        let msg = String::from_str("Account created: id=").concat(id).concat(", balance=").concat(
            decimal_string(balance).as_str(),
        );
        msg
    }

    /// Moves `amount` (decimal text) from `from` to `to`, as one step: either
    /// both balances change or neither does. Refused transfers leave the
    /// ledger as it was.
    pub fn transfer(&mut self, from: &str, to: &str, amount: &str) -> (r: Result<String, LedgerError>)
        requires
            old(self).wf(),
        ensures
            final(self).wf(),
            final(self)@ == after_transfer(old(self)@, from@, to@, amount@),
            match r {
                Ok(msg) => transfer_outcome(old(self)@, from@, to@, amount@) is Ok && msg@
                    == transfer_message(from@, to@, amount@),
                Err(e) => transfer_outcome(old(self)@, from@, to@, amount@) == Err::<
                    Map<Seq<char>, u64>,
                    LedgerError,
                >(e),
            },
    {
        let a = match parse_u64(amount) {
            Some(a) => a,
            None => return Err(LedgerError::InvalidAmount),
        };
        let from_key = String::from_str(from);
        let to_key = String::from_str(to);
        let fi = match self.find(&from_key) {
            Some(i) => i,
            None => return Err(LedgerError::FromNotFound),
        };
        let ti = match self.find(&to_key) {
            Some(i) => i,
            None => return Err(LedgerError::ToNotFound),
        };
        proof {
            self.lemma_view_at(fi as int);
            self.lemma_view_at(ti as int);
        }
        let from_balance = self.accounts[fi].balance;
        if from_balance < a {
            return Err(LedgerError::InsufficientFunds);
        }
        let msg = String::from_str("Transfer successful: ").concat(from).concat(" to ").concat(
            to,
        ).concat(" amount ").concat(amount);
        if fi == ti {
            return Ok(msg);
        }
        let to_balance = self.accounts[ti].balance;
        if to_balance > u64::MAX - a {
            return Err(LedgerError::BalanceOverflow);
        }
        let ghost before = self@;
        self.set_balance(fi, from_balance - a);
        assert(self.accounts[ti as int].id@ == to@);
        self.set_balance(ti, to_balance + a);
        assert(self@ =~= before.insert(from@, (from_balance - a) as u64).insert(to@, (to_balance + a) as u64));
        Ok(msg)
    }
}

} // verus!
