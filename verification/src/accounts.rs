use vstd::prelude::*;
use crate::keyed_map::KeyedMap;
use crate::ledger::{lemma_moved_keeps_sum, lemma_sum_insert, moved, sum_of};

verus! {

/// Why the book of named accounts refused a call.
#[derive(Clone, Copy, Debug, PartialEq, Eq, Structural)]
pub enum AccountError {
    AccountExists,
    SenderNotFound,
    InsufficientBalance,
    RecipientNotFound,
    AccountNotFound,
}

/// The text that goes with each refusal.
pub open spec fn refusal_text(error: AccountError) -> Seq<char> {
    match error {
        AccountError::AccountExists => "Account already exists"@,
        AccountError::SenderNotFound => "Sender account not found"@,
        AccountError::InsufficientBalance => "Insufficient balance"@,
        AccountError::RecipientNotFound => "Recipient account not found"@,
        AccountError::AccountNotFound => "Account not found"@,
    }
}

impl AccountError {
    /// The text that goes with this refusal.
    pub fn message(&self) -> (text: &'static str)
        ensures
            text@ == refusal_text(*self),
    {
        match self {
            AccountError::AccountExists => "Account already exists",
            AccountError::SenderNotFound => "Sender account not found",
            AccountError::InsufficientBalance => "Insufficient balance",
            AccountError::RecipientNotFound => "Recipient account not found",
            AccountError::AccountNotFound => "Account not found",
        }
    }
}

/// One completed payment between two named accounts.
#[derive(Debug)]
pub struct Transaction {
    pub from: String,
    pub to: String,
    pub amount: u64,
    pub timestamp: u64,
}

/// A payment as mathematics.
pub struct TransactionView {
    pub from: Seq<char>,
    pub to: Seq<char>,
    pub amount: u64,
    pub timestamp: u64,
}

impl View for Transaction {
    type V = TransactionView;

    open spec fn view(&self) -> TransactionView {
        TransactionView {
            from: self.from@,
            to: self.to@,
            amount: self.amount,
            timestamp: self.timestamp,
        }
    }
}

impl Clone for Transaction {
    fn clone(&self) -> (copy: Transaction)
        ensures
            copy@ == self@,
    {
        Transaction {
            from: self.from.clone(),
            to: self.to.clone(),
            amount: self.amount,
            timestamp: self.timestamp,
        }
    }
}

/// The payments of a list, each as mathematics.
pub open spec fn views_of(transactions: Seq<Transaction>) -> Seq<TransactionView> {
    transactions.map_values(|t: Transaction| t@)
}

/// Whether the account `name` paid or was paid in `t`.
pub open spec fn concerns(name: Seq<char>) -> spec_fn(TransactionView) -> bool {
    |t: TransactionView| t.from == name || t.to == name
}

/// The answer to a payment of `amount` from `from` to `to`: the sender
/// is looked up and its balance compared first, the recipient after that,
/// and all of it before anything changes.
pub open spec fn send_check(
    balances: Map<Seq<char>, u64>,
    from: Seq<char>,
    to: Seq<char>,
    amount: u64,
) -> Result<(), AccountError> {
    if !balances.contains_key(from) {
        Err(AccountError::SenderNotFound)
    } else if balances[from] < amount {
        Err(AccountError::InsufficientBalance)
    } else if !balances.contains_key(to) {
        Err(AccountError::RecipientNotFound)
    } else {
        Ok(())
    }
}

/// The character that stands for the digit `d`.
pub open spec fn digit_char(d: nat) -> char {
    if d == 0 {
        '0'
    } else if d == 1 {
        '1'
    } else if d == 2 {
        '2'
    } else if d == 3 {
        '3'
    } else if d == 4 {
        '4'
    } else if d == 5 {
        '5'
    } else if d == 6 {
        '6'
    } else if d == 7 {
        '7'
    } else if d == 8 {
        '8'
    } else {
        '9'
    }
}

/// `n` in decimal, without leading zeros.
pub open spec fn decimal(n: nat) -> Seq<char>
    decreases n,
{
    if n < 10 {
        seq![digit_char(n)]
    } else {
        decimal(n / 10).push(digit_char(n % 10))
    }
}

/// The text that reports the opening of the account `name` with `balance`.
pub open spec fn created_text(name: Seq<char>, balance: u64) -> Seq<char> {
    "Account created for "@ + name + " with balance "@ + decimal(balance as nat)
}

/// The text that reports a payment of `amount` from `from` to `to`.
pub open spec fn sent_text(amount: u64, from: Seq<char>, to: Seq<char>) -> Seq<char> {
    "Sent "@ + decimal(amount as nat) + " tokens from "@ + from + " to "@ + to
}

fn digit(d: u64) -> (c: char)
    requires
        d < 10,
    ensures
        c == digit_char(d as nat),
{
    if d == 0 {
        '0'
    } else if d == 1 {
        '1'
    } else if d == 2 {
        '2'
    } else if d == 3 {
        '3'
    } else if d == 4 {
        '4'
    } else if d == 5 {
        '5'
    } else if d == 6 {
        '6'
    } else if d == 7 {
        '7'
    } else if d == 8 {
        '8'
    } else {
        '9'
    }
}

fn push_decimal(out: &mut Vec<char>, n: u64)
    ensures
        final(out)@ == old(out)@ + decimal(n as nat),
    decreases n,
{
    if n >= 10 {
        push_decimal(out, n / 10);
    }
    out.push(digit(n % 10));
    assert(out@ =~= old(out)@ + decimal(n as nat));
}

fn push_text(out: &mut Vec<char>, text: &str)
    ensures
        final(out)@ == old(out)@ + text@,
{
    let ghost start = out@;
    let n = text.unicode_len();
    let mut i: usize = 0;
    while i < n
        invariant
            n == text@.len(),
            i <= n,
            out@ == start + text@.subrange(0, i as int),
        decreases n - i,
    {
        out.push(text.get_char(i));
        i += 1;
        assert(out@ =~= start + text@.subrange(0, i as int));
    }
    assert(text@.subrange(0, n as int) =~= text@);
}

fn created_message(name: &String, balance: u64) -> (text: Vec<char>)
    ensures
        text@ == created_text(name@, balance),
{
    let mut text: Vec<char> = Vec::new();
    push_text(&mut text, "Account created for ");
    push_text(&mut text, name.as_str());
    push_text(&mut text, " with balance ");
    push_decimal(&mut text, balance);
    assert(text@ =~= created_text(name@, balance));
    text
}

fn sent_message(amount: u64, from: &String, to: &String) -> (text: Vec<char>)
    ensures
        text@ == sent_text(amount, from@, to@),
{
    let mut text: Vec<char> = Vec::new();
    push_text(&mut text, "Sent ");
    push_decimal(&mut text, amount);
    push_text(&mut text, " tokens from ");
    push_text(&mut text, from.as_str());
    push_text(&mut text, " to ");
    push_text(&mut text, to.as_str());
    assert(text@ =~= sent_text(amount, from@, to@));
    text
}

/// Accounts by name, the supply that was issued to them, and the log of
/// completed payments.
pub struct AccountBook {
    accounts: KeyedMap<String, u64>,
    total_supply: u64,
    transactions: Vec<Transaction>,
}

impl AccountBook {
    /// The balance of each account.
    pub closed spec fn balances(&self) -> Map<Seq<char>, u64> {
        self.accounts@
    }

    /// The supply: the sum of the balances that accounts were opened with.
    pub closed spec fn supply(&self) -> nat {
        self.total_supply as nat
    }

    /// The completed payments, the oldest first.
    pub closed spec fn log(&self) -> Seq<TransactionView> {
        views_of(self.transactions@)
    }

    /// The book holds finitely many accounts, and their balances add up
    /// to the supply.
    pub closed spec fn wf(&self) -> bool {
        &&& self.accounts.wf()
        &&& self.accounts@.dom().finite()
        &&& sum_of(self.accounts@) == self.total_supply
    }

    /// What a well-formed book has by being one.
    pub proof fn lemma_wf(&self)
        requires
            self.wf(),
        ensures
            self.balances().dom().finite(),
            sum_of(self.balances()) == self.supply(),
            self.supply() <= u64::MAX,
    {
    }

    /// A book without accounts, supply or payments.
    pub fn new() -> (book: AccountBook)
        ensures
            book.wf(),
            book.balances() == Map::<Seq<char>, u64>::empty(),
            book.supply() == 0,
            book.log() == Seq::<TransactionView>::empty(),
    {
        let book = AccountBook {
            accounts: KeyedMap::new(),
            total_supply: 0,
            transactions: Vec::new(),
        };
        assert(book.log() =~= Seq::<TransactionView>::empty());
        book
    }

    /// Opens the account `name` with `initial_balance`, which is added to
    /// the supply, and reports it; or refuses where the name is taken.
    pub fn create_account(&mut self, name: &String, initial_balance: u64) -> (r: Result<
        Vec<char>,
        AccountError,
    >)
        requires
            old(self).wf(),
            !old(self).balances().contains_key(name@) ==> old(self).supply() + initial_balance
                <= u64::MAX,
        ensures
            final(self).wf(),
            match r {
                Ok(text) => !old(self).balances().contains_key(name@) && text@ == created_text(
                    name@,
                    initial_balance,
                ),
                Err(e) => old(self).balances().contains_key(name@) && e
                    == AccountError::AccountExists,
            },
            r is Err ==> *final(self) == *old(self),
            r is Ok ==> final(self).balances() == old(self).balances().insert(
                name@,
                initial_balance,
            ),
            r is Ok ==> final(self).supply() == old(self).supply() + initial_balance,
            final(self).log() == old(self).log(),
    {
        if self.accounts.get(name).is_some() {
            return Err(AccountError::AccountExists);
        }
        proof {
            lemma_sum_insert(self.accounts@, name@, initial_balance);
        }
        self.accounts.insert(name, initial_balance);
        self.total_supply = self.total_supply + initial_balance;
        Ok(created_message(name, initial_balance))
    }

    /// Pays `amount` from `from` to `to`, logs the payment with the time
    /// `now` and reports it; or refuses and changes nothing.
    pub fn send_token(&mut self, from: &String, to: &String, amount: u64, now: u64) -> (r: Result<
        Vec<char>,
        AccountError,
    >)
        requires
            old(self).wf(),
        ensures
            final(self).wf(),
            match r {
                Ok(text) => send_check(old(self).balances(), from@, to@, amount) is Ok && text@
                    == sent_text(amount, from@, to@),
                Err(e) => send_check(old(self).balances(), from@, to@, amount) == Err::<
                    (),
                    AccountError,
                >(e),
            },
            r is Err ==> *final(self) == *old(self),
            r is Ok ==> final(self).balances() == moved(old(self).balances(), from@, to@, amount),
            r is Ok ==> final(self).log() == old(self).log().push(
                TransactionView { from: from@, to: to@, amount, timestamp: now },
            ),
            final(self).supply() == old(self).supply(),
    {
        let held: u64 = match self.accounts.get(from) {
            None => {
                return Err(AccountError::SenderNotFound);
            },
            Some(balance) => *balance,
        };
        if held < amount {
            return Err(AccountError::InsufficientBalance);
        }
        let receiving: u64 = match self.accounts.get(to) {
            None => {
                return Err(AccountError::RecipientNotFound);
            },
            Some(balance) => *balance,
        };
        proof {
            lemma_moved_keeps_sum(self.accounts@, from@, to@, amount);
        }
        self.accounts.insert(from, held - amount);
        let received: u64 = if *from == *to {
            held - amount
        } else {
            receiving
        };
        self.accounts.insert(to, received + amount);
        self.transactions.push(
            Transaction { from: from.clone(), to: to.clone(), amount, timestamp: now },
        );
        assert(self.log() =~= old(self).log().push(
            TransactionView { from: from@, to: to@, amount, timestamp: now },
        ));
        Ok(sent_message(amount, from, to))
    }

    /// The balance of the account `name`.
    pub fn get_balance(&self, name: &String) -> (r: Result<u64, AccountError>)
        requires
            self.wf(),
        ensures
            r == if self.balances().contains_key(name@) {
                Ok::<u64, AccountError>(self.balances()[name@])
            } else {
                Err(AccountError::AccountNotFound)
            },
    {
        match self.accounts.get(name) {
            Some(balance) => Ok(*balance),
            None => Err(AccountError::AccountNotFound),
        }
    }

    /// The supply that was issued.
    pub fn get_total_supply(&self) -> (supply: u64)
        ensures
            supply == self.supply(),
    {
        self.total_supply
    }

    /// The logged payments that `name` made or received, in the order in
    /// which they were logged.
    pub fn get_transaction_history(&self, name: &String) -> (history: Vec<Transaction>)
        ensures
            views_of(history@) == self.log().filter(concerns(name@)),
    {
        let mut history: Vec<Transaction> = Vec::new();
        let mut i: usize = 0;
        proof {
            assert(self.log().take(0) =~= Seq::<TransactionView>::empty());
            assert(views_of(history@) =~= Seq::<TransactionView>::empty());
            assert(Seq::<TransactionView>::empty().filter(concerns(name@))
                =~= Seq::<TransactionView>::empty()) by {
                reveal(Seq::filter);
            }
        }
        while i < self.transactions.len()
            invariant
                i <= self.transactions@.len(),
                self.log() == views_of(self.transactions@),
                views_of(history@) == self.log().take(i as int).filter(concerns(name@)),
            decreases self.transactions@.len() - i,
        {
            let t = &self.transactions[i];
            proof {
                let seen = self.log().take(i as int);
                assert(self.log().take(i + 1) =~= seen.push(t@));
                seen.lemma_filter_push(t@, concerns(name@));
            }
            if t.from == *name || t.to == *name {
                let ghost before = views_of(history@);
                history.push(t.clone());
                assert(views_of(history@) =~= before.push(t@));
            }
            i += 1;
        }
        assert(self.log().take(i as int) =~= self.log());
        history
    }
}

} // verus!
