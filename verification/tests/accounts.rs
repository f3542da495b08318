use token_ledger::accounts::{AccountBook, AccountError, Transaction};

fn name(s: &str) -> String {
    s.to_string()
}

fn text(s: &str) -> Vec<char> {
    s.chars().collect()
}

fn summary(t: &Transaction) -> (String, String, u64, u64) {
    (t.from.clone(), t.to.clone(), t.amount, t.timestamp)
}

#[test]
fn new_book_is_empty() {
    let book = AccountBook::new();
    assert_eq!(book.get_total_supply(), 0);
    assert_eq!(book.get_balance(&name("ann")), Err(AccountError::AccountNotFound));
    assert!(book.get_transaction_history(&name("ann")).is_empty());
}

#[test]
fn create_account_reports_and_adds_to_the_supply() {
    let mut book = AccountBook::new();
    assert_eq!(
        book.create_account(&name("alice"), 100),
        Ok(text("Account created for alice with balance 100"))
    );
    assert_eq!(book.get_balance(&name("alice")), Ok(100));
    assert_eq!(book.get_total_supply(), 100);
    assert!(book.get_transaction_history(&name("alice")).is_empty());
}

#[test]
fn create_account_adds_to_the_supply_once() {
    let mut book = AccountBook::new();
    assert_eq!(
        book.create_account(&name("ann"), 100),
        Ok(text("Account created for ann with balance 100"))
    );
    assert_eq!(
        book.create_account(&name("bob"), 0),
        Ok(text("Account created for bob with balance 0"))
    );
    assert_eq!(book.create_account(&name("ann"), 55), Err(AccountError::AccountExists));
    assert_eq!(book.get_balance(&name("ann")), Ok(100));
    assert_eq!(book.get_balance(&name("bob")), Ok(0));
    assert_eq!(book.get_balance(&name("Ann")), Err(AccountError::AccountNotFound));
    assert_eq!(book.get_total_supply(), 100);
    assert_eq!(
        book.create_account(&name(""), u64::MAX - 100),
        Ok(text("Account created for  with balance 18446744073709551515"))
    );
    assert_eq!(book.get_total_supply(), u64::MAX);
    assert_eq!(book.create_account(&name("ann"), u64::MAX), Err(AccountError::AccountExists));
}

#[test]
fn amounts_are_written_in_decimal() {
    let mut book = AccountBook::new();
    assert_eq!(book.create_account(&name("a"), 9), Ok(text("Account created for a with balance 9")));
    assert_eq!(book.create_account(&name("b"), 10), Ok(text("Account created for b with balance 10")));
    assert_eq!(
        book.create_account(&name("c d"), 1_000_000),
        Ok(text("Account created for c d with balance 1000000"))
    );
    assert_eq!(
        book.create_account(&name("émile"), 907),
        Ok(text("Account created for émile with balance 907"))
    );
    assert_eq!(
        book.send_token(&name("c d"), &name("émile"), 1_020, 1),
        Ok(text("Sent 1020 tokens from c d to émile"))
    );
    assert_eq!(book.send_token(&name("a"), &name("b"), 0, 2), Ok(text("Sent 0 tokens from a to b")));
    let mut large = AccountBook::new();
    assert_eq!(
        large.create_account(&name("all"), u64::MAX),
        Ok(text("Account created for all with balance 18446744073709551615"))
    );
    assert_eq!(
        large.send_token(&name("all"), &name("all"), u64::MAX, 3),
        Ok(text("Sent 18446744073709551615 tokens from all to all"))
    );
}

#[test]
fn send_token_moves_reports_and_logs() {
    let mut book = AccountBook::new();
    assert!(book.create_account(&name("ann"), 100).is_ok());
    assert!(book.create_account(&name("bob"), 5).is_ok());
    assert_eq!(
        book.send_token(&name("ann"), &name("bob"), 30, 1_111),
        Ok(text("Sent 30 tokens from ann to bob"))
    );
    assert_eq!(book.get_balance(&name("ann")), Ok(70));
    assert_eq!(book.get_balance(&name("bob")), Ok(35));
    assert_eq!(book.get_total_supply(), 105);
    assert_eq!(
        book.send_token(&name("bob"), &name("bob"), 35, 1_112),
        Ok(text("Sent 35 tokens from bob to bob"))
    );
    assert_eq!(book.get_balance(&name("bob")), Ok(35));
    let history = book.get_transaction_history(&name("bob"));
    assert_eq!(history.len(), 2);
    assert_eq!(summary(&history[0]), (name("ann"), name("bob"), 30, 1_111));
    assert_eq!(summary(&history[1]), (name("bob"), name("bob"), 35, 1_112));
}

#[test]
fn send_token_refusals() {
    let mut book = AccountBook::new();
    assert!(book.create_account(&name("ann"), 100).is_ok());
    assert!(book.create_account(&name("bob"), 5).is_ok());
    assert_eq!(book.send_token(&name("zed"), &name("bob"), 1, 1), Err(AccountError::SenderNotFound));
    assert_eq!(book.send_token(&name("zed"), &name("yan"), 1, 1), Err(AccountError::SenderNotFound));
    assert_eq!(book.send_token(&name("ann"), &name("bob"), 101, 1), Err(AccountError::InsufficientBalance));
    assert_eq!(book.send_token(&name("ann"), &name("zed"), 101, 1), Err(AccountError::InsufficientBalance));
    assert_eq!(book.send_token(&name("ann"), &name("zed"), 100, 1), Err(AccountError::RecipientNotFound));
    assert_eq!(book.get_balance(&name("ann")), Ok(100));
    assert_eq!(book.get_balance(&name("bob")), Ok(5));
    assert_eq!(book.get_total_supply(), 105);
    assert!(book.get_transaction_history(&name("ann")).is_empty());
    assert!(book.get_transaction_history(&name("bob")).is_empty());
}

#[test]
fn payment_to_a_missing_recipient_changes_nothing() {
    let mut book = AccountBook::new();
    assert!(book.create_account(&name("a"), 100).is_ok());
    assert_eq!(book.send_token(&name("a"), &name("ghost"), 30, 9), Err(AccountError::RecipientNotFound));
    assert_eq!(book.get_balance(&name("a")), Ok(100));
    assert_eq!(book.get_balance(&name("ghost")), Err(AccountError::AccountNotFound));
    assert_eq!(book.get_total_supply(), 100);
    assert!(book.get_transaction_history(&name("a")).is_empty());
    assert!(book.get_transaction_history(&name("ghost")).is_empty());
    assert_eq!(book.send_token(&name("a"), &name("ghost"), 0, 9), Err(AccountError::RecipientNotFound));
    assert_eq!(book.get_balance(&name("a")), Ok(100));
    // the name can still be taken, and the full balance is still there to pay with
    assert!(book.create_account(&name("ghost"), 0).is_ok());
    assert_eq!(
        book.send_token(&name("a"), &name("ghost"), 100, 10),
        Ok(text("Sent 100 tokens from a to ghost"))
    );
    assert_eq!(book.get_balance(&name("a")), Ok(0));
    assert_eq!(book.get_balance(&name("ghost")), Ok(100));
}

#[test]
fn history_keeps_what_concerns_the_name_in_order() {
    let mut book = AccountBook::new();
    for n in ["ann", "bob", "cat"] {
        assert!(book.create_account(&name(n), 1_000).is_ok());
    }
    assert!(book.send_token(&name("ann"), &name("bob"), 1, 10).is_ok());
    assert!(book.send_token(&name("bob"), &name("cat"), 2, 20).is_ok());
    assert!(book.send_token(&name("cat"), &name("ann"), 3, 30).is_ok());
    assert!(book.send_token(&name("cat"), &name("bob"), 4, 40).is_ok());
    assert_eq!(book.send_token(&name("ann"), &name("nobody"), 5, 50), Err(AccountError::RecipientNotFound));
    let ann: Vec<_> = book.get_transaction_history(&name("ann")).iter().map(summary).collect();
    assert_eq!(ann, vec![(name("ann"), name("bob"), 1, 10), (name("cat"), name("ann"), 3, 30)]);
    let cat: Vec<_> = book.get_transaction_history(&name("cat")).iter().map(summary).collect();
    assert_eq!(
        cat,
        vec![
            (name("bob"), name("cat"), 2, 20),
            (name("cat"), name("ann"), 3, 30),
            (name("cat"), name("bob"), 4, 40),
        ]
    );
    assert!(book.get_transaction_history(&name("nobody")).is_empty());
    assert_eq!(book.get_balance(&name("ann")), Ok(1_002));
    assert_eq!(book.get_balance(&name("bob")), Ok(1_003));
    assert_eq!(book.get_balance(&name("cat")), Ok(995));
    assert_eq!(book.get_total_supply(), 3_000);
}

#[test]
fn balances_add_up_to_the_supply() {
    let mut book = AccountBook::new();
    let names = ["ann", "bob", "cat"];
    let sum = |b: &AccountBook| -> u64 {
        names.iter().map(|n| b.get_balance(&name(n)).unwrap_or(0)).sum()
    };
    assert_eq!(sum(&book), book.get_total_supply());
    assert!(book.create_account(&name("ann"), 40).is_ok());
    assert_eq!(sum(&book), book.get_total_supply());
    assert!(book.create_account(&name("bob"), 2).is_ok());
    assert!(book.send_token(&name("ann"), &name("bob"), 40, 1).is_ok());
    assert_eq!(sum(&book), book.get_total_supply());
    assert!(book.send_token(&name("ann"), &name("bob"), 1, 2).is_err());
    assert!(book.send_token(&name("bob"), &name("cat"), 1, 3).is_err());
    assert!(book.create_account(&name("bob"), 7).is_err());
    assert_eq!(sum(&book), book.get_total_supply());
    assert_eq!(book.get_total_supply(), 42);
}

#[test]
fn refusals_have_their_words() {
    assert_eq!(AccountError::AccountExists.message(), "Account already exists");
    assert_eq!(AccountError::SenderNotFound.message(), "Sender account not found");
    assert_eq!(AccountError::InsufficientBalance.message(), "Insufficient balance");
    assert_eq!(AccountError::RecipientNotFound.message(), "Recipient account not found");
    assert_eq!(AccountError::AccountNotFound.message(), "Account not found");
}

#[test]
fn transaction_clone_keeps_every_field() {
    let t = Transaction { from: name("ann"), to: name("bob"), amount: 7, timestamp: 8 };
    assert_eq!(summary(&t.clone()), (name("ann"), name("bob"), 7, 8));
}
