use beancount_ext::cache::Assistant;
use beancount_ext::convert_currency;
use beancount_ext::generate_transaction_template;
use beancount_ext::suggest_accounts;
use beancount_ext::validate_beancount_file;
use beancount_ext::validate::ErrorKind;

#[test]
fn salary_keywords_always_suggest_income_and_checking() {
    for context in [
        "salary",
        "SALARY BONUS",
        "the wage slip arrived",
        "Payroll run for March",
    ] {
        let suggestions = suggest_accounts(context);
        assert!(suggestions.contains(&"Income:Salary".to_string()));
        assert!(suggestions.contains(&"Assets:Checking".to_string()));
    }
}

#[test]
fn one_group_yields_exactly_its_list() {
    let suggestions = suggest_accounts("salary and wage and payroll");
    assert_eq!(
        suggestions,
        vec!["Income:Salary".to_string(), "Assets:Checking".to_string()]
    );
}

#[test]
fn duplicates_across_groups_are_kept() {
    let suggestions = suggest_accounts("salary food");
    assert_eq!(
        suggestions,
        vec![
            "Income:Salary".to_string(),
            "Assets:Checking".to_string(),
            "Expenses:Food:Restaurant".to_string(),
            "Expenses:Food:Groceries".to_string(),
            "Assets:Checking".to_string(),
        ]
    );
}

#[test]
fn currency_table_is_exact() {
    assert_eq!(convert_currency(100, "USD", "GBP"), Some(73));
    assert_eq!(convert_currency(100, "GBP", "USD"), Some(137));
    assert_eq!(convert_currency(200, "USD", "EUR"), Some(170));
    // The identity pair is not in the table.
    assert_eq!(convert_currency(100, "USD", "USD"), None);
    assert_eq!(convert_currency(100, "EUR", "GBP"), None);
    assert_eq!(convert_currency(0, "USD", "EUR"), Some(0));
}

#[test]
fn template_renders_exactly() {
    let template = generate_transaction_template("Grocery Store", "Weekly shopping");
    assert_eq!(
        template,
        "2024-01-01 * \"Grocery Store\" \"Weekly shopping\"\n  Expenses:Food:Groceries  \n  Assets:Checking "
    );
}

#[test]
fn template_for_unknown_context_uses_defaults() {
    let template = generate_transaction_template("Somebody", "something else");
    assert_eq!(
        template,
        "2024-01-01 * \"Somebody\" \"something else\"\n  Expenses:Miscellaneous  \n  Income:Other "
    );
}

#[test]
fn validation_reports_each_kind_with_its_line() {
    let errors = validate_beancount_file("24-01-01 * \"Test\" \"x\"");
    assert_eq!(errors.len(), 1);
    assert_eq!(errors[0].kind, ErrorKind::BadDate);
    assert_eq!(errors[0].line, 1);
    assert!(errors[0].message().contains("Invalid date format"));

    let errors = validate_beancount_file("\n2024-01-01 \"Test\" \"x\"");
    assert_eq!(errors.len(), 1);
    assert_eq!(errors[0].kind, ErrorKind::MissingFlag);
    assert_eq!(errors[0].line, 2);
    assert!(errors[0].message().contains("Missing transaction flag"));

    let errors = validate_beancount_file("2024-01-01 * \"Test \"x\"");
    assert_eq!(errors.len(), 1);
    assert_eq!(errors[0].kind, ErrorKind::UnbalancedQuotes);
    assert!(errors[0].message().contains("Unbalanced quotes"));

    let errors = validate_beancount_file("open assets:checking");
    assert_eq!(errors.len(), 1);
    assert_eq!(errors[0].kind, ErrorKind::AccountCase);
    assert!(errors[0].message().contains("Account name"));

    let errors = validate_beancount_file("open Expenses:food@restaurant");
    assert_eq!(errors.len(), 1);
    assert_eq!(errors[0].kind, ErrorKind::AccountChar);
    assert!(errors[0].message().contains("Account name"));
}

#[test]
fn validation_runs_every_applicable_check_per_line() {
    // A dated line with no flag, a malformed date, an odd quote count and a
    // bad account name collects all four findings, in check order.
    let errors = validate_beancount_file("2024-01+01 bad:account \"");
    let kinds: Vec<ErrorKind> = errors.iter().map(|e| e.kind).collect();
    assert_eq!(
        kinds,
        vec![
            ErrorKind::MissingFlag,
            ErrorKind::BadDate,
            ErrorKind::UnbalancedQuotes,
            ErrorKind::AccountCase,
        ]
    );
    assert!(errors.iter().all(|e| e.line == 1));
}

#[test]
fn validation_skips_blank_and_comment_lines() {
    let errors = validate_beancount_file("\n   \n; 24-01-01 \"odd\n");
    assert!(errors.is_empty());
}

#[test]
fn option_lines_are_not_account_checked() {
    let errors = validate_beancount_file("option \"title\" \"my:ledger\"");
    assert!(errors.is_empty());
}

#[test]
fn cache_keeps_first_appearance_order_without_duplicates() {
    let mut assistant = Assistant::default();
    let content = "\n2024-01-01 * \"Employer\" \"Salary payment\"\n  Assets:Checking  2000.00 USD\n  Income:Salary\n\n2024-01-02 * \"Store\" \"Groceries\"\n  Assets:Checking  -50.00 USD\n  Expenses:Food:Groceries\n\n2024-01-03 * \"Gas Station\" \"Fuel\"\n  Assets:Checking  -40.00 USD\n  Expenses:Transportation:Gas\n";
    assistant.update_cache(content);
    assert_eq!(
        assistant.accounts,
        vec![
            "Assets:Checking".to_string(),
            "Income:Salary".to_string(),
            "Expenses:Food:Groceries".to_string(),
            "Expenses:Transportation:Gas".to_string(),
        ]
    );
    assert_eq!(
        assistant.payees,
        vec![
            "Employer".to_string(),
            "Store".to_string(),
            "Gas Station".to_string(),
        ]
    );
}

#[test]
fn cache_update_is_idempotent() {
    let mut assistant = Assistant::default();
    let content = "2024-01-01 * \"Shop\" \"x\"\n  Assets:Cash  1.00 USD\n  Expenses:Misc\n";
    assistant.update_cache(content);
    let accounts_once = assistant.accounts.clone();
    let payees_once = assistant.payees.clone();
    let currencies_once = assistant.currencies.clone();
    assistant.update_cache(content);
    assert_eq!(assistant.accounts, accounts_once);
    assert_eq!(assistant.payees, payees_once);
    assert_eq!(assistant.currencies, currencies_once);
}

#[test]
fn cache_is_rebuilt_not_merged() {
    let mut assistant = Assistant::default();
    assistant.update_cache("  Assets:Old  1.00 USD\n2024-01-01 * \"Old Payee\" \"x\"");
    assistant.update_cache("  Assets:New  1.00 USD\n2024-01-01 * \"New Payee\" \"x\"");
    assert_eq!(assistant.accounts, vec!["Assets:New".to_string()]);
    assert_eq!(assistant.payees, vec!["New Payee".to_string()]);
}

#[test]
fn payee_needs_flag_and_two_quotes() {
    let mut assistant = Assistant::default();
    // No flag: the quoted text is not a payee.
    assistant.update_cache("2024-01-01 \"Quoted\" \"x\"");
    assert!(assistant.payees.is_empty());
    // A flag but only one quote: nothing extracted.
    assistant.update_cache("2024-01-01 * \"Unterminated");
    assert!(assistant.payees.is_empty());
    // An empty payee is not cached.
    assistant.update_cache("2024-01-01 * \"\" \"x\"");
    assert!(assistant.payees.is_empty());
}
