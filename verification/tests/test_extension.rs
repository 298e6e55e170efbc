use beancount_ext::cache::Assistant;
use beancount_ext::convert_currency;
use beancount_ext::generate_transaction_template;
use beancount_ext::suggest_accounts;
use beancount_ext::validate_beancount_file;

#[test]
fn test_account_suggestions() {
    // Salary context
    let suggestions = suggest_accounts("Monthly salary from employer");
    assert!(suggestions.contains(&"Income:Salary".to_string()));
    assert!(suggestions.contains(&"Assets:Checking".to_string()));

    // Food context
    let suggestions = suggest_accounts("Dinner at restaurant");
    assert!(suggestions.contains(&"Expenses:Food:Restaurant".to_string()));

    // Transportation context
    let suggestions = suggest_accounts("Gas station fill up");
    assert!(suggestions.contains(&"Expenses:Transportation:Gas".to_string()));

    // Investment context
    let suggestions = suggest_accounts("Buy stocks and shares");
    assert!(suggestions.contains(&"Assets:Investment:Stocks".to_string()));
    assert!(suggestions.contains(&"Income:Dividends".to_string()));
}

#[test]
fn test_currency_conversion() {
    // USD to EUR
    let result = convert_currency(100, "USD", "EUR");
    assert!(result.is_some());
    assert_eq!(result.unwrap(), 85);

    // EUR to USD
    let result = convert_currency(100, "EUR", "USD");
    assert!(result.is_some());
    assert_eq!(result.unwrap(), 118);

    // Unsupported pair
    let result = convert_currency(100, "XYZ", "ABC");
    assert!(result.is_none());
}

#[test]
fn test_transaction_template_generation() {
    let template = generate_transaction_template("Grocery Store", "Weekly shopping");

    // Proper structure
    assert!(template.contains("* \"Grocery Store\""));
    assert!(template.contains("\"Weekly shopping\""));
    assert!(template.contains("Assets:Checking"));
    assert!(template.contains("Expenses:Food:Groceries"));

    // Starts with the placeholder date
    assert!(template.starts_with("202"));
}

#[test]
fn test_file_validation() {
    // Valid content
    let valid_content = "\n2024-01-01 * \"Test\" \"Valid transaction\"\n  Assets:Checking  100.00 USD\n  Expenses:Test\n";
    let errors = validate_beancount_file(valid_content);
    assert!(errors.is_empty());

    // Invalid date format
    let invalid_date = "\n24-01-01 * \"Test\" \"Invalid date\"\n  Assets:Checking  100.00 USD\n  Expenses:Test\n";
    let errors = validate_beancount_file(invalid_date);
    assert!(!errors.is_empty());

    // Missing transaction flag
    let missing_flag = "\n2024-01-01 \"Test\" \"Missing flag\"\n  Assets:Checking  100.00 USD\n  Expenses:Test\n";
    let errors = validate_beancount_file(missing_flag);
    assert!(!errors.is_empty());

    // Unbalanced quotes
    let unbalanced_quotes = "\n2024-01-01 * \"Test \"Unbalanced quotes\"\n  Assets:Checking  100.00 USD\n  Expenses:Test\n";
    let errors = validate_beancount_file(unbalanced_quotes);
    assert!(!errors.is_empty());
}

#[test]
fn test_cache_functionality() {
    let mut extension = Assistant::default();

    let content = "\n2024-01-01 * \"Employer\" \"Salary payment\"\n  Assets:Checking  2000.00 USD\n  Income:Salary\n\n2024-01-02 * \"Store\" \"Groceries\"\n  Assets:Checking  -50.00 USD\n  Expenses:Food:Groceries\n\n2024-01-03 * \"Gas Station\" \"Fuel\"\n  Assets:Checking  -40.00 USD\n  Expenses:Transportation:Gas\n";

    extension.update_cache(content);

    // Accounts were extracted
    let accounts = &extension.accounts;
    assert!(accounts.contains(&"Assets:Checking".to_string()));
    assert!(accounts.contains(&"Income:Salary".to_string()));
    assert!(accounts.contains(&"Expenses:Food:Groceries".to_string()));
    assert!(accounts.contains(&"Expenses:Transportation:Gas".to_string()));

    // Payees were extracted
    assert!(extension.payees.contains(&"Employer".to_string()));
    assert!(extension.payees.contains(&"Store".to_string()));
    assert!(extension.payees.contains(&"Gas Station".to_string()));
}

#[test]
fn test_currency_cache() {
    let extension = Assistant::default();

    // Major currencies are pre-loaded
    assert!(extension.currencies.contains(&"USD".to_string()));
    assert!(extension.currencies.contains(&"EUR".to_string()));
    assert!(extension.currencies.contains(&"GBP".to_string()));
    assert!(extension.currencies.contains(&"BTC".to_string()));
    assert!(extension.currencies.contains(&"AAPL".to_string()));
}

#[test]
fn test_account_validation() {
    // Valid account names
    let valid_content = "\nopen Assets:Checking\nopen Expenses:Food:Restaurant\nopen Income:Salary:Base\n";
    let errors = validate_beancount_file(valid_content);
    // No account naming errors
    let account_errors: Vec<_> = errors
        .iter()
        .filter(|e| e.message().contains("Account name"))
        .collect();
    assert!(account_errors.is_empty());

    // Invalid account names
    let invalid_content = "\nopen assets:checking\nopen Expenses:food@restaurant\n";
    let errors = validate_beancount_file(invalid_content);
    assert!(!errors.is_empty());
}

#[test]
fn test_smart_suggestions_edge_cases() {
    // Empty context still provides default suggestions
    let suggestions = suggest_accounts("");
    assert!(!suggestions.is_empty());
    assert!(suggestions.contains(&"Assets:Checking".to_string()));

    // Unknown context
    let suggestions = suggest_accounts("unknown random context");
    assert!(suggestions.contains(&"Assets:Checking".to_string()));
    assert!(suggestions.contains(&"Expenses:Miscellaneous".to_string()));

    // Multiple contexts contribute cumulative suggestions
    let suggestions = suggest_accounts("salary food transportation");
    assert!(suggestions.len() > 3);
}
