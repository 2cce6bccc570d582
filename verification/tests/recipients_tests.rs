use solana_sdk::pubkey::Pubkey;
use spl_airdropper::address::Address;
use spl_airdropper::recipients::{load_recipients, RecipientsError};

fn fresh_address_text() -> String {
    Pubkey::new_unique().to_string()
}

#[test]
fn mixed_file_keeps_valid_lines_in_order() {
    let a1 = fresh_address_text();
    let a2 = fresh_address_text();
    let content = format!("# comment\n\n{}\nnot-an-address\n{}\n", a1, a2);
    let load = load_recipients(&content).unwrap();
    assert_eq!(load.recipients.len(), 2);
    let b1 = Address::new(a1.parse::<Pubkey>().unwrap().to_bytes());
    let b2 = Address::new(a2.parse::<Pubkey>().unwrap().to_bytes());
    assert_eq!(load.recipients[0], b1);
    assert_eq!(load.recipients[1], b2);
    assert_eq!(load.warnings.len(), 1);
    assert_eq!(load.warnings[0].line, 4);
    assert_eq!(load.warnings[0].text, "not-an-address");
}

#[test]
fn order_and_duplicates_are_preserved() {
    let a1 = fresh_address_text();
    let a2 = fresh_address_text();
    let content = format!("{}\n{}\n{}", a2, a1, a2);
    let load = load_recipients(&content).unwrap();
    assert_eq!(load.recipients.len(), 3);
    assert_eq!(load.recipients[0], load.recipients[2]);
    assert_ne!(load.recipients[0], load.recipients[1]);
    assert!(load.warnings.is_empty());
}

#[test]
fn surrounding_whitespace_is_trimmed() {
    let a1 = fresh_address_text();
    let content = format!("  {}\t\r\n", a1);
    let load = load_recipients(&content).unwrap();
    assert_eq!(load.recipients.len(), 1);
    let b1 = Address::new(a1.parse::<Pubkey>().unwrap().to_bytes());
    assert_eq!(load.recipients[0], b1);
}

#[test]
fn empty_file_fails() {
    assert_eq!(
        load_recipients("").unwrap_err(),
        RecipientsError::NoValidRecipients
    );
}

#[test]
fn all_invalid_file_fails() {
    let content = "# only comments\nnot-an-address\n\n";
    assert_eq!(
        load_recipients(content).unwrap_err(),
        RecipientsError::NoValidRecipients
    );
}

#[test]
fn comment_only_after_trim_is_skipped() {
    let a1 = fresh_address_text();
    let content = format!("   # indented comment\n{}", a1);
    let load = load_recipients(&content).unwrap();
    assert_eq!(load.recipients.len(), 1);
    assert!(load.warnings.is_empty());
}
