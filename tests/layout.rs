use tl_scraper::bucketing::{bucket_transactions, TxDates};
use tl_scraper::calendar::Date;
use tl_scraper::layout::{
    account_dir_name, cards_list_path, mirror_path, month_file_contents, user_info_path, Dataset,
    Holder,
};
use tl_scraper::records::{AccountNumber, AccountsProvider, AccountsResult};
use tl_scraper::store::StoreError;

fn d(year: i32, month: u32, day: u32) -> Date {
    Date::new(year, month, day).expect("valid date")
}

fn account(sort_code: Option<&str>, number: Option<&str>) -> AccountsResult {
    AccountsResult {
        account_id: "acc-1".to_string(),
        account_type: "TRANSACTION".to_string(),
        display_name: "Current".to_string(),
        currency: "GBP".to_string(),
        account_number: AccountNumber {
            iban: None,
            number: number.map(|s| s.to_string()),
            sort_code: sort_code.map(|s| s.to_string()),
            swift_bic: None,
        },
        provider: AccountsProvider { provider_id: "ob-bank".to_string() },
    }
}

#[test]
fn account_directory_uses_sort_code_and_number() {
    assert_eq!(account_dir_name(&account(Some("12-34-56"), Some("12345678"))), "12-34-56 12345678");
    assert_eq!(account_dir_name(&account(Some("12-34-56"), None)), "acc-1");
    assert_eq!(account_dir_name(&account(None, Some("12345678"))), "acc-1");
}

#[test]
fn providers_compare_by_identifier() {
    let a = AccountsProvider { provider_id: "x".to_string() };
    let b = AccountsProvider { provider_id: "x".to_string() };
    let c = AccountsProvider { provider_id: "y".to_string() };
    assert!(a == b);
    assert!(a != c);
}

#[test]
fn mirror_paths() {
    let key = account_dir_name(&account(Some("12-34-56"), Some("12345678")));
    assert_eq!(mirror_path(Holder::Account, &key, Dataset::Details), "accounts/12-34-56 12345678/account.jsonl");
    assert_eq!(mirror_path(Holder::Account, &key, Dataset::Month(d(2024, 2, 1))), "accounts/12-34-56 12345678/2024-02.jsonl");
    assert_eq!(mirror_path(Holder::Account, &key, Dataset::StandingOrders), "accounts/12-34-56 12345678/standing-orders.jsonl");
    assert_eq!(mirror_path(Holder::Account, &key, Dataset::DirectDebits), "accounts/12-34-56 12345678/direct-debits.jsonl");
    assert_eq!(mirror_path(Holder::Account, &key, Dataset::Undated), "accounts/12-34-56 12345678/undated.jsonl");
    assert_eq!(mirror_path(Holder::Card, "c1", Dataset::Balance), "cards/c1/balance.jsonl");
    assert_eq!(mirror_path(Holder::Card, "c1", Dataset::Pending), "cards/c1/pending.jsonl");
    assert_eq!(user_info_path(), "user-info.jsonl");
    assert_eq!(cards_list_path(), "cards.jsonl");
}

#[test]
fn empty_month_writes_no_file() {
    assert_eq!(month_file_contents(Vec::new()), Ok(None));
}

#[test]
fn month_file_is_oldest_first() {
    let newest_first = vec![b"{\"n\":3}".to_vec(), b"{\"n\":2}".to_vec(), b"{\"n\":1}".to_vec()];
    let bytes = month_file_contents(newest_first).expect("framed").expect("a file");
    assert_eq!(bytes, b"{\"n\":1}\n{\"n\":2}\n{\"n\":3}\n".to_vec());
}

#[test]
fn month_file_refuses_a_record_with_a_newline() {
    let records = vec![b"1\n".to_vec(), b"2\n".to_vec(), b"3".to_vec()];
    assert_eq!(month_file_contents(records), Err(StoreError::EmbeddedNewline { record: 1 }));
}

#[test]
fn rerun_writes_the_same_file_with_the_same_bytes() {
    let records = || vec![b"{\"id\":\"b\"}".to_vec(), b"{\"id\":\"a\"}".to_vec()];
    let first = (mirror_path(Holder::Card, "c9", Dataset::Month(d(2024, 3, 1))), month_file_contents(records()));
    let second = (mirror_path(Holder::Card, "c9", Dataset::Month(d(2024, 3, 1))), month_file_contents(records()));
    assert_eq!(first, second);
    assert_eq!(first.0, "cards/c9/2024-03.jsonl");
}

fn dates(booking: Option<Date>, booking_day: Option<Date>, value: Option<Date>) -> TxDates {
    TxDates { booking_date: booking, booking_day, value_date: value }
}

#[test]
fn undated_transaction_lands_in_the_undated_bucket() {
    let booked = vec![dates(None, None, None), dates(Some(d(2024, 2, 14)), None, None)];
    let pending = vec![dates(None, None, None)];
    let buckets = bucket_transactions(&booked, &pending);
    assert_eq!(buckets.len(), 2);
    let undated = buckets.iter().find(|b| b.month.is_none()).expect("undated bucket");
    assert_eq!(undated.booked, vec![0]);
    assert_eq!(undated.pending, vec![0]);
    assert_eq!(mirror_path(Holder::Account, "acc-1", Dataset::Undated), "accounts/acc-1/undated.jsonl");
    let feb = buckets.iter().find(|b| b.month == Some(d(2024, 2, 1))).expect("february bucket");
    assert_eq!(feb.booked, vec![1]);
    assert!(feb.pending.is_empty());
}

#[test]
fn bucket_date_is_chosen_in_priority_order() {
    let booked = vec![
        dates(Some(d(2024, 1, 31)), Some(d(2024, 2, 1)), Some(d(2024, 3, 1))),
        dates(None, Some(d(2024, 2, 1)), Some(d(2024, 3, 1))),
        dates(None, None, Some(d(2024, 3, 5))),
        dates(Some(d(2024, 1, 2)), None, None),
    ];
    let buckets = bucket_transactions(&booked, &Vec::new());
    assert_eq!(buckets.len(), 3);
    let month = |m: u32| buckets.iter().find(|b| b.month == Some(d(2024, m, 1))).expect("bucket");
    assert_eq!(month(1).booked, vec![0, 3]);
    assert_eq!(month(2).booked, vec![1]);
    assert_eq!(month(3).booked, vec![2]);
}
