//! Where each scraped dataset lands in the output directory, and what a
//! month of transactions is written as.
use vstd::prelude::*;
use crate::calendar::{Date, month_label, month_label_spec};
use crate::records::AccountsResult;
use crate::store::{StoreError, all_newline_free, byte_views, encode_jsonl, jsonl, newline_free};

verus! {

/// Whose directory a file belongs in.
#[derive(Clone, Copy, Debug, PartialEq, Eq, Structural)]
pub enum Holder {
    Account,
    Card,
}

/// One file of an account's or a card's directory.
#[derive(Clone, Copy, Debug, PartialEq, Eq, Structural)]
pub enum Dataset {
    Details,
    Balance,
    Pending,
    StandingOrders,
    DirectDebits,
    /// The transactions of the month of this date.
    Month(Date),
    /// Transactions that carry no date.
    Undated,
}

pub open spec fn holder_dir(h: Holder) -> Seq<char> {
    match h {
        Holder::Account => "accounts"@,
        Holder::Card => "cards"@,
    }
}

pub open spec fn dataset_file(d: Dataset) -> Seq<char> {
    match d {
        Dataset::Details => "account.jsonl"@,
        Dataset::Balance => "balance.jsonl"@,
        Dataset::Pending => "pending.jsonl"@,
        Dataset::StandingOrders => "standing-orders.jsonl"@,
        Dataset::DirectDebits => "direct-debits.jsonl"@,
        Dataset::Month(m) => month_label_spec(m.year as int, m.month as int) + ".jsonl"@,
        Dataset::Undated => "undated.jsonl"@,
    }
}

pub open spec fn dataset_wf(d: Dataset) -> bool {
    d matches Dataset::Month(m) ==> m.wf()
}

/// The path, relative to the output directory, of a holder's dataset.
pub open spec fn mirror_path_spec(h: Holder, key: Seq<char>, d: Dataset) -> Seq<char> {
    holder_dir(h) + "/"@ + key + "/"@ + dataset_file(d)
}

/// The directory name of an account: `"{sort_code} {number}"` when both are
/// known, else its identifier.
pub open spec fn account_key(a: AccountsResult) -> Seq<char> {
    match (a.account_number.sort_code, a.account_number.number) {
        (Some(sc), Some(n)) => sc@ + " "@ + n@,
        _ => a.account_id@,
    }
}

/// The directory name of an account.
pub fn account_dir_name(account: &AccountsResult) -> (r: String)
    ensures
        r@ == account_key(*account),
{
    match (&account.account_number.sort_code, &account.account_number.number) {
        (Some(sort_code), Some(number)) => {
            let mut name = sort_code.clone();
            name.append(" ");
            name.append(number.as_str());
            name
        },
        _ => account.account_id.clone(),
    }
}

fn dataset_file_name(d: Dataset) -> (r: String)
    requires
        dataset_wf(d),
    ensures
        r@ == dataset_file(d),
{
    match d {
        Dataset::Details => String::from_str("account.jsonl"),
        Dataset::Balance => String::from_str("balance.jsonl"),
        Dataset::Pending => String::from_str("pending.jsonl"),
        Dataset::StandingOrders => String::from_str("standing-orders.jsonl"),
        Dataset::DirectDebits => String::from_str("direct-debits.jsonl"),
        Dataset::Month(m) => {
            let mut name = month_label(m);
            name.append(".jsonl");
            name
        },
        Dataset::Undated => String::from_str("undated.jsonl"),
    }
}

/// Path of a holder's dataset relative to the output directory:
/// `accounts/{key}/{file}` or `cards/{key}/{file}`.
pub fn mirror_path(holder: Holder, key: &str, dataset: Dataset) -> (r: String)
    requires
        dataset_wf(dataset),
    ensures
        r@ == mirror_path_spec(holder, key@, dataset),
{
    let mut path = match holder {
        Holder::Account => String::from_str("accounts"),
        Holder::Card => String::from_str("cards"),
    };
    path.append("/");
    path.append(key);
    path.append("/");
    let file = dataset_file_name(dataset);
    path.append(file.as_str());
    path
}

/// Path of the user information file relative to the output directory.
pub fn user_info_path() -> (r: String)
    ensures
        r@ == "user-info.jsonl"@,
{
    String::from_str("user-info.jsonl")
}

/// Path of the list of cards relative to the output directory.
pub fn cards_list_path() -> (r: String)
    ensures
        r@ == "cards.jsonl"@,
{
    String::from_str("cards.jsonl")
}

/// The file contents for one month of transactions, which upstream lists
/// newest first: the records oldest first as JSON lines, or nothing at all
/// for a month without transactions.
pub fn month_file_contents(records: Vec<Vec<u8>>) -> (r: Result<Option<Vec<u8>>, StoreError>)
    ensures
        records@.len() == 0 ==> r == Ok::<Option<Vec<u8>>, StoreError>(None),
        records@.len() > 0 ==> (r is Ok <==> all_newline_free(byte_views(records@))),
        records@.len() > 0 ==> !(r matches Ok(None)),
        r matches Ok(Some(b)) ==> b@ == jsonl(byte_views(records@).reverse()),
        r matches Err(StoreError::EmbeddedNewline { record }) ==> {
            &&& record < records@.len()
            &&& !newline_free(records@[record as int]@)
            &&& forall|j: int| record < j < records@.len() ==> newline_free(#[trigger] records@[j]@)
        },
{
    let ghost orig = records@;
    let n = records.len();
    if n == 0 {
        return Ok(None);
    }
    let mut rest = records;
    let mut oldest_first: Vec<Vec<u8>> = Vec::new();
    while rest.len() > 0
        invariant
            n == orig.len(),
            rest@.len() + oldest_first@.len() == n,
            rest@ == orig.take(rest@.len() as int),
            forall|i: int| 0 <= i < oldest_first@.len() ==> #[trigger] oldest_first@[i] == orig[n - 1 - i],
        decreases rest@.len(),
    {
        let ghost before = rest@;
        let item = rest.pop().unwrap();
        proof {
            assert(rest@ =~= orig.take(rest@.len() as int));
            assert(item == before[before.len() - 1]);
        }
        oldest_first.push(item);
    }
    proof {
        assert(byte_views(oldest_first@) =~= byte_views(orig).reverse());
    }
    match encode_jsonl(&oldest_first) {
        Ok(b) => {
            proof {
                assert forall|k: int| 0 <= k < byte_views(orig).len() implies newline_free(
                    #[trigger] byte_views(orig)[k],
                ) by {
                    assert(byte_views(oldest_first@)[n - 1 - k] == byte_views(orig)[k]);
                }
            }
            Ok(Some(b))
        },
        Err(StoreError::EmbeddedNewline { record }) => {
            proof {
                assert(orig[n - 1 - record] == oldest_first@[record as int]);
                assert(byte_views(orig)[n - 1 - record] == oldest_first@[record as int]@);
                assert forall|j: int| n - 1 - record < j < n implies newline_free(#[trigger] orig[j]@) by {
                    assert(oldest_first@[n - 1 - j] == orig[j]);
                }
            }
            Err(StoreError::EmbeddedNewline { record: n - 1 - record })
        },
    }
}

} // verus!
