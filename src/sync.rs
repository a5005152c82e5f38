//! The graph of scrape jobs that a sync run spawns.
use vstd::prelude::*;
use crate::calendar::MonthRange;
use crate::config::ProviderConfig;
use crate::http::{DataEndpoint, str_eq};
use crate::layout::Holder;

verus! {

/// A job that the orchestrator spawns first.
#[derive(Clone, Copy, Debug, PartialEq, Eq, Structural)]
pub enum RootJob {
    Info,
    Accounts,
    Cards,
}

/// A job spawned for one account or card.
#[derive(Clone, Copy, Debug, PartialEq, Eq, Structural)]
pub enum HolderJob {
    Balance,
    Pending,
    /// The transactions of one month bucket.
    Transactions(MonthRange),
    StandingOrders,
    DirectDebits,
}

pub open spec fn root_jobs_spec(p: ProviderConfig) -> Seq<RootJob> {
    (if p.scrape_info { seq![RootJob::Info] } else { seq![] })
        + (if p.scrape_accounts { seq![RootJob::Accounts] } else { seq![] })
        + (if p.scrape_cards { seq![RootJob::Cards] } else { seq![] })
}

/// The root jobs of a provider, in this order: user information, accounts,
/// cards, each when enabled.
pub fn root_jobs(provider: &ProviderConfig) -> (r: Vec<RootJob>)
    ensures
        r@ == root_jobs_spec(*provider),
{
    let mut jobs: Vec<RootJob> = Vec::new();
    if provider.scrape_info {
        jobs.push(RootJob::Info);
    }
    if provider.scrape_accounts {
        jobs.push(RootJob::Accounts);
    }
    if provider.scrape_cards {
        jobs.push(RootJob::Cards);
    }
    proof {
        assert(jobs@ =~= root_jobs_spec(*provider));
    }
    jobs
}

pub open spec fn month_jobs(months: Seq<MonthRange>) -> Seq<HolderJob> {
    months.map_values(|m: MonthRange| HolderJob::Transactions(m))
}

/// Balance, pending, one transactions job per month, and the standing orders
/// and direct debits when asked for.
pub open spec fn account_jobs_spec(months: Seq<MonthRange>, with_mandates: bool) -> Seq<HolderJob> {
    seq![HolderJob::Balance, HolderJob::Pending] + month_jobs(months) + (if with_mandates {
        seq![HolderJob::StandingOrders, HolderJob::DirectDebits]
    } else {
        seq![]
    })
}

fn push_month_jobs(jobs: &mut Vec<HolderJob>, months: &Vec<MonthRange>)
    ensures
        final(jobs)@ == old(jobs)@ + month_jobs(months@),
{
    let ghost start = jobs@;
    for i in 0..months.len()
        invariant
            jobs@ == start + month_jobs(months@.take(i as int)),
    {
        jobs.push(HolderJob::Transactions(months[i]));
        proof {
            assert(months@.take(i as int + 1) =~= months@.take(i as int).push(months@[i as int]));
            assert(month_jobs(months@.take(i as int + 1)) =~= month_jobs(months@.take(i as int)).push(
                HolderJob::Transactions(months@[i as int]),
            ));
        }
    }
    proof {
        assert(months@.take(months@.len() as int) =~= months@);
    }
}

/// The jobs spawned for one account. Standing orders and direct debits are
/// only served shortly after the user authenticated, so they are asked for
/// only then.
pub fn account_jobs(months: &Vec<MonthRange>, with_mandates: bool) -> (r: Vec<HolderJob>)
    ensures
        r@ == account_jobs_spec(months@, with_mandates),
{
    let mut jobs: Vec<HolderJob> = Vec::new();
    jobs.push(HolderJob::Balance);
    jobs.push(HolderJob::Pending);
    push_month_jobs(&mut jobs, months);
    if with_mandates {
        jobs.push(HolderJob::StandingOrders);
        jobs.push(HolderJob::DirectDebits);
    }
    proof {
        assert(jobs@ =~= account_jobs_spec(months@, with_mandates));
    }
    jobs
}

/// The jobs spawned for one card: balance, pending, and one transactions job
/// per month.
pub fn card_jobs(months: &Vec<MonthRange>) -> (r: Vec<HolderJob>)
    ensures
        r@ == account_jobs_spec(months@, false),
{
    account_jobs(months, false)
}

pub open spec fn holder_endpoint_spec(holder: Holder, id: String, job: HolderJob) -> Option<DataEndpoint> {
    match (holder, job) {
        (Holder::Account, HolderJob::Balance) => Some(DataEndpoint::AccountBalance(id)),
        (Holder::Account, HolderJob::Pending) => Some(DataEndpoint::AccountPending(id)),
        (Holder::Account, HolderJob::Transactions(_)) => Some(DataEndpoint::AccountTransactions(id)),
        (Holder::Account, HolderJob::StandingOrders) => Some(DataEndpoint::AccountStandingOrders(id)),
        (Holder::Account, HolderJob::DirectDebits) => Some(DataEndpoint::AccountDirectDebits(id)),
        (Holder::Card, HolderJob::Balance) => Some(DataEndpoint::CardBalance(id)),
        (Holder::Card, HolderJob::Pending) => Some(DataEndpoint::CardPending(id)),
        (Holder::Card, HolderJob::Transactions(_)) => Some(DataEndpoint::CardTransactions(id)),
        (Holder::Card, _) => None,
    }
}

/// The endpoint that a holder's job fetches; cards have no standing orders
/// or direct debits.
pub fn holder_endpoint(holder: Holder, id: String, job: HolderJob) -> (r: Option<DataEndpoint>)
    ensures
        r == holder_endpoint_spec(holder, id, job),
{
    match (holder, job) {
        (Holder::Account, HolderJob::Balance) => Some(DataEndpoint::AccountBalance(id)),
        (Holder::Account, HolderJob::Pending) => Some(DataEndpoint::AccountPending(id)),
        (Holder::Account, HolderJob::Transactions(_)) => Some(DataEndpoint::AccountTransactions(id)),
        (Holder::Account, HolderJob::StandingOrders) => Some(DataEndpoint::AccountStandingOrders(id)),
        (Holder::Account, HolderJob::DirectDebits) => Some(DataEndpoint::AccountDirectDebits(id)),
        (Holder::Card, HolderJob::Balance) => Some(DataEndpoint::CardBalance(id)),
        (Holder::Card, HolderJob::Pending) => Some(DataEndpoint::CardPending(id)),
        (Holder::Card, HolderJob::Transactions(_)) => Some(DataEndpoint::CardTransactions(id)),
        (Holder::Card, _) => None,
    }
}

/// Whether a consent's status code says that it is linked.
pub fn is_linked(status: &str) -> (r: bool)
    ensures
        r == (status@ == "LN"@),
{
    str_eq(status, "LN")
}

} // verus!
