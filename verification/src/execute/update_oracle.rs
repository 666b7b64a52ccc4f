use vstd::prelude::*;
use crate::auth::authorize;
use crate::denom::{is_factory_denom, spec_is_factory_denom};
use crate::error::{ContractError, RecordKind};
use crate::execute::left_by;
use crate::state::{Store, StoreView, ViewershipOracle, ViewershipOracleView};
use crate::utils::{lemma_price_monotonic, spec_price};

verus! {

impl ViewershipOracleView {
    /// The oracle after `view_count` views were reported at time `now`.
    pub open spec fn reported(self, view_count: u64, now: u64) -> ViewershipOracleView {
        ViewershipOracleView { view_count, last_updated: now, ..self }
    }
}

/// The state after `sender` reported `new_view_count` views of `mint` at time
/// `now`, or why the report is refused.
pub open spec fn spec_update_oracle(
    store: StoreView,
    sender: Seq<char>,
    now: u64,
    mint: Seq<char>,
    new_view_count: u64,
) -> Result<StoreView, ContractError> {
    if store.config is None {
        Err(ContractError::NotFound { kind: RecordKind::Config })
    } else if sender != store.config->0.oracle_authority {
        Err(ContractError::Unauthorized {})
    } else if !spec_is_factory_denom(mint) {
        Err(ContractError::InvalidDenom {})
    } else if !store.viewership_oracles.contains_key(mint) {
        Err(ContractError::NotFound { kind: RecordKind::ViewershipOracle })
    } else if new_view_count < store.viewership_oracles[mint].view_count {
        Err(ContractError::InvalidViewCount {})
    } else {
        Ok(
            StoreView {
                viewership_oracles: store.viewership_oracles.insert(
                    mint,
                    store.viewership_oracles[mint].reported(new_view_count, now),
                ),
                ..store
            },
        )
    }
}

/// Records a report of the oracle authority: the view count of `mint` is now
/// `new_view_count`. A count below the stored one is refused; an equal one is
/// accepted. A refused report changes nothing.
pub fn update_oracle(store: &mut Store, sender: &String, now: u64, mint: String, new_view_count: u64) -> (result:
    Result<(), ContractError>)
    ensures
        match result {
            Ok(()) => spec_update_oracle(old(store)@, sender@, now, mint@, new_view_count) == Ok::<
                StoreView,
                ContractError,
            >(final(store)@),
            Err(e) => spec_update_oracle(old(store)@, sender@, now, mint@, new_view_count) == Err::<
                StoreView,
                ContractError,
            >(e) && final(store)@ == old(store)@,
        },
{
    let config = match &store.config {
        Some(config) => config,
        None => { return Err(ContractError::NotFound { kind: RecordKind::Config }); },
    };
    authorize(sender, &config.oracle_authority)?;
    if !is_factory_denom(mint.as_str()) {
        return Err(ContractError::InvalidDenom {});
    }
    let oracle = match store.viewership_oracles.get(&mint) {
        Some(oracle) => oracle,
        None => { return Err(ContractError::NotFound { kind: RecordKind::ViewershipOracle }); },
    };
    if new_view_count < oracle.view_count {
        return Err(ContractError::InvalidViewCount {});
    }
    let reported = ViewershipOracle {
        mint: oracle.mint.clone(),
        view_count: new_view_count,
        last_updated: now,
        price_params: oracle.price_params,
    };
    store.viewership_oracles.put(mint, reported);
    Ok(())
}

/// A report of fewer views than are stored is refused, whoever sends it, and
/// leaves view count and time of the last report as they were.
pub proof fn lemma_lower_count_refused(
    store: StoreView,
    sender: Seq<char>,
    now: u64,
    mint: Seq<char>,
    new_view_count: u64,
)
    requires
        store.viewership_oracles.contains_key(mint),
        new_view_count < store.viewership_oracles[mint].view_count,
    ensures
        ({
            let step = spec_update_oracle(store, sender, now, mint, new_view_count);
            &&& step is Err
            &&& (store.config is Some && sender == store.config->0.oracle_authority && spec_is_factory_denom(mint))
                ==> step == Err::<StoreView, ContractError>(ContractError::InvalidViewCount {})
            &&& left_by(store, step).viewership_oracles[mint] == store.viewership_oracles[mint]
        }),
{
}

/// A report that is accepted never lowers the price.
pub proof fn lemma_report_keeps_price_up(
    store: StoreView,
    sender: Seq<char>,
    now: u64,
    mint: Seq<char>,
    new_view_count: u64,
)
    ensures
        spec_update_oracle(store, sender, now, mint, new_view_count) matches Ok(after) ==> spec_price(
            after.viewership_oracles[mint],
        ) >= spec_price(store.viewership_oracles[mint]),
{
    if spec_update_oracle(store, sender, now, mint, new_view_count) is Ok {
        let oracle = store.viewership_oracles[mint];
        lemma_price_monotonic(oracle.price_params.k, oracle.price_params.m, oracle.view_count, new_view_count);
    }
}

/// A report that was accepted changes nothing when it is made again.
pub proof fn lemma_report_idempotent(
    store: StoreView,
    sender: Seq<char>,
    now: u64,
    mint: Seq<char>,
    new_view_count: u64,
)
    ensures
        spec_update_oracle(store, sender, now, mint, new_view_count) matches Ok(after) ==> spec_update_oracle(
            after,
            sender,
            now,
            mint,
            new_view_count,
        ) == Ok::<StoreView, ContractError>(after),
{
    if let Ok(after) = spec_update_oracle(store, sender, now, mint, new_view_count) {
        let reported = store.viewership_oracles[mint].reported(new_view_count, now);
        assert(after.viewership_oracles.insert(mint, reported) =~= after.viewership_oracles);
    }
}

} // verus!
