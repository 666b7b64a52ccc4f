use vstd::prelude::*;
use crate::denom::{is_factory_denom, spec_is_factory_denom};
use crate::error::{ContractError, RecordKind};
use crate::msg::{Coin, PurchaseReceipt, PurchaseReceiptView, Transfer, TransferView};
use crate::state::{Store, StoreView};
use crate::utils::{
    get_inj_amount, lemma_payment_nonnegative, lemma_split_conserves, platform_fee_of, quote_purchase,
    spec_payment, spec_price, spec_quote,
};

verus! {

/// What a purchase of `amount_tokens` units of `mint` by `buyer` does to the
/// state and hands back, or why it is refused. The checks come in this order:
/// the quantity, the identifier, the stored oracle, vault and configuration,
/// the vault's setup, price and cost, the payment, the vault's new total.
pub open spec fn spec_purchase_token(
    store: StoreView,
    buyer: Seq<char>,
    funds: Seq<Coin>,
    mint: Seq<char>,
    amount_tokens: u128,
) -> Result<(StoreView, PurchaseReceiptView), ContractError> {
    if amount_tokens == 0 {
        Err(ContractError::InvalidAmount {})
    } else if !spec_is_factory_denom(mint) {
        Err(ContractError::InvalidDenom {})
    } else if !store.viewership_oracles.contains_key(mint) {
        Err(ContractError::NotFound { kind: RecordKind::ViewershipOracle })
    } else if !store.token_vaults.contains_key(mint) {
        Err(ContractError::NotFound { kind: RecordKind::TokenVault })
    } else if store.config is None {
        Err(ContractError::NotFound { kind: RecordKind::Config })
    } else if store.token_vaults[mint].vault_account is None {
        Err(ContractError::VaultNotConfigured {})
    } else {
        let vault = store.token_vaults[mint];
        match spec_quote(store.viewership_oracles[mint], amount_tokens) {
            None => Err(ContractError::SupplyOverflow {}),
            Some(quote) => if spec_payment(funds) < quote.total_cost {
                Err(ContractError::InsufficientFunds {})
            } else if vault.total_collected + quote.vault_amount > u128::MAX {
                Err(ContractError::SupplyOverflow {})
            } else {
                let credited = vault.credited(quote.vault_amount);
                Ok(
                    (
                        StoreView { token_vaults: store.token_vaults.insert(mint, credited), ..store },
                        PurchaseReceiptView {
                            mint,
                            amount_tokens,
                            buyer,
                            quote,
                            platform_transfer: TransferView {
                                to_address: store.config->0.platform_wallet,
                                amount: quote.platform_fee,
                            },
                            vault_transfer: TransferView {
                                to_address: vault.inj_vault_wallet,
                                amount: quote.vault_amount,
                            },
                            liquidity_notice: credited.threshold_reached() && credited.dex_pool is Some,
                        },
                    ),
                )
            },
        }
    }
}

/// Settles a purchase of `amount_tokens` units of `mint` paid with `funds`:
/// prices it, splits the cost between platform and vault, credits the vault,
/// and hands back the two transfers with the record of the purchase. A
/// refused purchase changes nothing. Payment beyond the cost is kept.
pub fn purchase_token(
    store: &mut Store,
    sender: &String,
    funds: &Vec<Coin>,
    mint: String,
    amount_tokens: u128,
) -> (result: Result<PurchaseReceipt, ContractError>)
    ensures
        match result {
            Ok(receipt) => spec_purchase_token(old(store)@, sender@, funds@, mint@, amount_tokens) == Ok::<
                (StoreView, PurchaseReceiptView),
                ContractError,
            >((final(store)@, receipt@)),
            Err(e) => spec_purchase_token(old(store)@, sender@, funds@, mint@, amount_tokens) == Err::<
                (StoreView, PurchaseReceiptView),
                ContractError,
            >(e) && final(store)@ == old(store)@,
        },
{
    if amount_tokens == 0 {
        return Err(ContractError::InvalidAmount {});
    }
    if !is_factory_denom(mint.as_str()) {
        return Err(ContractError::InvalidDenom {});
    }
    let oracle = match store.viewership_oracles.get(&mint) {
        Some(oracle) => oracle,
        None => { return Err(ContractError::NotFound { kind: RecordKind::ViewershipOracle }); },
    };
    let vault = match store.token_vaults.get(&mint) {
        Some(vault) => vault,
        None => { return Err(ContractError::NotFound { kind: RecordKind::TokenVault }); },
    };
    let config = match &store.config {
        Some(config) => config,
        None => { return Err(ContractError::NotFound { kind: RecordKind::Config }); },
    };
    if vault.vault_account.is_none() {
        return Err(ContractError::VaultNotConfigured {});
    }
    let quote = quote_purchase(oracle, amount_tokens)?;
    let payment = get_inj_amount(funds);
    proof {
        lemma_payment_nonnegative(funds@);
    }
    if payment < quote.total_cost {
        return Err(ContractError::InsufficientFunds {});
    }
    let credited = vault.credit(quote.vault_amount)?;
    let receipt = PurchaseReceipt {
        mint: mint.clone(),
        amount_tokens,
        buyer: sender.clone(),
        quote,
        platform_transfer: Transfer { to_address: config.platform_wallet.clone(), amount: quote.platform_fee },
        vault_transfer: Transfer { to_address: vault.inj_vault_wallet.clone(), amount: quote.vault_amount },
        liquidity_notice: credited.threshold_reached() && credited.dex_pool.is_some(),
    };
    store.token_vaults.put(mint, credited);
    Ok(receipt)
}

/// In every purchase that succeeds the two transfers add up to the cost, the
/// cost is price times quantity, and the vault's total grows by exactly what
/// is transferred to it.
pub proof fn lemma_purchase_conserves(
    store: StoreView,
    buyer: Seq<char>,
    funds: Seq<Coin>,
    mint: Seq<char>,
    amount_tokens: u128,
)
    ensures
        spec_purchase_token(store, buyer, funds, mint, amount_tokens) matches Ok((after, receipt)) ==> {
            &&& receipt.platform_transfer.amount + receipt.vault_transfer.amount == receipt.quote.total_cost
            &&& receipt.quote.total_cost == spec_price(store.viewership_oracles[mint]) * amount_tokens
            &&& receipt.platform_transfer.amount == platform_fee_of(receipt.quote.total_cost as int)
            &&& after.token_vaults[mint].total_collected == store.token_vaults[mint].total_collected
                + receipt.vault_transfer.amount
        },
{
    if spec_purchase_token(store, buyer, funds, mint, amount_tokens) is Ok {
        let quote = spec_quote(store.viewership_oracles[mint], amount_tokens)->0;
        lemma_split_conserves(quote.total_cost as int);
    }
}

/// A purchase that passes the checks on quantity, identifier and stored
/// records, and whose cost fits in 128 bits, is refused for insufficient funds
/// when the payment is below the cost; the vault keeps its total.
pub proof fn lemma_underpaid_purchase_refused(
    store: StoreView,
    buyer: Seq<char>,
    funds: Seq<Coin>,
    mint: Seq<char>,
    amount_tokens: u128,
)
    requires
        amount_tokens > 0,
        spec_is_factory_denom(mint),
        store.viewership_oracles.contains_key(mint),
        store.token_vaults.contains_key(mint),
        store.config is Some,
        store.token_vaults[mint].vault_account is Some,
        spec_quote(store.viewership_oracles[mint], amount_tokens) matches Some(quote) && spec_payment(funds)
            < quote.total_cost,
    ensures
        spec_purchase_token(store, buyer, funds, mint, amount_tokens) == Err::<
            (StoreView, PurchaseReceiptView),
            ContractError,
        >(ContractError::InsufficientFunds {}),
{
}

/// Whatever else holds, a purchase whose payment is below its cost never
/// succeeds.
pub proof fn lemma_underpaid_purchase_fails(
    store: StoreView,
    buyer: Seq<char>,
    funds: Seq<Coin>,
    mint: Seq<char>,
    amount_tokens: u128,
)
    requires
        spec_payment(funds) < spec_price(store.viewership_oracles[mint]) * amount_tokens,
    ensures
        spec_purchase_token(store, buyer, funds, mint, amount_tokens) is Err,
{
}

} // verus!
