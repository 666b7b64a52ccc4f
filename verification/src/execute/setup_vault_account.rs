use vstd::prelude::*;
use crate::denom::{
    denom_parts, derive_vault_addresses, is_factory_denom, lemma_account_is_no_wallet,
    lemma_vault_addresses_apart, spec_denom_parts, spec_is_factory_denom, spec_sanitize, spec_vault_account,
    spec_vault_wallet,
};
use crate::error::{ContractError, RecordKind};
use crate::execute::left_by;
use crate::state::{copy_address, Store, StoreView, TokenVault};

verus! {

/// The state after the vault of `mint` got its addresses, or why that is
/// refused.
pub open spec fn spec_setup_vault_account(store: StoreView, mint: Seq<char>) -> Result<StoreView, ContractError> {
    if !spec_is_factory_denom(mint) {
        Err(ContractError::InvalidDenom {})
    } else if !store.token_vaults.contains_key(mint) {
        Err(ContractError::NotFound { kind: RecordKind::TokenVault })
    } else if store.token_vaults[mint].vault_account is Some {
        Err(ContractError::VaultAlreadySetup {})
    } else {
        match spec_denom_parts(mint) {
            None => Err(ContractError::InvalidDenom {}),
            Some((creator, subdenom)) => Ok(
                StoreView {
                    token_vaults: store.token_vaults.insert(
                        mint,
                        store.token_vaults[mint].configured(
                            spec_vault_account(creator, subdenom),
                            spec_vault_wallet(creator, subdenom),
                        ),
                    ),
                    ..store
                },
            ),
        }
    }
}

/// Gives the vault of `mint` its account and its custody wallet, both derived
/// from the identifier's creator and subdenom. A vault is set up once: a
/// second call is refused and changes nothing.
pub fn setup_vault_account(store: &mut Store, mint: String) -> (result: Result<(), ContractError>)
    ensures
        match result {
            Ok(()) => spec_setup_vault_account(old(store)@, mint@) == Ok::<StoreView, ContractError>(
                final(store)@,
            ),
            Err(e) => spec_setup_vault_account(old(store)@, mint@) == Err::<StoreView, ContractError>(e)
                && final(store)@ == old(store)@,
        },
{
    if !is_factory_denom(mint.as_str()) {
        return Err(ContractError::InvalidDenom {});
    }
    let vault = match store.token_vaults.get(&mint) {
        Some(vault) => vault,
        None => { return Err(ContractError::NotFound { kind: RecordKind::TokenVault }); },
    };
    if vault.vault_account.is_some() {
        return Err(ContractError::VaultAlreadySetup {});
    }
    let (creator, subdenom) = match denom_parts(mint.as_str()) {
        Some(parts) => parts,
        None => { return Err(ContractError::InvalidDenom {}); },
    };
    let (vault_account, wallet) = derive_vault_addresses(&creator, &subdenom);
    let configured = TokenVault {
        mint: vault.mint.clone(),
        vault_account: Some(vault_account),
        inj_vault_wallet: wallet,
        liquidity_threshold: vault.liquidity_threshold,
        total_collected: vault.total_collected,
        dex_pool: copy_address(&vault.dex_pool),
    };
    store.token_vaults.put(mint, configured);
    Ok(())
}

/// Of two setups of the vault of one identifier, where the first succeeded
/// or found the vault set up, the second is refused because the vault is set
/// up, and the vault's account is afterwards what it was after the first.
pub proof fn lemma_vault_set_up_once(store: StoreView, mint: Seq<char>)
    requires
        ({
            let first = spec_setup_vault_account(store, mint);
            first is Ok || first == Err::<StoreView, ContractError>(ContractError::VaultAlreadySetup {})
        }),
    ensures
        ({
            let between = left_by(store, spec_setup_vault_account(store, mint));
            let second = spec_setup_vault_account(between, mint);
            &&& second == Err::<StoreView, ContractError>(ContractError::VaultAlreadySetup {})
            &&& left_by(between, second).token_vaults[mint].vault_account
                == between.token_vaults[mint].vault_account
            &&& between.token_vaults[mint].vault_account is Some
        }),
{
}

/// The fragments an identifier's addresses are made of: its creator and its
/// subdenom, cleaned.
pub open spec fn address_fragments(mint: Seq<char>) -> (Seq<char>, Seq<char>) {
    let (creator, subdenom) = spec_denom_parts(mint)->0;
    (spec_sanitize(creator), spec_sanitize(subdenom))
}

/// Every asset gets custody addresses of its own: where two vaults are set
/// up for identifiers with different fragments, their accounts differ and
/// their wallets differ; and no vault's account is a vault's wallet.
pub proof fn lemma_assets_get_own_addresses(
    store: StoreView,
    mint: Seq<char>,
    other_store: StoreView,
    other_mint: Seq<char>,
)
    requires
        spec_setup_vault_account(store, mint) is Ok,
        spec_setup_vault_account(other_store, other_mint) is Ok,
    ensures
        ({
            let vault = spec_setup_vault_account(store, mint)->Ok_0.token_vaults[mint];
            let other = spec_setup_vault_account(other_store, other_mint)->Ok_0.token_vaults[other_mint];
            &&& address_fragments(mint) != address_fragments(other_mint) ==> vault.vault_account
                != other.vault_account && vault.inj_vault_wallet != other.inj_vault_wallet
            &&& vault.vault_account != Some(vault.inj_vault_wallet)
            &&& vault.vault_account != Some(other.inj_vault_wallet)
        }),
{
    let (creator, subdenom) = spec_denom_parts(mint)->0;
    let (other_creator, other_subdenom) = spec_denom_parts(other_mint)->0;
    lemma_vault_addresses_apart(creator, subdenom, other_creator, other_subdenom);
    lemma_account_is_no_wallet(creator, subdenom, creator, subdenom);
    lemma_account_is_no_wallet(creator, subdenom, other_creator, other_subdenom);
}

} // verus!
