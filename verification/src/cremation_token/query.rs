//! The token's read-only answers.

use crate::cremation_token::msg::{
    BalanceResponse, CollectTaxAddressResponse, DexConfigsResponse, OwnerResponse,
    TaxFreeAddressResponse, TaxInfoResponse,
};
use crate::cremation_token::state::{FractionFormat, State};
use crate::error::StdError;
use crate::host::Api;
use crate::math::{lemma_ratio_bounded, multiply_ratio, Decimal, DECIMAL_FRACTIONAL};
use vstd::prelude::*;

verus! {

/// What [`dex_configs`] guarantees: the registry as it stands, or the
/// notice that it has not been wired.
pub open spec fn dex_configs_post(state: State, r: Result<DexConfigsResponse, StdError>) -> bool {
    match state.dex_configs {
        Some(dex) => r matches Ok(res) && res.terraswap_router == dex.terraswap_router
            && res.terraswap_pairs@ == dex.terraswap_pairs@ && res.terraport_router
            == dex.terraport_router && res.terraport_pairs@ == dex.terraport_pairs@,
        None => r matches Err(StdError::NotFound { kind }) && kind@ == "dex_configs"@,
    }
}

/// The venue registry.
pub fn dex_configs(state: &State) -> (r: Result<DexConfigsResponse, StdError>)
    ensures
        dex_configs_post(*state, r),
{
    match &state.dex_configs {
        Some(dex) => {
            let terraswap_pairs = dex.terraswap_pairs.clone();
            let terraport_pairs = dex.terraport_pairs.clone();
            proof {
                assert(terraswap_pairs@ =~= dex.terraswap_pairs@);
                assert(terraport_pairs@ =~= dex.terraport_pairs@);
            }
            Ok(
                DexConfigsResponse {
                    terraswap_router: dex.terraswap_router.clone(),
                    terraswap_pairs,
                    terraport_router: dex.terraport_router.clone(),
                    terraport_pairs,
                },
            )
        },
        None => Err(StdError::not_found("dex_configs")),
    }
}

/// Who owns the token.
pub fn owner(state: &State) -> (r: Result<OwnerResponse, StdError>)
    ensures
        r == Ok::<OwnerResponse, StdError>(OwnerResponse { owner: state.owner }),
{
    Ok(OwnerResponse { owner: state.owner.clone() })
}

/// The account that tax is credited to.
pub fn collect_tax_address(state: &State) -> (r: Result<CollectTaxAddressResponse, StdError>)
    ensures
        r == Ok::<CollectTaxAddressResponse, StdError>(
            CollectTaxAddressResponse { collect_tax_address: state.collect_tax_address },
        ),
{
    Ok(CollectTaxAddressResponse { collect_tax_address: state.collect_tax_address.clone() })
}

/// A rate as a decimal, rounded down to 18 places; zero where no rate is
/// set.
pub open spec fn rate_decimal(tax: Option<FractionFormat>) -> int {
    match tax {
        Some(f) => (f.numerator * DECIMAL_FRACTIONAL) / (f.denominator as int),
        None => 0,
    }
}

fn as_decimal(tax: &Option<FractionFormat>) -> (d: Decimal)
    requires
        tax matches Some(f) ==> f.valid(),
    ensures
        d.atomics == rate_decimal(*tax),
{
    match tax {
        Some(f) => {
            proof {
                lemma_ratio_bounded(DECIMAL_FRACTIONAL, f.numerator, f.denominator);
                assert(f.numerator * DECIMAL_FRACTIONAL == DECIMAL_FRACTIONAL * f.numerator)
                    by (nonlinear_arith);
            }
            Decimal::raw(multiply_ratio(f.numerator, DECIMAL_FRACTIONAL, f.denominator))
        },
        None => Decimal::zero(),
    }
}

/// The three tax rates as decimals.
pub fn tax_info(state: &State) -> (r: Result<TaxInfoResponse, StdError>)
    requires
        state.wf(),
    ensures
        r matches Ok(res) && res.buy_tax.atomics == rate_decimal(state.tax_info.buy_tax)
            && res.sell_tax.atomics == rate_decimal(state.tax_info.sell_tax)
            && res.transfer_tax.atomics == rate_decimal(state.tax_info.transfer_tax),
{
    Ok(
        TaxInfoResponse {
            buy_tax: as_decimal(&state.tax_info.buy_tax),
            sell_tax: as_decimal(&state.tax_info.sell_tax),
            transfer_tax: as_decimal(&state.tax_info.transfer_tax),
        },
    )
}

/// Whether `address` is flagged exempt from tax.
pub fn tax_free_address(state: &State, address: String, api: &Api) -> (r: Result<
    TaxFreeAddressResponse,
    StdError,
>)
    requires
        state.wf(),
        api.wf(),
    ensures
        r == match api.verdict(address@) {
            Some(e) => Err::<TaxFreeAddressResponse, StdError>(e),
            None => Ok::<TaxFreeAddressResponse, StdError>(
                TaxFreeAddressResponse { tax_free: state.exempt(address@) },
            ),
        },
{
    match api.addr_validate(&address) {
        Ok(_) => {},
        Err(e) => {
            return Err(e);
        },
    }
    match state.tax_free_addresses.get(&address) {
        Some(tax_free) => Ok(TaxFreeAddressResponse { tax_free: *tax_free }),
        None => Ok(TaxFreeAddressResponse { tax_free: false }),
    }
}

/// What `address` holds.
pub fn balance(state: &State, address: String, api: &Api) -> (r: Result<BalanceResponse, StdError>)
    requires
        state.wf(),
        api.wf(),
    ensures
        match api.verdict(address@) {
            Some(e) => r == Err::<BalanceResponse, StdError>(e),
            None => r matches Ok(res) && res.balance == state.balances.balance_of(address@),
        },
{
    match api.addr_validate(&address) {
        Ok(_) => {},
        Err(e) => {
            return Err(e);
        },
    }
    Ok(BalanceResponse { balance: state.balances.balance(&address) })
}

} // verus!
