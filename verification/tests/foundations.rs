use cosmwasm_std::{Decimal as HostDecimal, Uint128};
use cremation::book::{AddrMap, Ledger};
use cremation::error::StdError;
use cremation::host::{funds_in, less_lunc_tax, Api, Coin, Timestamp};
use cremation::math::{
    amount_to_string, checked_mul_decimal, count_to_string, mul_decimal, multiply_ratio,
    try_multiply_ratio, Decimal,
};
use cremation::text::addr_before;

#[test]
fn ratio_is_exact_and_rounds_down() {
    assert_eq!(multiply_ratio(5, 99, 100), 4);
    assert_eq!(multiply_ratio(100, 8, 100), 8);
    assert_eq!(multiply_ratio(0, 8, 100), 0);
    // the product may leave 128 bits as long as the quotient does not
    assert_eq!(multiply_ratio(u128::MAX, 7, 7), u128::MAX);
    assert_eq!(
        multiply_ratio(u128::MAX - 3, 1_000_000, 3_000_000),
        Uint128::new(u128::MAX - 3).multiply_ratio(1u128, 3u128).u128()
    );
    assert_eq!(try_multiply_ratio(10, 3, 0), None);
    assert_eq!(try_multiply_ratio(u128::MAX, 2, 1), None);
    assert_eq!(try_multiply_ratio(10, 3, 4), Some(7));
}

#[test]
fn decimals_match_the_host() {
    assert_eq!(Decimal::percent(2).atomics, HostDecimal::percent(2).atomics().u128());
    assert_eq!(Decimal::permille(5).atomics, HostDecimal::permille(5).atomics().u128());
    assert_eq!(Decimal::one().atomics, HostDecimal::one().atomics().u128());
    assert_eq!(Decimal::percent(u64::MAX).atomics, HostDecimal::percent(u64::MAX).atomics().u128());
    assert!(Decimal::zero().is_zero());
    assert_eq!(Decimal::percent(7).numerator(), 70_000_000_000_000_000);
    assert_eq!(Decimal::percent(7).denominator(), 1_000_000_000_000_000_000);
    assert_eq!(
        Decimal::checked_from_ratio(1, 3).unwrap().atomics,
        HostDecimal::from_ratio(1u128, 3u128).atomics().u128()
    );
    assert_eq!(Decimal::checked_from_ratio(1, 0), None);
    assert_eq!(Decimal::checked_from_ratio(u128::MAX, 1), None);

    assert_eq!(mul_decimal(1_000_000, Decimal::percent(2)), 20_000);
    assert_eq!(mul_decimal(199, Decimal::permille(5)), 0);
    assert_eq!(mul_decimal(200, Decimal::permille(5)), 1);
    assert_eq!(checked_mul_decimal(u128::MAX, Decimal::percent(101)), None);
    assert_eq!(checked_mul_decimal(u128::MAX, Decimal::one()), Some(u128::MAX));
    assert_eq!(less_lunc_tax(1000), 995);
    assert_eq!(less_lunc_tax(199), 199);
}

#[test]
fn figures_are_printed_as_the_host_prints_them() {
    for atomics in [0u128, 1, 5_000_000_000_000_000, 1_000_000_000_000_000_000, 1_250_000_000_000_000_000, u128::MAX]
    {
        assert_eq!(Decimal::raw(atomics).to_string(), HostDecimal::raw(atomics).to_string());
    }
    assert_eq!(Decimal::percent(10).to_string(), "0.1");
    assert_eq!(Decimal::raw(1).to_string(), "0.000000000000000001");
    assert_eq!(Decimal::percent(250).to_string(), "2.5");
    assert_eq!(amount_to_string(0), "0");
    assert_eq!(amount_to_string(979_900), Uint128::new(979_900).to_string());
    assert_eq!(amount_to_string(u128::MAX), "340282366920938463463374607431768211455");
    assert_eq!(count_to_string(90), "90");
}

#[test]
fn time_counts_days_in_nanoseconds() {
    let t = Timestamp::from_seconds(1_571_797_419);
    let host = cosmwasm_std::Timestamp::from_seconds(1_571_797_419);
    assert_eq!(t.nanos, host.nanos());
    assert_eq!(t.seconds(), 1_571_797_419);
    assert_eq!(t.plus_days(365).nanos, host.plus_days(365).nanos());
    assert_eq!(Timestamp::from_nanos(1_999_999_999).seconds(), 1);
    let later = t.plus_days(30);
    assert!(later.reached(&t, 30));
    assert!(!Timestamp::from_nanos(later.nanos - 1).reached(&t, 30));
    // the later instant need not fit in 64 bits
    assert!(!Timestamp::from_nanos(u64::MAX).reached(&Timestamp::from_nanos(u64::MAX), 1));
}

#[test]
fn first_coin_of_a_denomination_counts() {
    let coin = |amount: u128, denom: &str| Coin { denom: denom.to_string(), amount };
    let funds = vec![coin(5, "uusd"), coin(7, "uluna"), coin(9, "uluna")];
    assert_eq!(funds_in(&funds, &"uluna".to_string()), 7);
    assert_eq!(funds_in(&funds, &"uusd".to_string()), 5);
    assert_eq!(funds_in(&funds, &"ukrw".to_string()), 0);
    assert_eq!(funds_in(&vec![], &"uluna".to_string()), 0);
}

#[test]
fn addresses_sort_byte_by_byte() {
    let lt = |a: &str, b: &str| addr_before(&a.to_string(), &b.to_string());
    for (a, b) in [
        ("", "a"),
        ("a", "b"),
        ("a", "aa"),
        ("contract1", "contract10"),
        ("contract10", "contract2"),
        ("Z", "a"),
        ("a", "é"),
        ("zz", "é"),
    ] {
        assert!(lt(a, b), "{} before {}", a, b);
        assert!(!lt(b, a), "{} not before {}", b, a);
        assert_eq!(lt(a, b), a.as_bytes() < b.as_bytes());
    }
    assert!(!lt("same", "same"));
}

#[test]
fn store_keeps_one_value_per_address_in_order() {
    let mut map: AddrMap<u64> = AddrMap::new();
    assert_eq!(map.len(), 0);
    for (k, v) in [("m", 1), ("a", 2), ("z", 3), ("m", 4), ("b", 5)] {
        map.insert(k.to_string(), v);
    }
    assert_eq!(map.len(), 4);
    let listed: Vec<(String, u64)> =
        (0..map.len()).map(|i| (map.entry(i).key.clone(), map.entry(i).value)).collect();
    assert_eq!(
        listed,
        vec![("a".to_string(), 2), ("b".to_string(), 5), ("m".to_string(), 4), ("z".to_string(), 3)]
    );
    assert_eq!(map.get(&"m".to_string()), Some(&4));
    assert_eq!(map.get(&"q".to_string()), None);
    assert!(map.has(&"z".to_string()));
    map.remove(&"m".to_string());
    map.remove(&"nobody".to_string());
    assert!(!map.has(&"m".to_string()));
    assert_eq!(map.len(), 3);
}

#[test]
fn ledger_debits_fail_closed() {
    let mut ledger = Ledger::new();
    assert_eq!(ledger.total_held(), 0);
    ledger.credit(&"a".to_string(), 100);
    ledger.credit(&"b".to_string(), 50);
    ledger.credit(&"a".to_string(), 1);
    assert_eq!(ledger.balance(&"a".to_string()), 101);
    assert_eq!(ledger.balance(&"c".to_string()), 0);
    assert_eq!(ledger.total_held(), 151);

    assert_eq!(ledger.debit(&"a".to_string(), 102), Err(StdError::overflow()));
    assert_eq!(ledger.debit(&"c".to_string(), 1), Err(StdError::overflow()));
    assert_eq!(ledger.balance(&"a".to_string()), 101);
    assert_eq!(ledger.total_held(), 151);

    assert_eq!(ledger.debit(&"a".to_string(), 101), Ok(()));
    assert_eq!(ledger.debit(&"c".to_string(), 0), Ok(()));
    assert_eq!(ledger.balance(&"a".to_string()), 0);
    assert_eq!(ledger.total_held(), 50);
    assert_eq!(ledger.len(), 3);
    assert_eq!(ledger.address_at(0), "a");
}

#[test]
fn address_check_refuses_what_is_on_record() {
    let mut api = Api::new();
    assert_eq!(api.addr_validate(&"anything".to_string()), Ok("anything".to_string()));
    api.reject("BAD".to_string(), StdError::generic_err("too loud"));
    api.reject("".to_string(), StdError::generic_err("too short"));
    assert_eq!(api.addr_validate(&"BAD".to_string()), Err(StdError::generic_err("too loud")));
    assert_eq!(api.addr_validate(&"bad".to_string()), Ok("bad".to_string()));
    let list = |l: &[&str]| l.iter().map(|a| a.to_string()).collect::<Vec<_>>();
    assert_eq!(api.validate_all(&list(&["a", "b"])), Ok(()));
    assert_eq!(api.validate_all(&list(&[])), Ok(()));
    // the first refusal in order is the one reported
    assert_eq!(api.validate_all(&list(&["a", "", "BAD"])), Err(StdError::generic_err("too short")));
    assert_eq!(api.validate_all(&list(&["BAD", ""])), Err(StdError::generic_err("too loud")));
}
