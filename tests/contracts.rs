use ftx_us_derivs::error::TableError;
use ftx_us_derivs::table::{
    ContractSpec, RawContractSpec, RawContractSpecTable, SECONDS_PER_JULIAN_YEAR,
};

fn record(id: u64, label: &str, kind: &str) -> RawContractSpec {
    RawContractSpec {
        id,
        label: label.to_string(),
        is_call: Some(true),
        active: true,
        strike_price: Some(500000),
        min_increment: 10,
        date_live: "2024-01-01 00:00:00+0000".to_string(),
        date_expires: "2025-01-01 00:00:00+0000".to_string(),
        date_exercise: None,
        underlying_asset: "CBTC".to_string(),
        collateral_asset: "USD".to_string(),
        derivative_type: kind.to_string(),
        open_interest: None,
        is_next_day: false,
        multiplier: 100,
        is_ecp_only: false,
    }
}

const LIVE: i64 = 1704067200;
const EXPIRES: i64 = 1735689600;

#[test]
fn option_record_is_normalized() {
    let c = record(1, "BTC-Mini-1JAN2025-5000-Call", "options_contract")
        .normalize(LIVE)
        .ok()
        .unwrap();
    let o = c.as_opt().unwrap();
    assert_eq!(o.id, 1);
    assert_eq!(o.label, "BTC-Mini-1JAN2025-5000-Call");
    assert_eq!(o.underlying, "CBTC");
    assert_eq!(o.strike_price, 500000);
    assert_eq!(o.strike_price as f64 / 100.0, 5000.0);
    assert!(o.is_call);
    assert_eq!(o.open_interest, 0);
    assert_eq!(o.multiplier, 100);
    assert_eq!(o.min_increment, 10);
    assert_eq!(o.min_increment as f64 / 100.0, 0.10);
    assert!(o.active);
    assert_eq!(o.date_live, LIVE);
    assert_eq!(o.date_expires, EXPIRES);
    assert_eq!(o.seconds_to_expiry, EXPIRES - LIVE);
    assert_eq!(o.collateral_asset, "USD");
    assert!(!o.is_ecp_only);
}

#[test]
fn strike_and_increment_are_scaled_from_hundredths() {
    let mut r = record(2, "x", "options_contract");
    r.strike_price = Some(1234567);
    r.min_increment = 250;
    r.open_interest = Some(17);
    let o = r.normalize(LIVE).ok().unwrap().as_opt().unwrap();
    assert_eq!(o.strike_price, 1234567);
    assert_eq!(o.strike_price as f64 / 100.0, 12345.67);
    assert_eq!(o.min_increment, 250);
    assert_eq!(o.open_interest, 17);
}

#[test]
fn dates_with_offsets_are_read_as_instants() {
    let mut r = record(3, "x", "options_contract");
    r.date_expires = "2025-01-01 02:00:00+0200".to_string();
    let o = r.normalize(EXPIRES - 10).ok().unwrap().as_opt().unwrap();
    assert_eq!(o.date_expires, EXPIRES);
    assert_eq!(o.seconds_to_expiry, 10);
}

#[test]
fn swap_and_future_records_pass_through() {
    match record(4, "swap", "day_ahead_swap").normalize(LIVE) {
        Ok(ContractSpec::Swap(s)) => assert_eq!(s.0.id, 4),
        _ => panic!("expected a swap"),
    }
    match record(5, "fut", "future_contract").normalize(LIVE) {
        Ok(ContractSpec::Future(f)) => assert_eq!(f.0.label, "fut"),
        _ => panic!("expected a future"),
    }
    assert!(record(5, "fut", "future_contract")
        .normalize(LIVE)
        .ok()
        .unwrap()
        .as_opt()
        .is_none());
}

#[test]
fn unknown_derivative_type_is_an_error() {
    match record(6, "x", "perpetual").normalize(LIVE) {
        Err(TableError::UnimplementedContractType(t)) => assert_eq!(t, "perpetual"),
        _ => panic!("expected an unimplemented contract type"),
    }
}

#[test]
fn options_without_strike_or_flag_are_errors() {
    let mut r = record(7, "x", "options_contract");
    r.strike_price = None;
    assert!(matches!(r.normalize(LIVE), Err(TableError::MissingStrikePrice(7))));
    let mut r = record(8, "x", "options_contract");
    r.is_call = None;
    assert!(matches!(r.normalize(LIVE), Err(TableError::MissingCallFlag(8))));
}

#[test]
fn bad_dates_are_errors() {
    let mut r = record(9, "x", "options_contract");
    r.date_live = "2024-01-01T00:00:00Z".to_string();
    match r.normalize(LIVE) {
        Err(TableError::BadDate(9, d)) => assert_eq!(d, "2024-01-01T00:00:00Z"),
        _ => panic!("expected a bad date"),
    }
    let mut r = record(10, "x", "options_contract");
    r.date_expires = "soon".to_string();
    match r.normalize(LIVE) {
        Err(TableError::BadDate(10, d)) => assert_eq!(d, "soon"),
        _ => panic!("expected a bad date"),
    }
}

#[test]
fn option_expiring_in_a_year_has_time_to_expiry_near_one() {
    let expires = chrono::Utc::now() + chrono::Duration::seconds(SECONDS_PER_JULIAN_YEAR);
    let mut r = record(11, "year", "options_contract");
    r.date_expires = expires.format("%Y-%m-%d %H:%M:%S%z").to_string();
    let table = RawContractSpecTable { data: vec![r] }
        .sanitize_at(chrono::Utc::now().timestamp())
        .ok()
        .unwrap();
    match table.lookup_by_id(11) {
        Some(ContractSpec::Option(o)) => {
            assert_eq!(o.strike_price, 500000);
            assert_eq!(o.strike_price as f64 / 100.0, 5000.0);
            let tte = o.seconds_to_expiry as f64 / SECONDS_PER_JULIAN_YEAR as f64;
            assert!((tte - 1.0).abs() < 0.001);
        }
        _ => panic!("expected an option"),
    }
}

#[test]
fn both_indices_resolve_to_the_same_record() {
    let data = vec![
        record(20, "a", "options_contract"),
        record(21, "b", "day_ahead_swap"),
        record(22, "c", "future_contract"),
    ];
    let table = RawContractSpecTable { data }.sanitize_at(LIVE).ok().unwrap();
    assert_eq!(table.len(), 3);
    for (id, label, slot) in [(20, "a", 0), (21, "b", 1), (22, "c", 2)] {
        assert_eq!(table.slot_by_id(id), Some(slot));
        assert_eq!(table.slot_by_label(label), Some(slot));
        let by_id = table.lookup_by_id(id).unwrap();
        let by_label = table.lookup_by_label(label).unwrap();
        assert!(std::ptr::eq(by_id, by_label));
        assert_eq!(by_id.id(), id);
        assert_eq!(by_label.label(), label);
    }
    assert!(table.lookup_by_id(99).is_none());
    assert!(table.lookup_by_label("zz").is_none());
    assert!(table.get(3).is_none());
}

#[test]
fn later_records_win_on_shared_keys() {
    let data = vec![
        record(30, "a", "day_ahead_swap"),
        record(30, "b", "future_contract"),
        record(31, "b", "day_ahead_swap"),
    ];
    let table = RawContractSpecTable { data }.sanitize_at(LIVE).ok().unwrap();
    assert_eq!(table.slot_by_id(30), Some(1));
    assert_eq!(table.slot_by_label("a"), Some(0));
    assert_eq!(table.slot_by_label("b"), Some(2));
    assert_eq!(table.lookup_by_label("b").unwrap().id(), 31);
}

#[test]
fn build_stops_at_first_bad_record() {
    let data = vec![
        record(40, "a", "day_ahead_swap"),
        record(41, "b", "weather_swap"),
        record(42, "c", "strange"),
    ];
    match (RawContractSpecTable { data }).sanitize_at(LIVE) {
        Err(TableError::UnimplementedContractType(t)) => assert_eq!(t, "weather_swap"),
        _ => panic!("expected the first failure"),
    }
}

#[test]
fn empty_source_gives_empty_table() {
    let table = RawContractSpecTable { data: Vec::new() }.sanitize_at(0).ok().unwrap();
    assert_eq!(table.len(), 0);
    assert!(table.lookup_by_id(0).is_none());
    assert!(table.lookup_by_label("").is_none());
}

#[test]
fn option_ref_view() {
    let c = record(50, "x", "options_contract").normalize(LIVE).ok().unwrap();
    assert_eq!(c.as_opt_ref().unwrap().id, 50);
    let s = record(51, "y", "day_ahead_swap").normalize(LIVE).ok().unwrap();
    assert!(s.as_opt_ref().is_none());
}
