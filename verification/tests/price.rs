use wallet_trades::price::{dir_text, price_from_flows, Price, NATIVE_DECIMALS};

fn as_float(price: &Price) -> f64 {
    let native = (price.native as f64) / 10f64.powi(NATIVE_DECIMALS as i32);
    let token = (price.token as f64) / 10f64.powi(price.token_decimals as i32);
    native / token
}

#[test]
fn price_from_flows_is_absent_where_a_flow_is_zero() {
    assert_eq!(price_from_flows(0, 1_000_000, 6), None);
    assert_eq!(price_from_flows(0, -1, 6), None);
    assert_eq!(price_from_flows(2_000_000_000, 0, 6), None);
    assert_eq!(price_from_flows(-7, 0, 6), None);
    assert_eq!(price_from_flows(0, 0, 6), None);
    assert_eq!(price_from_flows(i128::MIN, 0, 6), None);
    assert_eq!(price_from_flows(0, i128::MAX, 0), None);
}

#[test]
fn price_from_flows_of_two_native_units_for_one_token_is_two() {
    let price = price_from_flows(2_000_000_000, 1_000_000, 6);
    assert_eq!(price, Some(Price { native: 2_000_000_000, token: 1_000_000, token_decimals: 6 }));
    assert_eq!(as_float(&price.unwrap()), 2.0);
}

#[test]
fn price_from_flows_drops_the_signs() {
    let expected = Some(Price { native: 2_000_000_000, token: 1_000_000, token_decimals: 6 });
    assert_eq!(price_from_flows(-2_000_000_000, 1_000_000, 6), expected);
    assert_eq!(price_from_flows(2_000_000_000, -1_000_000, 6), expected);
    assert_eq!(price_from_flows(-2_000_000_000, -1_000_000, 6), expected);
    assert_eq!(as_float(&price_from_flows(-500_000_000, 2_000_000, 6).unwrap()), 0.25);
}

#[test]
fn price_from_flows_keeps_the_decimals_it_is_given() {
    let price = price_from_flows(1_000_000_000, 100, 2).unwrap();
    assert_eq!(price.token_decimals, 2);
    assert_eq!(as_float(&price), 1.0);
}

#[test]
fn price_from_flows_holds_the_whole_range() {
    let price = price_from_flows(i128::MIN, i128::MAX, 6).unwrap();
    assert_eq!(price.native, 1u128 << 127);
    assert_eq!(price.token, i128::MAX as u128);
}

#[test]
fn dir_text_names_the_three_directions() {
    assert_eq!(dir_text(1), "BUY");
    assert_eq!(dir_text(i128::MAX), "BUY");
    assert_eq!(dir_text(-1), "SELL");
    assert_eq!(dir_text(i128::MIN), "SELL");
    assert_eq!(dir_text(0), "NEUTRAL");
}
