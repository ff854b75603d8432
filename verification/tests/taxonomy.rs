//! The error taxonomy: each kind carries its fixed message.

use http_handler::errors::Woo2Err;
use http_handler::reply::u64_to_decimal;

#[test]
fn each_kind_has_its_fixed_message() {
    assert_eq!(Woo2Err::ErrorInvalidSession.as_str(), "Session is invalid.");
    assert_eq!(Woo2Err::ErrorUserNotFound.as_str(), "User not found.");
    assert_eq!(Woo2Err::ErrorNoVehiclesFound.as_str(), "No vehicles found for user.");
    assert_eq!(Woo2Err::ErrorDbAddValue.as_str(), "Error registering value.");
    assert_eq!(Woo2Err::ErrorDbFetch.as_str(), "Error fetching database value.");
}

#[test]
fn decimal_numerals_have_no_sign_and_no_leading_zero() {
    assert_eq!(u64_to_decimal(0), "0");
    assert_eq!(u64_to_decimal(7), "7");
    assert_eq!(u64_to_decimal(10), "10");
    assert_eq!(u64_to_decimal(409), "409");
    assert_eq!(u64_to_decimal(18446744073709551615), "18446744073709551615");
}
