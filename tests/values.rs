use async_embedded_traits::delay::{ms_to_us, non_negative};
use async_embedded_traits::i2c::{AddressRangeError, I2cAddress10Bit, I2cAddress7Bit};
use std::convert::TryFrom;

#[test]
fn address_7bit_largest_round_trips() {
    let a = I2cAddress7Bit::try_from(127u8).unwrap();
    assert_eq!(u8::from(a), 127);
}

#[test]
fn address_7bit_zero_round_trips() {
    let a = I2cAddress7Bit::try_from(0u8).unwrap();
    assert_eq!(u8::from(a), 0);
}

#[test]
fn address_7bit_out_of_range() {
    assert!(matches!(I2cAddress7Bit::try_from(128u8), Err(AddressRangeError)));
    assert!(matches!(I2cAddress7Bit::try_from(255u8), Err(AddressRangeError)));
}

#[test]
fn address_10bit_largest_round_trips() {
    let a = I2cAddress10Bit::try_from(1023u16).unwrap();
    assert_eq!(u16::from(a), 1023);
}

#[test]
fn address_10bit_out_of_range() {
    assert!(matches!(I2cAddress10Bit::try_from(1024u16), Err(AddressRangeError)));
    assert!(matches!(I2cAddress10Bit::try_from(u16::MAX), Err(AddressRangeError)));
}

#[test]
fn delay_ms_reaches_microseconds() {
    assert_eq!(ms_to_us(5), 5000);
    assert_eq!(ms_to_us(0), 0);
    assert_eq!(ms_to_us(u32::MAX), 4_294_967_295_000);
}

#[test]
fn delay_negative_duration_rejected() {
    assert_eq!(non_negative(-1), None);
    assert_eq!(non_negative(i32::MIN), None);
    assert_eq!(non_negative(0), Some(0));
    assert_eq!(non_negative(i32::MAX), Some(2_147_483_647));
}
