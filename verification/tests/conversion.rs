use rustirinth::basic_types::{u64_decimal, LabyrinthError};
use rustirinth::convert::{approx_convert, convert, ConvertInto};
use rustirinth::rectangle::{GeneralRectangle, Rectangle};

#[test]
fn basic_types_general_rectangle_overflow() {
    let big_rectangle = GeneralRectangle::<u64> {
        x: 1,
        y: 4_294_967_296,
        width: 3,
        height: 4,
    };
    let rectangle = big_rectangle.to::<u32, Rectangle>();
    assert!(rectangle.is_err());
    let error = rectangle.err().unwrap();
    let error_string = error.message();
    assert_eq!(
        error_string,
        "Conversion error or overflow while converting \"4294967296\""
    );
}

#[test]
fn rectangle_general_rectangle_overflow() {
    let big_rectangle = GeneralRectangle::<u64> {
        x: 1,
        y: 4_294_967_296,
        width: 3,
        height: 4,
    };
    let rectangle = big_rectangle.to::<u32, Rectangle>();
    assert!(rectangle.is_err());
}

#[test]
fn convert_negative_fails() {
    let result = convert::<i32, u32>(-1);
    assert!(result.is_err());
    let error = result.err().unwrap();
    assert_eq!(
        error.message(),
        "Conversion error or overflow while converting \"-1\""
    );
}

#[test]
fn convert_large_fails() {
    let result = convert::<u64, u32>(4_294_967_296);
    assert!(result.is_err());
    let error = result.err().unwrap();
    assert_eq!(
        error.message(),
        "Conversion error or overflow while converting \"4294967296\""
    );
}

#[test]
fn convert_round_trips() {
    let through_u64: u64 = convert::<u32, u64>(4_294_967_295u32).unwrap();
    let back: u32 = convert::<u64, u32>(through_u64).unwrap();
    assert_eq!(back, 4_294_967_295u32);

    let through_i32: i32 = convert::<u32, i32>(2_147_483_647u32).unwrap();
    let back: u32 = convert::<i32, u32>(through_i32).unwrap();
    assert_eq!(back, 2_147_483_647u32);

    let through_usize: usize = convert::<u32, usize>(123u32).unwrap();
    let back: u32 = convert::<usize, u32>(through_usize).unwrap();
    assert_eq!(back, 123u32);
}

#[test]
fn convert_in_range_succeeds() {
    assert_eq!(convert::<i32, u32>(0).unwrap(), 0u32);
    assert_eq!(convert::<i32, u32>(7).unwrap(), 7u32);
    assert_eq!(convert::<u64, u32>(4_294_967_295).unwrap(), u32::MAX);
    assert_eq!(convert::<u32, i32>(2_147_483_648u32).is_err(), true);
}

#[test]
fn approx_convert_integer_overflow_fails() {
    assert!(approx_convert::<u64, u32>(4_294_967_296).is_err());
    assert_eq!(approx_convert::<u64, u32>(7).unwrap(), 7u32);
    assert!(approx_convert::<i32, u32>(-1).is_err());
}

#[test]
fn convert_into_matches_convert() {
    let value: u64 = 4_294_967_295;
    let converted: Result<u32, _> = value.convert_into();
    assert_eq!(converted.unwrap(), u32::MAX);
    let negative: i32 = -5;
    let failed: Result<u32, _> = negative.convert_into();
    assert!(failed.is_err());
}

#[test]
fn decimal_rendering() {
    assert_eq!(u64_decimal(0), "0");
    assert_eq!(u64_decimal(7), "7");
    assert_eq!(u64_decimal(10), "10");
    assert_eq!(u64_decimal(1_234_567_890), "1234567890");
    assert_eq!(u64_decimal(u64::MAX), "18446744073709551615");
}

#[test]
fn error_messages() {
    assert_eq!(
        LabyrinthError::CouldNotGetDefaultScreen.message(),
        "Could not get default screen"
    );
    assert_eq!(
        LabyrinthError::InternalError.message(),
        "An internal error occurred"
    );
    let conversion = LabyrinthError::ConversionError {
        value: String::from("12.5"),
    };
    assert_eq!(
        conversion.message(),
        "Conversion error or overflow while converting \"12.5\""
    );
}
