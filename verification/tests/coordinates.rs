use chess_core::chess_state::coordinates::CoordinateConversion;
use chess_core::chess_state::coordinates::CoordinateError;
use chess_core::chess_state::coordinates::XCoordinate;
use chess_core::chess_state::coordinates::XCoordinate::A;
use chess_core::chess_state::coordinates::XCoordinate::B;
use chess_core::chess_state::coordinates::XCoordinate::C;
use chess_core::chess_state::coordinates::XCoordinate::D;
use chess_core::chess_state::coordinates::XCoordinate::E;
use chess_core::chess_state::coordinates::XCoordinate::F;
use chess_core::chess_state::coordinates::XCoordinate::G;
use chess_core::chess_state::coordinates::XCoordinate::H;
use chess_core::chess_state::coordinates::YCoordinate;
use chess_core::chess_state::coordinates::YCoordinate::Eight;
use chess_core::chess_state::coordinates::YCoordinate::Five;
use chess_core::chess_state::coordinates::YCoordinate::Four;
use chess_core::chess_state::coordinates::YCoordinate::One;
use chess_core::chess_state::coordinates::YCoordinate::Seven;
use chess_core::chess_state::coordinates::YCoordinate::Six;
use chess_core::chess_state::coordinates::YCoordinate::Three;
use chess_core::chess_state::coordinates::YCoordinate::Two;

#[test]
fn coordinates_converts_enum_value_correctly_when_given_valid_char() {
    let valid_lower_case: [char; 8] = ['a', 'b', 'c', 'd', 'e', 'f', 'g', 'h'];
    let valid_upper_case: [char; 8] = ['A', 'B', 'C', 'D', 'E', 'F', 'G', 'H'];
    let expected_output: Vec<XCoordinate> = vec![A, B, C, D, E, F, G, H];
    let enums_from_lower_case: Vec<XCoordinate> = valid_lower_case
        .iter()
        .map(|&ch| {
            <XCoordinate as CoordinateConversion<char>>::try_from_value(ch)
                .expect("valid lower case char")
        })
        .collect();
    let enums_from_upper_case: Vec<XCoordinate> = valid_upper_case
        .iter()
        .map(|&ch| {
            <XCoordinate as CoordinateConversion<char>>::try_from_value(ch)
                .expect("valid upper case char")
        })
        .collect();
    assert_eq!(enums_from_lower_case, expected_output);
    assert_eq!(enums_from_upper_case, expected_output);

    let valid_numbers: [char; 8] = ['1', '2', '3', '4', '5', '6', '7', '8'];
    let expected_y: Vec<YCoordinate> = vec![One, Two, Three, Four, Five, Six, Seven, Eight];
    let enums_from_valid_numbers: Vec<YCoordinate> = valid_numbers
        .iter()
        .map(|&ch| {
            <YCoordinate as CoordinateConversion<char>>::try_from_value(ch)
                .expect("valid number char")
        })
        .collect();
    assert_eq!(enums_from_valid_numbers, expected_y);
}

#[test]
fn coordinates_returns_correct_error_when_given_invalid_char() {
    let invalid_chars = ['v', '3', '"', '@', 't', 'Y'];
    let expected_output: Vec<CoordinateError> = invalid_chars
        .iter()
        .map(|&ch| CoordinateError::XCoordinateFromInvalidChar(ch))
        .collect();
    let output: Vec<CoordinateError> = invalid_chars
        .iter()
        .map(|&ch| {
            <XCoordinate as CoordinateConversion<char>>::try_from_value(ch)
                .expect_err("invalid char")
        })
        .collect();
    assert_eq!(output, expected_output);

    let invalid_y_chars = ['v', 'a', '"', '@', 't', 'Y'];
    let expected_y: Vec<CoordinateError> = invalid_y_chars
        .iter()
        .map(|&ch| CoordinateError::YCoordinateFromInvalidChar(ch))
        .collect();
    let output_y: Vec<CoordinateError> = invalid_y_chars
        .iter()
        .map(|&ch| {
            <YCoordinate as CoordinateConversion<char>>::try_from_value(ch)
                .expect_err("invalid char")
        })
        .collect();
    assert_eq!(output_y, expected_y);
}

#[test]
fn coordinates_returns_correct_char_when_converted_from_enum() {
    let enums = [A, B, C, D, E, F, G, H];
    let expected_output = vec!['a', 'b', 'c', 'd', 'e', 'f', 'g', 'h'];
    let output: Vec<char> = enums
        .iter()
        .map(|&e| CoordinateConversion::<char>::to_value(e))
        .collect();
    assert_eq!(output, expected_output);

    let y_enums = [One, Two, Three, Four, Five, Six, Seven, Eight];
    let expected_y = vec!['1', '2', '3', '4', '5', '6', '7', '8'];
    let output_y: Vec<char> = y_enums
        .iter()
        .map(|&e| CoordinateConversion::<char>::to_value(e))
        .collect();
    assert_eq!(output_y, expected_y);
}

#[test]
fn coordinates_returns_correct_u64s_when_converting_from_enums() {
    let enums = [A, B, C, D, E, F, G, H];
    let expected_output: Vec<u64> = vec![
        0x01_01_01_01_01_01_01_01 << 7,
        0x01_01_01_01_01_01_01_01 << 6,
        0x01_01_01_01_01_01_01_01 << 5,
        0x01_01_01_01_01_01_01_01 << 4,
        0x01_01_01_01_01_01_01_01 << 3,
        0x01_01_01_01_01_01_01_01 << 2,
        0x01_01_01_01_01_01_01_01 << 1,
        0x01_01_01_01_01_01_01_01 << 0,
    ];
    let output: Vec<u64> = enums
        .iter()
        .map(|&e| <XCoordinate as CoordinateConversion<u64>>::to_value(e))
        .collect();
    assert_eq!(output, expected_output);

    let y_enums = [One, Two, Three, Four, Five, Six, Seven, Eight];
    let expected_y: Vec<u64> = vec![
        0xFF << 0,
        0xFF << 8,
        0xFF << 16,
        0xFF << 24,
        0xFF << 32,
        0xFF << 40,
        0xFF << 48,
        0xFF << 56,
    ];
    let output_y: Vec<u64> = y_enums
        .iter()
        .map(|&e| <YCoordinate as CoordinateConversion<u64>>::to_value(e))
        .collect();
    assert_eq!(output_y, expected_y);
}

#[test]
fn coordinates_returns_correct_error_when_given_multi_coordinate_bitflag() {
    // both A and B
    let invalid_bitflag: u64 = 0x01_01_01_01_01_01_01_01 << 7 | 0x01_01_01_01_01_01_01_01 << 6;
    let output = <XCoordinate as CoordinateConversion<u64>>::try_from_value(invalid_bitflag);
    assert!(output.is_err());
    let err = output.expect_err("must be an error");
    assert_eq!(err, CoordinateError::XCoordinateFromInvalidBitmask(invalid_bitflag));

    // both A and B, crossing all YCoordinates
    let output_y = <YCoordinate as CoordinateConversion<u64>>::try_from_value(invalid_bitflag);
    assert!(output_y.is_err());
    let err_y = output_y.expect_err("must be an error");
    assert_eq!(err_y, CoordinateError::YCoordinateFromInvalidBitmask(invalid_bitflag));
}

#[test]
fn coordinates_returns_correct_enum_values_when_given_valid_u64s() {
    let enums_as_u64s: [u64; 8] = [
        0x01_01_01_01_01_01_01_01 << 7,
        0x01_01_01_01_01_01_01_01 << 6,
        0x01_01_01_01_01_01_01_01 << 5,
        0x01_01_01_01_01_01_01_01 << 4,
        0x01_01_01_01_01_01_01_01 << 3,
        0x01_01_01_01_01_01_01_01 << 2,
        0x01_01_01_01_01_01_01_01 << 1,
        0x01_01_01_01_01_01_01_01 << 0,
    ];
    let expected_output: Vec<XCoordinate> = vec![A, B, C, D, E, F, G, H];
    let output: Vec<XCoordinate> = enums_as_u64s
        .iter()
        .map(|&u| {
            <XCoordinate as CoordinateConversion<u64>>::try_from_value(u)
                .expect("Valid u64 value should produce valid enum")
        })
        .collect();
    assert_eq!(output, expected_output);

    let y_as_u64s: [u64; 8] = [
        0xFF << 0,
        0xFF << 8,
        0xFF << 16,
        0xFF << 24,
        0xFF << 32,
        0xFF << 40,
        0xFF << 48,
        0xFF << 56,
    ];
    let expected_y: Vec<YCoordinate> = vec![One, Two, Three, Four, Five, Six, Seven, Eight];
    let output_y: Vec<YCoordinate> = y_as_u64s
        .iter()
        .map(|&u| {
            <YCoordinate as CoordinateConversion<u64>>::try_from_value(u)
                .expect("Valid u64 value should produce valid enum")
        })
        .collect();
    assert_eq!(output_y, expected_y);
}
