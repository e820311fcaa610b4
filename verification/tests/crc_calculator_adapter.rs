use doggy_bag::crc_calculator::crc_calculator_adapter::CrcCalculatorAdapter;
use doggy_bag::crc_calculator::CrcCalculator;

#[test]
fn single_byte() {
    let input_byte: &[u8] = &[0x42];

    let crc_calculator = CrcCalculatorAdapter {};

    assert_eq!(0x4AD0CF31, crc_calculator.calculate_crc32(input_byte));
}

#[test]
fn multiple_bytes() {
    let input_bytes: &[u8] = &[0x42, 0x55, 0x47, 0x43, 0x41, 0x54];

    let crc_calculator = CrcCalculatorAdapter {};

    assert_eq!(0xF2DAF2CB, crc_calculator.calculate_crc32(input_bytes));
}

#[test]
fn calculating_two_crcs_in_a_row() {
    let first_input: &[u8] = &[0x43, 0x41, 0x50, 0x4f, 0x4f];
    let second_input: &[u8] = &[0x54, 0x55, 0x54, 0x55];

    let crc_calculator = CrcCalculatorAdapter {};

    assert_eq!(0x7E7CBA7, crc_calculator.calculate_crc32(first_input));
    assert_eq!(0xCA8A9699, crc_calculator.calculate_crc32(second_input));
}

#[test]
fn crc_of_no_bytes_is_zero() {
    let crc_calculator = CrcCalculatorAdapter {};

    assert_eq!(0, crc_calculator.calculate_crc32(&[]));
}

#[test]
fn crc_of_the_check_string() {
    let crc_calculator = CrcCalculatorAdapter {};

    assert_eq!(0xCBF43926, crc_calculator.calculate_crc32(b"123456789"));
}

#[test]
fn crc_does_not_depend_on_earlier_calls() {
    let first_input: &[u8] = &[0x43, 0x41, 0x50, 0x4f, 0x4f];
    let second_input: &[u8] = &[0x54, 0x55, 0x54, 0x55];

    let crc_calculator = CrcCalculatorAdapter {};
    let alone = crc_calculator.calculate_crc32(second_input);
    crc_calculator.calculate_crc32(first_input);
    let after_another = crc_calculator.calculate_crc32(second_input);
    let again = crc_calculator.calculate_crc32(second_input);

    assert_eq!(alone, after_another);
    assert_eq!(alone, again);
    assert_eq!(alone, CrcCalculatorAdapter {}.calculate_crc32(second_input));
}

#[test]
fn boxed_calculator_answers_as_the_calculator() {
    let input_bytes: &[u8] = &[0x42, 0x55, 0x47, 0x43, 0x41, 0x54];

    let crc_calculator: Box<dyn CrcCalculator> = Box::new(CrcCalculatorAdapter {});

    assert_eq!(0xF2DAF2CB, crc_calculator.calculate_crc32(input_bytes));
}
