use solenoids::{Error, InputArray, InputType};

#[test]
fn borrow_checking() {
    let mut inputs = InputArray::new();
    let data = match inputs.get_input(InputType::Single) {
        Ok(data) => data,
        Err(e) => panic!("failed to get data: {:?}", e),
    };

    inputs.read(&data).input1_is_high();
}

#[test]
fn adding_single_input() {
    let mut inputs = InputArray::new();
    let data = match inputs.get_input(InputType::Single) {
        Ok(data) => data,
        Err(e) => panic!("failed to get data: {:?}", e),
    };

    assert_eq!(inputs.read(&data).input1_is_high().is_some(), true);
    assert!(inputs.read(&data).input2_is_high().is_none());
    assert!(inputs.read(&data).input3_is_high().is_none());

    assert_eq!(inputs.read(&data).input1_is_high().unwrap(), false);
    inputs.update(1);
    assert_eq!(inputs.read(&data).input1_is_high().unwrap(), true);
}

#[test]
fn lib_adding_single_input() {
    let mut inputs = InputArray::new();
    let data = match inputs.get_input(InputType::Single) {
        Ok(data) => data,
        Err(e) => panic!("failed to get data: {:?}", e),
    };

    assert_eq!(inputs.read(&data).input1_is_high().is_some(), true);
    assert!(inputs.read(&data).input2_is_high().is_none());
    assert!(inputs.read(&data).input3_is_high().is_none());

    assert_eq!(inputs.read(&data).input1_is_high().unwrap(), false);
    inputs.update(1);
    assert_eq!(inputs.read(&data).input1_is_high().unwrap(), true);
}

fn exercise_double_input(inputs: &mut InputArray) {
    let data = match inputs.get_input(InputType::Double) {
        Ok(data) => data,
        Err(e) => panic!("failed to get data: {:?}", e),
    };

    assert!(inputs.read(&data).input1_is_high().is_some());
    assert!(inputs.read(&data).input2_is_high().is_some());
    assert!(inputs.read(&data).input3_is_high().is_none());

    assert_eq!(inputs.read(&data).input1_is_high().unwrap(), false);
    assert_eq!(inputs.read(&data).input2_is_high().unwrap(), false);
    inputs.update(1);
    assert_eq!(inputs.read(&data).input1_is_high().unwrap(), true);
    assert_eq!(inputs.read(&data).input2_is_high().unwrap(), false);

    inputs.update(0);

    assert_eq!(inputs.read(&data).input1_is_high().unwrap(), false);
    assert_eq!(inputs.read(&data).input2_is_high().unwrap(), false);
    inputs.update(1 << 1);
    assert_eq!(inputs.read(&data).input1_is_high().unwrap(), false);
    assert_eq!(inputs.read(&data).input2_is_high().unwrap(), true);
}

#[test]
fn add_double_input() {
    let mut inputs = InputArray::new();
    exercise_double_input(&mut inputs);
}

#[test]
fn lib_add_double_input() {
    let mut inputs = InputArray::new();
    exercise_double_input(&mut inputs);
}

fn exercise_single_double_inputs(inputs: &mut InputArray) {
    let single_data = match inputs.get_input(InputType::Single) {
        Ok(d) => d,
        Err(e) => panic!("failed to get data: {:?}", e),
    };
    let double_data = match inputs.get_input(InputType::Double) {
        Ok(d) => d,
        Err(e) => panic!("failed to get data: {:?}", e),
    };

    inputs.update(1 << 0);
    assert!(inputs.read(&single_data).input1_is_high().unwrap());
    assert!(!inputs.read(&double_data).input1_is_high().unwrap());
    assert!(!inputs.read(&double_data).input2_is_high().unwrap());

    inputs.update(1 << 1);
    assert!(!inputs.read(&single_data).input1_is_high().unwrap());
    assert!(inputs.read(&double_data).input1_is_high().unwrap());
    assert!(!inputs.read(&double_data).input2_is_high().unwrap());

    inputs.update(1 << 2);
    assert!(!inputs.read(&single_data).input1_is_high().unwrap());
    assert!(!inputs.read(&double_data).input1_is_high().unwrap());
    assert!(inputs.read(&double_data).input2_is_high().unwrap());

    inputs.update(1 << 0 | 1 << 1);
    assert!(inputs.read(&single_data).input1_is_high().unwrap());
    assert!(inputs.read(&double_data).input1_is_high().unwrap());
    assert!(!inputs.read(&double_data).input2_is_high().unwrap());

    inputs.update(1 << 0 | 1 << 1 | 1 << 2);
    assert!(inputs.read(&single_data).input1_is_high().unwrap());
    assert!(inputs.read(&double_data).input1_is_high().unwrap());
    assert!(inputs.read(&double_data).input2_is_high().unwrap());
}

#[test]
fn add_single_double_inputs() {
    let mut inputs = InputArray::new();
    exercise_single_double_inputs(&mut inputs);
}

#[test]
fn lib_add_single_double_inputs() {
    let mut inputs = InputArray::new();
    exercise_single_double_inputs(&mut inputs);
}

#[test]
fn offsets_are_running_sums_of_widths() {
    let mut inputs = InputArray::new();
    let kinds = [
        InputType::Single,
        InputType::Triple,
        InputType::Double,
        InputType::Single,
        InputType::Triple,
    ];
    let mut expected: u8 = 0;
    for kind in kinds {
        let config = inputs.get_input(kind).unwrap();
        assert_eq!(config.start_offset(), expected);
        assert_eq!(config.input_type(), kind);
        expected += kind.size();
    }
    assert_eq!(inputs.size_used(), 10);
}

#[test]
fn width_budget_is_enforced_without_side_effects() {
    let mut inputs = InputArray::new();
    for _ in 0..5 {
        inputs.get_input(InputType::Triple).unwrap();
    }
    assert_eq!(inputs.size_used(), 15);
    assert_eq!(inputs.get_input(InputType::Double), Err(Error::TooManyInputs));
    assert_eq!(inputs.get_input(InputType::Triple), Err(Error::TooManyInputs));
    assert_eq!(inputs.size_used(), 15);
    let last = inputs.get_input(InputType::Single).unwrap();
    assert_eq!(last.start_offset(), 15);
    assert_eq!(inputs.size_used(), 16);
    assert_eq!(inputs.get_input(InputType::Single), Err(Error::TooManyInputs));
}

#[test]
fn seventeenth_field_is_refused() {
    let mut inputs = InputArray::new();
    for i in 0..16u8 {
        let config = inputs.get_input(InputType::Single).unwrap();
        assert_eq!(config.start_offset(), i);
    }
    assert_eq!(inputs.get_input(InputType::Single), Err(Error::TooManyInputs));
    assert_eq!(inputs.size_used(), 16);
}

#[test]
fn retry_after_refusal_gets_the_same_offset() {
    let mut inputs = InputArray::new();
    for _ in 0..4 {
        inputs.get_input(InputType::Triple).unwrap();
    }
    inputs.get_input(InputType::Double).unwrap();
    assert_eq!(inputs.get_input(InputType::Triple), Err(Error::TooManyInputs));
    let next = inputs.get_input(InputType::Single).unwrap();
    assert_eq!(next.start_offset(), 14);
}

#[test]
fn decode_vectors_single_then_dual() {
    let mut inputs = InputArray::new();
    let single = inputs.get_input(InputType::Single).unwrap();
    let dual = inputs.get_input(InputType::Double).unwrap();
    assert_eq!(dual.start_offset(), 1);
    let cases: [(u16, bool, bool, bool); 5] = [
        (0b001, true, false, false),
        (0b010, false, true, false),
        (0b100, false, false, true),
        (0b011, true, true, false),
        (0b111, true, true, true),
    ];
    for (raw, s1, d1, d2) in cases {
        inputs.update(raw);
        assert_eq!(inputs.read(&single).is_input1_high(), s1);
        assert_eq!(inputs.read(&dual).is_input1_high(), d1);
        assert_eq!(inputs.read(&dual).is_input2_high(), d2);
    }
}

#[test]
fn end_to_end_decode_after_a_gap() {
    let mut inputs = InputArray::new();
    let single = inputs.get_input(InputType::Single).unwrap();
    inputs.get_input(InputType::Single).unwrap();
    let dual = inputs.get_input(InputType::Double).unwrap();
    assert_eq!(single.start_offset(), 0);
    assert_eq!(dual.start_offset(), 2);
    inputs.update(0b10100);
    assert_eq!(inputs.read(&single).input1_is_high(), Some(false));
    assert_eq!(inputs.read(&dual).input1_is_high(), Some(true));
    assert_eq!(inputs.read(&dual).input2_is_high(), Some(false));
}

#[test]
fn triple_field_exposes_three_lines() {
    let mut inputs = InputArray::new();
    inputs.get_input(InputType::Double).unwrap();
    let triple = inputs.get_input(InputType::Triple).unwrap();
    assert_eq!(triple.start_offset(), 2);
    inputs.update(0b10100);
    let data = inputs.read(&triple);
    assert_eq!(data.input1_is_high(), Some(true));
    assert_eq!(data.input2_is_high(), Some(false));
    assert_eq!(data.input3_is_high(), Some(true));
    assert!(data.is_input3_high());
}

#[test]
fn top_bit_of_the_word_is_readable() {
    let mut inputs = InputArray::new();
    for _ in 0..15 {
        inputs.get_input(InputType::Single).unwrap();
    }
    let last = inputs.get_input(InputType::Single).unwrap();
    assert_eq!(last.start_offset(), 15);
    inputs.update(0x8000);
    assert!(inputs.read(&last).is_input1_high());
    inputs.update(0x7fff);
    assert!(!inputs.read(&last).is_input1_high());
}
