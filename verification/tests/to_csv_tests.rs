use rexif::to_csv::ToCsv;

#[test]
fn to_csv_should_comma_space_separate_elements() {
    let vec = vec![0, 1, 2, 3];

    assert_eq!("0, 1, 2, 3", vec.to_csv());
}

#[test]
fn to_csv_should_return_empty_string_for_empty_vector() {
    let vec: Vec<u8> = vec![];

    assert_eq!("", vec.to_csv());
}

#[test]
fn to_csv_should_return_a_one_element_vector_as_that_element_stringified() {
    let vec = vec![5];

    assert_eq!("5", vec.to_csv());
}

#[test]
fn to_csv_should_comma_space_separate_elements_of_a_slice() {
    let vec = vec![0, 1, 2, 3];

    assert_eq!("0, 1, 2, 3", vec[..].to_csv());
}

#[test]
fn to_csv_renders_rationals_as_fractions() {
    let vec = vec![
        rexif::URational { numerator: 1, denominator: 125 },
        rexif::URational { numerator: 72, denominator: 1 },
    ];

    assert_eq!("1/125, 72/1", vec.to_csv());
}
