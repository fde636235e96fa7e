use dimensions::{all_quantities, classify, get_si_symbol, DimensionVector, Quantity};

fn canonical_vectors() -> [DimensionVector; 12] {
    [
        DimensionVector([1, 0, 0, 0, 0, 0, 0, 0]),
        DimensionVector([0, 1, 0, 0, 0, 0, 0, 0]),
        DimensionVector([0, 0, 1, 0, 0, 0, 0, 0]),
        DimensionVector([0, 0, 0, 1, 0, 0, 0, 0]),
        DimensionVector([0, 0, 0, 0, 1, 0, 0, 0]),
        DimensionVector([0, 0, 0, 0, 0, 1, 0, 0]),
        DimensionVector([0, 0, 0, 0, 0, 0, 1, 0]),
        DimensionVector([1, -1, 0, 0, 0, 0, 0, 0]),
        DimensionVector([1, -2, 1, 0, 0, 0, 0, 0]),
        DimensionVector([2, -2, 1, 0, 0, 0, 0, 0]),
        DimensionVector([2, -3, 1, 0, 0, 0, 0, 0]),
        DimensionVector([2, -2, 1, 0, 0, 0, 0, 1]),
    ]
}

#[test]
fn test_primary_table_basic_dimensions() {
    let v = canonical_vectors();
    assert_eq!(classify(&v[0]), Some(Quantity::Length));
    assert_eq!(classify(&v[1]), Some(Quantity::Time));
    assert_eq!(classify(&v[2]), Some(Quantity::Mass));
    assert_eq!(classify(&v[3]), Some(Quantity::Current));
    assert_eq!(classify(&v[4]), Some(Quantity::Temperature));
    assert_eq!(classify(&v[5]), Some(Quantity::AmountOfSubstance));
    assert_eq!(classify(&v[6]), Some(Quantity::LuminousIntensity));
}

#[test]
fn test_primary_table_derived_dimensions() {
    let v = canonical_vectors();
    assert_eq!(classify(&v[7]), Some(Quantity::Velocity));
    assert_eq!(classify(&v[8]), Some(Quantity::Force));
    assert_eq!(classify(&v[9]), Some(Quantity::Energy));
    assert_eq!(classify(&v[10]), Some(Quantity::Power));
    assert_eq!(classify(&v[11]), Some(Quantity::Torque));
}

#[test]
fn test_si_symbols_basic_units() {
    assert_eq!(get_si_symbol(Quantity::Length), Some("m"));
    assert_eq!(get_si_symbol(Quantity::Time), Some("s"));
    assert_eq!(get_si_symbol(Quantity::Mass), Some("kg"));
    assert_eq!(get_si_symbol(Quantity::Current), Some("A"));
    assert_eq!(get_si_symbol(Quantity::Temperature), Some("K"));
    assert_eq!(get_si_symbol(Quantity::AmountOfSubstance), Some("mol"));
    assert_eq!(get_si_symbol(Quantity::LuminousIntensity), Some("cd"));
}

#[test]
fn test_si_symbols_derived_units() {
    assert_eq!(get_si_symbol(Quantity::Velocity), Some("m/s"));
    assert_eq!(get_si_symbol(Quantity::Force), Some("N"));
    assert_eq!(get_si_symbol(Quantity::Energy), Some("J"));
    assert_eq!(get_si_symbol(Quantity::Power), Some("W"));
    assert_eq!(get_si_symbol(Quantity::Torque), Some("N·m"));
}

#[test]
fn test_dimension_to_symbol_chain() {
    for dim in canonical_vectors() {
        let quantity = classify(&dim);
        assert!(quantity.is_some(), "Dimensionsvektor {:?} hittades inte i PRIMETABLE", dim);

        let symbol = get_si_symbol(quantity.unwrap());
        assert!(symbol.is_some(), "Quantity {:?} hittades inte i SI_SYMBOLS", quantity.unwrap());
    }
}

#[test]
fn test_table_completeness() {
    let expected_quantities = [
        Quantity::Length, Quantity::Time, Quantity::Mass,
        Quantity::Current, Quantity::Temperature,
        Quantity::AmountOfSubstance, Quantity::LuminousIntensity,
        Quantity::Velocity, Quantity::Force, Quantity::Energy,
        Quantity::Power, Quantity::Torque,
    ];

    for &q in &expected_quantities {
        assert!(get_si_symbol(q).is_some(), "SI_SYMBOLS saknar Quantity {:?}", q);
    }

    for &q in &expected_quantities {
        let found = canonical_vectors().iter().any(|v| classify(v) == Some(q));
        assert!(found, "PRIMETABLE saknar dimensionsvektor för Quantity {:?}", q);
    }
    assert_eq!(all_quantities(), expected_quantities.to_vec());
}
