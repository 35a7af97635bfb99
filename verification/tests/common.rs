use lanai_infrastructure::common::decimal_serde::{
    build_decimal, decimal_source, deserialize, deserialize_option, optional_decimal_source,
    DecimalError, DecimalSource, JsonInput,
};
use rust_decimal::Decimal;

#[test]
fn integers_become_amounts() {
    assert_eq!(deserialize(JsonInput::Integer(42)).unwrap(), Decimal::new(42, 0));
    assert_eq!(deserialize(JsonInput::Integer(-7)).unwrap(), Decimal::new(-7, 0));
    assert_eq!(
        deserialize(JsonInput::Integer(i64::MIN)).unwrap(),
        Decimal::from_i128_with_scale(i128::from(i64::MIN), 0)
    );
    assert_eq!(
        deserialize_option(Some(JsonInput::Integer(0))).unwrap(),
        Some(Decimal::new(0, 0))
    );
}

#[test]
fn texts_and_floats_are_parsed() {
    assert_eq!(
        deserialize(JsonInput::Text("12.50".to_string())).unwrap(),
        Decimal::new(1250, 2)
    );
    assert_eq!(
        deserialize(JsonInput::Float("0.125".to_string())).unwrap(),
        Decimal::new(125, 3)
    );
    assert_eq!(
        deserialize_option(Some(JsonInput::Text("-3.1".to_string()))).unwrap(),
        Some(Decimal::new(-31, 1))
    );
    assert!(matches!(
        deserialize(JsonInput::Text("twelve".to_string())),
        Err(DecimalError::Unparsable(_))
    ));
    assert!(matches!(
        deserialize(JsonInput::Text(String::new())),
        Err(DecimalError::Unparsable(_))
    ));
    assert!(matches!(
        deserialize_option(Some(JsonInput::Text(" ".to_string()))),
        Err(DecimalError::Unparsable(_))
    ));
}

#[test]
fn absent_amounts() {
    assert_eq!(deserialize_option(None).unwrap(), None);
    assert_eq!(deserialize_option(Some(JsonInput::Null)).unwrap(), None);
    assert_eq!(deserialize_option(Some(JsonInput::Text(String::new()))).unwrap(), None);
}

#[test]
fn values_of_the_wrong_kind_are_refused() {
    assert!(matches!(deserialize(JsonInput::Null), Err(DecimalError::ExpectedNumberOrText)));
    assert!(matches!(deserialize(JsonInput::Other), Err(DecimalError::ExpectedNumberOrText)));
    assert!(matches!(deserialize(JsonInput::OtherNumber), Err(DecimalError::InvalidNumber)));
    assert!(matches!(
        deserialize_option(Some(JsonInput::Other)),
        Err(DecimalError::ExpectedNumberTextOrNull)
    ));
    assert!(matches!(
        deserialize_option(Some(JsonInput::OtherNumber)),
        Err(DecimalError::InvalidNumber)
    ));
    assert_eq!(
        DecimalError::InvalidNumber.message(),
        Some("Invalid number format".to_string())
    );
    assert_eq!(
        DecimalError::ExpectedNumberOrText.message(),
        Some("Expected a number or string for Decimal".to_string())
    );
    assert_eq!(
        DecimalError::ExpectedNumberTextOrNull.message(),
        Some("Expected a number, string or null for Decimal".to_string())
    );
    let unparsable = deserialize(JsonInput::Text("x".to_string())).unwrap_err();
    assert_eq!(unparsable.message(), None);
}

#[test]
fn sources_are_chosen_by_kind() {
    assert!(matches!(decimal_source(JsonInput::Integer(5)), Ok(DecimalSource::Integer(5))));
    assert!(matches!(
        decimal_source(JsonInput::Float("1.5".to_string())),
        Ok(DecimalSource::Text(text)) if text == "1.5"
    ));
    assert!(matches!(
        optional_decimal_source(Some(JsonInput::Text("9".to_string()))),
        Ok(Some(DecimalSource::Text(text))) if text == "9"
    ));
    assert!(matches!(optional_decimal_source(None), Ok(None)));
    assert_eq!(build_decimal(DecimalSource::Integer(3)).unwrap(), Decimal::new(3, 0));
    assert_eq!(
        build_decimal(DecimalSource::Text("3.00".to_string())).unwrap(),
        Decimal::new(300, 2)
    );
}
