use dinstaller::attributes::AttributeValue;
use dinstaller::error::ConversionError;

#[test]
fn test_try_from_bool() {
    let value = AttributeValue("true".to_string());
    let value: bool = value.try_into().unwrap();
    assert_eq!(value, true);

    let value = AttributeValue("false".to_string());
    let value: bool = value.try_into().unwrap();
    assert_eq!(value, false);
}

#[test]
fn test_try_from_string() {
    let value = AttributeValue("some value".to_string());
    let value: String = value.try_into().unwrap();
    assert_eq!(value, "some value");
}

#[test]
fn bool_conversion_ignores_ascii_case() {
    let value: bool = AttributeValue("YES".to_string()).try_into().unwrap();
    assert_eq!(value, true);
    let value: bool = AttributeValue("t".to_string()).try_into().unwrap();
    assert_eq!(value, true);
    let value: bool = AttributeValue("no".to_string()).try_into().unwrap();
    assert_eq!(value, false);
    let result: Result<bool, ConversionError> = AttributeValue("maybe".to_string()).try_into();
    assert!(result.is_err());
    assert!(matches!(result, Err(ConversionError::InvalidFormat)));
}

#[test]
fn bool_conversion_accepts_all_spellings() {
    for raw in ["true", "True", "TRUE", "yes", "Yes", "T"] {
        let value: bool = AttributeValue(raw.to_string()).try_into().unwrap();
        assert_eq!(value, true);
    }
    for raw in ["false", "False", "NO", "f", "F", "No"] {
        let value: bool = AttributeValue(raw.to_string()).try_into().unwrap();
        assert_eq!(value, false);
    }
    for raw in ["", "truth", "yess", "0", "1"] {
        let result: Result<bool, ConversionError> = AttributeValue(raw.to_string()).try_into();
        assert!(result.is_err());
    }
}
