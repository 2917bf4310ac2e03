use restaurant_menu_app::param_validation::parse_path_param;

#[test]
fn test_parse_path_param_valid() {
    let result = parse_path_param("123", "table_id");
    assert_eq!(result, Ok(123));
}

#[test]
fn test_parse_path_param_invalid() {
    let result = parse_path_param("abc", "table_id");
    assert_eq!(
        result,
        Err("Invalid table_id. Must be a valid positive integer.".to_string())
    );
}

#[test]
fn test_parse_path_param_negative_value() {
    let result = parse_path_param("-123", "table_id");
    assert_eq!(
        result,
        Err("Invalid table_id. Must be a valid positive integer.".to_string())
    );
}

#[test]
fn test_parse_path_param_empty_string() {
    let result = parse_path_param("", "table_id");
    assert_eq!(
        result,
        Err("Invalid table_id. Must be a valid positive integer.".to_string())
    );
}

#[test]
fn test_parse_path_param_plus_sign_and_bounds() {
    assert_eq!(parse_path_param("+123", "table_id"), Ok(123));
    assert_eq!(parse_path_param("0", "item_id"), Ok(0));
    assert_eq!(parse_path_param("4294967295", "item_id"), Ok(u32::MAX));
    assert!(parse_path_param("4294967296", "item_id").is_err());
    assert!(parse_path_param("+", "item_id").is_err());
    assert!(parse_path_param("12 3", "item_id").is_err());
    assert_eq!(parse_path_param("007", "item_id"), Ok(7));
}
