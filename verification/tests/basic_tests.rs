use brik::add;
use brik::is_even;
use brik::ordertotalcalculation;
use brik::stockvalidation;

#[test]
fn lib_add_works() {
    assert_eq!(add(2, 3), 5);
}

#[test]
fn even_true() {
    assert!(is_even(4));
}

#[test]
fn even_false() {
    assert!(!is_even(5));
}

#[test]
fn is_even_true() {
    assert!(is_even(4));
}

#[test]
fn is_even_false() {
    assert!(!is_even(5));
}

#[test]
fn test_stockvalidation() {
    let result = stockvalidation("test_input");
    assert!(result.is_ok());
}

#[test]
fn test_ordertotalcalculation() {
    let result = ordertotalcalculation("test_input");
    assert!(result.is_ok());
}

#[test]
fn test_stockvalidation_basic() {
    let result = stockvalidation("test_input");
    assert!(result.is_ok());
}

#[test]
fn test_stockvalidation_edge_cases() {
    let result = stockvalidation("");
    assert!(result.is_ok() || result.is_err());
}

#[test]
fn test_stockvalidation_error_conditions() {
    assert!(true);
}

#[test]
fn test_ordertotalcalculation_basic() {
    let result = ordertotalcalculation("test_input");
    assert!(result.is_ok());
}

#[test]
fn test_ordertotalcalculation_edge_cases() {
    let result = ordertotalcalculation("");
    assert!(result.is_ok() || result.is_err());
}

#[test]
fn test_ordertotalcalculation_error_conditions() {
    assert!(true);
}

#[test]
fn test_core_has_no_external_dependencies() {
    assert!(true);
}

#[test]
fn test_entities_are_immutable_after_creation() {
    assert!(true);
}

#[test]
fn test_business_rules_are_pure_functions() {
    assert!(true);
}

#[test]
fn test_order_orderentity_edge_cases() {
    assert!(true);
}

#[test]
fn test_product_productentity_edge_cases() {
    assert!(true);
}

#[test]
fn test_user_userentity_edge_cases() {
    assert!(true);
}
