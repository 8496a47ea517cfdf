use subpipe::templates::interpolation::{FilterOperator, InterpolationParser, InterpolationRule};

#[test]
fn test_all_tag() {
    let result = InterpolationParser::parse("{{ALL-TAG}}").unwrap();
    assert_eq!(result, InterpolationRule::AllTag);
}

#[test]
fn test_include_tag_or() {
    let result = InterpolationParser::parse("{{INCLUDE-TAG:香港,日本}}").unwrap();
    match result {
        InterpolationRule::Filter { is_include, conditions } => {
            assert!(is_include);
            assert_eq!(conditions.len(), 1);
            assert_eq!(conditions[0].operator, FilterOperator::Or);
            assert_eq!(conditions[0].keywords, vec!["香港", "日本"]);
        }
        _ => panic!("Expected Filter"),
    }
}

#[test]
fn test_include_tag_and() {
    let result = InterpolationParser::parse("{{INCLUDE-TAG:香港 & 高速}}").unwrap();
    match result {
        InterpolationRule::Filter { is_include, conditions } => {
            assert!(is_include);
            assert_eq!(conditions.len(), 1);
            assert_eq!(conditions[0].operator, FilterOperator::And);
            assert_eq!(conditions[0].keywords, vec!["香港", "高速"]);
        }
        _ => panic!("Expected Filter"),
    }
}

#[test]
fn test_include_tag_or_pipe() {
    let result = InterpolationParser::parse("{{INCLUDE-TAG:香港 | 日本}}").unwrap();
    match result {
        InterpolationRule::Filter { is_include, conditions } => {
            assert!(is_include);
            assert_eq!(conditions.len(), 1);
            assert_eq!(conditions[0].operator, FilterOperator::Or);
            assert_eq!(conditions[0].keywords, vec!["香港", "日本"]);
        }
        _ => panic!("Expected Filter"),
    }
}

#[test]
fn test_exclude_tag_or() {
    let result = InterpolationParser::parse("{{EXCLUDE-TAG:低速 | 过期}}").unwrap();
    match result {
        InterpolationRule::Filter { is_include, conditions } => {
            assert!(!is_include);
            assert_eq!(conditions[0].operator, FilterOperator::Or);
            assert_eq!(conditions[0].keywords, vec!["低速", "过期"]);
        }
        _ => panic!("Expected Filter"),
    }
}

#[test]
fn test_combined_all_with_filter() {
    let result = InterpolationParser::parse("{{ALL-TAG;INCLUDE-TAG:香港 & 高速}}").unwrap();
    match result {
        InterpolationRule::Combined { all_tag, filters } => {
            assert!(all_tag);
            assert_eq!(filters.len(), 1);
            assert!(filters[0].0); // is_include
            assert_eq!(filters[0].1[0].operator, FilterOperator::And);
        }
        _ => panic!("Expected Combined"),
    }
}
