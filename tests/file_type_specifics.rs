use typos::file_type_specifics::{is_no_check_type, no_check_types, type_specific_dict, type_specific_dicts};

#[test]
fn test_type_specific_dicts_contains_no_duplicates() {
    let types: Vec<String> = type_specific_dicts().into_iter().map(|(typ, _)| typ).collect();
    let mut types_unique: Vec<String> = Vec::new();
    for t in types.iter() {
        if !types_unique.contains(t) {
            types_unique.push(t.clone());
        }
    }
    assert_eq!(types.join("\n"), types_unique.join("\n"));
}

#[test]
fn test_type_specific_dicts_is_sorted() {
    let types: Vec<String> = type_specific_dicts().into_iter().map(|(typ, _)| typ).collect();
    let mut types_sorted = types.clone();
    types_sorted.sort();
    assert_eq!(types.join("\n"), types_sorted.join("\n"));
}

#[test]
fn no_check_types_are_cert_and_lock() {
    assert_eq!(no_check_types(), vec!["cert".to_string(), "lock".to_string()]);
    assert!(is_no_check_type(&"lock".to_string()));
    assert!(is_no_check_type(&"cert".to_string()));
    assert!(!is_no_check_type(&"py".to_string()));
    assert!(!is_no_check_type(&"loc".to_string()));
}

#[test]
fn type_dict_lookup() {
    let rust = type_specific_dict(&"rust".to_string()).unwrap();
    assert_eq!(rust.ignore_idents, vec!["flate2".to_string()]);
    assert_eq!(rust.ignore_words, vec!["ser".to_string()]);
    let vimscript = type_specific_dict(&"vimscript".to_string()).unwrap();
    assert_eq!(vimscript.ignore_idents, vec!["windo".to_string()]);
    assert!(vimscript.ignore_words.is_empty());
    assert!(type_specific_dict(&"vi".to_string()).is_none());
    assert!(type_specific_dict(&"".to_string()).is_none());
}
