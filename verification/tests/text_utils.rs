use fcc_reporting::text::{digits, split_once_char, str_ends_with, str_eq, str_starts_with};
use fcc_reporting::tracts::{get_tract, is_consumer};

#[test]
fn digits_keeps_only_digits() {
    assert_eq!(digits("12-A MAIN 4"), "124");
    assert_eq!(digits("MAIN ST"), "");
    assert_eq!(digits(""), "");
    assert_eq!(digits("100"), "100");
}

#[test]
fn split_once_splits_at_first_separator() {
    assert_eq!(
        split_once_char("100 MAIN ST", ' '),
        Some(("100".to_string(), "MAIN ST".to_string()))
    );
    assert_eq!(
        split_once_char("SPRINGFIELD, OR 97401", ','),
        Some(("SPRINGFIELD".to_string(), " OR 97401".to_string()))
    );
    assert_eq!(split_once_char("NOSEPARATOR", ' '), None);
    assert_eq!(split_once_char("", ','), None);
    assert_eq!(split_once_char("A", 'A'), Some((String::new(), String::new())));
}

#[test]
fn str_eq_compares_characters() {
    assert!(str_eq("MAIN", "MAIN"));
    assert!(!str_eq("MAIN", "MAIM"));
    assert!(!str_eq("MAIN", "MAINS"));
    assert!(str_eq("", ""));
}

#[test]
fn affix_tests() {
    assert!(str_starts_with("eugspfldfttp100", "eugspfld"));
    assert!(!str_starts_with("fttp100", "eugspfld"));
    assert!(str_ends_with("fttp100-12", "-12"));
    assert!(!str_ends_with("fttp100", "-12"));
}

#[test]
fn get_tract_strips_noise_and_truncates() {
    assert_eq!(get_tract("410,390,101,001,001"), "41039010100");
    assert_eq!(get_tract("\"410390101001001\""), "41039010100");
    assert_eq!(get_tract("41039010100"), "41039010100");
    assert_eq!(get_tract("410"), "410");
}

#[test]
fn get_tract_is_idempotent() {
    let raw = "\"410,390,101,001,001\"";
    let once = get_tract(raw);
    let twice = get_tract(&once);
    assert_eq!(once, twice);
    assert_eq!(get_tract("41039010100"), get_tract(&get_tract("41039010100")));
}

#[test]
fn residential_spellings_accepted_case_insensitively() {
    assert!(is_consumer("RESIDENTIAL"));
    assert!(is_consumer("Residential"));
    assert!(is_consumer("residential"));
    assert!(is_consumer("RESIDENTAIL"));
    assert!(is_consumer("residentail"));
    assert!(is_consumer("RRESIDENTIAL"));
    assert!(is_consumer("rresidential"));
}

#[test]
fn non_residential_spellings_rejected() {
    assert!(!is_consumer("BUSINESS"));
    assert!(!is_consumer("Business"));
    assert!(!is_consumer(""));
    assert!(!is_consumer("RESIDENT"));
    assert!(!is_consumer("RESIDENTIALS"));
}
