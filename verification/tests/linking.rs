use fcc_reporting::linker::link;
use fcc_reporting::records::{FccRecord, SubscriptionApiItem};

fn location(id: &str, address: &str, city: &str, block_geoid: &str) -> FccRecord {
    FccRecord::new(
        id.to_string(),
        Some(address.to_string()),
        Some(city.to_string()),
        block_geoid.to_string(),
    )
}

fn subscription(plan: &str, address: &str, city_st_zip: &str, flag: &str) -> SubscriptionApiItem {
    SubscriptionApiItem::new(
        Some(plan.to_string()),
        Some(address.to_string()),
        Some(city_st_zip.to_string()),
        Some(flag.to_string()),
    )
}

#[test]
fn links_matching_address_with_fuzzy_street() {
    // fuzz ratio of "MAIN STR" vs "MAIN ST" is 2*7/15 * 100 = 93, which
    // clears the strict threshold of 80.
    let locations = vec![location("L1", "100 MAIN ST", "SPRINGFIELD", "41039010100")];
    let subscriptions = vec![subscription(
        "fttp100-12",
        "100 MAIN STR",
        "SPRINGFIELD, OR 97401",
        "Residential",
    )];
    let linked = link(locations, subscriptions);
    assert_eq!(linked.len(), 1);
    assert_eq!(linked[0].0.location_id, "L1");
    assert_eq!(
        linked[0].1.subscription.plan_id,
        Some("fttp100-12".to_string())
    );
}

#[test]
fn city_comparison_is_case_insensitive() {
    let locations = vec![location("L1", "100 MAIN ST", "Springfield", "41039010100")];
    let subscriptions = vec![subscription(
        "fttp100",
        "100 MAIN ST",
        "springfield, OR 97401",
        "Residential",
    )];
    assert_eq!(link(locations, subscriptions).len(), 1);
}

#[test]
fn different_city_does_not_link() {
    let locations = vec![location("L1", "100 MAIN ST", "SPRINGFIELD", "41039010100")];
    let subscriptions = vec![subscription(
        "fttp100",
        "100 MAIN ST",
        "EUGENE, OR 97401",
        "Residential",
    )];
    assert!(link(locations, subscriptions).is_empty());
}

#[test]
fn missing_service_address_is_dropped() {
    let locations = vec![location("L1", "100 MAIN ST", "SPRINGFIELD", "41039010100")];
    let subscriptions = vec![SubscriptionApiItem::new(
        Some("fttp100".to_string()),
        None,
        Some("SPRINGFIELD, OR 97401".to_string()),
        Some("Residential".to_string()),
    )];
    assert!(link(locations, subscriptions).is_empty());
}

#[test]
fn missing_location_address_is_skipped() {
    let locations = vec![FccRecord::new(
        "L1".to_string(),
        None,
        Some("SPRINGFIELD".to_string()),
        "41039010100".to_string(),
    )];
    let subscriptions = vec![subscription(
        "fttp100",
        "100 MAIN ST",
        "SPRINGFIELD, OR 97401",
        "Residential",
    )];
    assert!(link(locations, subscriptions).is_empty());
}

#[test]
fn equal_digits_with_different_house_tokens_do_not_match() {
    // "12-A" and "12A" project to the same digit string "12", but the
    // house-number tokens differ, so the pair must not link.
    let locations = vec![location("L1", "12A MAIN ST", "SPRINGFIELD", "41039010100")];
    let subscriptions = vec![subscription(
        "fttp100",
        "12-A MAIN ST",
        "SPRINGFIELD, OR 97401",
        "Residential",
    )];
    assert!(link(locations, subscriptions).is_empty());
}

#[test]
fn different_house_numbers_do_not_match() {
    let locations = vec![location("L1", "101 MAIN ST", "SPRINGFIELD", "41039010100")];
    let subscriptions = vec![subscription(
        "fttp100",
        "100 MAIN ST",
        "SPRINGFIELD, OR 97401",
        "Residential",
    )];
    assert!(link(locations, subscriptions).is_empty());
}

#[test]
fn similarity_of_exactly_eighty_does_not_match() {
    // fuzz ratio of "AB" vs "ABC" is 2*2/5 * 100 = 80 exactly; the
    // threshold is strict, so this must not link.
    let locations = vec![location("L1", "1 ABC", "SPRINGFIELD", "41039010100")];
    let subscriptions = vec![subscription(
        "fttp100",
        "1 AB",
        "SPRINGFIELD, OR 97401",
        "Residential",
    )];
    assert!(link(locations, subscriptions).is_empty());
}

#[test]
fn identical_streets_match() {
    let locations = vec![location("L1", "1 ABC", "SPRINGFIELD", "41039010100")];
    let subscriptions = vec![subscription(
        "fttp100",
        "1 ABC",
        "SPRINGFIELD, OR 97401",
        "Residential",
    )];
    assert_eq!(link(locations, subscriptions).len(), 1);
}

#[test]
fn address_without_space_is_dropped() {
    // The service address cannot be split into house number and street.
    let locations = vec![location("L1", "100 MAIN ST", "SPRINGFIELD", "41039010100")];
    let subscriptions = vec![subscription(
        "fttp100",
        "MAIN",
        "SPRINGFIELD, OR 97401",
        "Residential",
    )];
    assert!(link(locations, subscriptions).is_empty());
}

#[test]
fn city_state_zip_without_comma_is_dropped() {
    let locations = vec![location("L1", "100 MAIN ST", "SPRINGFIELD", "41039010100")];
    let subscriptions = vec![subscription(
        "fttp100",
        "100 MAIN ST",
        "SPRINGFIELD OR 97401",
        "Residential",
    )];
    assert!(link(locations, subscriptions).is_empty());
}

#[test]
fn first_matching_location_wins() {
    let locations = vec![
        location("L1", "100 MAIN ST", "SPRINGFIELD", "41039010100"),
        location("L2", "100 MAIN ST", "SPRINGFIELD", "41039010200"),
    ];
    let subscriptions = vec![subscription(
        "fttp100",
        "100 MAIN ST",
        "SPRINGFIELD, OR 97401",
        "Residential",
    )];
    let linked = link(locations, subscriptions);
    assert_eq!(linked.len(), 1);
    assert_eq!(linked[0].0.location_id, "L1");
}

#[test]
fn output_follows_subscription_order() {
    let locations = vec![
        location("L1", "100 MAIN ST", "SPRINGFIELD", "41039010100"),
        location("L2", "200 OAK AVE", "SPRINGFIELD", "41039010200"),
    ];
    let subscriptions = vec![
        subscription("fw25", "200 OAK AVE", "SPRINGFIELD, OR 97401", "Business"),
        subscription("fttp100", "100 MAIN ST", "SPRINGFIELD, OR 97401", "Residential"),
    ];
    let linked = link(locations, subscriptions);
    assert_eq!(linked.len(), 2);
    assert_eq!(linked[0].0.location_id, "L2");
    assert_eq!(linked[1].0.location_id, "L1");
}
