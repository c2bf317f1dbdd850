use fcc_reporting::linker::link;
use fcc_reporting::locations::summarize_locations;
use fcc_reporting::products::{ProductType, ServiceProfile};
use fcc_reporting::records::{FccRecord, SubscriptionApiItem};
use fcc_reporting::statistics::{broadband_statistics, voice_statistics};
use fcc_reporting::taxonomy::ProductCatalog;
use fcc_reporting::tracts::{summarize_tracts, LinkedPair};

fn agg_location(id: &str, address: &str, city: &str, block_geoid: &str) -> FccRecord {
    FccRecord::new(
        id.to_string(),
        Some(address.to_string()),
        Some(city.to_string()),
        block_geoid.to_string(),
    )
}

fn agg_subscription(plan: &str, address: &str, city_st_zip: &str, flag: &str) -> SubscriptionApiItem {
    SubscriptionApiItem::new(
        Some(plan.to_string()),
        Some(address.to_string()),
        Some(city_st_zip.to_string()),
        Some(flag.to_string()),
    )
}

fn springfield_pair(plan: &str, flag: &str) -> LinkedPair {
    (
        agg_location("L1", "100 MAIN ST", "SPRINGFIELD", "41039010100"),
        agg_subscription(plan, "100 MAIN ST", "SPRINGFIELD, OR 97401", flag),
    )
}

fn internet_profile(tc: u8, cu: u16, cd: u16, au: u16, ad: u16) -> ProductType {
    ProductType::Internet(ServiceProfile {
        technology_code: tc,
        committed_bandwidth_up: cu,
        committed_bandwidth_down: cd,
        available_bandwidth_up: au,
        available_bandwidth_down: ad,
    })
}

#[test]
fn end_to_end_residential_subscription() {
    let catalog = ProductCatalog::standard();
    let locations = vec![agg_location("L1", "100 MAIN ST", "SPRINGFIELD", "41039010100")];
    let subscriptions = vec![agg_subscription(
        "fttp100-12",
        "100 MAIN STR",
        "SPRINGFIELD, OR 97401",
        "Residential",
    )];
    let linked = link(locations, subscriptions);
    assert_eq!(linked.len(), 1);

    let tracts = summarize_tracts(linked.clone(), &catalog);
    assert_eq!(tracts.len(), 1);
    assert_eq!(tracts[0].0.tract_id, "41039010100");
    assert_eq!(tracts[0].0.product_type, internet_profile(50, 100, 100, 1000, 1000));
    assert_eq!(tracts[0].1.total, 1);
    assert_eq!(tracts[0].1.residential, 1);

    let availability = summarize_locations(linked, &catalog);
    assert_eq!(availability.len(), 1);
    assert_eq!(availability[0].location_id, "L1");
    assert_eq!(
        availability[0].product_type,
        internet_profile(50, 1000, 1000, 1000, 1000)
    );
}

#[test]
fn end_to_end_business_subscription() {
    let catalog = ProductCatalog::standard();
    let locations = vec![agg_location("L1", "100 MAIN ST", "SPRINGFIELD", "41039010100")];
    let subscriptions = vec![agg_subscription(
        "fttp100-12",
        "100 MAIN STR",
        "SPRINGFIELD, OR 97401",
        "Business",
    )];
    let linked = link(locations, subscriptions);
    let tracts = summarize_tracts(linked, &catalog);
    assert_eq!(tracts.len(), 1);
    assert_eq!(tracts[0].1.total, 1);
    assert_eq!(tracts[0].1.residential, 0);
}

#[test]
fn end_to_end_unknown_plan_aggregates_nothing() {
    let catalog = ProductCatalog::standard();
    let locations = vec![agg_location("L1", "100 MAIN ST", "SPRINGFIELD", "41039010100")];
    let subscriptions = vec![agg_subscription(
        "unknown-code",
        "100 MAIN ST",
        "SPRINGFIELD, OR 97401",
        "Residential",
    )];
    let linked = link(locations, subscriptions);
    assert_eq!(linked.len(), 1);
    assert!(summarize_tracts(linked.clone(), &catalog).is_empty());
    assert!(summarize_locations(linked, &catalog).is_empty());
}

#[test]
fn tract_counts_accumulate_per_key() {
    let catalog = ProductCatalog::standard();
    let pairs = vec![
        springfield_pair("fttp100", "Residential"),
        springfield_pair("fttp100", "Business"),
        springfield_pair("fttp100", "residentail"),
        flagless_pair("fttp100"),
        springfield_pair("fw25", "Residential"),
    ];
    let tracts = summarize_tracts(pairs, &catalog);
    assert_eq!(tracts.len(), 2);
    let fttp_row = tracts
        .iter()
        .find(|(k, _)| k.product_type == internet_profile(50, 100, 100, 1000, 1000))
        .expect("fttp row present");
    assert_eq!(fttp_row.1.total, 4);
    assert_eq!(fttp_row.1.residential, 2);
    let fw_row = tracts
        .iter()
        .find(|(k, _)| k.product_type == internet_profile(70, 25, 25, 100, 100))
        .expect("fw row present");
    assert_eq!(fw_row.1.total, 1);
    assert_eq!(fw_row.1.residential, 1);
}

#[test]
fn tract_aggregation_is_order_independent() {
    let catalog = ProductCatalog::standard();
    let pairs = vec![
        springfield_pair("fttp100", "Residential"),
        springfield_pair("fw25", "Business"),
        springfield_pair("voipbus", "Residential"),
        springfield_pair("fttp100", "Business"),
    ];
    let mut reversed: Vec<LinkedPair> = pairs.clone();
    reversed.reverse();
    let mut a = summarize_tracts(pairs, &catalog);
    let mut b = summarize_tracts(reversed, &catalog);
    a.sort_by(|x, y| format!("{:?}", x).cmp(&format!("{:?}", y)));
    b.sort_by(|x, y| format!("{:?}", x).cmp(&format!("{:?}", y)));
    assert_eq!(a, b);
}

fn flagless_pair(plan: &str) -> LinkedPair {
    (
        agg_location("L1", "100 MAIN ST", "SPRINGFIELD", "41039010100"),
        SubscriptionApiItem::new(
            Some(plan.to_string()),
            Some("100 MAIN ST".to_string()),
            Some("SPRINGFIELD, OR 97401".to_string()),
            None,
        ),
    )
}

#[test]
fn missing_flag_counts_total_but_not_residential() {
    let catalog = ProductCatalog::standard();
    let pairs = vec![flagless_pair("fttp100")];
    let tracts = summarize_tracts(pairs.clone(), &catalog);
    assert_eq!(tracts.len(), 1);
    assert_eq!(tracts[0].1.total, 1);
    assert_eq!(tracts[0].1.residential, 0);
    let availability = summarize_locations(pairs, &catalog);
    assert_eq!(availability.len(), 1);
    assert_eq!(
        availability[0].product_type,
        internet_profile(50, 1000, 1000, 1000, 1000)
    );
}

#[test]
fn flagless_faster_offer_beats_flagged_slower_one() {
    let catalog = ProductCatalog::standard();
    // The flag plays no part in availability: the flag-less 1000 Mbps
    // offer must win over the flagged 100 Mbps one.
    let pairs = vec![
        springfield_pair("fw100", "Residential"),
        flagless_pair("fttp100"),
    ];
    let availability = summarize_locations(pairs, &catalog);
    assert_eq!(availability.len(), 1);
    assert_eq!(
        availability[0].product_type,
        internet_profile(50, 1000, 1000, 1000, 1000)
    );
}

#[test]
fn location_dedup_tie_broken_independently_of_order() {
    let catalog = ProductCatalog::standard();
    // fw100 (technology 70) and gf100 (technology 10) both offer
    // 100 Mbps available; the dedup order prefers the higher technology
    // code on an available-speed tie, whichever order the pairs arrive.
    let pairs = vec![
        springfield_pair("fw100", "Residential"),
        springfield_pair("gf100", "Residential"),
    ];
    let availability = summarize_locations(pairs, &catalog);
    assert_eq!(availability.len(), 1);
    assert_eq!(
        availability[0].product_type,
        internet_profile(70, 100, 100, 100, 100)
    );

    let pairs = vec![
        springfield_pair("gf100", "Residential"),
        springfield_pair("fw100", "Residential"),
    ];
    let availability = summarize_locations(pairs, &catalog);
    assert_eq!(availability.len(), 1);
    assert_eq!(
        availability[0].product_type,
        internet_profile(70, 100, 100, 100, 100)
    );
}

#[test]
fn location_summary_is_order_independent() {
    let catalog = ProductCatalog::standard();
    let pairs = vec![
        springfield_pair("fw100", "Residential"),
        springfield_pair("ens100mbps", "Business"),
        springfield_pair("fttp25", "Residential"),
        springfield_pair("voipbus", "Residential"),
    ];
    let mut reversed: Vec<LinkedPair> = pairs.clone();
    reversed.reverse();
    let mut a = summarize_locations(pairs, &catalog);
    let mut b = summarize_locations(reversed, &catalog);
    a.sort_by(|x, y| format!("{:?}", x).cmp(&format!("{:?}", y)));
    b.sort_by(|x, y| format!("{:?}", x).cmp(&format!("{:?}", y)));
    assert_eq!(a, b);
}

#[test]
fn location_dedup_keeps_greater_available_download() {
    let catalog = ProductCatalog::standard();
    // fw100 offers 100 Mbps available down, fttp100 offers 1000; the
    // faster one must be retained, equalized.
    let pairs = vec![
        springfield_pair("fw100", "Residential"),
        springfield_pair("fttp100", "Residential"),
    ];
    let availability = summarize_locations(pairs, &catalog);
    assert_eq!(availability.len(), 1);
    assert_eq!(
        availability[0].product_type,
        internet_profile(50, 1000, 1000, 1000, 1000)
    );

    // In the other order the faster service still wins.
    let pairs = vec![
        springfield_pair("fttp100", "Residential"),
        springfield_pair("fw100", "Residential"),
    ];
    let availability = summarize_locations(pairs, &catalog);
    assert_eq!(availability.len(), 1);
    assert_eq!(
        availability[0].product_type,
        internet_profile(50, 1000, 1000, 1000, 1000)
    );
}

#[test]
fn location_dedup_ignores_equal_profile_duplicates() {
    let catalog = ProductCatalog::standard();
    let pairs = vec![
        springfield_pair("fttp100", "Residential"),
        springfield_pair("fttp100", "Business"),
    ];
    let availability = summarize_locations(pairs, &catalog);
    assert_eq!(availability.len(), 1);
}

#[test]
fn location_dedup_excludes_non_internet_products() {
    let catalog = ProductCatalog::standard();
    let pairs = vec![
        springfield_pair("voipbus", "Residential"),
        springfield_pair("fax2email", "Residential"),
        springfield_pair("acp", "Residential"),
    ];
    assert!(summarize_locations(pairs, &catalog).is_empty());
}

#[test]
fn statistics_rollup_totals() {
    let catalog = ProductCatalog::standard();
    let pairs = vec![
        springfield_pair("fttp100", "Residential"),
        springfield_pair("fttp100", "Business"),
        springfield_pair("fw25", "Residential"),
        springfield_pair("gf100", "Business"),
        springfield_pair("voipbus", "Residential"),
        springfield_pair("voipfax", "Business"),
    ];
    let tracts = summarize_tracts(pairs, &catalog);
    let broadband = broadband_statistics(&tracts);
    assert_eq!(broadband.broadband_total, 4);
    assert_eq!(broadband.broadband_consumer, 2);
    assert_eq!(broadband.fttp, 2);
    assert_eq!(broadband.fw, 1);
    assert_eq!(broadband.copper, 1);
    let voice = voice_statistics(&tracts);
    assert_eq!(voice.voip_total, 2);
    assert_eq!(voice.voip_consumer, 1);
}

#[test]
fn empty_inputs_produce_empty_outputs() {
    let catalog = ProductCatalog::standard();
    let linked = link(Vec::new(), Vec::new());
    assert!(linked.is_empty());
    assert!(summarize_tracts(linked.clone(), &catalog).is_empty());
    assert!(summarize_locations(linked, &catalog).is_empty());
}

#[test]
fn statistics_of_empty_table_are_zero() {
    let broadband = broadband_statistics(&Vec::new());
    assert_eq!(broadband.broadband_total, 0);
    assert_eq!(broadband.broadband_consumer, 0);
    assert_eq!(broadband.fttp, 0);
    assert_eq!(broadband.fw, 0);
    assert_eq!(broadband.copper, 0);
    let voice = voice_statistics(&Vec::new());
    assert_eq!(voice.voip_total, 0);
    assert_eq!(voice.voip_consumer, 0);
}
