use fcc_reporting::products::{ProductType, ServiceProfile};
use fcc_reporting::taxonomy::{normalize_plan_id, ProductCatalog};

fn fttp100() -> ProductType {
    ProductType::Internet(ServiceProfile {
        technology_code: 50,
        committed_bandwidth_up: 100,
        committed_bandwidth_down: 100,
        available_bandwidth_up: 1000,
        available_bandwidth_down: 1000,
    })
}

#[test]
fn classify_known_code() {
    let catalog = ProductCatalog::standard();
    assert_eq!(catalog.classify("fttp100"), Some(fttp100()));
}

#[test]
fn classify_strips_contract_suffix() {
    let catalog = ProductCatalog::standard();
    assert_eq!(catalog.classify("fttp100-12"), Some(fttp100()));
}

#[test]
fn classify_strips_site_prefix() {
    let catalog = ProductCatalog::standard();
    assert_eq!(catalog.classify("eugspfldfttp100"), Some(fttp100()));
    assert_eq!(catalog.classify("eugspfldfttp100-12"), Some(fttp100()));
}

#[test]
fn classify_unknown_code_yields_none() {
    let catalog = ProductCatalog::standard();
    assert_eq!(catalog.classify("unknown-code"), None);
    assert_eq!(catalog.classify(""), None);
}

#[test]
fn classify_non_internet_products() {
    let catalog = ProductCatalog::standard();
    assert_eq!(catalog.classify("voipbus"), Some(ProductType::Voip));
    assert_eq!(catalog.classify("fax2email"), Some(ProductType::Fax));
    assert_eq!(catalog.classify("acp"), Some(ProductType::Admin));
    assert_eq!(catalog.classify("pre-reg"), Some(ProductType::Admin));
}

#[test]
fn classify_wireless_profile() {
    let catalog = ProductCatalog::standard();
    assert_eq!(
        catalog.classify("fw25"),
        Some(ProductType::Internet(ServiceProfile {
            technology_code: 70,
            committed_bandwidth_up: 25,
            committed_bandwidth_down: 25,
            available_bandwidth_up: 100,
            available_bandwidth_down: 100,
        }))
    );
}

#[test]
fn normalize_strips_prefix_then_suffix() {
    let catalog = ProductCatalog::standard();
    let normalized = normalize_plan_id(
        "eugspfldfw25-12",
        &catalog.site_prefixes,
        &catalog.contract_suffixes,
    );
    assert_eq!(normalized, "fw25");
    let untouched = normalize_plan_id("fw25", &catalog.site_prefixes, &catalog.contract_suffixes);
    assert_eq!(untouched, "fw25");
}
