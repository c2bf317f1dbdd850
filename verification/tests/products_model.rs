use fcc_reporting::products::{medium_of, ProductType, ServiceMedium, ServiceProfile};

#[test]
fn equalize_committed_forces_committed_to_available() {
    let profile = ServiceProfile {
        technology_code: 50,
        committed_bandwidth_up: 100,
        committed_bandwidth_down: 100,
        available_bandwidth_up: 1000,
        available_bandwidth_down: 1000,
    };
    let equalized = profile.equalize_committed();
    assert_eq!(equalized.committed_bandwidth_up, 1000);
    assert_eq!(equalized.committed_bandwidth_down, 1000);
    assert_eq!(equalized.available_bandwidth_up, 1000);
    assert_eq!(equalized.available_bandwidth_down, 1000);
    assert_eq!(equalized.technology_code, 50);
    // The original profile is untouched.
    assert_eq!(profile.committed_bandwidth_up, 100);
}

#[test]
fn media_follow_technology_codes() {
    assert_eq!(medium_of(50), ServiceMedium::Fiber);
    assert_eq!(medium_of(70), ServiceMedium::Wireless);
    assert_eq!(medium_of(10), ServiceMedium::Copper);
    assert_eq!(medium_of(42), ServiceMedium::Other);
}

#[test]
fn profile_from_tuple() {
    let profile: ServiceProfile = (50u8, 100u16, 100u16, 1000u16, 1000u16).into();
    assert_eq!(
        ProductType::Internet(profile),
        ProductType::Internet(ServiceProfile {
            technology_code: 50,
            committed_bandwidth_up: 100,
            committed_bandwidth_down: 100,
            available_bandwidth_up: 1000,
            available_bandwidth_down: 1000,
        })
    );
}
