//! Service profiles and the product-type taxonomy values.

use vstd::prelude::*;

verus! {

/// The bandwidth/technology descriptor attached to an internet product.
///
/// `committed_* <= available_*` is not guaranteed on construction;
/// [`ServiceProfile::equalize_committed`] forces committed = available for
/// availability-style reporting.
#[derive(Clone, Copy, PartialEq, Eq, Hash, Debug)]
pub struct ServiceProfile {
    pub technology_code: u8,
    pub committed_bandwidth_up: u16,
    pub committed_bandwidth_down: u16,
    pub available_bandwidth_up: u16,
    pub available_bandwidth_down: u16,
}

/// Access medium derived from a profile's technology code, used by the
/// statistics rollup to split broadband totals.
#[derive(Clone, Copy, PartialEq, Eq, Hash, Debug)]
pub enum ServiceMedium {
    Fiber,
    Wireless,
    Copper,
    Other,
}

pub const TECHNOLOGY_FIBER: u8 = 50;
pub const TECHNOLOGY_WIRELESS: u8 = 70;
pub const TECHNOLOGY_COPPER: u8 = 10;

/// The medium a technology code stands for: fiber, fixed wireless, or copper.
pub open spec fn spec_medium_of(technology_code: u8) -> ServiceMedium {
    if technology_code == TECHNOLOGY_FIBER {
        ServiceMedium::Fiber
    } else if technology_code == TECHNOLOGY_WIRELESS {
        ServiceMedium::Wireless
    } else if technology_code == TECHNOLOGY_COPPER {
        ServiceMedium::Copper
    } else {
        ServiceMedium::Other
    }
}

/// Maps a technology code to its access medium.
#[verifier::when_used_as_spec(spec_medium_of)]
pub fn medium_of(technology_code: u8) -> (m: ServiceMedium)
    ensures
        m == spec_medium_of(technology_code),
{
    if technology_code == TECHNOLOGY_FIBER {
        ServiceMedium::Fiber
    } else if technology_code == TECHNOLOGY_WIRELESS {
        ServiceMedium::Wireless
    } else if technology_code == TECHNOLOGY_COPPER {
        ServiceMedium::Copper
    } else {
        ServiceMedium::Other
    }
}

impl ServiceProfile {
    /// The profile with committed bandwidth overwritten by available
    /// bandwidth: availability filings report advertised speed as if it
    /// were fully committed.
    pub open spec fn spec_equalize_committed(self) -> ServiceProfile {
        ServiceProfile {
            committed_bandwidth_up: self.available_bandwidth_up,
            committed_bandwidth_down: self.available_bandwidth_down,
            ..self
        }
    }

    /// Returns a copy of the profile with committed speeds forced equal to
    /// the available speeds.
    pub fn equalize_committed(&self) -> (r: ServiceProfile)
        ensures
            r == self.spec_equalize_committed(),
    {
        let mut ret = *self;
        ret.committed_bandwidth_up = self.available_bandwidth_up;
        ret.committed_bandwidth_down = self.available_bandwidth_down;
        ret
    }

    /// The access medium this profile's technology code stands for.
    pub open spec fn spec_medium(self) -> ServiceMedium {
        spec_medium_of(self.technology_code)
    }

    /// Maps the profile's technology code to its access medium.
    pub fn medium(&self) -> (m: ServiceMedium)
        ensures
            m == self.spec_medium(),
    {
        medium_of(self.technology_code)
    }
}

/// The compact (technology, committed up/down, available up/down) form a
/// profile is written as in the plan-code table.
pub type ProfileTuple = (u8, u16, u16, u16, u16);

/// What converting a profile tuple yields.
pub open spec fn spec_profile_from_tuple(t: ProfileTuple) -> ServiceProfile {
    ServiceProfile {
        technology_code: t.0,
        committed_bandwidth_up: t.1,
        committed_bandwidth_down: t.2,
        available_bandwidth_up: t.3,
        available_bandwidth_down: t.4,
    }
}

impl From<ProfileTuple> for ServiceProfile {
    fn from(t: ProfileTuple) -> (r: ServiceProfile)
        ensures
            r == spec_profile_from_tuple(t),
    {
        ServiceProfile {
            technology_code: t.0,
            committed_bandwidth_up: t.1,
            committed_bandwidth_down: t.2,
            available_bandwidth_up: t.3,
            available_bandwidth_down: t.4,
        }
    }
}

impl vstd::std_specs::convert::FromSpecImpl<ProfileTuple> for ServiceProfile {
    open spec fn obeys_from_spec() -> bool {
        true
    }

    open spec fn from_spec(t: ProfileTuple) -> ServiceProfile {
        spec_profile_from_tuple(t)
    }
}

/// A structured service descriptor derived from a billing plan code.
#[derive(Clone, Copy, PartialEq, Eq, Hash, Debug)]
pub enum ProductType {
    Internet(ServiceProfile),
    Voip,
    Fax,
    Admin,
}

/// A strict total order on service profiles: available download speed
/// first, then available upload, technology code, committed download and
/// committed upload. The availability dedup resolves ties in available
/// download with it, so the winner does not depend on input order.
pub open spec fn spec_profile_less(a: ServiceProfile, b: ServiceProfile) -> bool {
    if a.available_bandwidth_down != b.available_bandwidth_down {
        a.available_bandwidth_down < b.available_bandwidth_down
    } else if a.available_bandwidth_up != b.available_bandwidth_up {
        a.available_bandwidth_up < b.available_bandwidth_up
    } else if a.technology_code != b.technology_code {
        a.technology_code < b.technology_code
    } else if a.committed_bandwidth_down != b.committed_bandwidth_down {
        a.committed_bandwidth_down < b.committed_bandwidth_down
    } else {
        a.committed_bandwidth_up < b.committed_bandwidth_up
    }
}

/// Compares two profiles under the dedup order.
pub fn profile_less(a: &ServiceProfile, b: &ServiceProfile) -> (r: bool)
    ensures
        r == spec_profile_less(*a, *b),
{
    if a.available_bandwidth_down != b.available_bandwidth_down {
        a.available_bandwidth_down < b.available_bandwidth_down
    } else if a.available_bandwidth_up != b.available_bandwidth_up {
        a.available_bandwidth_up < b.available_bandwidth_up
    } else if a.technology_code != b.technology_code {
        a.technology_code < b.technology_code
    } else if a.committed_bandwidth_down != b.committed_bandwidth_down {
        a.committed_bandwidth_down < b.committed_bandwidth_down
    } else {
        a.committed_bandwidth_up < b.committed_bandwidth_up
    }
}

/// Structural equality of product types, field for field.
pub fn product_type_eq(a: &ProductType, b: &ProductType) -> (r: bool)
    ensures
        r == (*a == *b),
{
    match (a, b) {
        (ProductType::Internet(pa), ProductType::Internet(pb)) => {
            pa.technology_code == pb.technology_code
                && pa.committed_bandwidth_up == pb.committed_bandwidth_up
                && pa.committed_bandwidth_down == pb.committed_bandwidth_down
                && pa.available_bandwidth_up == pb.available_bandwidth_up
                && pa.available_bandwidth_down == pb.available_bandwidth_down
        },
        (ProductType::Voip, ProductType::Voip) => true,
        (ProductType::Fax, ProductType::Fax) => true,
        (ProductType::Admin, ProductType::Admin) => true,
        _ => false,
    }
}

} // verus!
