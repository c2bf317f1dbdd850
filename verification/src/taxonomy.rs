//! The plan-code taxonomy: an injected lookup table from normalized
//! billing plan codes to product types, shared by every aggregator.

use vstd::prelude::*;
use vstd::string::*;

use crate::products::{ProductType, ServiceProfile};
use crate::text::{is_prefix_of, is_suffix_of, str_ends_with, str_starts_with};

verus! {

/// The result of stripping the first listed prefix that `s` starts with;
/// `s` itself when none applies.
pub open spec fn strip_one_prefix(s: Seq<char>, prefixes: Seq<String>) -> Seq<char>
    decreases prefixes.len(),
{
    if prefixes.len() == 0 {
        s
    } else if is_prefix_of(prefixes[0]@, s) {
        s.skip(prefixes[0]@.len() as int)
    } else {
        strip_one_prefix(s, prefixes.drop_first())
    }
}

/// The result of stripping the first listed suffix that `s` ends with;
/// `s` itself when none applies.
pub open spec fn strip_one_suffix(s: Seq<char>, suffixes: Seq<String>) -> Seq<char>
    decreases suffixes.len(),
{
    if suffixes.len() == 0 {
        s
    } else if is_suffix_of(suffixes[0]@, s) {
        s.take(s.len() - suffixes[0]@.len())
    } else {
        strip_one_suffix(s, suffixes.drop_first())
    }
}

/// Plan-code normalization: drop one site prefix, then one contract-length
/// suffix.
pub open spec fn spec_normalize_plan(s: Seq<char>, prefixes: Seq<String>, suffixes: Seq<String>) -> Seq<char> {
    strip_one_suffix(strip_one_prefix(s, prefixes), suffixes)
}

/// The product of the first table entry whose code equals `key`.
pub open spec fn catalog_lookup(entries: Seq<(String, ProductType)>, key: Seq<char>) -> Option<ProductType>
    decreases entries.len(),
{
    if entries.len() == 0 {
        None
    } else if entries[0].0@ == key {
        Some(entries[0].1)
    } else {
        catalog_lookup(entries.drop_first(), key)
    }
}

/// Strips the first applicable site prefix and contract suffix from a raw
/// billing plan code.
pub fn normalize_plan_id(plan_id: &str, prefixes: &Vec<String>, suffixes: &Vec<String>) -> (r: String)
    ensures
        r@ == spec_normalize_plan(plan_id@, prefixes@, suffixes@),
{
    let n = plan_id.unicode_len();
    let mut stripped: Option<String> = None;
    let mut i: usize = 0;
    proof {
        assert(prefixes@.skip(0) =~= prefixes@);
    }
    while i < prefixes.len() && stripped.is_none()
        invariant
            n == plan_id@.len(),
            0 <= i <= prefixes@.len(),
            match stripped {
                Some(s) => s@ == strip_one_prefix(plan_id@, prefixes@),
                None => strip_one_prefix(plan_id@, prefixes@) == strip_one_prefix(
                    plan_id@,
                    prefixes@.skip(i as int),
                ),
            },
        decreases prefixes@.len() - i,
    {
        let p = &prefixes[i];
        proof {
            assert(prefixes@.skip(i as int).drop_first() =~= prefixes@.skip(i as int + 1));
            assert(prefixes@.skip(i as int)[0] == prefixes@[i as int]);
        }
        if str_starts_with(plan_id, p.as_str()) {
            let np = p.as_str().unicode_len();
            let rest = plan_id.substring_char(np, n);
            proof {
                assert(rest@ =~= plan_id@.skip(p@.len() as int));
            }
            stripped = Some(String::from_str(rest));
        }
        i = i + 1;
    }
    let base = match stripped {
        Some(s) => s,
        None => String::from_str(plan_id),
    };
    let nb = base.as_str().unicode_len();
    let mut j: usize = 0;
    proof {
        assert(suffixes@.skip(0) =~= suffixes@);
    }
    while j < suffixes.len()
        invariant
            nb == base@.len(),
            base@ == strip_one_prefix(plan_id@, prefixes@),
            0 <= j <= suffixes@.len(),
            strip_one_suffix(base@, suffixes@) == strip_one_suffix(base@, suffixes@.skip(j as int)),
        decreases suffixes@.len() - j,
    {
        let p = &suffixes[j];
        proof {
            assert(suffixes@.skip(j as int).drop_first() =~= suffixes@.skip(j as int + 1));
            assert(suffixes@.skip(j as int)[0] == suffixes@[j as int]);
        }
        if str_ends_with(base.as_str(), p.as_str()) {
            let np = p.as_str().unicode_len();
            let rest = base.as_str().substring_char(0, nb - np);
            proof {
                assert(rest@ =~= base@.take(base@.len() - p@.len()));
            }
            return String::from_str(rest);
        }
        j = j + 1;
    }
    base
}

/// An internet product with the given technology code and bandwidths.
pub open spec fn internet_product(tc: u8, cu: u16, cd: u16, au: u16, ad: u16) -> ProductType {
    ProductType::Internet(
        ServiceProfile {
            technology_code: tc,
            committed_bandwidth_up: cu,
            committed_bandwidth_down: cd,
            available_bandwidth_up: au,
            available_bandwidth_down: ad,
        },
    )
}

fn internet(tc: u8, cu: u16, cd: u16, au: u16, ad: u16) -> (p: ProductType)
    ensures
        p == internet_product(tc, cu, cd, au, ad),
{
    ProductType::Internet(
        ServiceProfile {
            technology_code: tc,
            committed_bandwidth_up: cu,
            committed_bandwidth_down: cd,
            available_bandwidth_up: au,
            available_bandwidth_down: ad,
        },
    )
}

/// The table entries at the view level: each code's characters with its
/// product.
pub open spec fn entry_views(entries: Seq<(String, ProductType)>) -> Seq<(Seq<char>, ProductType)> {
    entries.map_values(|e: (String, ProductType)| (e.0@, e.1))
}

/// The deployed plan-code table, entry for entry.
pub open spec fn standard_entries() -> Seq<(Seq<char>, ProductType)> {
    seq![
        ("2g-commercial-fiber"@, internet_product(50, 2000, 2000, 10000, 10000)),
        ("fttp1000"@, internet_product(50, 1000, 1000, 1000, 1000)),
        ("fttp800"@, internet_product(50, 800, 800, 1000, 1000)),
        ("fttp400"@, internet_product(50, 400, 400, 1000, 1000)),
        ("fttp250"@, internet_product(50, 250, 250, 1000, 1000)),
        ("fttp100"@, internet_product(50, 100, 100, 1000, 1000)),
        ("fttp25"@, internet_product(50, 25, 25, 1000, 1000)),
        ("fw25"@, internet_product(70, 25, 25, 100, 100)),
        ("fw50"@, internet_product(70, 50, 50, 100, 100)),
        ("fw75"@, internet_product(70, 75, 75, 100, 100)),
        ("fw100"@, internet_product(70, 100, 100, 100, 100)),
        ("ens1g"@, internet_product(50, 1000, 1000, 1000, 1000)),
        ("enscustom"@, internet_product(50, 1000, 1000, 1000, 1000)),
        ("ens100mbps"@, internet_product(50, 100, 100, 100, 100)),
        ("gf100"@, internet_product(10, 100, 100, 100, 100)),
        ("voipfax"@, ProductType::Voip),
        ("voippbxr"@, ProductType::Voip),
        ("voiprpxr"@, ProductType::Voip),
        ("voipbus"@, ProductType::Voip),
        ("fax2email"@, ProductType::Fax),
        ("installation-quote"@, ProductType::Admin),
        ("paymentagreement"@, ProductType::Admin),
        ("pre-reg"@, ProductType::Admin),
        ("service-call-quote"@, ProductType::Admin),
        ("acp"@, ProductType::Admin),
        ("ipv427"@, ProductType::Admin),
        ("ipv428"@, ProductType::Admin),
        ("ipv429"@, ProductType::Admin),
        ("ipstatic"@, ProductType::Admin),
    ]
}

/// The injected plan-code lookup: an ordered table of (code, product)
/// entries (the first match wins) together with the site prefixes and
/// contract-length suffixes that normalization strips.
pub struct ProductCatalog {
    pub entries: Vec<(String, ProductType)>,
    pub site_prefixes: Vec<String>,
    pub contract_suffixes: Vec<String>,
}

impl ProductCatalog {
    /// The plan-code table in deployed use: the full code-to-product map,
    /// the site prefix `eugspfld`, and the contract-length suffix `-12`.
    #[verifier::rlimit(60)]
    pub fn standard() -> (c: ProductCatalog)
        ensures
            entry_views(c.entries@) == standard_entries(),
            c.site_prefixes@.map_values(|p: String| p@) == seq!["eugspfld"@],
            c.contract_suffixes@.map_values(|p: String| p@) == seq!["-12"@],
    {
        let mut entries: Vec<(String, ProductType)> = Vec::new();
        entries.push((String::from_str("2g-commercial-fiber"), internet(50, 2000, 2000, 10000, 10000)));
        entries.push((String::from_str("fttp1000"), internet(50, 1000, 1000, 1000, 1000)));
        entries.push((String::from_str("fttp800"), internet(50, 800, 800, 1000, 1000)));
        entries.push((String::from_str("fttp400"), internet(50, 400, 400, 1000, 1000)));
        entries.push((String::from_str("fttp250"), internet(50, 250, 250, 1000, 1000)));
        entries.push((String::from_str("fttp100"), internet(50, 100, 100, 1000, 1000)));
        entries.push((String::from_str("fttp25"), internet(50, 25, 25, 1000, 1000)));
        entries.push((String::from_str("fw25"), internet(70, 25, 25, 100, 100)));
        entries.push((String::from_str("fw50"), internet(70, 50, 50, 100, 100)));
        entries.push((String::from_str("fw75"), internet(70, 75, 75, 100, 100)));
        entries.push((String::from_str("fw100"), internet(70, 100, 100, 100, 100)));
        entries.push((String::from_str("ens1g"), internet(50, 1000, 1000, 1000, 1000)));
        entries.push((String::from_str("enscustom"), internet(50, 1000, 1000, 1000, 1000)));
        entries.push((String::from_str("ens100mbps"), internet(50, 100, 100, 100, 100)));
        entries.push((String::from_str("gf100"), internet(10, 100, 100, 100, 100)));
        entries.push((String::from_str("voipfax"), ProductType::Voip));
        entries.push((String::from_str("voippbxr"), ProductType::Voip));
        entries.push((String::from_str("voiprpxr"), ProductType::Voip));
        entries.push((String::from_str("voipbus"), ProductType::Voip));
        entries.push((String::from_str("fax2email"), ProductType::Fax));
        entries.push((String::from_str("installation-quote"), ProductType::Admin));
        entries.push((String::from_str("paymentagreement"), ProductType::Admin));
        entries.push((String::from_str("pre-reg"), ProductType::Admin));
        entries.push((String::from_str("service-call-quote"), ProductType::Admin));
        entries.push((String::from_str("acp"), ProductType::Admin));
        entries.push((String::from_str("ipv427"), ProductType::Admin));
        entries.push((String::from_str("ipv428"), ProductType::Admin));
        entries.push((String::from_str("ipv429"), ProductType::Admin));
        entries.push((String::from_str("ipstatic"), ProductType::Admin));
        let mut site_prefixes: Vec<String> = Vec::new();
        site_prefixes.push(String::from_str("eugspfld"));
        let mut contract_suffixes: Vec<String> = Vec::new();
        contract_suffixes.push(String::from_str("-12"));
        proof {
            assert(entry_views(entries@) =~= standard_entries());
            assert(site_prefixes@.map_values(|p: String| p@) =~= seq!["eugspfld"@]);
            assert(contract_suffixes@.map_values(|p: String| p@) =~= seq!["-12"@]);
        }
        ProductCatalog { entries, site_prefixes, contract_suffixes }
    }

    /// What classification answers: normalize the code, then look it up.
    pub open spec fn spec_classify(self, plan: Seq<char>) -> Option<ProductType> {
        catalog_lookup(
            self.entries@,
            spec_normalize_plan(plan, self.site_prefixes@, self.contract_suffixes@),
        )
    }

    /// Classifies a raw billing plan code; unknown codes yield `None`.
    pub fn classify(&self, plan_id: &str) -> (r: Option<ProductType>)
        ensures
            r == self.spec_classify(plan_id@),
    {
        let key = normalize_plan_id(plan_id, &self.site_prefixes, &self.contract_suffixes);
        let mut i: usize = 0;
        proof {
            assert(self.entries@.skip(0) =~= self.entries@);
        }
        while i < self.entries.len()
            invariant
                key@ == spec_normalize_plan(
                    plan_id@,
                    self.site_prefixes@,
                    self.contract_suffixes@,
                ),
                0 <= i <= self.entries@.len(),
                catalog_lookup(self.entries@, key@) == catalog_lookup(
                    self.entries@.skip(i as int),
                    key@,
                ),
            decreases self.entries@.len() - i,
        {
            proof {
                assert(self.entries@.skip(i as int).drop_first() =~= self.entries@.skip(
                    i as int + 1,
                ));
                assert(self.entries@.skip(i as int)[0] == self.entries@[i as int]);
            }
            let entry = &self.entries[i];
            if entry.0 == key {
                return Some(entry.1);
            }
            i = i + 1;
        }
        None
    }
}

} // verus!
