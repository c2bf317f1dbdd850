//! The address matcher: joins subscription records to location records by
//! normalized and fuzzy address comparison, first match wins.

use vstd::prelude::*;
use vstd::string::*;
use vstd::utf8::is_ascii_chars;

use crate::records::{FccRecord, SubscriptionApiItem};
use crate::text::{digits, spec_digits, split_at_first, split_once_char, to_upper, upper_of};

verus! {

/// Levenshtein-style similarity of two strings, scaled 0 to 100, named so
/// that contracts can speak of the score exactly.
pub uninterp spec fn ratio_of(a: Seq<char>, b: Seq<char>) -> u8;

/// Relies on fuzzywuzzy's `fuzz::ratio`: an edit-distance similarity score
/// between 0 and 100, determined by the two strings alone. The crate
/// slices its inputs at byte offsets that are only guaranteed to be
/// character boundaries for ASCII text, so the wrapper demands ASCII.
#[verifier::external_body]
fn fuzzy_ratio(a: &str, b: &str) -> (r: u8)
    requires
        a.is_ascii(),
        b.is_ascii(),
    ensures
        r == ratio_of(a@, b@),
{
    fuzzywuzzy::fuzz::ratio(a, b)
}

/// The tokens the matcher compares, once every required field is present
/// and every split succeeds.
pub ghost struct MatchTokens {
    /// The subscription's full service address.
    pub sub_addr: Seq<char>,
    /// The subscription address up to the first space.
    pub sub_house: Seq<char>,
    /// The subscription address after the first space.
    pub sub_street: Seq<char>,
    /// The subscription's city: its city/state/zip field up to the first comma.
    pub sub_city: Seq<char>,
    /// The location's full primary address.
    pub loc_addr: Seq<char>,
    /// The location address up to the first space.
    pub loc_house: Seq<char>,
    /// The location address after the first space.
    pub loc_street: Seq<char>,
    /// The location's city field.
    pub loc_city: Seq<char>,
}

/// Extracts the comparison tokens of a candidate pair: `None` when a
/// required field is absent or a split finds no separator, which silently
/// disqualifies the candidate.
pub open spec fn parse_tokens(loc: FccRecord, sub: SubscriptionApiItem) -> Option<MatchTokens> {
    match (sub.customer.cf_service_address, sub.customer.cf_service_city_st_zip, loc.address_primary, loc.city) {
        (Some(sub_addr), Some(sub_csz), Some(loc_addr), Some(loc_city)) => {
            match (split_at_first(sub_addr@, ' '), split_at_first(sub_csz@, ','), split_at_first(loc_addr@, ' ')) {
                (Some(sub_parts), Some(city_parts), Some(loc_parts)) => Some(
                    MatchTokens {
                        sub_addr: sub_addr@,
                        sub_house: sub_parts.0,
                        sub_street: sub_parts.1,
                        sub_city: city_parts.0,
                        loc_addr: loc_addr@,
                        loc_house: loc_parts.0,
                        loc_street: loc_parts.1,
                        loc_city: loc_city@,
                    },
                ),
                _ => None,
            }
        },
        _ => None,
    }
}

/// The fuzzy street criterion: both uppercased street remainders are ASCII
/// and their similarity ratio strictly exceeds 80.
pub open spec fn street_similarity_ok(sub_street: Seq<char>, loc_street: Seq<char>) -> bool {
    &&& is_ascii_chars(upper_of(sub_street))
    &&& is_ascii_chars(upper_of(loc_street))
    &&& ratio_of(upper_of(sub_street), upper_of(loc_street)) > 80
}

/// All four match criteria: case-insensitive city equality, equal digit
/// projections of the full addresses, exact house-number-token equality,
/// and fuzzy street similarity.
pub open spec fn tokens_match(t: MatchTokens) -> bool {
    &&& upper_of(t.sub_city) == upper_of(t.loc_city)
    &&& spec_digits(t.sub_addr) == spec_digits(t.loc_addr)
    &&& t.sub_house == t.loc_house
    &&& street_similarity_ok(t.sub_street, t.loc_street)
}

/// A location qualifies for a subscription when its tokens parse and all
/// four criteria hold.
pub open spec fn candidate_match(loc: FccRecord, sub: SubscriptionApiItem) -> bool {
    match parse_tokens(loc, sub) {
        Some(t) => tokens_match(t),
        None => false,
    }
}

/// Evaluates the four match criteria for one candidate location.
fn try_match(loc: &FccRecord, sub: &SubscriptionApiItem) -> (r: bool)
    ensures
        r == candidate_match(*loc, *sub),
{
    let sub_addr = match &sub.customer.cf_service_address {
        Some(a) => a,
        None => { return false; },
    };
    let sub_csz = match &sub.customer.cf_service_city_st_zip {
        Some(a) => a,
        None => { return false; },
    };
    let loc_addr = match &loc.address_primary {
        Some(a) => a,
        None => { return false; },
    };
    let loc_city = match &loc.city {
        Some(a) => a,
        None => { return false; },
    };
    let sub_parts = match split_once_char(sub_addr.as_str(), ' ') {
        Some(p) => p,
        None => { return false; },
    };
    let city_parts = match split_once_char(sub_csz.as_str(), ',') {
        Some(p) => p,
        None => { return false; },
    };
    let loc_parts = match split_once_char(loc_addr.as_str(), ' ') {
        Some(p) => p,
        None => { return false; },
    };
    let sub_city_up = to_upper(city_parts.0.as_str());
    let loc_city_up = to_upper(loc_city.as_str());
    if !(sub_city_up == loc_city_up) {
        return false;
    }
    let sub_digits = digits(sub_addr.as_str());
    let loc_digits = digits(loc_addr.as_str());
    if !(sub_digits == loc_digits) {
        return false;
    }
    if !(sub_parts.0 == loc_parts.0) {
        return false;
    }
    let sub_street_up = to_upper(sub_parts.1.as_str());
    let loc_street_up = to_upper(loc_parts.1.as_str());
    if !sub_street_up.is_ascii() || !loc_street_up.is_ascii() {
        return false;
    }
    let score = fuzzy_ratio(sub_street_up.as_str(), loc_street_up.as_str());
    score > 80
}

/// Index of the first location that qualifies for `sub`, or `locs.len()`
/// when none does.
pub open spec fn first_match_index(locs: Seq<FccRecord>, sub: SubscriptionApiItem) -> int
    decreases locs.len(),
{
    if locs.len() == 0 {
        0
    } else if candidate_match(locs[0], sub) {
        0
    } else {
        1 + first_match_index(locs.drop_first(), sub)
    }
}

/// The first qualifying index is pinned by its characterization.
pub proof fn lemma_first_match_index_is(locs: Seq<FccRecord>, sub: SubscriptionApiItem, i: int)
    requires
        0 <= i <= locs.len(),
        forall|k: int| 0 <= k < i ==> !candidate_match(locs[k], sub),
        i < locs.len() ==> candidate_match(locs[i], sub),
    ensures
        first_match_index(locs, sub) == i,
    decreases locs.len(),
{
    if locs.len() == 0 {
    } else if candidate_match(locs[0], sub) {
        assert(i == 0);
    } else {
        assert(i >= 1);
        assert forall|k: int| 0 <= k < i - 1 implies !candidate_match(locs.drop_first()[k], sub) by {
            assert(locs.drop_first()[k] == locs[k + 1]);
        }
        assert(i - 1 < locs.drop_first().len() ==> locs.drop_first()[i - 1] == locs[i]);
        lemma_first_match_index_is(locs.drop_first(), sub, i - 1);
    }
}

/// The linked rows one subscription contributes: its first qualifying
/// location, or nothing.
pub open spec fn match_row(locs: Seq<FccRecord>, sub: SubscriptionApiItem) -> Seq<(FccRecord, SubscriptionApiItem)> {
    let i = first_match_index(locs, sub);
    if i < locs.len() {
        seq![(locs[i], sub)]
    } else {
        Seq::empty()
    }
}

/// The whole join: subscriptions in input order, each contributing its
/// first qualifying location or nothing.
pub open spec fn link_spec(locs: Seq<FccRecord>, subs: Seq<SubscriptionApiItem>) -> Seq<(FccRecord, SubscriptionApiItem)>
    decreases subs.len(),
{
    if subs.len() == 0 {
        Seq::empty()
    } else {
        link_spec(locs, subs.drop_last()) + match_row(locs, subs.last())
    }
}

/// Joins the location census against the subscription export.
///
/// Output order follows subscription input order; for each subscription
/// the location list is scanned in its given order and the first
/// qualifying candidate wins, so the result is deterministic in the
/// order of both inputs.
pub fn link(fcc: Vec<FccRecord>, emerald: Vec<SubscriptionApiItem>) -> (linked: Vec<(FccRecord, SubscriptionApiItem)>)
    ensures
        linked@ == link_spec(fcc@, emerald@),
{
    let mut linked: Vec<(FccRecord, SubscriptionApiItem)> = Vec::new();
    let n = emerald.len();
    proof {
        assert(emerald@.take(0) =~= Seq::<SubscriptionApiItem>::empty());
    }
    for i in 0..n
        invariant
            n == emerald@.len(),
            linked@ == link_spec(fcc@, emerald@.take(i as int)),
    {
        let sub = &emerald[i];
        let mut j: usize = 0;
        let mut found = false;
        while j < fcc.len() && !found
            invariant
                n == emerald@.len(),
                0 <= i < n,
                *sub == emerald@[i as int],
                0 <= j <= fcc@.len(),
                forall|k: int| 0 <= k < j ==> !candidate_match(fcc@[k], emerald@[i as int]),
                if found {
                    j < fcc@.len() && candidate_match(fcc@[j as int], emerald@[i as int])
                        && linked@ == link_spec(fcc@, emerald@.take(i as int)).push(
                        (fcc@[j as int], emerald@[i as int]),
                    )
                } else {
                    linked@ == link_spec(fcc@, emerald@.take(i as int))
                },
            decreases fcc@.len() - j, (if found { 0int } else { 1int }),
    {
            if try_match(&fcc[j], sub) {
                linked.push((fcc[j].clone(), sub.clone()));
                found = true;
            } else {
                j = j + 1;
            }
        }
        proof {
            assert(emerald@.take(i as int + 1).drop_last() =~= emerald@.take(i as int));
            assert(emerald@.take(i as int + 1).last() == emerald@[i as int]);
            if found {
                lemma_first_match_index_is(fcc@, emerald@[i as int], j as int);
                assert(match_row(fcc@, emerald@[i as int]) =~= seq![
                    (fcc@[j as int], emerald@[i as int]),
                ]);
            } else {
                lemma_first_match_index_is(fcc@, emerald@[i as int], fcc@.len() as int);
                assert(match_row(fcc@, emerald@[i as int]) =~= Seq::<
                    (FccRecord, SubscriptionApiItem),
                >::empty());
            }
            assert(linked@ =~= link_spec(fcc@, emerald@.take(i as int + 1)));
        }
    }
    proof {
        assert(emerald@.take(n as int) =~= emerald@);
    }
    linked
}

/// Law: a subscription for which no location satisfies every match
/// criterion never appears in the linked output.
pub proof fn lemma_unmatched_subscription_excluded(
    locs: Seq<FccRecord>,
    subs: Seq<SubscriptionApiItem>,
    sub: SubscriptionApiItem,
)
    requires
        forall|j: int| 0 <= j < locs.len() ==> !candidate_match(locs[j], sub),
    ensures
        forall|k: int| 0 <= k < link_spec(locs, subs).len() ==> link_spec(locs, subs)[k].1 != sub,
    decreases subs.len(),
{
    if subs.len() > 0 {
        lemma_unmatched_subscription_excluded(locs, subs.drop_last(), sub);
        if subs.last() == sub {
            lemma_first_match_index_is(locs, sub, locs.len() as int);
        }
    }
}

/// Law: the digit-projection gate is necessary but not sufficient —
/// addresses with identical digit sequences whose house-number tokens
/// differ at all (even only in non-digit characters) never match.
pub proof fn lemma_house_number_gate(t: MatchTokens)
    requires
        spec_digits(t.sub_addr) == spec_digits(t.loc_addr),
        t.sub_house != t.loc_house,
    ensures
        !tokens_match(t),
        forall|loc: FccRecord, sub: SubscriptionApiItem|
            parse_tokens(loc, sub) == Some(t) ==> !candidate_match(loc, sub),
{
}

/// Law: the street-similarity threshold is strict — a ratio of exactly 80
/// (or anything below) rejects the candidate.
pub proof fn lemma_similarity_threshold_strict(t: MatchTokens)
    requires
        ratio_of(upper_of(t.sub_street), upper_of(t.loc_street)) <= 80,
    ensures
        !tokens_match(t),
        forall|loc: FccRecord, sub: SubscriptionApiItem|
            parse_tokens(loc, sub) == Some(t) ==> !candidate_match(loc, sub),
{
}

} // verus!
