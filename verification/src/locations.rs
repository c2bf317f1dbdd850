//! The location availability aggregator: deduplicates linked pairs into
//! one best-observed internet service profile per location.

use vstd::prelude::*;

use crate::products::{profile_less, spec_profile_less, ProductType, ServiceProfile};
use crate::records::{FccRecord, SubscriptionApiItem};
use crate::taxonomy::ProductCatalog;
use crate::text::str_eq;
use crate::tracts::LinkedPair;

verus! {

/// One row of the availability set: a location with its best observed
/// internet product (profile equalized for availability reporting).
#[derive(PartialEq, Eq, Hash, Debug)]
pub struct LocationSummationKey {
    pub location_id: String,
    pub product_type: ProductType,
}

impl Clone for LocationSummationKey {
    fn clone(&self) -> (r: Self)
        ensures
            r == *self,
    {
        LocationSummationKey {
            location_id: self.location_id.clone(),
            product_type: self.product_type,
        }
    }
}

/// The availability entry one linked pair offers: present exactly when the
/// plan id is present and classifies as an internet product. The profile
/// is the original (pre-equalization) one.
pub open spec fn pair_internet_entry(p: LinkedPair, catalog: ProductCatalog) -> Option<(Seq<char>, ServiceProfile)> {
    match p.1.subscription.plan_id {
        Some(plan) => match catalog.spec_classify(plan@) {
            Some(ProductType::Internet(profile)) => Some((p.0.location_id@, profile)),
            _ => None,
        },
        None => None,
    }
}

/// The dedup fold, pair by pair: insert the equalized profile on first
/// sight of a location, and afterwards replace the retained profile only
/// when the newcomer's equalized profile is strictly greater under the
/// dedup order (available download speed first). The order is total, so
/// the winner does not depend on the order pairs arrive in.
pub open spec fn spec_location_summary(pairs: Seq<LinkedPair>, catalog: ProductCatalog) -> Map<Seq<char>, ServiceProfile>
    decreases pairs.len(),
{
    if pairs.len() == 0 {
        Map::empty()
    } else {
        let m = spec_location_summary(pairs.drop_last(), catalog);
        match pair_internet_entry(pairs.last(), catalog) {
            Some(e) => {
                let equalized = e.1.spec_equalize_committed();
                if m.contains_key(e.0) {
                    if spec_profile_less(m[e.0], equalized) {
                        m.insert(e.0, equalized)
                    } else {
                        m
                    }
                } else {
                    m.insert(e.0, equalized)
                }
            },
            None => m,
        }
    }
}

/// Some row of `s` bears `id`.
pub open spec fn rows_have_location(s: Seq<LocationSummationKey>, id: Seq<char>) -> bool {
    exists|a: int| 0 <= a < s.len() && (#[trigger] s[a]).location_id@ == id
}

/// No two rows of `s` share a location.
pub open spec fn location_rows_unique(s: Seq<LocationSummationKey>) -> bool {
    forall|a: int, b: int| 0 <= a < b < s.len() ==> s[a].location_id@ != s[b].location_id@
}

/// Each row carries the internet product the summary map assigns its
/// location.
pub open spec fn location_rows_ok(m: Map<Seq<char>, ServiceProfile>, s: Seq<LocationSummationKey>) -> bool {
    forall|a: int|
        0 <= a < s.len() ==> {
            &&& m.contains_key((#[trigger] s[a]).location_id@)
            &&& s[a].product_type == ProductType::Internet(m[s[a].location_id@])
        }
}

/// Every location of the summary map has a row.
pub open spec fn location_rows_complete(m: Map<Seq<char>, ServiceProfile>, s: Seq<LocationSummationKey>) -> bool {
    forall|id: Seq<char>| #[trigger] m.contains_key(id) ==> rows_have_location(s, id)
}

proof fn lemma_has_location_push(s: Seq<LocationSummationKey>, e: LocationSummationKey, id: Seq<char>)
    requires
        rows_have_location(s, id) || e.location_id@ == id,
    ensures
        rows_have_location(s.push(e), id),
{
    if e.location_id@ == id {
        assert(s.push(e)[s.len() as int].location_id@ == id);
    } else {
        let w = choose|a: int| 0 <= a < s.len() && (#[trigger] s[a]).location_id@ == id;
        assert(s.push(e)[w].location_id@ == id);
    }
}

proof fn lemma_has_location_update(s: Seq<LocationSummationKey>, idx: int, e: LocationSummationKey, id: Seq<char>)
    requires
        0 <= idx < s.len(),
        e.location_id@ == s[idx].location_id@,
        rows_have_location(s, id),
    ensures
        rows_have_location(s.update(idx, e), id),
{
    let w = choose|a: int| 0 <= a < s.len() && (#[trigger] s[a]).location_id@ == id;
    if w == idx {
        assert(s.update(idx, e)[idx].location_id@ == id);
    } else {
        assert(s.update(idx, e)[w].location_id@ == id);
    }
}

/// Folds linked pairs into the deduplicated availability set.
///
/// Only pairs that classify as internet products participate; each
/// retained profile is equalized (committed speeds overwritten by
/// available speeds), and when one location offers several profiles the
/// greatest under the dedup order is kept — the one with the strictly
/// greatest available download speed, ties resolved by the order's
/// further fields — so the outcome does not depend on input order.
pub fn summarize_locations(linked_records: Vec<LinkedPair>, catalog: &ProductCatalog) -> (summary: Vec<LocationSummationKey>)
    ensures
        location_rows_unique(summary@),
        location_rows_ok(spec_location_summary(linked_records@, *catalog), summary@),
        location_rows_complete(spec_location_summary(linked_records@, *catalog), summary@),
{
    let ghost pairs = linked_records@;
    let n = linked_records.len();
    let mut summary: Vec<LocationSummationKey> = Vec::new();
    proof {
        assert(pairs.take(0) =~= Seq::<LinkedPair>::empty());
    }
    for i in 0..n
        invariant
            n == pairs.len(),
            pairs == linked_records@,
            location_rows_unique(summary@),
            location_rows_ok(spec_location_summary(pairs.take(i as int), *catalog), summary@),
            location_rows_complete(
                spec_location_summary(pairs.take(i as int), *catalog),
                summary@,
            ),
    {
        let p = &linked_records[i];
        let ghost prev = summary@;
        let ghost m = spec_location_summary(pairs.take(i as int), *catalog);
        proof {
            assert(location_rows_unique(prev));
            assert(location_rows_ok(m, prev));
            assert(location_rows_complete(m, prev));
            assert(pairs.take(i as int + 1).drop_last() =~= pairs.take(i as int));
            assert(pairs.take(i as int + 1).last() == pairs[i as int]);
        }
        let ghost m_next = spec_location_summary(pairs.take(i as int + 1), *catalog);
        let mut internet: Option<ServiceProfile> = None;
        if let Some(plan) = &p.1.subscription.plan_id {
            if let Some(ProductType::Internet(profile)) = catalog.classify(plan.as_str()) {
                internet = Some(profile);
            }
        }
        match internet {
            Some(profile) => {
                let ghost id = p.0.location_id@;
                proof {
                    assert(pair_internet_entry(pairs[i as int], *catalog) == Some((id, profile)));
                }
                let equalized = profile.equalize_committed();
                let mut idx: usize = 0;
                let mut found = false;
                while idx < summary.len() && !found
                    invariant
                        summary@ == prev,
                        0 <= idx <= summary@.len(),
                        forall|k: int| 0 <= k < idx ==> summary@[k].location_id@ != id,
                        found ==> idx < summary@.len() && summary@[idx as int].location_id@ == id,
                        id == p.0.location_id@,
                    decreases summary@.len() - idx, (if found { 0int } else { 1int }),
                {
                    if str_eq(summary[idx].location_id.as_str(), p.0.location_id.as_str()) {
                        found = true;
                    } else {
                        idx = idx + 1;
                    }
                }
                if found {
                    proof {
                        assert(m.contains_key(id));
                        assert(prev[idx as int].product_type == ProductType::Internet(m[id]));
                    }
                    let replace = match &summary[idx].product_type {
                        ProductType::Internet(existing) => profile_less(existing, &equalized),
                        _ => {
                            proof {
                                assert(false);
                            }
                            false
                        },
                    };
                    if replace {
                        let entry = LocationSummationKey {
                            location_id: p.0.location_id.clone(),
                            product_type: ProductType::Internet(equalized),
                        };
                        summary[idx] = entry;
                        proof {
                            let updated = summary@;
                            assert(updated == prev.update(idx as int, updated[idx as int]));
                            assert(m_next == m.insert(id, profile.spec_equalize_committed()));
                            assert forall|a: int, b: int| 0 <= a < b < updated.len() implies
                                updated[a].location_id@ != updated[b].location_id@ by {
                                assert(updated[a].location_id@ == prev[a].location_id@);
                                assert(updated[b].location_id@ == prev[b].location_id@);
                            }
                            assert(location_rows_unique(updated));
                            assert forall|a: int| 0 <= a < updated.len() implies {
                                &&& m_next.contains_key((#[trigger] updated[a]).location_id@)
                                &&& updated[a].product_type == ProductType::Internet(
                                    m_next[updated[a].location_id@],
                                )
                            } by {
                                if a == idx {
                                } else {
                                    assert(updated[a] == prev[a]);
                                    assert(updated[a].location_id@ != id);
                                }
                            }
                            assert(location_rows_ok(m_next, updated));
                            assert forall|id2: Seq<char>| #[trigger] m_next.contains_key(id2)
                                implies rows_have_location(updated, id2) by {
                                if id2 == id {
                                    assert(updated[idx as int].location_id@ == id2);
                                } else {
                                    assert(m.contains_key(id2));
                                    assert(rows_have_location(prev, id2));
                                    lemma_has_location_update(
                                        prev,
                                        idx as int,
                                        updated[idx as int],
                                        id2,
                                    );
                                }
                            }
                            assert(location_rows_complete(m_next, updated));
                        }
                    } else {
                        proof {
                            assert(m_next == m);
                            assert(location_rows_ok(m_next, summary@));
                            assert(location_rows_complete(m_next, summary@));
                        }
                    }
                } else {
                    proof {
                        assert(!m.contains_key(id)) by {
                            if m.contains_key(id) {
                                assert(rows_have_location(prev, id));
                                let w = choose|a: int|
                                    0 <= a < prev.len() && (#[trigger] prev[a]).location_id@ == id;
                                assert(false);
                            }
                        }
                        assert(m_next == m.insert(id, profile.spec_equalize_committed()));
                    }
                    let entry = LocationSummationKey {
                        location_id: p.0.location_id.clone(),
                        product_type: ProductType::Internet(equalized),
                    };
                    summary.push(entry);
                    proof {
                        let updated = summary@;
                        assert(updated == prev.push(entry));
                        assert(updated[prev.len() as int].location_id@ == id);
                        assert forall|a: int, b: int| 0 <= a < b < updated.len() implies
                            updated[a].location_id@ != updated[b].location_id@ by {
                            if b < prev.len() {
                                assert(updated[a] == prev[a] && updated[b] == prev[b]);
                            } else {
                                assert(updated[a] == prev[a]);
                                assert(m.contains_key(prev[a].location_id@));
                            }
                        }
                        assert(location_rows_unique(updated));
                        assert forall|a: int| 0 <= a < updated.len() implies {
                            &&& m_next.contains_key((#[trigger] updated[a]).location_id@)
                            &&& updated[a].product_type == ProductType::Internet(
                                m_next[updated[a].location_id@],
                            )
                        } by {
                            if a < prev.len() {
                                assert(updated[a] == prev[a]);
                                assert(m.contains_key(prev[a].location_id@));
                                assert(prev[a].location_id@ != id);
                            } else {
                                assert(updated[a] == entry);
                            }
                        }
                        assert(location_rows_ok(m_next, updated));
                        assert forall|id2: Seq<char>| #[trigger] m_next.contains_key(id2) implies
                            rows_have_location(updated, id2) by {
                            if id2 == id {
                                assert(updated[prev.len() as int].location_id@ == id2);
                            } else {
                                assert(m.contains_key(id2));
                                assert(rows_have_location(prev, id2));
                                lemma_has_location_push(prev, entry, id2);
                            }
                        }
                        assert(location_rows_complete(m_next, updated));
                    }
                }
            },
            None => {
                proof {
                    assert(pair_internet_entry(pairs[i as int], *catalog) is None);
                    assert(m_next == m);
                    assert(location_rows_ok(m_next, summary@));
                    assert(location_rows_complete(m_next, summary@));
                }
            },
        }
    }
    proof {
        assert(pairs.take(n as int) =~= pairs);
    }
    summary
}

/// `p` offers an internet entry for location `id`.
pub open spec fn pair_contributes_to(p: LinkedPair, catalog: ProductCatalog, id: Seq<char>) -> bool {
    match pair_internet_entry(p, catalog) {
        Some(e) => e.0 == id,
        None => false,
    }
}

/// The profile `p` offers (meaningful only when it contributes).
pub open spec fn pair_offered_profile(p: LinkedPair, catalog: ProductCatalog) -> ServiceProfile {
    match pair_internet_entry(p, catalog) {
        Some(e) => e.1,
        None => ServiceProfile {
            technology_code: 0,
            committed_bandwidth_up: 0,
            committed_bandwidth_down: 0,
            available_bandwidth_up: 0,
            available_bandwidth_down: 0,
        },
    }
}

/// Some pair of `pairs` offers an internet entry for `id`.
pub open spec fn some_pair_contributes(pairs: Seq<LinkedPair>, catalog: ProductCatalog, id: Seq<char>) -> bool {
    exists|i: int| 0 <= i < pairs.len() && pair_contributes_to(#[trigger] pairs[i], catalog, id)
}

/// Some pair of `pairs` offers `id` a profile whose equalization is
/// exactly `prof`.
pub open spec fn some_pair_yields(pairs: Seq<LinkedPair>, catalog: ProductCatalog, id: Seq<char>, prof: ServiceProfile) -> bool {
    exists|i: int|
        0 <= i < pairs.len() && pair_contributes_to(#[trigger] pairs[i], catalog, id)
            && pair_offered_profile(pairs[i], catalog).spec_equalize_committed() == prof
}

/// Under the dedup order, `prof` is at least every equalized profile
/// offered to `id`.
pub open spec fn profile_dominates(pairs: Seq<LinkedPair>, catalog: ProductCatalog, id: Seq<char>, prof: ServiceProfile) -> bool {
    forall|i: int|
        0 <= i < pairs.len() && pair_contributes_to(#[trigger] pairs[i], catalog, id) ==> {
            let offered = pair_offered_profile(pairs[i], catalog).spec_equalize_committed();
            offered == prof || spec_profile_less(offered, prof)
        }
}

/// No pair of `pairs` offers `id` a faster available download than `prof`.
pub open spec fn download_dominates(pairs: Seq<LinkedPair>, catalog: ProductCatalog, id: Seq<char>, prof: ServiceProfile) -> bool {
    forall|i: int|
        0 <= i < pairs.len() && pair_contributes_to(#[trigger] pairs[i], catalog, id)
            ==> pair_offered_profile(pairs[i], catalog).available_bandwidth_down
            <= prof.available_bandwidth_down
}

/// The dedup order is a strict total order.
proof fn lemma_profile_order(a: ServiceProfile, b: ServiceProfile)
    ensures
        a == b || spec_profile_less(a, b) || spec_profile_less(b, a),
        !(spec_profile_less(a, b) && spec_profile_less(b, a)),
        !spec_profile_less(a, a),
{
}

proof fn lemma_profile_order_trans(a: ServiceProfile, b: ServiceProfile, c: ServiceProfile)
    requires
        spec_profile_less(a, b),
        spec_profile_less(b, c),
    ensures
        spec_profile_less(a, c),
{
}

/// Law: availability dedup keeps the best observed service. A location is
/// retained exactly when some pair offers it an internet product; the
/// retained profile is equalized (committed speeds equal available
/// speeds), is the equalization of some offered profile, is the greatest
/// offered one under the dedup order, and in particular its available
/// download speed is no smaller than any offered one.
pub proof fn lemma_location_best_wins(pairs: Seq<LinkedPair>, catalog: ProductCatalog, id: Seq<char>)
    ensures
        spec_location_summary(pairs, catalog).contains_key(id) <==> some_pair_contributes(
            pairs,
            catalog,
            id,
        ),
        spec_location_summary(pairs, catalog).contains_key(id) ==> {
            let prof = spec_location_summary(pairs, catalog)[id];
            &&& prof.committed_bandwidth_up == prof.available_bandwidth_up
            &&& prof.committed_bandwidth_down == prof.available_bandwidth_down
            &&& some_pair_yields(pairs, catalog, id, prof)
            &&& profile_dominates(pairs, catalog, id, prof)
            &&& download_dominates(pairs, catalog, id, prof)
        },
    decreases pairs.len(),
{
    if pairs.len() == 0 {
    } else {
        let dl = pairs.drop_last();
        lemma_location_best_wins(dl, catalog, id);
        let m0 = spec_location_summary(dl, catalog);
        let m = spec_location_summary(pairs, catalog);
        let last = pairs.last();
        assert(forall|i: int| 0 <= i < dl.len() ==> #[trigger] pairs[i] == dl[i]);
        let contributes_last = pair_contributes_to(last, catalog, id);

        if some_pair_contributes(pairs, catalog, id) {
            let w = choose|i: int|
                0 <= i < pairs.len() && pair_contributes_to(#[trigger] pairs[i], catalog, id);
            if w < dl.len() {
                assert(pair_contributes_to(dl[w], catalog, id));
                assert(some_pair_contributes(dl, catalog, id));
            } else {
                assert(contributes_last);
            }
        }
        if some_pair_contributes(dl, catalog, id) {
            let w = choose|i: int|
                0 <= i < dl.len() && pair_contributes_to(#[trigger] dl[i], catalog, id);
            assert(pair_contributes_to(pairs[w], catalog, id));
            assert(some_pair_contributes(pairs, catalog, id));
        }
        if contributes_last {
            assert(pair_contributes_to(pairs[pairs.len() - 1], catalog, id));
            assert(some_pair_contributes(pairs, catalog, id));
        }

        if m.contains_key(id) {
            let prof = m[id];
            if contributes_last {
                let offered = pair_offered_profile(last, catalog);
                let oe = offered.spec_equalize_committed();
                if !m0.contains_key(id) || spec_profile_less(m0[id], oe) {
                    assert(prof == oe);
                    assert(pair_contributes_to(pairs[pairs.len() - 1], catalog, id));
                    assert(some_pair_yields(pairs, catalog, id, prof));
                    assert forall|i: int|
                        0 <= i < pairs.len() && pair_contributes_to(
                            #[trigger] pairs[i],
                            catalog,
                            id,
                        ) implies {
                        let q = pair_offered_profile(pairs[i], catalog).spec_equalize_committed();
                        q == prof || spec_profile_less(q, prof)
                    } by {
                        if i < dl.len() {
                            assert(pair_contributes_to(dl[i], catalog, id));
                            assert(some_pair_contributes(dl, catalog, id));
                            assert(m0.contains_key(id));
                            let q = pair_offered_profile(dl[i], catalog).spec_equalize_committed();
                            assert(q == m0[id] || spec_profile_less(q, m0[id]));
                            if q != m0[id] {
                                lemma_profile_order_trans(q, m0[id], oe);
                            }
                        }
                    }
                } else {
                    assert(prof == m0[id]);
                    let w0 = choose|i: int|
                        0 <= i < dl.len() && pair_contributes_to(#[trigger] dl[i], catalog, id)
                            && pair_offered_profile(dl[i], catalog).spec_equalize_committed()
                            == prof;
                    assert(pair_contributes_to(pairs[w0], catalog, id));
                    assert(some_pair_yields(pairs, catalog, id, prof));
                    assert forall|i: int|
                        0 <= i < pairs.len() && pair_contributes_to(
                            #[trigger] pairs[i],
                            catalog,
                            id,
                        ) implies {
                        let q = pair_offered_profile(pairs[i], catalog).spec_equalize_committed();
                        q == prof || spec_profile_less(q, prof)
                    } by {
                        if i < dl.len() {
                            assert(pair_contributes_to(dl[i], catalog, id));
                        } else {
                            lemma_profile_order(prof, oe);
                        }
                    }
                }
            } else {
                assert(m0.contains_key(id));
                assert(m[id] == m0[id]);
                let w0 = choose|i: int|
                    0 <= i < dl.len() && pair_contributes_to(#[trigger] dl[i], catalog, id)
                        && pair_offered_profile(dl[i], catalog).spec_equalize_committed() == prof;
                assert(pair_contributes_to(pairs[w0], catalog, id));
                assert(some_pair_yields(pairs, catalog, id, prof));
                assert forall|i: int|
                    0 <= i < pairs.len() && pair_contributes_to(#[trigger] pairs[i], catalog, id)
                    implies {
                    let q = pair_offered_profile(pairs[i], catalog).spec_equalize_committed();
                    q == prof || spec_profile_less(q, prof)
                } by {
                    if i < dl.len() {
                        assert(pair_contributes_to(dl[i], catalog, id));
                    }
                }
            }
            assert forall|i: int|
                0 <= i < pairs.len() && pair_contributes_to(#[trigger] pairs[i], catalog, id)
                implies pair_offered_profile(pairs[i], catalog).available_bandwidth_down
                <= prof.available_bandwidth_down by {
                let q = pair_offered_profile(pairs[i], catalog).spec_equalize_committed();
                assert(q == prof || spec_profile_less(q, prof));
            }
        }
    }
}

/// An element of one sequence occurs in any sequence with the same
/// multiset of elements.
proof fn lemma_pair_transfer(p1: Seq<LinkedPair>, p2: Seq<LinkedPair>, i: int)
    requires
        p1.to_multiset() == p2.to_multiset(),
        0 <= i < p1.len(),
    ensures
        exists|j: int| 0 <= j < p2.len() && p2[j] == p1[i],
{
    p1.to_multiset_ensures();
    p2.to_multiset_ensures();
    assert(p1.contains(p1[i]));
    assert(p1.to_multiset().count(p1[i]) > 0);
    assert(p2.to_multiset().count(p1[i]) > 0);
    assert(p2.contains(p1[i]));
}

proof fn lemma_location_maps_agree(p1: Seq<LinkedPair>, p2: Seq<LinkedPair>, catalog: ProductCatalog, id: Seq<char>)
    requires
        p1.to_multiset() == p2.to_multiset(),
        spec_location_summary(p1, catalog).contains_key(id),
    ensures
        spec_location_summary(p2, catalog).contains_key(id),
        spec_location_summary(p2, catalog)[id] == spec_location_summary(p1, catalog)[id],
{
    lemma_location_best_wins(p1, catalog, id);
    lemma_location_best_wins(p2, catalog, id);
    let m1 = spec_location_summary(p1, catalog);
    let m2 = spec_location_summary(p2, catalog);

    let w = choose|i: int|
        0 <= i < p1.len() && pair_contributes_to(#[trigger] p1[i], catalog, id);
    lemma_pair_transfer(p1, p2, w);
    let wt = choose|j: int| 0 <= j < p2.len() && p2[j] == p1[w];
    assert(pair_contributes_to(p2[wt], catalog, id));
    assert(some_pair_contributes(p2, catalog, id));
    assert(m2.contains_key(id));

    let y1 = choose|i: int|
        0 <= i < p1.len() && pair_contributes_to(#[trigger] p1[i], catalog, id)
            && pair_offered_profile(p1[i], catalog).spec_equalize_committed() == m1[id];
    lemma_pair_transfer(p1, p2, y1);
    let y1t = choose|j: int| 0 <= j < p2.len() && p2[j] == p1[y1];
    assert(pair_contributes_to(p2[y1t], catalog, id));
    assert(m1[id] == m2[id] || spec_profile_less(m1[id], m2[id]));

    let y2 = choose|i: int|
        0 <= i < p2.len() && pair_contributes_to(#[trigger] p2[i], catalog, id)
            && pair_offered_profile(p2[i], catalog).spec_equalize_committed() == m2[id];
    lemma_pair_transfer(p2, p1, y2);
    let y2t = choose|j: int| 0 <= j < p1.len() && p1[j] == p2[y2];
    assert(pair_contributes_to(p1[y2t], catalog, id));
    assert(m2[id] == m1[id] || spec_profile_less(m2[id], m1[id]));

    lemma_profile_order(m1[id], m2[id]);
}

/// Law: availability dedup is order independent — inputs that are
/// permutations of one another produce identical summary maps.
pub proof fn lemma_location_summary_permutation(p1: Seq<LinkedPair>, p2: Seq<LinkedPair>, catalog: ProductCatalog)
    requires
        p1.to_multiset() == p2.to_multiset(),
    ensures
        spec_location_summary(p1, catalog) == spec_location_summary(p2, catalog),
{
    let m1 = spec_location_summary(p1, catalog);
    let m2 = spec_location_summary(p2, catalog);
    assert forall|id: Seq<char>| #[trigger] m1.contains_key(id) implies m2.contains_key(id)
        && m1[id] == m2[id] by {
        lemma_location_maps_agree(p1, p2, catalog, id);
    }
    assert forall|id: Seq<char>| #[trigger] m2.contains_key(id) implies m1.contains_key(id) by {
        lemma_location_maps_agree(p2, p1, catalog, id);
    }
    assert(m1 =~= m2);
}

} // verus!
