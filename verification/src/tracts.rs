//! The tract aggregator: folds linked pairs into per-census-tract,
//! per-product-type subscriber counts.

use vstd::prelude::*;
use vstd::multiset::Multiset;
use vstd::string::*;

use crate::products::{product_type_eq, ProductType};
use crate::records::{FccRecord, SubscriptionApiItem};
use crate::taxonomy::ProductCatalog;
use crate::text::{str_eq, to_upper, upper_of};

verus! {

/// A confirmed association of one location record with one subscription.
pub type LinkedPair = (FccRecord, SubscriptionApiItem);

/// One row key of the tract summary table.
#[derive(PartialEq, Eq, Hash, Debug)]
pub struct TractSummationKey {
    pub tract_id: String,
    pub product_type: ProductType,
}

impl Clone for TractSummationKey {
    fn clone(&self) -> (r: Self)
        ensures
            r == *self,
    {
        TractSummationKey { tract_id: self.tract_id.clone(), product_type: self.product_type }
    }
}

/// Subscriber counts for one tract/product row; `residential` never
/// exceeds `total`.
#[derive(Clone, Copy, PartialEq, Eq, Debug)]
pub struct Summation {
    pub total: u16,
    pub residential: u16,
}

/// A quote or comma left in a block GEOID by export artifacts.
pub open spec fn is_geoid_noise(c: char) -> bool {
    c == '"' || c == ','
}

/// `s` with every quote and comma removed.
pub open spec fn strip_geoid_noise(s: Seq<char>) -> Seq<char>
    decreases s.len(),
{
    if s.len() == 0 {
        Seq::empty()
    } else if is_geoid_noise(s.last()) {
        strip_geoid_noise(s.drop_last())
    } else {
        strip_geoid_noise(s.drop_last()).push(s.last())
    }
}

/// Tract derivation: strip quotes and commas, then keep the first 11
/// characters — the tract-level prefix of a census block GEOID.
pub open spec fn spec_get_tract(s: Seq<char>) -> Seq<char> {
    let stripped = strip_geoid_noise(s);
    if stripped.len() <= 11 {
        stripped
    } else {
        stripped.take(11)
    }
}

/// Derives the tract identifier from a raw block GEOID string.
pub fn get_tract(text: &str) -> (r: String)
    ensures
        r@ == spec_get_tract(text@),
{
    let n = text.unicode_len();
    let mut out = String::new();
    for i in 0..n
        invariant
            n == text@.len(),
            out@ == strip_geoid_noise(text@.take(i as int)),
    {
        let c = text.get_char(i);
        proof {
            assert(text@.take(i + 1).drop_last() =~= text@.take(i as int));
            assert(text@.take(i + 1).last() == text@[i as int]);
        }
        if !(c == '"' || c == ',') {
            let piece = text.substring_char(i, i + 1);
            out.append(piece);
            proof {
                assert(out@ =~= strip_geoid_noise(text@.take(i + 1)));
            }
        }
    }
    proof {
        assert(text@.take(n as int) =~= text@);
    }
    let m = out.as_str().unicode_len();
    if m > 11 {
        let head = out.as_str().substring_char(0, 11);
        proof {
            assert(head@ =~= strip_geoid_noise(text@).take(11));
        }
        String::from_str(head)
    } else {
        out
    }
}

/// The residential/business flag spellings accepted as residential: the
/// canonical spelling and the two transposition typos seen in the export,
/// compared after uppercasing.
pub open spec fn spec_is_consumer(text: Seq<char>) -> bool {
    ||| upper_of(text) == "RESIDENTIAL"@
    ||| upper_of(text) == "RESIDENTAIL"@
    ||| upper_of(text) == "RRESIDENTIAL"@
}

/// True exactly when the uppercased flag is an accepted residential
/// spelling; every other string (including "BUSINESS") is rejected.
pub fn is_consumer(text: &str) -> (r: bool)
    ensures
        r == spec_is_consumer(text@),
{
    let up = to_upper(text);
    let a = str_eq(up.as_str(), "RESIDENTIAL");
    let b = str_eq(up.as_str(), "RESIDENTAIL");
    let c = str_eq(up.as_str(), "RRESIDENTIAL");
    a || b || c
}

/// How many elements of `s` satisfy `f`.
pub open spec fn count_matching<A>(s: Seq<A>, f: spec_fn(A) -> bool) -> nat
    decreases s.len(),
{
    if s.len() == 0 {
        0
    } else {
        count_matching(s.drop_last(), f) + (if f(s.last()) {
            1nat
        } else {
            0nat
        })
    }
}

pub proof fn lemma_count_matching_le_len<A>(s: Seq<A>, f: spec_fn(A) -> bool)
    ensures
        count_matching(s, f) <= s.len(),
    decreases s.len(),
{
    if s.len() > 0 {
        lemma_count_matching_le_len(s.drop_last(), f);
    }
}

proof fn lemma_filter_insert_len<A>(m: Multiset<A>, x: A, f: spec_fn(A) -> bool)
    ensures
        m.insert(x).filter(f).len() == m.filter(f).len() + (if f(x) {
            1nat
        } else {
            0nat
        }),
{
    broadcast use vstd::multiset::group_multiset_axioms;

    if f(x) {
        assert(m.insert(x).filter(f) =~= m.filter(f).insert(x));
    } else {
        assert(m.insert(x).filter(f) =~= m.filter(f));
    }
}

/// The count of matching elements is a function of the multiset of
/// elements alone, so it is invariant under permutation.
pub proof fn lemma_count_matching_multiset<A>(s: Seq<A>, f: spec_fn(A) -> bool)
    ensures
        count_matching(s, f) == s.to_multiset().filter(f).len(),
    decreases s.len(),
{
    broadcast use vstd::multiset::group_multiset_axioms;

    if s.len() == 0 {
        s.to_multiset_ensures();
        vstd::multiset::lemma_multiset_empty_len(s.to_multiset());
        assert(s.to_multiset().filter(f) =~= Multiset::<A>::empty());
    } else {
        lemma_count_matching_multiset(s.drop_last(), f);
        assert(s.drop_last().push(s.last()) =~= s);
        vstd::seq_lib::to_multiset_build(s.drop_last(), s.last());
        lemma_filter_insert_len(s.drop_last().to_multiset(), s.last(), f);
    }
}

/// The tract-summary key one linked pair contributes to: present exactly
/// when the plan id is present and classifies.
pub open spec fn pair_tract_key(p: LinkedPair, catalog: ProductCatalog) -> Option<(Seq<char>, ProductType)> {
    match p.1.subscription.plan_id {
        Some(plan) => match catalog.spec_classify(plan@) {
            Some(pt) => Some((spec_get_tract(p.0.block_geoid@), pt)),
            None => None,
        },
        None => None,
    }
}

/// The pair's residential/business flag reads as residential.
pub open spec fn pair_is_residential(p: LinkedPair) -> bool {
    match p.1.customer.cf_residentialbusiness {
        Some(flag) => spec_is_consumer(flag@),
        None => false,
    }
}

/// The pairs counted in `key`'s total.
pub open spec fn tract_key_pred(catalog: ProductCatalog, key: (Seq<char>, ProductType)) -> spec_fn(LinkedPair) -> bool {
    |p: LinkedPair| pair_tract_key(p, catalog) == Some(key)
}

/// The pairs counted in `key`'s residential subtotal.
pub open spec fn tract_res_pred(catalog: ProductCatalog, key: (Seq<char>, ProductType)) -> spec_fn(LinkedPair) -> bool {
    |p: LinkedPair| pair_tract_key(p, catalog) == Some(key) && pair_is_residential(p)
}

/// Total connections attributed to `key`.
pub open spec fn spec_tract_total(pairs: Seq<LinkedPair>, catalog: ProductCatalog, key: (Seq<char>, ProductType)) -> nat {
    count_matching(pairs, tract_key_pred(catalog, key))
}

/// Residential connections attributed to `key`.
pub open spec fn spec_tract_residential(pairs: Seq<LinkedPair>, catalog: ProductCatalog, key: (Seq<char>, ProductType)) -> nat {
    count_matching(pairs, tract_res_pred(catalog, key))
}

/// The view-level key of a summary row.
pub open spec fn tract_entry_key(k: TractSummationKey) -> (Seq<char>, ProductType) {
    (k.tract_id@, k.product_type)
}

/// A summary row carries exactly the counts the pair sequence induces for
/// its key, and only keys with at least one contribution appear.
pub open spec fn tract_entry_matches(pairs: Seq<LinkedPair>, catalog: ProductCatalog, e: (TractSummationKey, Summation)) -> bool {
    &&& e.1.total as nat == spec_tract_total(pairs, catalog, tract_entry_key(e.0))
    &&& e.1.residential as nat == spec_tract_residential(pairs, catalog, tract_entry_key(e.0))
    &&& spec_tract_total(pairs, catalog, tract_entry_key(e.0)) > 0
}

proof fn lemma_tract_counts_step(pairs: Seq<LinkedPair>, catalog: ProductCatalog, i: int, key: (Seq<char>, ProductType))
    requires
        0 <= i < pairs.len(),
    ensures
        spec_tract_total(pairs.take(i + 1), catalog, key) == spec_tract_total(
            pairs.take(i),
            catalog,
            key,
        ) + (if pair_tract_key(pairs[i], catalog) == Some(key) {
            1nat
        } else {
            0nat
        }),
        spec_tract_residential(pairs.take(i + 1), catalog, key) == spec_tract_residential(
            pairs.take(i),
            catalog,
            key,
        ) + (if pair_tract_key(pairs[i], catalog) == Some(key) && pair_is_residential(pairs[i]) {
            1nat
        } else {
            0nat
        }),
{
    assert(pairs.take(i + 1).drop_last() =~= pairs.take(i));
    assert(pairs.take(i + 1).last() == pairs[i]);
}

/// Some row of `s` bears `key`.
pub open spec fn summary_has_key(s: Seq<(TractSummationKey, Summation)>, key: (Seq<char>, ProductType)) -> bool {
    exists|a: int| 0 <= a < s.len() && tract_entry_key(#[trigger] s[a].0) == key
}

proof fn lemma_has_key_push(
    s: Seq<(TractSummationKey, Summation)>,
    e: (TractSummationKey, Summation),
    key: (Seq<char>, ProductType),
)
    requires
        summary_has_key(s, key) || tract_entry_key(e.0) == key,
    ensures
        summary_has_key(s.push(e), key),
{
    if tract_entry_key(e.0) == key {
        assert(tract_entry_key(s.push(e)[s.len() as int].0) == key);
    } else {
        let w = choose|a: int| 0 <= a < s.len() && tract_entry_key(#[trigger] s[a].0) == key;
        assert(tract_entry_key(s.push(e)[w].0) == key);
    }
}

proof fn lemma_has_key_update(
    s: Seq<(TractSummationKey, Summation)>,
    idx: int,
    e: (TractSummationKey, Summation),
    key: (Seq<char>, ProductType),
)
    requires
        0 <= idx < s.len(),
        tract_entry_key(e.0) == tract_entry_key(s[idx].0),
        summary_has_key(s, key),
    ensures
        summary_has_key(s.update(idx, e), key),
{
    let w = choose|a: int| 0 <= a < s.len() && tract_entry_key(#[trigger] s[a].0) == key;
    if w == idx {
        assert(tract_entry_key(s.update(idx, e)[idx].0) == key);
    } else {
        assert(tract_entry_key(s.update(idx, e)[w].0) == key);
    }
}

/// Every row of `s` carries exactly the counts `pairs` induces for its key.
pub open spec fn tract_summary_rows_ok(pairs: Seq<LinkedPair>, catalog: ProductCatalog, s: Seq<(TractSummationKey, Summation)>) -> bool {
    forall|a: int| 0 <= a < s.len() ==> tract_entry_matches(pairs, catalog, #[trigger] s[a])
}

/// No two rows of `s` share a key.
pub open spec fn tract_summary_keys_unique(s: Seq<(TractSummationKey, Summation)>) -> bool {
    forall|a: int, b: int|
        0 <= a < b < s.len() ==> tract_entry_key(s[a].0) != tract_entry_key(s[b].0)
}

/// Every key with a contribution in `pairs` has a row in `s`.
pub open spec fn tract_summary_complete(pairs: Seq<LinkedPair>, catalog: ProductCatalog, s: Seq<(TractSummationKey, Summation)>) -> bool {
    forall|key: (Seq<char>, ProductType)|
        #![trigger spec_tract_total(pairs, catalog, key)]
        spec_tract_total(pairs, catalog, key) > 0 ==> summary_has_key(s, key)
}

/// Folds linked pairs into the per-tract, per-product summary table.
///
/// Each classified pair increments its row's total unconditionally, and
/// the residential count too when its residential/business flag is
/// present and reads as residential; pairs with a missing or unknown
/// plan code are silently skipped. The resulting rows have pairwise distinct keys and
/// carry exactly the counts the input induces, so the table (as a map)
/// does not depend on input order.
pub fn summarize_tracts(linked_records: Vec<LinkedPair>, catalog: &ProductCatalog) -> (summary: Vec<(TractSummationKey, Summation)>)
    requires
        linked_records@.len() <= u16::MAX,
    ensures
        tract_summary_keys_unique(summary@),
        tract_summary_rows_ok(linked_records@, *catalog, summary@),
        tract_summary_complete(linked_records@, *catalog, summary@),
{
    let ghost pairs = linked_records@;
    let n = linked_records.len();
    let mut summary: Vec<(TractSummationKey, Summation)> = Vec::new();
    proof {
        assert(pairs.take(0) =~= Seq::<LinkedPair>::empty());
    }
    for i in 0..n
        invariant
            n == pairs.len(),
            pairs == linked_records@,
            pairs.len() <= u16::MAX,
            tract_summary_keys_unique(summary@),
            tract_summary_rows_ok(pairs.take(i as int), *catalog, summary@),
            tract_summary_complete(pairs.take(i as int), *catalog, summary@),
    {
        let p = &linked_records[i];
        let ghost prev = summary@;
        proof {
            assert(tract_summary_keys_unique(prev));
            assert(tract_summary_rows_ok(pairs.take(i as int), *catalog, prev));
            assert(tract_summary_complete(pairs.take(i as int), *catalog, prev));
        }
        let mut handled = false;
        if let Some(plan) = &p.1.subscription.plan_id {
            if let Some(pt) = catalog.classify(plan.as_str()) {
                handled = true;
                let tract_id = get_tract(p.0.block_geoid.as_str());
                let consumer = match &p.1.customer.cf_residentialbusiness {
                    Some(flag) => is_consumer(flag.as_str()),
                    None => false,
                };
                let ghost key = (tract_id@, pt);
                proof {
                    assert(pair_tract_key(pairs[i as int], *catalog) == Some(key));
                    assert(pair_is_residential(pairs[i as int]) == consumer);
                }
                let mut idx: usize = 0;
                let mut found = false;
                while idx < summary.len() && !found
                    invariant
                        summary@ == prev,
                        0 <= idx <= summary@.len(),
                        forall|k: int| 0 <= k < idx ==> tract_entry_key(summary@[k].0) != key,
                        found ==> idx < summary@.len() && tract_entry_key(
                            summary@[idx as int].0,
                        ) == key,
                        key == (tract_id@, pt),
                    decreases summary@.len() - idx, (if found { 0int } else { 1int }),
                {
                    let e = &summary[idx];
                    if str_eq(e.0.tract_id.as_str(), tract_id.as_str()) && product_type_eq(
                        &e.0.product_type,
                        &pt,
                    ) {
                        found = true;
                    } else {
                        idx = idx + 1;
                    }
                }
                if found {
                    let old_sum = summary[idx].1;
                    proof {
                        lemma_count_matching_le_len(
                            pairs.take(i as int),
                            tract_key_pred(*catalog, key),
                        );
                        lemma_count_matching_le_len(
                            pairs.take(i as int),
                            tract_res_pred(*catalog, key),
                        );
                    }
                    let new_sum = Summation {
                        total: old_sum.total + 1,
                        residential: if consumer {
                            old_sum.residential + 1
                        } else {
                            old_sum.residential
                        },
                    };
                    summary[idx] = (TractSummationKey { tract_id, product_type: pt }, new_sum);
                    proof {
                        let updated = summary@;
                        assert(updated == prev.update(idx as int, updated[idx as int]));
                        assert(tract_entry_key(updated[idx as int].0) == key);
                        assert forall|a: int, b: int| 0 <= a < b < updated.len() implies
                            tract_entry_key(updated[a].0) != tract_entry_key(updated[b].0) by {
                            assert(tract_entry_key(updated[a].0) == tract_entry_key(prev[a].0));
                            assert(tract_entry_key(updated[b].0) == tract_entry_key(prev[b].0));
                        }
                        assert(tract_summary_keys_unique(updated));
                        assert forall|a: int| 0 <= a < updated.len() implies tract_entry_matches(
                            pairs.take(i as int + 1),
                            *catalog,
                            #[trigger] updated[a],
                        ) by {
                            lemma_tract_counts_step(
                                pairs,
                                *catalog,
                                i as int,
                                tract_entry_key(updated[a].0),
                            );
                            if a == idx {
                                assert(tract_entry_matches(pairs.take(i as int), *catalog, prev[idx as int]));
                            } else {
                                assert(updated[a] == prev[a]);
                                assert(tract_entry_matches(pairs.take(i as int), *catalog, prev[a]));
                                assert(tract_entry_key(updated[a].0) != key);
                            }
                        }
                        assert(tract_summary_rows_ok(pairs.take(i as int + 1), *catalog, updated));
                        assert forall|k2: (Seq<char>, ProductType)|
                            #![trigger spec_tract_total(pairs.take(i as int + 1), *catalog, k2)]
                            spec_tract_total(pairs.take(i as int + 1), *catalog, k2) > 0 implies
                            summary_has_key(updated, k2) by {
                            lemma_tract_counts_step(pairs, *catalog, i as int, k2);
                            if k2 == key {
                                assert(tract_entry_key(updated[idx as int].0) == k2);
                            } else {
                                assert(spec_tract_total(pairs.take(i as int), *catalog, k2) > 0);
                                assert(summary_has_key(prev, k2));
                                lemma_has_key_update(
                                    prev,
                                    idx as int,
                                    updated[idx as int],
                                    k2,
                                );
                            }
                        }
                        assert(tract_summary_complete(pairs.take(i as int + 1), *catalog, updated));
                    }
                } else {
                    let entry = (
                        TractSummationKey { tract_id, product_type: pt },
                        Summation {
                            total: 1u16,
                            residential: if consumer {
                                1u16
                            } else {
                                0u16
                            },
                        },
                    );
                    summary.push(entry);
                    proof {
                        let updated = summary@;
                        assert(updated == prev.push(entry));
                        assert(tract_entry_key(updated[prev.len() as int].0) == key);
                        assert(spec_tract_total(pairs.take(i as int), *catalog, key) == 0) by {
                            if spec_tract_total(pairs.take(i as int), *catalog, key) > 0 {
                                assert(summary_has_key(prev, key));
                                let w = choose|a: int|
                                    0 <= a < prev.len() && tract_entry_key(
                                        #[trigger] prev[a].0,
                                    ) == key;
                                assert(false);
                            }
                        }
                        assert(spec_tract_residential(pairs.take(i as int), *catalog, key)
                            == 0) by {
                            lemma_residential_le_total(pairs.take(i as int), *catalog, key);
                        }
                        assert forall|a: int, b: int| 0 <= a < b < updated.len() implies
                            tract_entry_key(updated[a].0) != tract_entry_key(updated[b].0) by {
                            if b < prev.len() {
                                assert(updated[a] == prev[a] && updated[b] == prev[b]);
                            } else {
                                assert(updated[a] == prev[a]);
                                assert(tract_entry_key(updated[b].0) == key);
                            }
                        }
                        assert(tract_summary_keys_unique(updated));
                        assert forall|a: int| 0 <= a < updated.len() implies tract_entry_matches(
                            pairs.take(i as int + 1),
                            *catalog,
                            #[trigger] updated[a],
                        ) by {
                            lemma_tract_counts_step(
                                pairs,
                                *catalog,
                                i as int,
                                tract_entry_key(updated[a].0),
                            );
                            if a < prev.len() {
                                assert(updated[a] == prev[a]);
                                assert(tract_entry_matches(pairs.take(i as int), *catalog, prev[a]));
                                assert(tract_entry_key(updated[a].0) != key);
                            } else {
                                assert(updated[a] == entry);
                            }
                        }
                        assert(tract_summary_rows_ok(pairs.take(i as int + 1), *catalog, updated));
                        assert forall|k2: (Seq<char>, ProductType)|
                            #![trigger spec_tract_total(pairs.take(i as int + 1), *catalog, k2)]
                            spec_tract_total(pairs.take(i as int + 1), *catalog, k2) > 0 implies
                            summary_has_key(updated, k2) by {
                            lemma_tract_counts_step(pairs, *catalog, i as int, k2);
                            if k2 == key {
                                assert(tract_entry_key(updated[prev.len() as int].0) == k2);
                            } else {
                                assert(spec_tract_total(pairs.take(i as int), *catalog, k2) > 0);
                                assert(summary_has_key(prev, k2));
                                lemma_has_key_push(prev, entry, k2);
                            }
                        }
                        assert(tract_summary_complete(pairs.take(i as int + 1), *catalog, updated));
                    }
                }
            }
        }
        if !handled {
            proof {
                assert(pair_tract_key(pairs[i as int], *catalog) is None);
                assert forall|a: int| 0 <= a < prev.len() implies tract_entry_matches(
                    pairs.take(i as int + 1),
                    *catalog,
                    #[trigger] prev[a],
                ) by {
                    lemma_tract_counts_step(
                        pairs,
                        *catalog,
                        i as int,
                        tract_entry_key(prev[a].0),
                    );
                    assert(tract_entry_matches(pairs.take(i as int), *catalog, prev[a]));
                }
                assert(tract_summary_rows_ok(pairs.take(i as int + 1), *catalog, summary@));
                assert forall|k2: (Seq<char>, ProductType)|
                    #![trigger spec_tract_total(pairs.take(i as int + 1), *catalog, k2)]
                    spec_tract_total(pairs.take(i as int + 1), *catalog, k2) > 0 implies
                    summary_has_key(prev, k2) by {
                    lemma_tract_counts_step(pairs, *catalog, i as int, k2);
                }
                assert(tract_summary_complete(pairs.take(i as int + 1), *catalog, summary@));
            }
        }
    }
    proof {
        assert(pairs.take(n as int) =~= pairs);
    }
    summary
}

proof fn lemma_residential_le_total(pairs: Seq<LinkedPair>, catalog: ProductCatalog, key: (Seq<char>, ProductType))
    ensures
        spec_tract_residential(pairs, catalog, key) <= spec_tract_total(pairs, catalog, key),
    decreases pairs.len(),
{
    if pairs.len() > 0 {
        lemma_residential_le_total(pairs.drop_last(), catalog, key);
    }
}


/// Pairs whose plan code classifies (those that contribute to some key).
pub open spec fn classifiable_pred(catalog: ProductCatalog) -> spec_fn(LinkedPair) -> bool {
    |p: LinkedPair| pair_tract_key(p, catalog) is Some
}

/// Sum of the `total` column over a summary table.
pub open spec fn sum_totals(s: Seq<(TractSummationKey, Summation)>) -> int
    decreases s.len(),
{
    if s.len() == 0 {
        0
    } else {
        sum_totals(s.drop_last()) + s.last().1.total
    }
}

/// Sum over the table's row keys of the totals `pairs` induces.
spec fn sum_key_counts(pairs: Seq<LinkedPair>, catalog: ProductCatalog, s: Seq<(TractSummationKey, Summation)>) -> int
    decreases s.len(),
{
    if s.len() == 0 {
        0
    } else {
        sum_key_counts(pairs, catalog, s.drop_last()) + spec_tract_total(
            pairs,
            catalog,
            tract_entry_key(s.last().0),
        )
    }
}

/// The pair's key, when it has one, appears among the table's rows.
spec fn key_in_table(p: LinkedPair, catalog: ProductCatalog, s: Seq<(TractSummationKey, Summation)>) -> bool {
    match pair_tract_key(p, catalog) {
        Some(k) => summary_has_key(s, k),
        None => false,
    }
}

proof fn lemma_sum_totals_eq_key_counts(pairs: Seq<LinkedPair>, catalog: ProductCatalog, s: Seq<(TractSummationKey, Summation)>)
    requires
        tract_summary_rows_ok(pairs, catalog, s),
    ensures
        sum_totals(s) == sum_key_counts(pairs, catalog, s),
    decreases s.len(),
{
    if s.len() > 0 {
        assert forall|a: int| 0 <= a < s.drop_last().len() implies tract_entry_matches(
            pairs,
            catalog,
            #[trigger] s.drop_last()[a],
        ) by {
            assert(s.drop_last()[a] == s[a]);
            assert(tract_entry_matches(pairs, catalog, s[a]));
        }
        lemma_sum_totals_eq_key_counts(pairs, catalog, s.drop_last());
        assert(s.last() == s[s.len() - 1]);
        assert(tract_entry_matches(pairs, catalog, s[s.len() - 1]));
    }
}

proof fn lemma_count_positive_at<A>(pairs: Seq<A>, f: spec_fn(A) -> bool, i: int)
    requires
        0 <= i < pairs.len(),
        f(pairs[i]),
    ensures
        count_matching(pairs, f) > 0,
    decreases pairs.len(),
{
    if i < pairs.len() - 1 {
        assert(pairs.drop_last()[i] == pairs[i]);
        lemma_count_positive_at(pairs.drop_last(), f, i);
    }
}

proof fn lemma_sum_key_counts_step(pairs: Seq<LinkedPair>, catalog: ProductCatalog, s: Seq<(TractSummationKey, Summation)>)
    requires
        pairs.len() > 0,
        tract_summary_keys_unique(s),
    ensures
        sum_key_counts(pairs, catalog, s) == sum_key_counts(pairs.drop_last(), catalog, s) + (
        if key_in_table(pairs.last(), catalog, s) {
            1int
        } else {
            0int
        }),
    decreases s.len(),
{
    if s.len() > 0 {
        let t = s.drop_last();
        let klast = tract_entry_key(s.last().0);
        assert forall|a: int, b: int| 0 <= a < b < t.len() implies tract_entry_key(t[a].0)
            != tract_entry_key(t[b].0) by {
            assert(t[a] == s[a] && t[b] == s[b]);
        }
        lemma_sum_key_counts_step(pairs, catalog, t);
        match pair_tract_key(pairs.last(), catalog) {
            Some(k) => {
                if k == klast {
                    assert(summary_has_key(s, klast)) by {
                        assert(tract_entry_key(s[s.len() - 1].0) == klast);
                    }
                    assert(!summary_has_key(t, klast)) by {
                        if summary_has_key(t, klast) {
                            let w = choose|a: int|
                                0 <= a < t.len() && tract_entry_key(#[trigger] t[a].0) == klast;
                            assert(t[w] == s[w]);
                            assert(tract_entry_key(s[w].0) == tract_entry_key(s[s.len() - 1].0));
                            assert(false);
                        }
                    }
                } else {
                    assert(summary_has_key(s, k) == summary_has_key(t, k)) by {
                        if summary_has_key(t, k) {
                            let w = choose|a: int|
                                0 <= a < t.len() && tract_entry_key(#[trigger] t[a].0) == k;
                            assert(tract_entry_key(s[w].0) == k);
                        }
                        if summary_has_key(s, k) {
                            let w = choose|a: int|
                                0 <= a < s.len() && tract_entry_key(#[trigger] s[a].0) == k;
                            if w < t.len() {
                                assert(tract_entry_key(t[w].0) == k);
                            } else {
                                assert(tract_entry_key(s[w].0) == klast);
                                assert(false);
                            }
                        }
                    }
                }
            },
            None => {},
        }
    }
}

proof fn lemma_key_counts_eq_classifiable(pairs: Seq<LinkedPair>, catalog: ProductCatalog, s: Seq<(TractSummationKey, Summation)>)
    requires
        tract_summary_keys_unique(s),
        forall|i: int|
            0 <= i < pairs.len() ==> key_in_table(#[trigger] pairs[i], catalog, s) == (
            pair_tract_key(pairs[i], catalog) is Some),
    ensures
        sum_key_counts(pairs, catalog, s) == count_matching(pairs, classifiable_pred(catalog)),
    decreases pairs.len(),
{
    if pairs.len() == 0 {
        lemma_sum_key_counts_zero(pairs, catalog, s);
    } else {
        let dl = pairs.drop_last();
        assert forall|i: int| 0 <= i < dl.len() implies key_in_table(
            #[trigger] dl[i],
            catalog,
            s,
        ) == (pair_tract_key(dl[i], catalog) is Some) by {
            assert(dl[i] == pairs[i]);
            assert(key_in_table(pairs[i], catalog, s) == (pair_tract_key(pairs[i], catalog)
                is Some));
        }
        lemma_key_counts_eq_classifiable(dl, catalog, s);
        lemma_sum_key_counts_step(pairs, catalog, s);
        assert(key_in_table(pairs[pairs.len() - 1], catalog, s) == (pair_tract_key(
            pairs[pairs.len() - 1],
            catalog,
        ) is Some));
        assert(pairs.last() == pairs[pairs.len() - 1]);
    }
}

proof fn lemma_sum_key_counts_zero(pairs: Seq<LinkedPair>, catalog: ProductCatalog, s: Seq<(TractSummationKey, Summation)>)
    requires
        pairs.len() == 0,
    ensures
        sum_key_counts(pairs, catalog, s) == 0,
    decreases s.len(),
{
    if s.len() > 0 {
        lemma_sum_key_counts_zero(pairs, catalog, s.drop_last());
    }
}

/// Law: every classifiable pair is counted exactly once — in any table
/// meeting summarize_tracts' contract, the totals sum to the number of
/// pairs whose plan code classifies, whether or not their
/// residential/business flag is present.
pub proof fn lemma_tract_totals_count_classifiable(pairs: Seq<LinkedPair>, catalog: ProductCatalog, s: Seq<(TractSummationKey, Summation)>)
    requires
        tract_summary_keys_unique(s),
        tract_summary_rows_ok(pairs, catalog, s),
        tract_summary_complete(pairs, catalog, s),
    ensures
        sum_totals(s) == count_matching(pairs, classifiable_pred(catalog)),
{
    lemma_sum_totals_eq_key_counts(pairs, catalog, s);
    assert forall|i: int| 0 <= i < pairs.len() implies key_in_table(
        #[trigger] pairs[i],
        catalog,
        s,
    ) == (pair_tract_key(pairs[i], catalog) is Some) by {
        match pair_tract_key(pairs[i], catalog) {
            Some(k) => {
                lemma_count_positive_at(pairs, tract_key_pred(catalog, k), i);
                assert(spec_tract_total(pairs, catalog, k) > 0);
                assert(summary_has_key(s, k));
            },
            None => {},
        }
    }
    lemma_key_counts_eq_classifiable(pairs, catalog, s);
}

/// Law: tract derivation is idempotent — reapplying it to any derived
/// tract id returns the same string.
pub proof fn lemma_get_tract_idempotent(s: Seq<char>)
    ensures
        spec_get_tract(spec_get_tract(s)) == spec_get_tract(s),
{
    let stripped = strip_geoid_noise(s);
    let t = spec_get_tract(s);
    lemma_strip_noise_clean(s);
    assert forall|k: int| 0 <= k < t.len() implies !is_geoid_noise(t[k]) by {
        if stripped.len() > 11 {
            assert(t[k] == stripped[k]);
        }
    }
    lemma_strip_noise_identity(t);
}

proof fn lemma_strip_noise_clean(s: Seq<char>)
    ensures
        forall|k: int|
            0 <= k < strip_geoid_noise(s).len() ==> !is_geoid_noise(strip_geoid_noise(s)[k]),
    decreases s.len(),
{
    if s.len() > 0 {
        lemma_strip_noise_clean(s.drop_last());
        let t = strip_geoid_noise(s.drop_last());
        assert forall|k: int| 0 <= k < strip_geoid_noise(s).len() implies !is_geoid_noise(
            strip_geoid_noise(s)[k],
        ) by {
            if !is_geoid_noise(s.last()) {
                assert(strip_geoid_noise(s) == t.push(s.last()));
                if k < t.len() {
                    assert(strip_geoid_noise(s)[k] == t[k]);
                } else {
                    assert(strip_geoid_noise(s)[k] == s.last());
                }
            }
        }
    }
}

proof fn lemma_strip_noise_identity(s: Seq<char>)
    requires
        forall|k: int| 0 <= k < s.len() ==> !is_geoid_noise(s[k]),
    ensures
        strip_geoid_noise(s) == s,
    decreases s.len(),
{
    if s.len() > 0 {
        assert forall|k: int| 0 <= k < s.drop_last().len() implies !is_geoid_noise(
            s.drop_last()[k],
        ) by {
            assert(s.drop_last()[k] == s[k]);
        }
        lemma_strip_noise_identity(s.drop_last());
        assert(!is_geoid_noise(s.last()));
        assert(s.drop_last().push(s.last()) =~= s);
    }
}

/// Law: tract aggregation is order independent — inputs that are
/// permutations of one another induce identical counts for every key, so
/// the summary tables they produce are equal as maps.
pub proof fn lemma_tract_summary_permutation(
    p1: Seq<LinkedPair>,
    p2: Seq<LinkedPair>,
    catalog: ProductCatalog,
    key: (Seq<char>, ProductType),
)
    requires
        p1.to_multiset() == p2.to_multiset(),
    ensures
        spec_tract_total(p1, catalog, key) == spec_tract_total(p2, catalog, key),
        spec_tract_residential(p1, catalog, key) == spec_tract_residential(p2, catalog, key),
{
    lemma_count_matching_multiset(p1, tract_key_pred(catalog, key));
    lemma_count_matching_multiset(p2, tract_key_pred(catalog, key));
    lemma_count_matching_multiset(p1, tract_res_pred(catalog, key));
    lemma_count_matching_multiset(p2, tract_res_pred(catalog, key));
}

} // verus!
