//! The statistics projector: reduces the tract summary table into the
//! broadband and voice rollups reported to the caller.

use vstd::prelude::*;

use crate::products::{medium_of, spec_medium_of, ProductType, ServiceMedium};
use crate::tracts::{Summation, TractSummationKey};

verus! {

/// One tract summary row, as the statistics fold consumes it.
pub type StatisticData = (TractSummationKey, Summation);

/// The broadband rollup: total and residential-consumer connections, with
/// per-medium subtotals.
#[derive(Clone, Copy, PartialEq, Eq, Debug)]
pub struct BroadbandStatistic {
    pub broadband_total: i32,
    pub broadband_consumer: i32,
    pub fttp: i32,
    pub fw: i32,
    pub copper: i32,
}

impl Default for BroadbandStatistic {
    fn default() -> (r: Self)
        ensures
            r == (BroadbandStatistic {
                broadband_total: 0,
                broadband_consumer: 0,
                fttp: 0,
                fw: 0,
                copper: 0,
            }),
    {
        BroadbandStatistic { broadband_total: 0, broadband_consumer: 0, fttp: 0, fw: 0, copper: 0 }
    }
}

/// The voice rollup: total and residential-consumer lines.
#[derive(Clone, Copy, PartialEq, Eq, Debug)]
pub struct VoipStatistic {
    pub voip_total: i32,
    pub voip_consumer: i32,
}

impl Default for VoipStatistic {
    fn default() -> (r: Self)
        ensures
            r == (VoipStatistic { voip_total: 0, voip_consumer: 0 }),
    {
        VoipStatistic { voip_total: 0, voip_consumer: 0 }
    }
}

/// The medium subtotal one row contributes: its total when its product is
/// an internet product on the given medium, zero otherwise.
pub open spec fn spec_medium_subtotal(key: TractSummationKey, s: Summation, m: ServiceMedium) -> i32 {
    match key.product_type {
        ProductType::Internet(p) => if spec_medium_of(p.technology_code) == m {
            s.total as i32
        } else {
            0
        },
        _ => 0,
    }
}

/// The broadband contribution of one tract summary row.
pub open spec fn spec_broadband_entry(key: TractSummationKey, s: Summation) -> BroadbandStatistic {
    BroadbandStatistic {
        broadband_total: if key.product_type is Internet {
            s.total as i32
        } else {
            0
        },
        broadband_consumer: if key.product_type is Internet {
            s.residential as i32
        } else {
            0
        },
        fttp: spec_medium_subtotal(key, s, ServiceMedium::Fiber),
        fw: spec_medium_subtotal(key, s, ServiceMedium::Wireless),
        copper: spec_medium_subtotal(key, s, ServiceMedium::Copper),
    }
}

/// The voice contribution of one tract summary row.
pub open spec fn spec_voip_entry(key: TractSummationKey, s: Summation) -> VoipStatistic {
    VoipStatistic {
        voip_total: if key.product_type is Voip {
            s.total as i32
        } else {
            0
        },
        voip_consumer: if key.product_type is Voip {
            s.residential as i32
        } else {
            0
        },
    }
}

/// Componentwise sums of the broadband contributions of `entries`.
pub open spec fn spec_broadband_fold(entries: Seq<StatisticData>) -> (int, int, int, int, int)
    decreases entries.len(),
{
    if entries.len() == 0 {
        (0, 0, 0, 0, 0)
    } else {
        let rest = spec_broadband_fold(entries.drop_last());
        let e = spec_broadband_entry(entries.last().0, entries.last().1);
        (
            rest.0 + e.broadband_total,
            rest.1 + e.broadband_consumer,
            rest.2 + e.fttp,
            rest.3 + e.fw,
            rest.4 + e.copper,
        )
    }
}

/// Componentwise sums of the voice contributions of `entries`.
pub open spec fn spec_voip_fold(entries: Seq<StatisticData>) -> (int, int)
    decreases entries.len(),
{
    if entries.len() == 0 {
        (0, 0)
    } else {
        let rest = spec_voip_fold(entries.drop_last());
        let e = spec_voip_entry(entries.last().0, entries.last().1);
        (rest.0 + e.voip_total, rest.1 + e.voip_consumer)
    }
}

proof fn lemma_broadband_fold_bounds(entries: Seq<StatisticData>)
    ensures
        0 <= spec_broadband_fold(entries).0 <= entries.len() * 65535,
        0 <= spec_broadband_fold(entries).1 <= entries.len() * 65535,
        0 <= spec_broadband_fold(entries).2 <= entries.len() * 65535,
        0 <= spec_broadband_fold(entries).3 <= entries.len() * 65535,
        0 <= spec_broadband_fold(entries).4 <= entries.len() * 65535,
    decreases entries.len(),
{
    if entries.len() > 0 {
        lemma_broadband_fold_bounds(entries.drop_last());
    }
}

proof fn lemma_voip_fold_bounds(entries: Seq<StatisticData>)
    ensures
        0 <= spec_voip_fold(entries).0 <= entries.len() * 65535,
        0 <= spec_voip_fold(entries).1 <= entries.len() * 65535,
    decreases entries.len(),
{
    if entries.len() > 0 {
        lemma_voip_fold_bounds(entries.drop_last());
    }
}

/// Law: both rollups are associative, incremental folds — the statistics
/// of two batches of rows concatenated are the componentwise sums of the
/// statistics of each batch.
pub proof fn lemma_statistics_fold_append(s1: Seq<StatisticData>, s2: Seq<StatisticData>)
    ensures
        spec_broadband_fold(s1 + s2).0 == spec_broadband_fold(s1).0 + spec_broadband_fold(s2).0,
        spec_broadband_fold(s1 + s2).1 == spec_broadband_fold(s1).1 + spec_broadband_fold(s2).1,
        spec_broadband_fold(s1 + s2).2 == spec_broadband_fold(s1).2 + spec_broadband_fold(s2).2,
        spec_broadband_fold(s1 + s2).3 == spec_broadband_fold(s1).3 + spec_broadband_fold(s2).3,
        spec_broadband_fold(s1 + s2).4 == spec_broadband_fold(s1).4 + spec_broadband_fold(s2).4,
        spec_voip_fold(s1 + s2).0 == spec_voip_fold(s1).0 + spec_voip_fold(s2).0,
        spec_voip_fold(s1 + s2).1 == spec_voip_fold(s1).1 + spec_voip_fold(s2).1,
    decreases s2.len(),
{
    if s2.len() == 0 {
        assert(s1 + s2 =~= s1);
    } else {
        assert((s1 + s2).drop_last() =~= s1 + s2.drop_last());
        assert((s1 + s2).last() == s2.last());
        lemma_statistics_fold_append(s1, s2.drop_last());
    }
}

impl BroadbandStatistic {
    /// The contribution of one tract summary row.
    pub fn from_entry(key: &TractSummationKey, summation: &Summation) -> (r: BroadbandStatistic)
        ensures
            r == spec_broadband_entry(*key, *summation),
    {
        match &key.product_type {
            ProductType::Internet(p) => {
                let medium = medium_of(p.technology_code);
                let total = summation.total as i32;
                let (fttp, fw, copper) = match medium {
                    ServiceMedium::Fiber => (total, 0i32, 0i32),
                    ServiceMedium::Wireless => (0i32, total, 0i32),
                    ServiceMedium::Copper => (0i32, 0i32, total),
                    ServiceMedium::Other => (0i32, 0i32, 0i32),
                };
                BroadbandStatistic {
                    broadband_total: total,
                    broadband_consumer: summation.residential as i32,
                    fttp,
                    fw,
                    copper,
                }
            },
            _ => BroadbandStatistic {
                broadband_total: 0,
                broadband_consumer: 0,
                fttp: 0,
                fw: 0,
                copper: 0,
            },
        }
    }

    /// Componentwise sum of two rollups.
    pub fn add(self, other: Self) -> (r: Self)
        requires
            i32::MIN <= self.broadband_total + other.broadband_total <= i32::MAX,
            i32::MIN <= self.broadband_consumer + other.broadband_consumer <= i32::MAX,
            i32::MIN <= self.fttp + other.fttp <= i32::MAX,
            i32::MIN <= self.fw + other.fw <= i32::MAX,
            i32::MIN <= self.copper + other.copper <= i32::MAX,
        ensures
            r.broadband_total == self.broadband_total + other.broadband_total,
            r.broadband_consumer == self.broadband_consumer + other.broadband_consumer,
            r.fttp == self.fttp + other.fttp,
            r.fw == self.fw + other.fw,
            r.copper == self.copper + other.copper,
    {
        BroadbandStatistic {
            broadband_total: self.broadband_total + other.broadband_total,
            broadband_consumer: self.broadband_consumer + other.broadband_consumer,
            fttp: self.fttp + other.fttp,
            fw: self.fw + other.fw,
            copper: self.copper + other.copper,
        }
    }
}

impl VoipStatistic {
    /// The contribution of one tract summary row.
    pub fn from_entry(key: &TractSummationKey, summation: &Summation) -> (r: VoipStatistic)
        ensures
            r == spec_voip_entry(*key, *summation),
    {
        match &key.product_type {
            ProductType::Voip => VoipStatistic {
                voip_total: summation.total as i32,
                voip_consumer: summation.residential as i32,
            },
            _ => VoipStatistic { voip_total: 0, voip_consumer: 0 },
        }
    }

    /// Componentwise sum of two rollups.
    pub fn add(self, other: Self) -> (r: Self)
        requires
            i32::MIN <= self.voip_total + other.voip_total <= i32::MAX,
            i32::MIN <= self.voip_consumer + other.voip_consumer <= i32::MAX,
        ensures
            r.voip_total == self.voip_total + other.voip_total,
            r.voip_consumer == self.voip_consumer + other.voip_consumer,
    {
        VoipStatistic {
            voip_total: self.voip_total + other.voip_total,
            voip_consumer: self.voip_consumer + other.voip_consumer,
        }
    }
}

/// Reduces a tract summary table to the broadband rollup in one pass.
pub fn broadband_statistics(entries: &Vec<StatisticData>) -> (r: BroadbandStatistic)
    requires
        entries@.len() <= 32767,
    ensures
        r.broadband_total == spec_broadband_fold(entries@).0,
        r.broadband_consumer == spec_broadband_fold(entries@).1,
        r.fttp == spec_broadband_fold(entries@).2,
        r.fw == spec_broadband_fold(entries@).3,
        r.copper == spec_broadband_fold(entries@).4,
{
    let n = entries.len();
    let mut acc = BroadbandStatistic::default();
    proof {
        assert(entries@.take(0) =~= Seq::<StatisticData>::empty());
    }
    for i in 0..n
        invariant
            n == entries@.len(),
            n <= 32767,
            acc.broadband_total == spec_broadband_fold(entries@.take(i as int)).0,
            acc.broadband_consumer == spec_broadband_fold(entries@.take(i as int)).1,
            acc.fttp == spec_broadband_fold(entries@.take(i as int)).2,
            acc.fw == spec_broadband_fold(entries@.take(i as int)).3,
            acc.copper == spec_broadband_fold(entries@.take(i as int)).4,
    {
        let e = BroadbandStatistic::from_entry(&entries[i].0, &entries[i].1);
        proof {
            assert(entries@.take(i as int + 1).drop_last() =~= entries@.take(i as int));
            assert(entries@.take(i as int + 1).last() == entries@[i as int]);
            lemma_broadband_fold_bounds(entries@.take(i as int));
        }
        acc = acc.add(e);
    }
    proof {
        assert(entries@.take(n as int) =~= entries@);
    }
    acc
}

/// Reduces a tract summary table to the voice rollup in one pass.
pub fn voice_statistics(entries: &Vec<StatisticData>) -> (r: VoipStatistic)
    requires
        entries@.len() <= 32767,
    ensures
        r.voip_total == spec_voip_fold(entries@).0,
        r.voip_consumer == spec_voip_fold(entries@).1,
{
    let n = entries.len();
    let mut acc = VoipStatistic::default();
    proof {
        assert(entries@.take(0) =~= Seq::<StatisticData>::empty());
    }
    for i in 0..n
        invariant
            n == entries@.len(),
            n <= 32767,
            acc.voip_total == spec_voip_fold(entries@.take(i as int)).0,
            acc.voip_consumer == spec_voip_fold(entries@.take(i as int)).1,
    {
        let e = VoipStatistic::from_entry(&entries[i].0, &entries[i].1);
        proof {
            assert(entries@.take(i as int + 1).drop_last() =~= entries@.take(i as int));
            assert(entries@.take(i as int + 1).last() == entries@[i as int]);
            lemma_voip_fold_bounds(entries@.take(i as int));
        }
        acc = acc.add(e);
    }
    proof {
        assert(entries@.take(n as int) =~= entries@);
    }
    acc
}

} // verus!
