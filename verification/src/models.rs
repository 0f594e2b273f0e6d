//! The provider-agnostic data model: query, time period, emission record,
//! metadata, and the exact fixed-point quantities they carry.
//!
//! All types here are immutable value records: they are built once per
//! query/response cycle, carry no validation logic of their own (validity
//! rules are provider-specific and live in each adapter), and are owned
//! exclusively by the call stack that produced them.

use crate::providers::config::ProviderQueryConfig;
use vstd::prelude::*;

verus! {

/// A measurement held exactly as an integer count of thousandths of its unit
/// (for example grams with milligram precision).
#[derive(Debug, Clone, Copy, PartialEq, Eq, Structural)]
pub struct MilliQuantity {
    pub thousandths: u64,
}

/// A measurement held exactly as an integer count of millionths of its unit
/// (for example kilograms with milligram precision).
#[derive(Debug, Clone, Copy, PartialEq, Eq, Structural)]
pub struct MicroQuantity {
    pub millionths: u64,
}

impl MilliQuantity {
    /// The measured value, scaled to millionths of the unit.
    pub open spec fn spec_millionths(self) -> int {
        self.thousandths * 1000
    }

    /// Rescale a count of thousandths of one unit into a count of millionths
    /// of a unit one thousand times larger.  The measured value is divided by
    /// exactly 1000: a reading of n grams becomes a reading of n/1000
    /// kilograms, with nothing rounded away.
    pub fn divided_by_thousand(self) -> (r: MicroQuantity)
        ensures
            r.millionths == self.thousandths,
    {
        MicroQuantity { millionths: self.thousandths }
    }
}

impl MicroQuantity {
    /// The measured value, scaled to millionths of the unit.
    pub open spec fn spec_millionths(self) -> int {
        self.millionths as int
    }
}

/// Dividing by one thousand is exact and linear.  Whenever a rescaled
/// quantity `r` came out of `divided_by_thousand` applied to `q` (that is,
/// `r.millionths == q.thousandths`), the value of `r` is the value of `q`
/// divided by exactly 1000, and the rescaling of a sum is the sum of the
/// rescalings.
pub proof fn lemma_divided_by_thousand_exact(q: MilliQuantity, r: MicroQuantity)
    requires
        r.millionths == q.thousandths,
    ensures
        1000 * r.spec_millionths() == q.spec_millionths(),
{
}

/// Linearity of the rescaling: summing two readings and then rescaling gives
/// the same count as rescaling each and summing.
pub proof fn lemma_divided_by_thousand_linear(
    a: MilliQuantity,
    b: MilliQuantity,
    sum: MilliQuantity,
    ra: MicroQuantity,
    rb: MicroQuantity,
    rsum: MicroQuantity,
)
    requires
        sum.thousandths == a.thousandths + b.thousandths,
        ra.millionths == a.thousandths,
        rb.millionths == b.thousandths,
        rsum.millionths == sum.thousandths,
    ensures
        rsum.spec_millionths() == ra.spec_millionths() + rb.spec_millionths(),
{
}

/// A timezone-aware instant, held as its civil date and time in UTC.
#[derive(Debug, Clone, Copy, PartialEq, Eq, Structural)]
pub struct UtcDateTime {
    pub year: u16,
    pub month: u8,
    pub day: u8,
    pub hour: u8,
    pub minute: u8,
    pub second: u8,
}

impl UtcDateTime {
    /// A well-formed civil instant: a real calendar date (leap years
    /// included) and a real time of day.  Years are kept to at most four
    /// digits, which is what the providers' date formats carry.
    pub open spec fn is_valid(self) -> bool {
        &&& self.year <= 9999
        &&& 1 <= self.month <= 12
        &&& 1 <= self.day <= crate::calendar::spec_days_in_month(
            self.year as int,
            self.month as int,
        )
        &&& self.hour <= 23
        &&& self.minute <= 59
        &&& self.second <= 59
    }
}

/// An inclusive time range.  `start <= end` is deliberately not an invariant
/// of the type: adapters must treat an inverted range as yielding no results
/// rather than reject or crash.
#[derive(Debug, Clone, Copy, PartialEq, Eq, Structural)]
pub struct TimePeriod {
    pub start: UtcDateTime,
    pub end: UtcDateTime,
}

/// The provider-agnostic query.  `provider` selects the adapter;
/// `provider_config` carries per-query filter parameters specific to that
/// adapter, distinct from the credentials the adapter was constructed with.
#[derive(Debug, Clone)]
pub struct EmissionQuery {
    pub provider: String,
    pub regions: Vec<String>,
    pub services: Option<Vec<String>>,
    pub resources: Option<Vec<String>>,
    pub time_period: TimePeriod,
    pub provider_config: Option<ProviderQueryConfig>,
}

/// Provider-native fields that do not map cleanly onto the unified schema,
/// preserved losslessly as ordered key/value pairs and never interpreted by
/// the facade.
#[derive(Debug, Clone)]
pub struct ProviderData {
    pub entries: Vec<(String, String)>,
}

impl ProviderData {
    /// The value stored under `key`, if any: the first entry with that key.
    pub open spec fn spec_get(self, key: Seq<char>) -> Option<Seq<char>> {
        Self::spec_lookup(self.entries.deep_view(), key)
    }

    /// First-match lookup in a sequence of key/value pairs.
    pub open spec fn spec_lookup(
        entries: Seq<(Seq<char>, Seq<char>)>,
        key: Seq<char>,
    ) -> Option<Seq<char>>
        decreases entries.len(),
    {
        if entries.len() == 0 {
            None
        } else if entries[0].0 == key {
            Some(entries[0].1)
        } else {
            Self::spec_lookup(entries.drop_first(), key)
        }
    }

    /// Look a key up, returning the first value stored under it.
    pub fn get(&self, key: &str) -> (r: Option<&String>)
        ensures
            match r {
                Some(v) => self.spec_get(key@) == Some(v@),
                None => self.spec_get(key@) is None,
            },
    {
        let n = self.entries.len();
        let mut i: usize = 0;
        proof {
            assert(self.entries.deep_view().skip(0) =~= self.entries.deep_view());
        }
        while i < n
            invariant
                i <= n,
                n == self.entries.len(),
                Self::spec_lookup(self.entries.deep_view().skip(i as int), key@)
                    == Self::spec_lookup(self.entries.deep_view(), key@),
            decreases n - i,
        {
            assert(self.entries.deep_view().skip(i as int)[0] == self.entries[i as int].deep_view());
            if crate::text::str_equal(self.entries[i].0.as_str(), key) {
                return Some(&self.entries[i].1);
            }
            assert(self.entries.deep_view().skip(i as int).drop_first()
                =~= self.entries.deep_view().skip(i as int + 1));
            i = i + 1;
        }
        assert(self.entries.deep_view().skip(n as int) =~= Seq::empty());
        None
    }
}

/// Optional enrichment attached to a normalized record.
#[derive(Debug, Clone)]
pub struct EmissionMetadata {
    pub energy_kwh: Option<MicroQuantity>,
    pub grid_carbon_intensity: Option<MicroQuantity>,
    pub renewable_percentage: Option<MicroQuantity>,
    pub provider_data: Option<ProviderData>,
}

/// The normalized output record.  `emissions_kg_co2eq` is always kilograms
/// of CO2 equivalent, whatever the provider's native unit: unit
/// normalization is mandatory at the adapter boundary, never deferred to the
/// caller.
#[derive(Debug, Clone)]
pub struct CarbonEmission {
    pub provider: String,
    pub region: String,
    pub service: Option<String>,
    pub emissions_kg_co2eq: MicroQuantity,
    pub time_period: TimePeriod,
    pub metadata: Option<EmissionMetadata>,
}

} // verus!
