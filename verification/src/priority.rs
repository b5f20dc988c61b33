//! Priority levels and the multipliers that scale a base fee rate by urgency.
use vstd::prelude::*;

verus! {

/// How urgently an operation is to be processed; a higher level pays a larger
/// multiplier on the base fee rate.
#[derive(Clone, Copy, Debug, PartialEq, Eq, Structural, PartialOrd, Ord, Hash)]
pub enum PriorityLevel {
    Low,
    Medium,
    High,
    Urgent,
}

impl PriorityLevel {
    /// The numeric code of a level: Low 0, Medium 1, High 2, Urgent 3.
    pub open spec fn code(self) -> u32 {
        match self {
            PriorityLevel::Low => 0,
            PriorityLevel::Medium => 1,
            PriorityLevel::High => 2,
            PriorityLevel::Urgent => 3,
        }
    }

    /// Decodes a numeric code; codes above 3 name no level.
    pub fn from_u32(value: u32) -> (r: Option<PriorityLevel>)
        ensures
            r is None <==> value > 3,
            r matches Some(p) ==> p.code() == value,
    {
        match value {
            0 => Some(PriorityLevel::Low),
            1 => Some(PriorityLevel::Medium),
            2 => Some(PriorityLevel::High),
            3 => Some(PriorityLevel::Urgent),
            _ => None,
        }
    }

    /// Encodes a level as its numeric code.
    pub fn to_u32(&self) -> (r: u32)
        ensures
            r == self.code(),
    {
        match self {
            PriorityLevel::Low => 0,
            PriorityLevel::Medium => 1,
            PriorityLevel::High => 2,
            PriorityLevel::Urgent => 3,
        }
    }
}

impl Default for PriorityLevel {
    /// Medium is the level used when none is given.
    fn default() -> (r: Self)
        ensures
            r == PriorityLevel::Medium,
    {
        PriorityLevel::Medium
    }
}

/// Decoding a level's code gives the level back, and a code that decodes
/// to a level is that level's code.
pub proof fn lemma_priority_code_round_trip(p: PriorityLevel, value: u32)
    ensures
        p.code() <= 3,
        value <= 3 ==> exists|q: PriorityLevel| q.code() == value,
        forall|q: PriorityLevel| #[trigger] q.code() == p.code() ==> q == p,
{
    if value <= 3 {
        if value == 0 {
            assert(PriorityLevel::Low.code() == value);
        } else if value == 1 {
            assert(PriorityLevel::Medium.code() == value);
        } else if value == 2 {
            assert(PriorityLevel::High.code() == value);
        } else {
            assert(PriorityLevel::Urgent.code() == value);
        }
    }
}

/// Fee multipliers per priority level, in basis points of the base rate
/// (10_000 leaves the rate unchanged).
#[derive(Clone, Copy, Debug, PartialEq, Eq, Structural)]
pub struct PriorityFeeConfig {
    pub low_multiplier_bps: u32,
    pub medium_multiplier_bps: u32,
    pub high_multiplier_bps: u32,
    pub urgent_multiplier_bps: u32,
}

impl PriorityFeeConfig {
    /// The multiplier that applies to a level.
    pub open spec fn multiplier(self, priority: PriorityLevel) -> u32 {
        match priority {
            PriorityLevel::Low => self.low_multiplier_bps,
            PriorityLevel::Medium => self.medium_multiplier_bps,
            PriorityLevel::High => self.high_multiplier_bps,
            PriorityLevel::Urgent => self.urgent_multiplier_bps,
        }
    }

    /// A configuration is valid when its multipliers never decrease from
    /// Low to Urgent (equal neighbours are allowed).
    pub open spec fn is_ascending(self) -> bool {
        &&& self.low_multiplier_bps <= self.medium_multiplier_bps
        &&& self.medium_multiplier_bps <= self.high_multiplier_bps
        &&& self.high_multiplier_bps <= self.urgent_multiplier_bps
    }

    /// The configuration used until an administrator sets another:
    /// 0.8x, 1.0x, 1.5x and 2.0x.
    pub open spec fn standard() -> PriorityFeeConfig {
        PriorityFeeConfig {
            low_multiplier_bps: 8000,
            medium_multiplier_bps: 10000,
            high_multiplier_bps: 15000,
            urgent_multiplier_bps: 20000,
        }
    }

    pub fn is_valid(&self) -> (r: bool)
        ensures
            r == self.is_ascending(),
    {
        self.low_multiplier_bps <= self.medium_multiplier_bps
            && self.medium_multiplier_bps <= self.high_multiplier_bps
            && self.high_multiplier_bps <= self.urgent_multiplier_bps
    }

    pub fn get_multiplier_bps(&self, priority: PriorityLevel) -> (r: u32)
        ensures
            r == self.multiplier(priority),
    {
        match priority {
            PriorityLevel::Low => self.low_multiplier_bps,
            PriorityLevel::Medium => self.medium_multiplier_bps,
            PriorityLevel::High => self.high_multiplier_bps,
            PriorityLevel::Urgent => self.urgent_multiplier_bps,
        }
    }
}

impl Default for PriorityFeeConfig {
    fn default() -> (r: Self)
        ensures
            r == PriorityFeeConfig::standard(),
    {
        PriorityFeeConfig {
            low_multiplier_bps: 8000,
            medium_multiplier_bps: 10000,
            high_multiplier_bps: 15000,
            urgent_multiplier_bps: 20000,
        }
    }
}

/// In a valid configuration a higher priority never gets a smaller multiplier.
pub proof fn lemma_multiplier_monotone(config: PriorityFeeConfig, p: PriorityLevel, q: PriorityLevel)
    requires
        config.is_ascending(),
        p.code() <= q.code(),
    ensures
        config.multiplier(p) <= config.multiplier(q),
{
}

/// The standard configuration is valid, and strictly increasing.
pub proof fn lemma_standard_config_valid()
    ensures
        PriorityFeeConfig::standard().is_ascending(),
        forall|p: PriorityLevel, q: PriorityLevel|
            p.code() < q.code() ==> #[trigger] PriorityFeeConfig::standard().multiplier(p)
                < #[trigger] PriorityFeeConfig::standard().multiplier(q),
{
}

} // verus!
