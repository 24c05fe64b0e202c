//! The pause between two automatically mined blocks.

use vstd::prelude::*;
use rand::Rng;

verus! {

/// How long the miner waits before it mines the next block on its own.
#[derive(Clone, Copy, Debug, PartialEq, Eq)]
pub enum IntervalConfig {
    /// Always the same pause.
    Fixed(u64),
    /// A fresh pause for every block, anywhere from `min` to `max`, both
    /// included.
    Range { min: u64, max: u64 },
}

/// A range whose lower bound lies above its upper bound.
#[derive(Clone, Copy, Debug, PartialEq, Eq)]
pub struct InvalidRange {
    pub min: u64,
    pub max: u64,
}

impl IntervalConfig {
    /// A fixed pause is always valid; a range is valid when it is not empty.
    pub open spec fn is_valid(&self) -> bool {
        match *self {
            IntervalConfig::Fixed(_) => true,
            IntervalConfig::Range { min, max } => min <= max,
        }
    }

    /// Whether `interval` is a pause that this configuration can produce.
    pub open spec fn admits(&self, interval: u64) -> bool {
        match *self {
            IntervalConfig::Fixed(fixed) => interval == fixed,
            IntervalConfig::Range { min, max } => min <= interval <= max,
        }
    }

    /// Builds a range, or says why the bounds cannot form one.
    pub fn range(min: u64, max: u64) -> (built: Result<IntervalConfig, InvalidRange>)
        ensures
            min <= max ==> built == Ok::<IntervalConfig, InvalidRange>(
                IntervalConfig::Range { min, max },
            ),
            min > max ==> built == Err::<IntervalConfig, InvalidRange>(InvalidRange { min, max }),
    {
        if min <= max {
            Ok(IntervalConfig::Range { min, max })
        } else {
            Err(InvalidRange { min, max })
        }
    }

    /// Checks a configuration that was built some other way. The error holds
    /// the offending bounds.
    pub fn validate(&self) -> (checked: Result<(), InvalidRange>)
        ensures
            self.is_valid() <==> checked is Ok,
            checked matches Err(refused) ==> *self == (IntervalConfig::Range {
                min: refused.min,
                max: refused.max,
            }),
    {
        match self {
            IntervalConfig::Fixed(_) => Ok(()),
            IntervalConfig::Range { min, max } => {
                if *min <= *max {
                    Ok(())
                } else {
                    Err(InvalidRange { min: *min, max: *max })
                }
            },
        }
    }

    /// Picks the next pause. A fixed configuration gives its value and draws
    /// nothing; a range draws a fresh value on every call.
    ///
    /// An empty range has no value to give and is left out here: build
    /// ranges with [`IntervalConfig::range`], check others with
    /// [`IntervalConfig::validate`], or call
    /// [`IntervalConfig::try_generate_interval`].
    pub fn generate_interval(&self) -> (interval: u64)
        requires
            self.is_valid(),
        ensures
            self.admits(interval),
    {
        match self {
            IntervalConfig::Fixed(interval) => *interval,
            IntervalConfig::Range { min, max } => sample_inclusive(*min, *max),
        }
    }

    /// Picks the next pause of any configuration: as
    /// [`IntervalConfig::generate_interval`] does where the configuration is
    /// valid, and otherwise the bounds that make it invalid, with nothing
    /// drawn.
    pub fn try_generate_interval(&self) -> (picked: Result<u64, InvalidRange>)
        ensures
            self.is_valid() <==> picked is Ok,
            picked matches Ok(interval) ==> self.admits(interval),
            picked matches Err(refused) ==> *self == (IntervalConfig::Range {
                min: refused.min,
                max: refused.max,
            }),
    {
        match self.validate() {
            Ok(()) => Ok(self.generate_interval()),
            Err(refused) => Err(refused),
        }
    }
}

/// Calls `rand::thread_rng()` and, on the generator it returns,
/// `Rng::gen_range(min..=max)`. Trusted: the sample lies within the bounds,
/// both included. `gen_range` panics on an empty range, which the
/// precondition excludes. Which value comes back is left open: it differs
/// from call to call. The thread's generator is seeded by the operating
/// system on first use and panics if that seeding fails.
#[verifier::external_body]
fn sample_inclusive(min: u64, max: u64) -> (sample: u64)
    requires
        min <= max,
    ensures
        min <= sample <= max,
{
    rand::thread_rng().gen_range(min..=max)
}

/// A range whose bounds coincide behaves as the fixed pause of that value.
pub proof fn lemma_single_value_range(bound: u64, interval: u64)
    ensures
        (IntervalConfig::Range { min: bound, max: bound }).is_valid(),
        (IntervalConfig::Range { min: bound, max: bound }).admits(interval) <==> interval == bound,
        (IntervalConfig::Range { min: bound, max: bound }).admits(interval)
            <==> IntervalConfig::Fixed(bound).admits(interval),
{
}

} // verus!
