//! Parameters that all connection pools share.

use crate::duration::Duration;
use crate::duration::NANOS_PER_MILLI;
use vstd::prelude::*;

verus! {

/// Global DB connection parameters applied to all pools. They are kept in milliseconds.
#[derive(Debug)]
pub struct GlobalConnectionPoolConfig {
    long_connection_threshold_ms: u64,
    slow_query_threshold_ms: u64,
}

/// The parameters, in milliseconds.
pub struct ConfigView {
    pub long_connection_threshold_ms: u64,
    pub slow_query_threshold_ms: u64,
}

/// The whole milliseconds in a span of `nanos` nanoseconds.
pub open spec fn whole_millis(nanos: nat) -> nat {
    nanos / NANOS_PER_MILLI as nat
}

impl ConfigView {
    /// The threshold for long-living connections, in nanoseconds.
    pub open spec fn long_connection_threshold(self) -> nat {
        self.long_connection_threshold_ms as nat * NANOS_PER_MILLI as nat
    }

    /// The threshold for slow queries, in nanoseconds.
    pub open spec fn slow_query_threshold(self) -> nat {
        self.slow_query_threshold_ms as nat * NANOS_PER_MILLI as nat
    }

    /// These parameters with a threshold of `nanos` nanoseconds for long-living connections.
    pub open spec fn with_long_connection_threshold(self, nanos: nat) -> Self {
        ConfigView { long_connection_threshold_ms: whole_millis(nanos) as u64, ..self }
    }

    /// These parameters with a threshold of `nanos` nanoseconds for slow queries.
    pub open spec fn with_slow_query_threshold(self, nanos: nat) -> Self {
        ConfigView { slow_query_threshold_ms: whole_millis(nanos) as u64, ..self }
    }
}

impl View for GlobalConnectionPoolConfig {
    type V = ConfigView;

    closed spec fn view(&self) -> ConfigView {
        ConfigView {
            long_connection_threshold_ms: self.long_connection_threshold_ms,
            slow_query_threshold_ms: self.slow_query_threshold_ms,
        }
    }
}

/// A threshold whose milliseconds do not fit into 64 bits.
#[derive(Clone, Copy, Debug, PartialEq, Eq)]
pub enum ThresholdError {
    LongConnection,
    SlowQuery,
}

impl ThresholdError {
    /// The text of the error.
    pub fn message(&self) -> (text: &'static str)
        ensures
            text@ == match self {
                ThresholdError::LongConnection =>
                    "long_connection_threshold is unreasonably large"@,
                ThresholdError::SlowQuery => "slow_query_threshold is unreasonably large"@,
            },
    {
        match self {
            ThresholdError::LongConnection => "long_connection_threshold is unreasonably large",
            ThresholdError::SlowQuery => "slow_query_threshold is unreasonably large",
        }
    }
}

/// The whole milliseconds of a span of time, if they fit into 64 bits.
fn fitting_millis(threshold: Duration) -> (millis: Option<u64>)
    ensures
        match millis {
            Some(millis) => millis == whole_millis(threshold@),
            None => whole_millis(threshold@) > u64::MAX,
        },
{
    let millis: u128 = threshold.as_millis();
    if millis <= u64::MAX as u128 {
        Some(millis as u64)
    } else {
        None
    }
}

impl GlobalConnectionPoolConfig {
    /// The parameters to begin with: connections are long-living after 5 seconds, and queries are
    /// slow after 0.1 seconds.
    pub fn new() -> (config: Self)
        ensures
            config@ == (ConfigView {
                long_connection_threshold_ms: 5_000,
                slow_query_threshold_ms: 100,
            }),
    {
        GlobalConnectionPoolConfig {
            long_connection_threshold_ms: 5_000,
            slow_query_threshold_ms: 100,
        }
    }

    /// How long a connection may live before it counts as long-living.
    pub fn long_connection_threshold(&self) -> (threshold: Duration)
        ensures
            threshold@ == self@.long_connection_threshold(),
    {
        Duration::from_millis(self.long_connection_threshold_ms)
    }

    /// How long a query may take before it counts as slow.
    pub fn slow_query_threshold(&self) -> (threshold: Duration)
        ensures
            threshold@ == self@.slow_query_threshold(),
    {
        Duration::from_millis(self.slow_query_threshold_ms)
    }

    /// Sets the threshold for the DB connection lifetime to denote a connection as long-living and
    /// log its details.
    pub fn set_long_connection_threshold(&mut self, threshold: Duration) -> (result: Result<
        &mut Self,
        ThresholdError,
    >)
        ensures
            match result {
                Ok(config) => {
                    &&& whole_millis(threshold@) <= u64::MAX
                    &&& config@ == old(self)@.with_long_connection_threshold(threshold@)
                    &&& *final(self) == *final(config)
                },
                Err(error) => {
                    &&& whole_millis(threshold@) > u64::MAX
                    &&& error == ThresholdError::LongConnection
                    &&& *final(self) == *old(self)
                },
            },
    {
        match fitting_millis(threshold) {
            Some(millis) => {
                self.long_connection_threshold_ms = millis;
                Ok(self)
            },
            None => Err(ThresholdError::LongConnection),
        }
    }

    /// Sets the threshold to denote a DB query as "slow" and log its details.
    pub fn set_slow_query_threshold(&mut self, threshold: Duration) -> (result: Result<
        &mut Self,
        ThresholdError,
    >)
        ensures
            match result {
                Ok(config) => {
                    &&& whole_millis(threshold@) <= u64::MAX
                    &&& config@ == old(self)@.with_slow_query_threshold(threshold@)
                    &&& *final(self) == *final(config)
                },
                Err(error) => {
                    &&& whole_millis(threshold@) > u64::MAX
                    &&& error == ThresholdError::SlowQuery
                    &&& *final(self) == *old(self)
                },
            },
    {
        match fitting_millis(threshold) {
            Some(millis) => {
                self.slow_query_threshold_ms = millis;
                Ok(self)
            },
            None => Err(ThresholdError::SlowQuery),
        }
    }
}

/// A threshold for long-living connections reads back as it was set, less what is below one
/// millisecond, and setting it leaves the threshold for slow queries alone.
pub proof fn long_connection_threshold_reads_back(config: ConfigView, nanos: nat)
    requires
        whole_millis(nanos) <= u64::MAX,
    ensures
        config.with_long_connection_threshold(nanos).long_connection_threshold() == nanos - nanos
            % NANOS_PER_MILLI as nat,
        config.with_long_connection_threshold(nanos).slow_query_threshold()
            == config.slow_query_threshold(),
{
}

/// A threshold for slow queries reads back as it was set, less what is below one millisecond, and
/// setting it leaves the threshold for long-living connections alone.
pub proof fn slow_query_threshold_reads_back(config: ConfigView, nanos: nat)
    requires
        whole_millis(nanos) <= u64::MAX,
    ensures
        config.with_slow_query_threshold(nanos).slow_query_threshold() == nanos - nanos
            % NANOS_PER_MILLI as nat,
        config.with_slow_query_threshold(nanos).long_connection_threshold()
            == config.long_connection_threshold(),
{
}

/// A threshold is too large exactly if its milliseconds take more than 64 bits.
pub proof fn thresholds_fit_into_64_bits_of_milliseconds(nanos: nat)
    ensures
        whole_millis(nanos) <= u64::MAX <==> nanos < 18_446_744_073_709_551_616 * 1_000_000,
        whole_millis(nanos) * 1_000_000 <= nanos < (whole_millis(nanos) + 1) * 1_000_000,
{
}

/// To begin with, connections are long-living after 5 seconds and queries slow after 100
/// milliseconds.
pub proof fn thresholds_to_begin_with(
    config: GlobalConnectionPoolConfig,
    long_connection: Duration,
    slow_query: Duration,
)
    requires
        call_ensures(GlobalConnectionPoolConfig::new, (), config),
        call_ensures(
            GlobalConnectionPoolConfig::long_connection_threshold,
            (&config,),
            long_connection,
        ),
        call_ensures(GlobalConnectionPoolConfig::slow_query_threshold, (&config,), slow_query),
    ensures
        long_connection@ == 5 * 1_000_000_000,
        slow_query@ == 100 * 1_000_000,
{
}

/// Once a threshold for long-living connections is set, it is the one that was given, less what is
/// below one millisecond, and the threshold for slow queries is as it was. One that is too large
/// changes nothing.
pub proof fn set_long_connection_threshold_is_read(
    config: &mut GlobalConnectionPoolConfig,
    threshold: Duration,
    result: Result<&mut GlobalConnectionPoolConfig, ThresholdError>,
)
    requires
        call_ensures(
            GlobalConnectionPoolConfig::set_long_connection_threshold,
            (config, threshold),
            result,
        ),
    ensures
        result is Ok <==> threshold@ < 18_446_744_073_709_551_616 * 1_000_000,
        result matches Ok(set) ==> {
            &&& set@.long_connection_threshold() == threshold@ - threshold@ % 1_000_000
            &&& set@.slow_query_threshold() == old(config)@.slow_query_threshold()
            &&& *final(config) == *final(set)
        },
        result matches Err(error) ==> {
            &&& error == ThresholdError::LongConnection
            &&& final(config)@ == old(config)@
        },
{
}

/// Once a threshold for slow queries is set, it is the one that was given, less what is below one
/// millisecond, and the threshold for long-living connections is as it was. One that is too large
/// changes nothing.
pub proof fn set_slow_query_threshold_is_read(
    config: &mut GlobalConnectionPoolConfig,
    threshold: Duration,
    result: Result<&mut GlobalConnectionPoolConfig, ThresholdError>,
)
    requires
        call_ensures(
            GlobalConnectionPoolConfig::set_slow_query_threshold,
            (config, threshold),
            result,
        ),
    ensures
        result is Ok <==> threshold@ < 18_446_744_073_709_551_616 * 1_000_000,
        result matches Ok(set) ==> {
            &&& set@.slow_query_threshold() == threshold@ - threshold@ % 1_000_000
            &&& set@.long_connection_threshold() == old(config)@.long_connection_threshold()
            &&& *final(config) == *final(set)
        },
        result matches Err(error) ==> {
            &&& error == ThresholdError::SlowQuery
            &&& final(config)@ == old(config)@
        },
{
}

/// The thresholds that are read are those of the parameters.
pub proof fn thresholds_are_read(
    config: GlobalConnectionPoolConfig,
    long_connection: Duration,
    slow_query: Duration,
)
    requires
        call_ensures(
            GlobalConnectionPoolConfig::long_connection_threshold,
            (&config,),
            long_connection,
        ),
        call_ensures(GlobalConnectionPoolConfig::slow_query_threshold, (&config,), slow_query),
    ensures
        long_connection@ == config@.long_connection_threshold_ms * 1_000_000,
        slow_query@ == config@.slow_query_threshold_ms * 1_000_000,
        long_connection@ == config@.long_connection_threshold(),
        slow_query@ == config@.slow_query_threshold(),
{
}

} // verus!
