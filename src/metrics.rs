//! Settings of the metrics exporter.
use vstd::prelude::*;

verus! {

/// Settings of the metrics exporter.
#[derive(Clone, Copy, Debug, PartialEq, Eq, Structural)]
pub struct MetricsConfig {
    pub port: u16,
    pub collection_interval_ms: u64,
    pub retention_hours: u64,
    pub enable_detailed_metrics: bool,
}

impl MetricsConfig {
    /// Port 9090, collected every second, kept a day, detailed.
    pub fn default() -> (r: MetricsConfig)
        ensures
            r == (MetricsConfig {
                port: 9090,
                collection_interval_ms: 1000,
                retention_hours: 24,
                enable_detailed_metrics: true,
            }),
    {
        MetricsConfig {
            port: 9090,
            collection_interval_ms: 1000,
            retention_hours: 24,
            enable_detailed_metrics: true,
        }
    }

    /// The default settings with the exporter on `port`.
    pub fn with_port(port: u16) -> (r: MetricsConfig)
        ensures
            r == (MetricsConfig {
                port,
                collection_interval_ms: 1000,
                retention_hours: 24,
                enable_detailed_metrics: true,
            }),
    {
        MetricsConfig { port, ..MetricsConfig::default() }
    }
}

} // verus!
