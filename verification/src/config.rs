//! The configuration that the registry and the exporter are started from.

use vstd::prelude::*;
use vstd::string::StringExecFns;

verus! {

/// Where the exporter listens, and the identifiers that label every metric.
pub struct ConfigMetrics {
    /// Address that the metrics server binds.
    pub host: String,
    /// Port that the metrics server binds.
    pub port: u16,
    pub datacenter: String,
    pub service: String,
    pub server: String,
}

impl Default for ConfigMetrics {
    /// The unspecified IPv4 address, port 8878 and the development identifiers.
    fn default() -> (config: Self)
        ensures
            config.host@ == "0.0.0.0"@,
            config.port == 8878,
            config.datacenter@ == "development"@,
            config.service@ == "1.rebalancer.localhost"@,
            config.server@ == "127.0.0.1"@,
    {
        ConfigMetrics {
            host: String::from_str("0.0.0.0"),
            port: 8878,
            datacenter: String::from_str("development"),
            service: String::from_str("1.rebalancer.localhost"),
            server: String::from_str("127.0.0.1"),
        }
    }
}

impl Clone for ConfigMetrics {
    fn clone(&self) -> (copy: Self)
        ensures
            copy == *self,
    {
        ConfigMetrics {
            host: self.host.clone(),
            port: self.port,
            datacenter: self.datacenter.clone(),
            service: self.service.clone(),
            server: self.server.clone(),
        }
    }
}

} // verus!
