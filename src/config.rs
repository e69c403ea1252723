//! Process configuration values consumed by the gateway.

use vstd::prelude::*;

verus! {

/// Port on which the RPC server listens unless configured otherwise.
pub const DEFAULT_GRPC_PORT: u16 = 50051;

/// Number of broker connections a pool may hold unless configured otherwise.
pub const DEFAULT_POOL_MAX_SIZE: usize = 16;

/// Configuration options of the gateway process.
#[derive(Debug, Clone)]
pub struct Config {
    /// Port to be used for the RPC server.
    pub docker_port_grpc: u16,
    /// Abbreviation of the jurisdiction, e.g. `us`, `ne`.
    pub region_code: String,
    /// Path to the logger configuration file.
    pub log_config: String,
    /// Broker connection URL, if one is configured.
    pub amqp_url: Option<String>,
    /// Largest number of broker connections the pool may hold.
    pub pool_max_size: usize,
}

impl Config {
    /// Default values for `Config`: no broker address is configured.
    pub fn new() -> (r: Config)
        ensures
            r.docker_port_grpc == DEFAULT_GRPC_PORT,
            r.region_code@ == "nl"@,
            r.log_config@ == "log4rs.yaml"@,
            r.amqp_url is None,
            r.pool_max_size == DEFAULT_POOL_MAX_SIZE,
    {
        Config {
            docker_port_grpc: DEFAULT_GRPC_PORT,
            region_code: String::from_str("nl"),
            log_config: String::from_str("log4rs.yaml"),
            amqp_url: None,
            pool_max_size: DEFAULT_POOL_MAX_SIZE,
        }
    }
}

impl Default for Config {
    fn default() -> (r: Config)
        ensures
            r.docker_port_grpc == DEFAULT_GRPC_PORT,
            r.region_code@ == "nl"@,
            r.log_config@ == "log4rs.yaml"@,
            r.amqp_url is None,
            r.pool_max_size == DEFAULT_POOL_MAX_SIZE,
    {
        Config::new()
    }
}

} // verus!
