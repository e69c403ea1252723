//! Regional compliance gateway: jurisdiction dispatch, broker connection
//! pooling, broker topology setup and publish outcome rules.

pub mod config;
pub mod amqp;
pub mod pool;
pub mod messages;
pub mod region;
pub mod compliance;
