//! A bounded pool of broker connections.

use crate::amqp::AMQPError;
use crate::config::Config;
use vstd::prelude::*;

verus! {

/// The largest pool size a pool can be built with. The pool takes one
/// semaphore permit per connection, and tokio allows `usize::MAX >> 3`
/// permits; it also allocates one slot per connection up front, and a
/// slot, a lapin connection handle made of a few shared pointers plus its
/// metrics, takes far less than 4096 bytes, so the slot buffer stays under
/// `isize::MAX` bytes.
pub const MAX_POOL_SIZE: usize = usize::MAX / 8192;

/// A `deadpool_lapin` pool of broker connections, of which the library
/// knows the bound it was built with. Leases are awaited from `pool`; each
/// hands its connection back when dropped. Resizing or closing `pool`
/// would change that bound, and the gateway does neither.
#[verifier::external_body]
pub struct ConnectionPool {
    /// The pool itself.
    pub pool: deadpool_lapin::Pool,
}

/// Why the pool handed out no lease.
#[derive(Debug, Copy, Clone, PartialEq, Eq, Structural)]
pub enum AcquireFailure {
    /// No permit was free: every connection is leased and the pool is at
    /// capacity.
    NoPermits,
    /// A new connection could not be opened or an idle one failed its check.
    Backend,
    /// The pool has been closed.
    Closed,
}

/// The number of connections a pool was built to hold at most.
pub uninterp spec fn pool_capacity(p: ConnectionPool) -> nat;

/// The number of live leases a pool had when it was built.
pub uninterp spec fn leases_when_built(p: ConnectionPool) -> nat;

/// Relies on `deadpool_lapin::Config::create_pool`: its builder fails only
/// when a timeout is set without a runtime, and `PoolConfig::new` sets no
/// timeout, so the pool is always built, with `max_size` slots and as many
/// semaphore permits, and with no connection created or leased yet. No
/// connection is opened here: connections are made lazily, on lapin's
/// default executor, when a lease is first requested.
#[verifier::external_body]
fn create_pool(url: &String, max_size: usize) -> (r: Option<ConnectionPool>)
    requires
        max_size <= MAX_POOL_SIZE,
    ensures
        r is Some,
        r matches Some(p) ==> pool_capacity(p) == max_size,
        r matches Some(p) ==> leases_when_built(p) == 0,
{
    let cfg = deadpool_lapin::Config {
        url: Some(url.clone()),
        pool: Some(deadpool_lapin::PoolConfig::new(max_size)),
        ..Default::default()
    };
    cfg.create_pool(None).ok().map(|pool| ConnectionPool { pool })
}

/// The error reported for a failed lease.
pub fn acquire_error(f: AcquireFailure) -> (r: AMQPError)
    ensures
        f == AcquireFailure::NoPermits <==> r == AMQPError::PoolExhausted,
        f != AcquireFailure::NoPermits <==> r == AMQPError::CouldNotConnect,
{
    match f {
        AcquireFailure::NoPermits => AMQPError::PoolExhausted,
        _ => AMQPError::CouldNotConnect,
    }
}

/// A managed pool of connections to the broker. Each lease taken from it is
/// returned to the pool when the lease is dropped.
pub struct AMQPPool {
    pool: ConnectionPool,
    max_size: usize,
}

impl AMQPPool {
    /// The bound on live leases, as one connection per permit.
    pub closed spec fn capacity(&self) -> nat {
        self.max_size as nat
    }

    /// The number of live leases when the pool was built.
    pub closed spec fn leases_at_start(&self) -> nat {
        leases_when_built(self.pool)
    }

    /// The pool holds the bound it reports.
    pub closed spec fn wf(&self) -> bool {
        pool_capacity(self.pool) == self.max_size as nat
    }

    /// Creates a pool from the broker address and size in `config`. No
    /// connection is opened: an unreachable broker shows on the first lease.
    pub fn new(config: Config) -> (r: Result<AMQPPool, AMQPError>)
        requires
            config.amqp_url is Some ==> config.pool_max_size <= MAX_POOL_SIZE,
        ensures
            config.amqp_url is None ==> r == Err::<AMQPPool, AMQPError>(AMQPError::MissingConfiguration),
            config.amqp_url is Some ==> (r matches Ok(p) && p.wf() && p.capacity() == config.pool_max_size
                && p.leases_at_start() == 0),
    {
        let details = match &config.amqp_url {
            Some(u) => u,
            None => {
                return Err(AMQPError::MissingConfiguration);
            },
        };
        match create_pool(details, config.pool_max_size) {
            Some(pool) => Ok(AMQPPool { pool, max_size: config.pool_max_size }),
            None => Err(AMQPError::CouldNotConnect),
        }
    }

    /// The largest number of connections this pool leases out at once.
    pub fn max_size(&self) -> (r: usize)
        ensures
            r == self.capacity(),
    {
        self.max_size
    }

    /// The underlying pool, from which leases are awaited.
    pub fn connections(&self) -> (r: &ConnectionPool)
        requires
            self.wf(),
        ensures
            pool_capacity(*r) == self.capacity(),
    {
        &self.pool
    }
}

} // verus!
