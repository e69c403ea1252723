//! Broker-facing rules: the error taxonomy, the fixed topology, the setup
//! sequence that declares it and the publish policies.

use vstd::prelude::*;

verus! {

/// Name of the exchange for flight plan messages.
pub const EXCHANGE_NAME_FLIGHTPLAN: &'static str = "flightplan";

/// Name of the queue for cargo messages.
pub const QUEUE_NAME_CARGO: &'static str = "cargo";

/// Routing key for cargo messages.
pub const ROUTING_KEY_CARGO: &'static str = "cargo";

/// Failures of the broker layer.
#[derive(Debug, Copy, Clone, PartialEq, Eq, Structural)]
pub enum AMQPError {
    /// The broker rejected a message, the connection dropped while sending,
    /// or the confirmation did not arrive in time.
    CouldNotPublish,
    /// The broker could not be reached.
    CouldNotConnect,
    /// No broker address is configured.
    MissingConfiguration,
    /// A channel could not be opened on a connection.
    CouldNotCreateChannel,
    /// The queue could not be declared.
    CouldNotDeclareQueue,
    /// The exchange could not be declared.
    CouldNotDeclareExchange,
    /// Every connection is leased and the pool is at capacity.
    PoolExhausted,
    /// A publish was attempted without an open channel.
    InvalidChannelState,
}

/// The text that describes `e`.
pub open spec fn error_message(e: AMQPError) -> Seq<char> {
    match e {
        AMQPError::CouldNotPublish => "error: Could not publish to queue."@,
        AMQPError::CouldNotConnect => "error: Could not connect to amqp pool."@,
        AMQPError::MissingConfiguration => "error: Missing configuration for amqp pool connection."@,
        AMQPError::CouldNotCreateChannel => "error: Could not create channel."@,
        AMQPError::CouldNotDeclareQueue => "error: Could not declare queue."@,
        AMQPError::CouldNotDeclareExchange => "error: Could not declare exchange."@,
        AMQPError::PoolExhausted => "error: No connection available in amqp pool."@,
        AMQPError::InvalidChannelState => "error: No open channel to publish on."@,
    }
}

impl AMQPError {
    /// The text that describes this error.
    pub fn message(&self) -> (r: &'static str)
        ensures
            r@ == error_message(*self),
    {
        match self {
            AMQPError::CouldNotPublish => "error: Could not publish to queue.",
            AMQPError::CouldNotConnect => "error: Could not connect to amqp pool.",
            AMQPError::MissingConfiguration => "error: Missing configuration for amqp pool connection.",
            AMQPError::CouldNotCreateChannel => "error: Could not create channel.",
            AMQPError::CouldNotDeclareQueue => "error: Could not declare queue.",
            AMQPError::CouldNotDeclareExchange => "error: Could not declare exchange.",
            AMQPError::PoolExhausted => "error: No connection available in amqp pool.",
            AMQPError::InvalidChannelState => "error: No open channel to publish on.",
        }
    }
}

/// One declaration that the setup sequence asks of the broker.
#[derive(Debug, Copy, Clone, PartialEq, Eq, Structural)]
pub enum TopologyCommand {
    /// Declare the durable queue `QUEUE_NAME_CARGO`.
    DeclareQueue,
    /// Declare the topic exchange `EXCHANGE_NAME_FLIGHTPLAN`.
    DeclareExchange,
    /// Bind `QUEUE_NAME_CARGO` to `EXCHANGE_NAME_FLIGHTPLAN` with
    /// `ROUTING_KEY_CARGO`.
    BindQueue,
}

/// Progress of the startup sequence that declares the broker topology:
/// the queue, then the exchange, then the binding between them.
#[derive(Debug, Copy, Clone, PartialEq, Eq, Structural)]
pub enum TopologySetup {
    /// The queue is to be declared next.
    DeclaringQueue,
    /// The exchange is to be declared next.
    DeclaringExchange,
    /// The queue is to be bound next.
    Binding,
    /// The sequence finished; `bound` tells whether the binding succeeded.
    Ready { bound: bool },
    /// A declaration failed; the process must not serve requests.
    Failed { error: AMQPError },
}

impl TopologySetup {
    /// The declaration the broker is asked for in this state, if any.
    pub open spec fn spec_command(self) -> Option<TopologyCommand> {
        match self {
            TopologySetup::DeclaringQueue => Some(TopologyCommand::DeclareQueue),
            TopologySetup::DeclaringExchange => Some(TopologyCommand::DeclareExchange),
            TopologySetup::Binding => Some(TopologyCommand::BindQueue),
            _ => None,
        }
    }

    /// The state after the broker answered the pending declaration.
    /// Queue and exchange failures are fatal; a binding failure is not.
    pub open spec fn spec_advance(self, succeeded: bool) -> TopologySetup {
        match self {
            TopologySetup::DeclaringQueue => if succeeded {
                TopologySetup::DeclaringExchange
            } else {
                TopologySetup::Failed { error: AMQPError::CouldNotDeclareQueue }
            },
            TopologySetup::DeclaringExchange => if succeeded {
                TopologySetup::Binding
            } else {
                TopologySetup::Failed { error: AMQPError::CouldNotDeclareExchange }
            },
            TopologySetup::Binding => TopologySetup::Ready { bound: succeeded },
            _ => self,
        }
    }

    /// The result of a finished sequence: `Ok(bound)` or the fatal error.
    pub open spec fn spec_outcome(self) -> Option<Result<bool, AMQPError>> {
        match self {
            TopologySetup::Ready { bound } => Some(Ok(bound)),
            TopologySetup::Failed { error } => Some(Err(error)),
            _ => None,
        }
    }

    /// The state in which the sequence begins.
    pub fn start() -> (r: TopologySetup)
        ensures
            r == TopologySetup::DeclaringQueue,
    {
        TopologySetup::DeclaringQueue
    }

    /// The declaration to perform next, or `None` once the sequence is over.
    pub fn command(&self) -> (r: Option<TopologyCommand>)
        ensures
            r == self.spec_command(),
            r is None <==> self.spec_outcome() is Some,
    {
        match self {
            TopologySetup::DeclaringQueue => Some(TopologyCommand::DeclareQueue),
            TopologySetup::DeclaringExchange => Some(TopologyCommand::DeclareExchange),
            TopologySetup::Binding => Some(TopologyCommand::BindQueue),
            _ => None,
        }
    }

    /// Records the broker's answer to the pending declaration.
    pub fn advance(self, succeeded: bool) -> (r: TopologySetup)
        ensures
            r == self.spec_advance(succeeded),
    {
        match self {
            TopologySetup::DeclaringQueue => if succeeded {
                TopologySetup::DeclaringExchange
            } else {
                TopologySetup::Failed { error: AMQPError::CouldNotDeclareQueue }
            },
            TopologySetup::DeclaringExchange => if succeeded {
                TopologySetup::Binding
            } else {
                TopologySetup::Failed { error: AMQPError::CouldNotDeclareExchange }
            },
            TopologySetup::Binding => TopologySetup::Ready { bound: succeeded },
            _ => self,
        }
    }

    /// The result of the sequence once it is over.
    pub fn outcome(&self) -> (r: Option<Result<bool, AMQPError>>)
        ensures
            r == self.spec_outcome(),
    {
        match self {
            TopologySetup::Ready { bound } => Some(Ok(*bound)),
            TopologySetup::Failed { error } => Some(Err(*error)),
            _ => None,
        }
    }
}

/// The broker's declared topology: queues, exchanges and bindings, each
/// binding as (queue, exchange, routing key).
pub struct BrokerTopology {
    pub queues: Set<Seq<char>>,
    pub exchanges: Set<Seq<char>>,
    pub bindings: Set<(Seq<char>, Seq<char>, Seq<char>)>,
}

/// The topology after the broker performed `cmd`. Declarations are
/// idempotent: declaring what exists with the same properties changes nothing.
pub open spec fn apply_command(b: BrokerTopology, cmd: TopologyCommand) -> BrokerTopology {
    match cmd {
        TopologyCommand::DeclareQueue => BrokerTopology {
            queues: b.queues.insert(QUEUE_NAME_CARGO@),
            ..b
        },
        TopologyCommand::DeclareExchange => BrokerTopology {
            exchanges: b.exchanges.insert(EXCHANGE_NAME_FLIGHTPLAN@),
            ..b
        },
        TopologyCommand::BindQueue => BrokerTopology {
            bindings: b.bindings.insert(
                (QUEUE_NAME_CARGO@, EXCHANGE_NAME_FLIGHTPLAN@, ROUTING_KEY_CARGO@),
            ),
            ..b
        },
    }
}

/// Runs the setup sequence for at most `steps` declarations against a
/// reachable broker, which accepts each declaration of the fixed topology.
pub open spec fn run_setup(s: TopologySetup, b: BrokerTopology, steps: nat) -> (TopologySetup, BrokerTopology)
    decreases steps,
{
    if steps == 0 {
        (s, b)
    } else {
        match s.spec_command() {
            Some(cmd) => run_setup(s.spec_advance(true), apply_command(b, cmd), (steps - 1) as nat),
            None => (s, b),
        }
    }
}

/// Declaring the topology twice in sequence on a reachable broker succeeds
/// both times, with the queue bound, and the second run leaves the topology
/// exactly as the first one made it.
pub proof fn lemma_declare_topology_idempotent(b: BrokerTopology)
    ensures
        ({
            let first = run_setup(TopologySetup::DeclaringQueue, b, 3);
            let second = run_setup(TopologySetup::DeclaringQueue, first.1, 3);
            &&& first.0.spec_outcome() == Some(Ok::<bool, AMQPError>(true))
            &&& second.0.spec_outcome() == Some(Ok::<bool, AMQPError>(true))
            &&& second.1 == first.1
        }),
{
    reveal_with_fuel(run_setup, 4);
    let first = run_setup(TopologySetup::DeclaringQueue, b, 3);
    let second = run_setup(TopologySetup::DeclaringQueue, first.1, 3);
    assert(second.1.queues =~= first.1.queues);
    assert(second.1.exchanges =~= first.1.exchanges);
    assert(second.1.bindings =~= first.1.bindings);
}


/// How announcements are published, chosen when the gateway is built.
#[derive(Debug, Copy, Clone, PartialEq, Eq, Structural)]
pub enum PublishPolicy {
    /// Publishing does nothing and succeeds at once, so that business rules
    /// run without a live broker.
    NoOp,
    /// Publishing sends on the broker channel; without a channel it is an
    /// error.
    Strict,
}

/// What to do with one publish.
#[derive(Debug, Copy, Clone, PartialEq, Eq, Structural)]
pub enum PublishStep {
    /// Send the message on the channel and await the broker's confirmation.
    Send,
    /// Send nothing; the publish counts as done.
    Skip,
    /// Send nothing; the publish fails with `error`.
    Fail { error: AMQPError },
}

/// How a sent message ended, as seen by the caller awaiting confirmation.
#[derive(Debug, Copy, Clone, PartialEq, Eq, Structural)]
pub enum PublishAnswer {
    /// The broker confirmed receipt.
    Confirmed,
    /// The broker refused the message.
    Rejected,
    /// The connection failed while sending or waiting.
    Dropped,
    /// The confirmation did not arrive before the deadline.
    TimedOut,
}

impl PublishPolicy {
    /// The step a publish takes under this policy, given whether a channel
    /// is open.
    pub open spec fn plan_spec(self, channel_open: bool) -> PublishStep {
        match self {
            PublishPolicy::NoOp => PublishStep::Skip,
            PublishPolicy::Strict => if channel_open {
                PublishStep::Send
            } else {
                PublishStep::Fail { error: AMQPError::InvalidChannelState }
            },
        }
    }

    /// The step a publish takes under this policy, given whether a channel
    /// is open.
    pub fn plan(&self, channel_open: bool) -> (r: PublishStep)
        ensures
            r == self.plan_spec(channel_open),
    {
        match self {
            PublishPolicy::NoOp => PublishStep::Skip,
            PublishPolicy::Strict => if channel_open {
                PublishStep::Send
            } else {
                PublishStep::Fail { error: AMQPError::InvalidChannelState }
            },
        }
    }
}

/// The result that `publish_result` gives for `answer`.
pub open spec fn publish_result_spec(answer: PublishAnswer) -> Result<(), AMQPError> {
    if answer == PublishAnswer::Confirmed {
        Ok(())
    } else {
        Err(AMQPError::CouldNotPublish)
    }
}

/// The result of a sent message: success only on the broker's confirmation.
pub fn publish_result(answer: PublishAnswer) -> (r: Result<(), AMQPError>)
    ensures
        r == publish_result_spec(answer),
{
    match answer {
        PublishAnswer::Confirmed => Ok(()),
        _ => Err(AMQPError::CouldNotPublish),
    }
}

impl PublishStep {
    /// The result of a whole publish that took this step. A skipped one
    /// succeeds and a failed one fails with its error, whatever answer is
    /// given; a sent one goes by its answer, and fails as unpublished when
    /// no answer came.
    pub open spec fn outcome_spec(self, answer: Option<PublishAnswer>) -> Result<(), AMQPError> {
        match self {
            PublishStep::Skip => Ok(()),
            PublishStep::Fail { error } => Err(error),
            PublishStep::Send => match answer {
                Some(a) => publish_result_spec(a),
                None => Err(AMQPError::CouldNotPublish),
            },
        }
    }
}

/// The result of a whole publish; see `PublishStep::outcome_spec`.
pub fn publish_outcome(step: PublishStep, answer: Option<PublishAnswer>) -> (r: Result<(), AMQPError>)
    ensures
        r == step.outcome_spec(answer),
{
    match step {
        PublishStep::Skip => Ok(()),
        PublishStep::Fail { error } => Err(error),
        PublishStep::Send => match answer {
            Some(a) => publish_result(a),
            None => Err(AMQPError::CouldNotPublish),
        },
    }
}

} // verus!
