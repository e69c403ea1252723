use svc_compliance::amqp::{AMQPError, TopologyCommand, TopologySetup};

fn drive(answers: &[bool]) -> (Vec<TopologyCommand>, Option<Result<bool, AMQPError>>) {
    let mut setup = TopologySetup::start();
    let mut issued = Vec::new();
    let mut next = answers.iter();
    while let Some(cmd) = setup.command() {
        issued.push(cmd);
        let ok = *next.next().expect("an answer for each command");
        setup = setup.advance(ok);
    }
    (issued, setup.outcome())
}

#[test]
fn topology_declares_queue_exchange_then_binding() {
    let (issued, outcome) = drive(&[true, true, true]);
    assert_eq!(
        issued,
        vec![TopologyCommand::DeclareQueue, TopologyCommand::DeclareExchange, TopologyCommand::BindQueue]
    );
    assert_eq!(outcome, Some(Ok(true)));
}

#[test]
fn topology_declared_twice_succeeds_twice() {
    let first = drive(&[true, true, true]);
    let second = drive(&[true, true, true]);
    assert_eq!(first, second);
    assert_eq!(second.1, Some(Ok(true)));
}

#[test]
fn topology_queue_failure_is_fatal() {
    let (issued, outcome) = drive(&[false]);
    assert_eq!(issued, vec![TopologyCommand::DeclareQueue]);
    assert_eq!(outcome, Some(Err(AMQPError::CouldNotDeclareQueue)));
}

#[test]
fn topology_exchange_failure_is_fatal() {
    let (issued, outcome) = drive(&[true, false]);
    assert_eq!(issued.len(), 2);
    assert_eq!(outcome, Some(Err(AMQPError::CouldNotDeclareExchange)));
}

#[test]
fn topology_binding_failure_is_not_fatal() {
    let (_, outcome) = drive(&[true, true, false]);
    assert_eq!(outcome, Some(Ok(false)));
}

#[test]
fn topology_finished_states_stay_put() {
    let done = TopologySetup::Ready { bound: true };
    assert_eq!(done.advance(false), done);
    assert_eq!(done.command(), None);
    let failed = TopologySetup::Failed { error: AMQPError::CouldNotDeclareQueue };
    assert_eq!(failed.advance(true), failed);
    assert_eq!(TopologySetup::Binding.outcome(), None);
}
