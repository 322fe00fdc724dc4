//! The caller/task exchange, driven through the verified protocol core:
//! the resume gate, the transfer slots, and the tagged replies. The raw
//! engine only moves one word per switch; here its place is taken by
//! running the task's steps in line between deposit and retrieve.

use typed_tasks::gate::ResumeGate;
use typed_tasks::messages::{final_reply, yield_reply, Reply, ResumeError};
use typed_tasks::slot::TransferSlot;

#[derive(Debug, PartialEq)]
enum Request {
    Init,
    Chars(&'static str),
}

#[derive(Debug, PartialEq)]
enum Response {
    Ready,
    Integer(u64),
    Float(f64),
    Done,
}

/// One full resume switch through the verified core.
fn switch(
    to_task: &mut TransferSlot<Request>,
    to_caller: &mut TransferSlot<Reply<Response>>,
    gate: &mut ResumeGate,
    r: Request,
    task_step: impl FnOnce(Request) -> Reply<Response>,
) -> Result<Response, ResumeError> {
    gate.check_live()?;
    to_task.deposit(r);
    let delivered = to_task.retrieve();
    to_caller.deposit(task_step(delivered));
    let reply = to_caller.retrieve();
    gate.absorb_reply(Some(reply))
}

#[test]
fn scenario_parser_session() {
    let mut to_task: TransferSlot<Request> = TransferSlot::new();
    let mut to_caller: TransferSlot<Reply<Response>> = TransferSlot::new();
    let mut gate = ResumeGate::new();

    let first = switch(&mut to_task, &mut to_caller, &mut gate, Request::Init, |req| {
        assert_eq!(req, Request::Init);
        yield_reply(Response::Ready)
    });
    assert_eq!(first, Ok(Response::Ready));
    assert!(!gate.is_done());

    let second = switch(
        &mut to_task,
        &mut to_caller,
        &mut gate,
        Request::Chars("integer"),
        |req| {
            assert_eq!(req, Request::Chars("integer"));
            yield_reply(Response::Integer(123))
        },
    );
    assert_eq!(second, Ok(Response::Integer(123)));

    let third = switch(
        &mut to_task,
        &mut to_caller,
        &mut gate,
        Request::Chars("float"),
        |req| {
            assert_eq!(req, Request::Chars("float"));
            yield_reply(Response::Float(1.23))
        },
    );
    assert_eq!(third, Ok(Response::Float(1.23)));

    let fourth = switch(
        &mut to_task,
        &mut to_caller,
        &mut gate,
        Request::Chars("done"),
        |req| {
            assert_eq!(req, Request::Chars("done"));
            final_reply(Response::Done)
        },
    );
    assert_eq!(fourth, Ok(Response::Done));
    assert!(gate.is_done());

    let fifth = switch(&mut to_task, &mut to_caller, &mut gate, Request::Init, |_| {
        unreachable!()
    });
    assert_eq!(fifth, Err(ResumeError::DeadTask));
}

#[test]
fn round_trip_returns_the_yielded_value() {
    let mut gate = ResumeGate::new();
    let greeting = String::from("hello across the switch");
    let res: Result<String, ResumeError> =
        gate.absorb_reply(Some(Reply::Yielded(greeting)));
    assert_eq!(res, Ok(String::from("hello across the switch")));
    assert!(!gate.is_done());
}

#[test]
fn final_value_is_observed_exactly_once() {
    let mut gate = ResumeGate::new();
    let res: Result<u64, ResumeError> = gate.absorb_reply(Some(Reply::Final(7)));
    assert_eq!(res, Ok(7));
    assert!(gate.is_done());
    for _ in 0..3 {
        assert_eq!(gate.check_live(), Err(ResumeError::DeadTask));
    }
}

#[test]
fn abnormal_termination_reports_task_failure() {
    let mut gate = ResumeGate::new();
    let res: Result<Response, ResumeError> = gate.absorb_reply(None);
    assert_eq!(res, Err(ResumeError::TaskFailure));
    assert!(gate.is_done());
    assert_eq!(gate.check_live(), Err(ResumeError::DeadTask));
}

#[test]
fn fresh_gate_allows_the_first_resume() {
    let gate = ResumeGate::new();
    assert!(!gate.is_done());
    assert!(gate.check_live().is_ok());
}

#[test]
fn replies_carry_their_tag() {
    assert!(matches!(yield_reply(5u64), Reply::Yielded(5)));
    assert!(matches!(final_reply(5u64), Reply::Final(5)));
}
