use cross_krb5::context::{ClientCtx, ServerCtx};
use cross_krb5::error::{Cause, Error, ErrorKind, Operation};
use cross_krb5::session::{MechReply, Phase, Session, StepAction, Role};

fn step_error(cause: Cause) -> Error {
    Error { operation: Operation::Step, cause }
}

fn not_established(operation: Operation) -> Error {
    Error { operation, cause: Cause::NotEstablished }
}

#[test]
fn contexts_record_their_principals_and_start_created() {
    let client = ClientCtx::new(Some("user@REALM"), "service@REALM");
    assert_eq!(client.local_principal(), Some("user@REALM"));
    assert_eq!(client.target_principal(), "service@REALM");
    assert_eq!(client.phase(), Phase::Created);
    assert!(!client.is_established());

    let anonymous = ClientCtx::new(None, "service@REALM");
    assert_eq!(anonymous.local_principal(), None);

    let server = ServerCtx::new(Some("service@REALM"));
    assert_eq!(server.local_principal(), Some("service@REALM"));
    assert_eq!(server.phase(), Phase::Created);
    assert_eq!(ServerCtx::new(None).local_principal(), None);
}

#[test]
fn example_handshake_in_a_single_round() {
    let mut initiator = ClientCtx::new(None, "service@REALM");
    let mut acceptor = ServerCtx::new(None);

    assert_eq!(initiator.step(None), Ok(StepAction::Feed));
    let t1 = initiator.step_reply(MechReply::Continue(vec![1, 2, 3])).unwrap().unwrap();
    assert_eq!(t1, vec![1, 2, 3]);
    assert_eq!(initiator.phase(), Phase::Negotiating);

    assert_eq!(acceptor.step(Some(&t1)), Ok(StepAction::Feed));
    let t2 = acceptor.step_reply(MechReply::Complete(Some(vec![9, 8]))).unwrap().unwrap();
    assert_eq!(t2, vec![9, 8]);
    assert!(acceptor.is_established());

    assert_eq!(initiator.step(Some(&t2)), Ok(StepAction::Feed));
    assert_eq!(initiator.step_reply(MechReply::Complete(None)), Ok(None));
    assert!(initiator.is_established());

    assert_eq!(acceptor.step(Some(&t2)), Ok(StepAction::Finished));
    assert_eq!(initiator.step(None), Ok(StepAction::Finished));
    assert_eq!(acceptor.begin_client(), Ok(()));
}

#[test]
fn handshake_over_several_rounds_ends_with_both_sides_established() {
    let mut initiator = ClientCtx::new(Some("user@REALM"), "service@REALM");
    let mut acceptor = ServerCtx::new(Some("service@REALM"));
    let script = [
        (MechReply::Continue(vec![1]), MechReply::Continue(vec![2])),
        (MechReply::Continue(vec![3]), MechReply::Continue(vec![4])),
        (MechReply::Continue(vec![5]), MechReply::Complete(Some(vec![6]))),
    ];
    let mut incoming: Option<Vec<u8>> = None;
    let mut rounds = 0;
    for (from_initiator, from_acceptor) in script {
        assert_eq!(initiator.step(incoming.as_deref()), Ok(StepAction::Feed));
        let out = initiator.step_reply(from_initiator).unwrap().unwrap();
        assert_eq!(acceptor.step(Some(&out)), Ok(StepAction::Feed));
        incoming = acceptor.step_reply(from_acceptor).unwrap();
        rounds += 1;
    }
    assert_eq!(rounds, 3);
    assert_eq!(incoming, Some(vec![6]));
    assert_eq!(initiator.step(incoming.as_deref()), Ok(StepAction::Feed));
    assert_eq!(initiator.step_reply(MechReply::Complete(None)), Ok(None));
    assert!(initiator.is_established());
    assert!(acceptor.is_established());
    assert_eq!(initiator.step(None), Ok(StepAction::Finished));
    assert_eq!(acceptor.step(Some(&[])), Ok(StepAction::Finished));
}

#[test]
fn acceptor_without_a_token_fails_in_every_phase() {
    let defective = Err(step_error(Cause::DefectiveToken));
    let mut acceptor = ServerCtx::new(None);
    assert_eq!(acceptor.step(None), defective);
    assert_eq!(acceptor.phase(), Phase::Created);

    acceptor.step_reply(MechReply::Continue(vec![1])).unwrap();
    assert_eq!(acceptor.step(None), defective);
    assert_eq!(acceptor.phase(), Phase::Negotiating);

    acceptor.step_reply(MechReply::Complete(None)).unwrap();
    assert_eq!(acceptor.step(None), defective);
    assert!(acceptor.is_established());

    let mut failed = ServerCtx::new(None);
    assert!(failed.step_reply(MechReply::Rejected { major: 1, minor: 2 }).is_err());
    assert_eq!(failed.step(None), defective);
    assert_eq!(acceptor.step(None).unwrap_err().kind(), ErrorKind::Handshake);
}

#[test]
fn protection_and_queries_fail_before_establishment() {
    let mut client = ClientCtx::new(None, "service@REALM");
    let mut server = ServerCtx::new(None);
    for _ in 0..2 {
        assert_eq!(client.begin_wrap(), Err(not_established(Operation::Wrap)));
        assert_eq!(client.begin_unwrap(), Err(not_established(Operation::Unwrap)));
        assert_eq!(client.begin_ttl(), Err(not_established(Operation::TimeToLive)));
        assert_eq!(server.begin_wrap(), Err(not_established(Operation::Wrap)));
        assert_eq!(server.begin_unwrap(), Err(not_established(Operation::Unwrap)));
        assert_eq!(server.begin_ttl(), Err(not_established(Operation::TimeToLive)));
        assert_eq!(server.begin_client(), Err(not_established(Operation::Client)));
        client.step_reply(MechReply::Continue(vec![1])).unwrap();
        server.step_reply(MechReply::Continue(vec![2])).unwrap();
    }
    client.step_reply(MechReply::Complete(None)).unwrap();
    server.step_reply(MechReply::Complete(None)).unwrap();
    assert_eq!(client.begin_wrap(), Ok(()));
    assert_eq!(client.begin_unwrap(), Ok(()));
    assert_eq!(client.begin_ttl(), Ok(()));
    assert_eq!(server.begin_wrap(), Ok(()));
    assert_eq!(server.begin_unwrap(), Ok(()));
    assert_eq!(server.begin_ttl(), Ok(()));
    assert_eq!(server.begin_client(), Ok(()));
}

#[test]
fn a_rejected_token_fails_the_context_for_good() {
    let cause = Cause::Mechanism { major: 0x000d_0000, minor: 7 };
    let mut client = ClientCtx::new(None, "service@REALM");
    assert_eq!(
        client.step_reply(MechReply::Rejected { major: 0x000d_0000, minor: 7 }),
        Err(step_error(cause))
    );
    assert_eq!(client.phase(), Phase::Failed(cause));
    assert_eq!(client.step(Some(&[1])), Err(step_error(cause)));
    assert_eq!(client.step_reply(MechReply::Complete(None)), Err(step_error(cause)));
    assert_eq!(client.phase(), Phase::Failed(cause));
    assert_eq!(client.begin_wrap(), Err(not_established(Operation::Wrap)));
}

#[test]
fn an_established_context_ignores_later_replies() {
    let mut server = ServerCtx::new(None);
    assert_eq!(server.step_reply(MechReply::Complete(Some(vec![4]))), Ok(Some(vec![4])));
    assert_eq!(server.step_reply(MechReply::Continue(vec![5])), Ok(None));
    assert_eq!(server.step_reply(MechReply::Rejected { major: 1, minor: 1 }), Ok(None));
    assert!(server.is_established());
}

#[test]
fn session_plans_by_role_and_phase() {
    let mut session = Session::new();
    assert_eq!(session.current_phase(), Phase::Created);
    assert_eq!(session.plan_step(Role::Initiator, false), Ok(StepAction::Feed));
    assert_eq!(session.plan_step(Role::Initiator, true), Ok(StepAction::Feed));
    assert_eq!(session.plan_step(Role::Acceptor, true), Ok(StepAction::Feed));
    assert_eq!(
        session.plan_step(Role::Acceptor, false),
        Err(step_error(Cause::DefectiveToken))
    );
    assert_eq!(session.guard(Operation::Wrap), Err(not_established(Operation::Wrap)));
    assert_eq!(session.apply_reply(MechReply::Complete(None)), Ok(None));
    assert!(session.is_established());
    assert_eq!(session.plan_step(Role::Initiator, false), Ok(StepAction::Finished));
    assert_eq!(session.guard(Operation::Wrap), Ok(()));
}

#[test]
fn every_operation_has_its_error_kind() {
    let cases = [
        (Operation::Construct, ErrorKind::Construction),
        (Operation::Step, ErrorKind::Handshake),
        (Operation::Wrap, ErrorKind::Protection),
        (Operation::Unwrap, ErrorKind::Protection),
        (Operation::TimeToLive, ErrorKind::Lifetime),
        (Operation::Client, ErrorKind::Identity),
    ];
    for (operation, kind) in cases {
        let e = Error::mechanism(operation, 3, 4);
        assert_eq!(e.operation, operation);
        assert_eq!(e.cause, Cause::Mechanism { major: 3, minor: 4 });
        assert_eq!(e.kind(), kind);
    }
}

#[test]
fn accepted_reply_tells_a_final_token_from_a_further_round() {
    assert_eq!(MechReply::accepted(Some(vec![1]), false), MechReply::Continue(vec![1]));
    assert_eq!(MechReply::accepted(Some(vec![1]), true), MechReply::Complete(Some(vec![1])));
    assert_eq!(MechReply::accepted(None, true), MechReply::Complete(None));
    assert_eq!(MechReply::accepted(None, false), MechReply::Complete(None));
}
