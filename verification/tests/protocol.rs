use std::time::Duration;

use bytes::Bytes;

use lib60870::apci::{Apdu, UFunction};
use lib60870::asdu::{Asdu, Indexed};
use lib60870::client::{
    classify_poll_response, classify_send_response, interrogation_request, poll_again,
    read_request, LinkState, PollOutcome, SendOutcome,
};
use lib60870::error::RequestError;
use lib60870::ft12::{ControlField, LinkAddress, LinkFrame, PrimaryFunction, SecondaryFunction};
use lib60870::info::{InformationObject, SinglePointInformation};
use lib60870::server::{
    confirmation_for, slave_confirm_frame, AsduResponse, EventClass, SecondaryLinkState,
    ServerQueues, SlaveAction,
};
use lib60870::session::{client_idle_frame_action, FrameAction, SessionState};
use lib60870::transport::RetryStrategy;
use lib60870::types::{
    AppLayerParameters, CauseOfTransmission, CommonAddress, QualityDescriptor, TypeId,
};

fn spi_asdu(cause: CauseOfTransmission) -> Asdu {
    lib60870::asdu::AsduBuilder::new(cause, CommonAddress::new(1))
        .add(
            7u16,
            InformationObject::SinglePoint(SinglePointInformation::new(true, QualityDescriptor::empty())),
        )
        .unwrap()
        .build()
        .unwrap()
}

// --- Retry back-off ---

#[test]
fn backoff_iter_starts_at_min() {
    let strategy = RetryStrategy { min_delay: Duration::from_secs(1), max_delay: Duration::from_secs(30) };
    let delays: Vec<_> = strategy.backoff_delays(6);
    assert_eq!(delays[0], Duration::from_secs(1));
    assert_eq!(delays[1], Duration::from_secs(2));
    assert_eq!(delays[2], Duration::from_secs(4));
    assert_eq!(delays[3], Duration::from_secs(8));
    assert_eq!(delays[4], Duration::from_secs(16));
    assert_eq!(delays[5], Duration::from_secs(30)); // capped
}

#[test]
fn backoff_iter_caps_at_max() {
    let strategy =
        RetryStrategy { min_delay: Duration::from_millis(100), max_delay: Duration::from_millis(500) };
    let delays: Vec<_> = strategy.backoff_delays(10);
    for delay in &delays[3..] {
        assert!(*delay <= Duration::from_millis(500));
    }
    // Last values should all be capped
    assert_eq!(*delays.last().unwrap(), Duration::from_millis(500));
}

#[test]
fn backoff_saturates_and_stops_growing() {
    let strategy = RetryStrategy { min_delay: Duration::from_secs(3), max_delay: Duration::MAX };
    assert_eq!(strategy.backoff_delay(31), Duration::from_secs(3 * (1u64 << 31)));
    assert_eq!(strategy.backoff_delay(40), strategy.backoff_delay(31));
    let default = RetryStrategy::default();
    assert_eq!(default.min_delay, Duration::from_secs(1));
    assert_eq!(default.max_delay, Duration::from_secs(30));
}

// --- CS 104 session ---

#[test]
fn session_sequence_numbers_and_window() {
    let mut s = SessionState::new();
    let params = AppLayerParameters::cs104_default();
    let asdu = spi_asdu(CauseOfTransmission::Spontaneous);
    for _ in 0..3 {
        let frame = s.build_i_frame(3, &asdu, &params).unwrap();
        match frame {
            Apdu::I { send_seq, .. } => assert_eq!(send_seq, s.send_seq),
            _ => panic!("expected an I-frame"),
        }
        s.i_frame_sent();
    }
    assert_eq!(s.unconfirmed_count(), 3);
    assert!(s.t1_armed);
    assert!(matches!(s.build_i_frame(3, &asdu, &params), Err(RequestError::SendWindowFull)));

    s.process_ack(3);
    assert_eq!(s.unconfirmed_count(), 0);
    assert!(!s.t1_armed);
}

#[test]
fn session_sequence_wraps() {
    let mut s = SessionState::new();
    s.send_seq = 32767;
    s.ack_seq = 32767;
    s.i_frame_sent();
    assert_eq!(s.send_seq, 0);
    assert_eq!(s.unconfirmed_count(), 1);

    s.recv_seq = 32767;
    assert!(s.receive_i_frame(32767, 0).is_ok());
    assert_eq!(s.recv_seq, 0);
}

#[test]
fn session_rejects_out_of_sequence() {
    let mut s = SessionState::new();
    let frame = Apdu::I { send_seq: 5, recv_seq: 0, payload: Bytes::new() };
    match s.client_on_frame(&frame) {
        Err(RequestError::SequenceError { expected, got }) => {
            assert_eq!(expected, 0);
            assert_eq!(got, 5);
        }
        other => panic!("unexpected {:?}", other),
    }
}

#[test]
fn session_acknowledges_after_w_frames() {
    let mut s = SessionState::new();
    let w = 2;
    let f0 = Apdu::I { send_seq: 0, recv_seq: 0, payload: Bytes::new() };
    assert_eq!(s.client_on_frame(&f0).unwrap(), FrameAction::Deliver);
    assert!(!s.after_i_frame(w));
    assert!(s.t2_armed);
    let f1 = Apdu::I { send_seq: 1, recv_seq: 0, payload: Bytes::new() };
    assert_eq!(s.client_on_frame(&f1).unwrap(), FrameAction::Deliver);
    assert!(s.after_i_frame(w));
    let ack = s.acknowledge();
    assert_eq!(ack, Apdu::S { recv_seq: 2 });
    assert_eq!(s.unacked_recv, 0);
    assert!(!s.t2_armed);
}

#[test]
fn session_test_frames() {
    let mut s = SessionState::new();
    assert!(s.on_t3_timeout());
    assert!(s.testfr_pending);
    assert!(s.t1_armed);
    assert!(!s.on_t3_timeout());
    assert_eq!(s.client_on_frame(&Apdu::U(UFunction::TestFrCon)).unwrap(), FrameAction::Ignore);
    assert!(!s.testfr_pending);
    assert!(!s.t1_armed);
    assert_eq!(
        s.client_on_frame(&Apdu::U(UFunction::TestFrAct)).unwrap(),
        FrameAction::Reply(UFunction::TestFrCon)
    );
    assert_eq!(
        s.client_on_frame(&Apdu::U(UFunction::StopDtAct)).unwrap(),
        FrameAction::ReplyAndStop(UFunction::StopDtCon)
    );
    assert_eq!(
        client_idle_frame_action(&Apdu::U(UFunction::TestFrAct)),
        FrameAction::Reply(UFunction::TestFrCon)
    );
    assert_eq!(client_idle_frame_action(&Apdu::S { recv_seq: 0 }), FrameAction::Ignore);
}

#[test]
fn server_session_start_stop() {
    let mut s = SessionState::new();
    let i = Apdu::I { send_seq: 0, recv_seq: 0, payload: Bytes::new() };
    assert_eq!(s.server_on_frame(&i).unwrap(), FrameAction::Ignore);
    assert_eq!(s.recv_seq, 0);
    assert!(!s.can_send(12));
    assert_eq!(
        s.server_on_frame(&Apdu::U(UFunction::StartDtAct)).unwrap(),
        FrameAction::Reply(UFunction::StartDtCon)
    );
    assert!(s.data_transfer_active);
    assert!(s.can_send(12));
    assert_eq!(s.server_on_frame(&i).unwrap(), FrameAction::Deliver);
    assert_eq!(s.recv_seq, 1);
    assert_eq!(
        s.server_on_frame(&Apdu::U(UFunction::StopDtAct)).unwrap(),
        FrameAction::Reply(UFunction::StopDtCon)
    );
    assert!(!s.data_transfer_active);
}

// --- Server ---

#[test]
fn confirmation_mirrors_activation() {
    let act = spi_asdu(CauseOfTransmission::Activation);
    let con = confirmation_for(&act, AsduResponse::Negative).unwrap();
    assert_eq!(con.header.cause, CauseOfTransmission::ActivationCon);
    assert!(con.header.is_negative);
    assert_eq!(con.objects, act.objects);
    let deact = spi_asdu(CauseOfTransmission::Deactivation);
    let con = confirmation_for(&deact, AsduResponse::Confirm).unwrap();
    assert_eq!(con.header.cause, CauseOfTransmission::DeactivationCon);
    assert!(!con.header.is_negative);
    assert!(confirmation_for(&spi_asdu(CauseOfTransmission::Spontaneous), AsduResponse::Confirm).is_none());
}

#[test]
fn queues_prefer_class1() {
    let mut q = ServerQueues::new();
    q.enqueue(spi_asdu(CauseOfTransmission::Periodic), EventClass::Class2);
    q.enqueue(spi_asdu(CauseOfTransmission::Spontaneous), EventClass::Class1);
    assert!(q.has_class1());
    assert_eq!(q.pop_next().unwrap().header.cause, CauseOfTransmission::Spontaneous);
    assert_eq!(q.pop_next().unwrap().header.cause, CauseOfTransmission::Periodic);
    assert!(q.pop_next().is_none());
    assert!(!q.has_any());
}

fn primary(function: PrimaryFunction, fcb: bool, fcv: bool) -> LinkFrame {
    LinkFrame::Fixed { control: ControlField::Primary { fcb, fcv, function }, address: LinkAddress(1) }
}

#[test]
fn slave_link_reset_and_polls() {
    let params = AppLayerParameters::cs101_default();
    let mut s = SecondaryLinkState::new();
    let mut q = ServerQueues::new();
    // polls before the reset are not answered
    let r = s.on_frame(&primary(PrimaryFunction::RequestClass1, true, true), &mut q, &params, LinkAddress(1));
    assert!(matches!(r, Ok(SlaveAction::Ignore)));

    q.enqueue(spi_asdu(CauseOfTransmission::Spontaneous), EventClass::Class1);
    match s.on_frame(&primary(PrimaryFunction::ResetLink, false, false), &mut q, &params, LinkAddress(1)) {
        Ok(SlaveAction::Respond(LinkFrame::Fixed { control, .. })) => assert_eq!(
            control,
            ControlField::Secondary { acd: true, dfc: false, function: SecondaryFunction::Ack }
        ),
        other => panic!("unexpected {:?}", other),
    }
    assert!(s.link_reset && s.expected_fcb);

    match s.on_frame(&primary(PrimaryFunction::RequestClass1, true, true), &mut q, &params, LinkAddress(1)) {
        Ok(SlaveAction::Respond(LinkFrame::Variable { control, data, .. })) => {
            assert_eq!(
                control,
                ControlField::Secondary { acd: false, dfc: false, function: SecondaryFunction::UserData }
            );
            let mut d = data.clone();
            let asdu = Asdu::decode(&mut d, &params).unwrap();
            assert_eq!(asdu.header.type_id, TypeId::MSpNa1);
        }
        other => panic!("unexpected {:?}", other),
    }
    assert!(!s.expected_fcb);

    match s.on_frame(&primary(PrimaryFunction::RequestClass2, false, true), &mut q, &params, LinkAddress(1)) {
        Ok(SlaveAction::Respond(LinkFrame::Fixed { control, .. })) => assert_eq!(
            control,
            ControlField::Secondary { acd: false, dfc: false, function: SecondaryFunction::NoData }
        ),
        other => panic!("unexpected {:?}", other),
    }
    assert!(s.expected_fcb);

    let data_frame = LinkFrame::Variable {
        control: ControlField::Primary { fcb: true, fcv: true, function: PrimaryFunction::SendConfirm },
        address: LinkAddress(1),
        data: Bytes::from_static(&[1, 2, 3]),
    };
    match s.on_frame(&data_frame, &mut q, &params, LinkAddress(1)) {
        Ok(SlaveAction::Deliver(d)) => assert_eq!(&d[..], &[1, 2, 3]),
        other => panic!("unexpected {:?}", other),
    }
    let nack = slave_confirm_frame(None, false, LinkAddress(1));
    assert!(matches!(
        nack,
        LinkFrame::Fixed { control: ControlField::Secondary { function: SecondaryFunction::Nack, .. }, .. }
    ));
}

// --- Client ---

#[test]
fn requests_are_single_objects() {
    let asdu = interrogation_request(CommonAddress::new(3), 20);
    assert_eq!(asdu.header.type_id, TypeId::CIcNa1);
    assert_eq!(asdu.header.cause, CauseOfTransmission::Activation);
    assert_eq!(asdu.header.num_objects, 1);
    assert_eq!(asdu.objects[0].address.value(), 0);
    let read = read_request(CommonAddress::new(3), 4711u16.into());
    assert_eq!(read.header.cause, CauseOfTransmission::Request);
    assert_eq!(read.objects[0].address.value(), 4711);
    let _: &Indexed<InformationObject> = &read.objects[0];
}

#[test]
fn master_link_state() {
    let mut s = LinkState::new();
    assert!(!s.fcb && !s.link_reset);
    let reset = LinkState::reset_link_frame(LinkAddress(1));
    assert_eq!(reset, primary(PrimaryFunction::ResetLink, false, false));
    let nack = LinkFrame::Fixed {
        control: ControlField::Secondary { acd: false, dfc: false, function: SecondaryFunction::Nack },
        address: LinkAddress(1),
    };
    assert!(matches!(s.on_reset_response(&nack), Err(RequestError::LinkNack)));
    assert!(matches!(
        s.on_reset_response(&primary(PrimaryFunction::ResetLink, false, false)),
        Err(RequestError::LinkResetFailed)
    ));
    assert!(s.on_reset_response(&LinkFrame::SingleAck).is_ok());
    assert!(s.fcb && s.link_reset);
    s.toggle_fcb();
    assert!(!s.fcb);
    assert_eq!(
        s.poll_frame(PrimaryFunction::RequestClass1, LinkAddress(1)),
        primary(PrimaryFunction::RequestClass1, false, true)
    );

    let data = LinkFrame::Variable {
        control: ControlField::Secondary { acd: true, dfc: false, function: SecondaryFunction::UserData },
        address: LinkAddress(1),
        data: Bytes::new(),
    };
    assert_eq!(classify_poll_response(&data), PollOutcome::Data { acd: true });
    assert!(poll_again(classify_poll_response(&data)));
    assert_eq!(classify_poll_response(&nack), PollOutcome::Nack);
    assert!(!poll_again(PollOutcome::Nack));
    assert_eq!(classify_send_response(&LinkFrame::SingleAck), SendOutcome::Confirmed);
    assert_eq!(classify_send_response(&nack), SendOutcome::Nack);
    assert_eq!(classify_send_response(&data), SendOutcome::Unexpected);
}
