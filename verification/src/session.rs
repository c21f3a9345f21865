//! The CS 104 APCI session rules shared by client and server: sequence
//! numbers, acknowledgment, the k and w windows and the t1, t2, t3 timers.
//!
//! The session keeps no clock. A timer is armed or not; the task that runs
//! the session starts its deadline when it becomes armed, drops it when it
//! is disarmed, and reports its expiry back as an event.
use vstd::prelude::*;

use crate::apci::{Apdu, UFunction};
use crate::asdu::layout::asdu_encode_outcome;
use crate::asdu::Asdu;
use crate::error::{AduError, RequestError};
use crate::types::AppLayerParameters;
use crate::wire::{bytes_mut_seq, bytes_mut_with_capacity, bytes_seq, freeze};

verus! {

/// Sequence numbers count modulo 2^15.
pub open spec fn seq_modulus() -> int {
    32768
}

/// The frames sent and not yet acknowledged: `send - ack` modulo 2^15.
pub open spec fn unconfirmed(send_seq: u16, ack_seq: u16) -> int {
    (send_seq - ack_seq + 65536) % 65536 % 32768
}

/// The APCI session state of one connection.
#[derive(Debug, Clone, Copy, PartialEq, Eq, Structural)]
pub struct SessionState {
    /// Next send sequence number V(S).
    pub send_seq: u16,
    /// Next expected receive sequence number V(R).
    pub recv_seq: u16,
    /// Last N(R) acknowledged by remote — they confirmed up to this.
    pub ack_seq: u16,
    /// Number of received I-frames we haven't S-frame-acknowledged.
    pub unacked_recv: u16,
    /// Whether we sent TESTFR act and are waiting for con.
    pub testfr_pending: bool,
    /// Whether STARTDT has been confirmed (server side).
    pub data_transfer_active: bool,
    /// Whether the t1 timer (acknowledgment of sent frames) runs.
    pub t1_armed: bool,
    /// Whether the t2 timer (acknowledgment of received frames) runs.
    pub t2_armed: bool,
}

/// What to do with a received frame.
#[derive(Debug, Clone, Copy, PartialEq, Eq, Structural)]
pub enum FrameAction {
    /// An I-frame in sequence: decode and deliver its ASDU, then call
    /// [`SessionState::after_i_frame`].
    Deliver,
    /// Nothing to send.
    Ignore,
    /// Send this U-frame.
    Reply(UFunction),
    /// Send this U-frame; data transfer then stops.
    ReplyAndStop(UFunction),
}

/// A frame as a value, or the error.
pub open spec fn apdu_result_view(r: Result<Apdu, RequestError>) -> Result<crate::apci::ApduView, RequestError> {
    match r {
        Ok(a) => Ok(a@),
        Err(e) => Err(e),
    }
}

/// The I-frame that carries an ASDU next, or why it cannot be sent: the
/// window of k sent frames is full, or the ASDU does not encode.
pub open spec fn i_frame_outcome(
    s: SessionState,
    k: u16,
    a: crate::asdu::AsduView,
    v: crate::types::app_layer_params::AppLayerValues,
) -> Result<crate::apci::ApduView, RequestError> {
    if s.spec_unconfirmed() >= k {
        Err(RequestError::SendWindowFull)
    } else {
        match asdu_encode_outcome(a, v, Seq::empty()) {
            (Err(e), _) => Err(RequestError::Adu(e)),
            (Ok(_), bytes) => Ok(
                crate::apci::ApduView::I { send_seq: s.send_seq, recv_seq: s.recv_seq, payload: bytes },
            ),
        }
    }
}

impl SessionState {
    /// Sequence numbers below 2^15, and fewer unacknowledged received frames
    /// than any receive window w allows.
    pub open spec fn valid(self) -> bool {
        &&& self.send_seq < 32768
        &&& self.recv_seq < 32768
        &&& self.unacked_recv < 32767
    }

    /// The frames sent and not yet acknowledged.
    pub open spec fn spec_unconfirmed(self) -> int {
        unconfirmed(self.send_seq, self.ack_seq)
    }

    /// The state of a new connection: everything at zero, no timer armed.
    pub fn new() -> (r: Self)
        ensures
            r == (SessionState {
                send_seq: 0,
                recv_seq: 0,
                ack_seq: 0,
                unacked_recv: 0,
                testfr_pending: false,
                data_transfer_active: false,
                t1_armed: false,
                t2_armed: false,
            }),
            r.valid(),
    {
        SessionState {
            send_seq: 0,
            recv_seq: 0,
            ack_seq: 0,
            unacked_recv: 0,
            testfr_pending: false,
            data_transfer_active: false,
            t1_armed: false,
            t2_armed: false,
        }
    }

    /// The number of sent frames not yet acknowledged.
    pub fn unconfirmed_count(&self) -> (r: u16)
        ensures
            r == self.spec_unconfirmed(),
            r < 32768,
    {
        ((self.send_seq as u32 + 65536 - self.ack_seq as u32) % 65536 % 32768) as u16
    }

    /// Records the remote's N(R): the frames before it are acknowledged. With
    /// nothing left unacknowledged and no test frame pending, t1 stops.
    pub fn process_ack(&mut self, recv_seq: u16)
        ensures
            *final(self) == (SessionState {
                ack_seq: recv_seq,
                t1_armed: old(self).t1_armed && !(unconfirmed(old(self).send_seq, recv_seq) == 0
                    && !old(self).testfr_pending),
                ..*old(self)
            }),
    {
        self.ack_seq = recv_seq;
        if self.unconfirmed_count() == 0 && !self.testfr_pending {
            self.t1_armed = false;
        }
    }

    /// Accepts a received I-frame with sequence numbers N(S) and N(R): it must
    /// carry the next expected N(S); V(R) then advances and N(R) is
    /// acknowledged.
    pub fn receive_i_frame(&mut self, send_seq: u16, recv_seq: u16) -> (r: Result<(), RequestError>)
        requires
            old(self).valid(),
        ensures
            send_seq != old(self).recv_seq ==> r == Err::<(), RequestError>(
                RequestError::SequenceError { expected: old(self).recv_seq, got: send_seq },
            ) && *final(self) == *old(self),
            send_seq == old(self).recv_seq ==> r is Ok && *final(self) == (SessionState {
                recv_seq: ((old(self).recv_seq + 1) % 32768) as u16,
                ack_seq: recv_seq,
                t1_armed: old(self).t1_armed && !(unconfirmed(old(self).send_seq, recv_seq) == 0
                    && !old(self).testfr_pending),
                ..*old(self)
            }),
            final(self).valid(),
    {
        if send_seq != self.recv_seq {
            return Err(RequestError::SequenceError { expected: self.recv_seq, got: send_seq });
        }
        self.recv_seq = (self.recv_seq + 1) % 32768;
        self.process_ack(recv_seq);
        Ok(())
    }

    /// Counts a delivered I-frame as received and unacknowledged. Returns
    /// whether w of them are now waiting, so that an S-frame is due (see
    /// [`SessionState::acknowledge`]); otherwise t2 starts if it does not run.
    pub fn after_i_frame(&mut self, w: u16) -> (send_s: bool)
        requires
            old(self).valid(),
            1 <= w <= 32767,
        ensures
            send_s == (old(self).unacked_recv + 1 >= w),
            send_s ==> *final(self) == (SessionState { unacked_recv: (old(self).unacked_recv + 1) as u16, ..*old(self) }),
            !send_s ==> *final(self) == (SessionState {
                unacked_recv: (old(self).unacked_recv + 1) as u16,
                t2_armed: true,
                ..*old(self)
            }),
            !send_s ==> final(self).valid(),
    {
        self.unacked_recv = self.unacked_recv + 1;
        if self.unacked_recv >= w {
            true
        } else {
            self.t2_armed = true;
            false
        }
    }

    /// The S-frame that acknowledges everything received; nothing is then
    /// left unacknowledged and t2 stops.
    pub fn acknowledge(&mut self) -> (r: Apdu)
        ensures
            r@ == (crate::apci::ApduView::S { recv_seq: old(self).recv_seq }),
            *final(self) == (SessionState { unacked_recv: 0, t2_armed: false, ..*old(self) }),
    {
        self.unacked_recv = 0;
        self.t2_armed = false;
        Apdu::S { recv_seq: self.recv_seq }
    }

    /// A TESTFR confirmation ends a pending test; with nothing left
    /// unacknowledged, t1 stops.
    pub fn on_testfr_con(&mut self)
        ensures
            old(self).testfr_pending ==> *final(self) == (SessionState {
                testfr_pending: false,
                t1_armed: old(self).t1_armed && old(self).spec_unconfirmed() != 0,
                ..*old(self)
            }),
            !old(self).testfr_pending ==> *final(self) == *old(self),
    {
        if self.testfr_pending {
            self.testfr_pending = false;
            if self.unconfirmed_count() == 0 {
                self.t1_armed = false;
            }
        }
    }

    /// On t3 expiry, unless a test is already pending, a TESTFR act is due:
    /// the test is then pending and t1 runs.
    pub fn on_t3_timeout(&mut self) -> (send_test: bool)
        ensures
            send_test == !old(self).testfr_pending,
            send_test ==> *final(self) == (SessionState { testfr_pending: true, t1_armed: true, ..*old(self) }),
            !send_test ==> *final(self) == *old(self),
    {
        if !self.testfr_pending {
            self.testfr_pending = true;
            if !self.t1_armed {
                self.t1_armed = true;
            }
            true
        } else {
            false
        }
    }

    /// Whether the window of k unacknowledged sent frames has room.
    pub fn window_open(&self, k: u16) -> (r: bool)
        ensures
            r == (self.spec_unconfirmed() < k),
    {
        self.unconfirmed_count() < k
    }

    /// The I-frame that carries `asdu` next: with the window of k sent frames
    /// full it is refused, and an ASDU that does not encode is refused with
    /// the encoding error. The state is not changed; see
    /// [`SessionState::i_frame_sent`].
    pub fn build_i_frame(&self, k: u16, asdu: &Asdu, app: &AppLayerParameters) -> (r: Result<Apdu, RequestError>)
        requires
            crate::asdu::asdu_encodable(asdu@),
        ensures
            apdu_result_view(r) == i_frame_outcome(*self, k, asdu@, app@),
    {
        if !self.window_open(k) {
            return Err(RequestError::SendWindowFull);
        }
        let mut payload = bytes_mut_with_capacity(0);
        match asdu.encode(&mut payload, app) {
            Ok(()) => {},
            Err(e) => {
                return Err(RequestError::Adu(e));
            },
        }
        Ok(Apdu::I { send_seq: self.send_seq, recv_seq: self.recv_seq, payload: freeze(payload) })
    }

    /// After an I-frame went out: V(S) advances, the frame also acknowledged
    /// everything received (t2 stops), and t1 runs.
    pub fn i_frame_sent(&mut self)
        requires
            old(self).valid(),
        ensures
            *final(self) == (SessionState {
                send_seq: ((old(self).send_seq + 1) % 32768) as u16,
                unacked_recv: 0,
                t2_armed: false,
                t1_armed: true,
                ..*old(self)
            }),
            final(self).valid(),
    {
        self.send_seq = (self.send_seq + 1) % 32768;
        self.unacked_recv = 0;
        self.t2_armed = false;
        if !self.t1_armed {
            self.t1_armed = true;
        }
    }

    /// The client's handling of a frame during data transfer.
    pub fn client_on_frame(&mut self, frame: &Apdu) -> (r: Result<FrameAction, RequestError>)
        requires
            old(self).valid(),
        ensures
            final(self).valid(),
            match frame@ {
                crate::apci::ApduView::I { send_seq, recv_seq, .. } => if send_seq != old(self).recv_seq {
                    r == Err::<FrameAction, RequestError>(
                        RequestError::SequenceError { expected: old(self).recv_seq, got: send_seq },
                    ) && *final(self) == *old(self)
                } else {
                    r == Ok::<FrameAction, RequestError>(FrameAction::Deliver) && *final(self) == (SessionState {
                        recv_seq: ((old(self).recv_seq + 1) % 32768) as u16,
                        ack_seq: recv_seq,
                        t1_armed: old(self).t1_armed && !(unconfirmed(old(self).send_seq, recv_seq) == 0
                            && !old(self).testfr_pending),
                        ..*old(self)
                    })
                },
                crate::apci::ApduView::S { recv_seq } => r == Ok::<FrameAction, RequestError>(FrameAction::Ignore)
                    && *final(self) == (SessionState {
                    ack_seq: recv_seq,
                    t1_armed: old(self).t1_armed && !(unconfirmed(old(self).send_seq, recv_seq) == 0
                        && !old(self).testfr_pending),
                    ..*old(self)
                }),
                crate::apci::ApduView::U(UFunction::TestFrAct) => r == Ok::<FrameAction, RequestError>(
                    FrameAction::Reply(UFunction::TestFrCon),
                ) && *final(self) == *old(self),
                crate::apci::ApduView::U(UFunction::TestFrCon) => r == Ok::<FrameAction, RequestError>(
                    FrameAction::Ignore,
                ) && *final(self) == (if old(self).testfr_pending {
                    SessionState {
                        testfr_pending: false,
                        t1_armed: old(self).t1_armed && old(self).spec_unconfirmed() != 0,
                        ..*old(self)
                    }
                } else {
                    *old(self)
                }),
                crate::apci::ApduView::U(UFunction::StopDtAct) => r == Ok::<FrameAction, RequestError>(
                    FrameAction::ReplyAndStop(UFunction::StopDtCon),
                ) && *final(self) == *old(self),
                crate::apci::ApduView::U(_) => r == Ok::<FrameAction, RequestError>(FrameAction::Ignore)
                    && *final(self) == *old(self),
            },
    {
        match frame {
            Apdu::I { send_seq, recv_seq, .. } => {
                self.receive_i_frame(*send_seq, *recv_seq)?;
                Ok(FrameAction::Deliver)
            },
            Apdu::S { recv_seq } => {
                self.process_ack(*recv_seq);
                Ok(FrameAction::Ignore)
            },
            Apdu::U(UFunction::TestFrAct) => Ok(FrameAction::Reply(UFunction::TestFrCon)),
            Apdu::U(UFunction::TestFrCon) => {
                self.on_testfr_con();
                Ok(FrameAction::Ignore)
            },
            Apdu::U(UFunction::StopDtAct) => Ok(FrameAction::ReplyAndStop(UFunction::StopDtCon)),
            Apdu::U(_) => Ok(FrameAction::Ignore),
        }
    }

    /// The server's handling of a frame: STARTDT and STOPDT are confirmed and
    /// switch data transfer on and off, and I-frames are ignored while it is off.
    pub fn server_on_frame(&mut self, frame: &Apdu) -> (r: Result<FrameAction, RequestError>)
        requires
            old(self).valid(),
        ensures
            final(self).valid(),
            match frame@ {
                crate::apci::ApduView::I { send_seq, recv_seq, .. } => if !old(self).data_transfer_active {
                    r == Ok::<FrameAction, RequestError>(FrameAction::Ignore) && *final(self) == *old(self)
                } else if send_seq != old(self).recv_seq {
                    r == Err::<FrameAction, RequestError>(
                        RequestError::SequenceError { expected: old(self).recv_seq, got: send_seq },
                    ) && *final(self) == *old(self)
                } else {
                    r == Ok::<FrameAction, RequestError>(FrameAction::Deliver) && *final(self) == (SessionState {
                        recv_seq: ((old(self).recv_seq + 1) % 32768) as u16,
                        ack_seq: recv_seq,
                        t1_armed: old(self).t1_armed && !(unconfirmed(old(self).send_seq, recv_seq) == 0
                            && !old(self).testfr_pending),
                        ..*old(self)
                    })
                },
                crate::apci::ApduView::S { recv_seq } => r == Ok::<FrameAction, RequestError>(FrameAction::Ignore)
                    && *final(self) == (SessionState {
                    ack_seq: recv_seq,
                    t1_armed: old(self).t1_armed && !(unconfirmed(old(self).send_seq, recv_seq) == 0
                        && !old(self).testfr_pending),
                    ..*old(self)
                }),
                crate::apci::ApduView::U(UFunction::StartDtAct) => r == Ok::<FrameAction, RequestError>(
                    FrameAction::Reply(UFunction::StartDtCon),
                ) && *final(self) == (SessionState { data_transfer_active: true, ..*old(self) }),
                crate::apci::ApduView::U(UFunction::StopDtAct) => r == Ok::<FrameAction, RequestError>(
                    FrameAction::Reply(UFunction::StopDtCon),
                ) && *final(self) == (SessionState { data_transfer_active: false, ..*old(self) }),
                crate::apci::ApduView::U(UFunction::TestFrAct) => r == Ok::<FrameAction, RequestError>(
                    FrameAction::Reply(UFunction::TestFrCon),
                ) && *final(self) == *old(self),
                crate::apci::ApduView::U(UFunction::TestFrCon) => r == Ok::<FrameAction, RequestError>(
                    FrameAction::Ignore,
                ) && *final(self) == (if old(self).testfr_pending {
                    SessionState {
                        testfr_pending: false,
                        t1_armed: old(self).t1_armed && old(self).spec_unconfirmed() != 0,
                        ..*old(self)
                    }
                } else {
                    *old(self)
                }),
                crate::apci::ApduView::U(_) => r == Ok::<FrameAction, RequestError>(FrameAction::Ignore)
                    && *final(self) == *old(self),
            },
    {
        match frame {
            Apdu::U(UFunction::StartDtAct) => {
                self.data_transfer_active = true;
                Ok(FrameAction::Reply(UFunction::StartDtCon))
            },
            Apdu::U(UFunction::StopDtAct) => {
                self.data_transfer_active = false;
                Ok(FrameAction::Reply(UFunction::StopDtCon))
            },
            Apdu::U(UFunction::TestFrAct) => Ok(FrameAction::Reply(UFunction::TestFrCon)),
            Apdu::U(UFunction::TestFrCon) => {
                self.on_testfr_con();
                Ok(FrameAction::Ignore)
            },
            Apdu::I { send_seq, recv_seq, .. } => {
                if !self.data_transfer_active {
                    return Ok(FrameAction::Ignore);
                }
                self.receive_i_frame(*send_seq, *recv_seq)?;
                Ok(FrameAction::Deliver)
            },
            Apdu::S { recv_seq } => {
                self.process_ack(*recv_seq);
                Ok(FrameAction::Ignore)
            },
            Apdu::U(_) => Ok(FrameAction::Ignore),
        }
    }

    /// Whether the server may send a queued ASDU now: data transfer is on and
    /// the window of k sent frames has room.
    pub fn can_send(&self, k: u16) -> (r: bool)
        ensures
            r == (self.data_transfer_active && self.spec_unconfirmed() < k),
    {
        self.data_transfer_active && self.unconfirmed_count() < k
    }
}

/// The client's handling of a frame while data transfer is stopped: a test
/// is answered, a STOPDT is confirmed and ends the connection, the rest is
/// ignored.
pub fn client_idle_frame_action(frame: &Apdu) -> (r: FrameAction)
    ensures
        r == (match frame@ {
            crate::apci::ApduView::U(UFunction::TestFrAct) => FrameAction::Reply(UFunction::TestFrCon),
            crate::apci::ApduView::U(UFunction::StopDtAct) => FrameAction::ReplyAndStop(UFunction::StopDtCon),
            _ => FrameAction::Ignore,
        }),
{
    match frame {
        Apdu::U(UFunction::TestFrAct) => FrameAction::Reply(UFunction::TestFrCon),
        Apdu::U(UFunction::StopDtAct) => FrameAction::ReplyAndStop(UFunction::StopDtCon),
        _ => FrameAction::Ignore,
    }
}

// ---------------------------------------------------------------------------
// Laws
// ---------------------------------------------------------------------------
/// Sending an I-frame with room left below 2^15 - 1 unconfirmed frames adds
/// exactly one unconfirmed frame.
pub proof fn lemma_send_adds_unconfirmed(s: SessionState)
    requires
        s.valid(),
        s.spec_unconfirmed() < 32767,
    ensures
        unconfirmed(((s.send_seq + 1) % 32768) as u16, s.ack_seq) == s.spec_unconfirmed() + 1,
{
    let a = s.ack_seq as int;
    let x = s.send_seq as int;
    let y = (x + 1) % 32768;
    vstd::arithmetic::div_mod::lemma_mod_mod(x - a + 65536, 32768, 2);
    vstd::arithmetic::div_mod::lemma_mod_mod(y - a + 65536, 32768, 2);
}

/// Acknowledging everything sent leaves nothing unconfirmed.
pub proof fn lemma_full_ack(s: SessionState)
    ensures
        unconfirmed(s.send_seq, s.send_seq) == 0,
{
}

} // verus!
