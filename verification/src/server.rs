//! The server (slave) side: configuration, the queues of outgoing ASDUs, the
//! activation confirmation, and the CS 101 secondary link rules.
use std::collections::VecDeque;
use vstd::prelude::*;

use crate::asdu::layout::asdu_encode_outcome;
use crate::asdu::{asdu_encodable, Asdu, AsduHeader, AsduView};
use crate::error::RequestError;
use crate::ft12::{ControlField, LinkAddress, LinkFrame, LinkFrameView, PrimaryFunction, SecondaryFunction};
use crate::types::{ApciParameters, AppLayerParameters, CauseOfTransmission, LinkLayerParameters};
use crate::wire::{bytes_mut_with_capacity, freeze};

verus! {

/// How the server should respond to a received ASDU from the master.
#[derive(Debug, Clone, Copy, PartialEq, Eq, Structural)]
pub enum AsduResponse {
    /// Positive confirmation (P/N bit = positive).
    Confirm,
    /// Negative confirmation (P/N bit = negative).
    Negative,
}

/// Priority class for enqueued ASDUs.
///
/// For CS101 (FT 1.2), class 1 data is delivered via `RequestClass1` polls
/// and sets the ACD bit. Class 2 data is delivered via `RequestClass2` polls.
///
/// For CS104, both classes are sent as I-frames (class 1 has priority).
#[derive(Debug, Clone, Copy, PartialEq, Eq, Structural)]
pub enum EventClass {
    /// High priority (spontaneous events, interrogation responses).
    Class1,
    /// Low priority (background scan, periodic).
    Class2,
}

/// Configuration for a CS104 server.
#[derive(Debug, Clone, Copy)]
pub struct Server104Config {
    pub apci: ApciParameters,
    pub app: AppLayerParameters,
    pub max_connections: usize,
}

impl Default for Server104Config {
    fn default() -> (r: Self)
        ensures
            crate::types::apci_params::apci_default_values(r.apci@),
            r.app@ == crate::types::app_layer_params::cs104_values(),
            r.max_connections == 1,
    {
        Server104Config {
            apci: ApciParameters::default(),
            app: AppLayerParameters::cs104_default(),
            max_connections: 1,
        }
    }
}

/// Configuration for a CS101 slave.
#[derive(Debug, Clone, Copy)]
pub struct Slave101Config {
    pub link: LinkLayerParameters,
    pub app: AppLayerParameters,
    pub link_address: LinkAddress,
}

impl Default for Slave101Config {
    fn default() -> (r: Self)
        ensures
            crate::types::link_layer_params::link_default_values(r.link@),
            r.app@ == crate::types::app_layer_params::cs101_values(),
            r.link_address == LinkAddress(1),
    {
        Slave101Config {
            link: LinkLayerParameters::default(),
            app: AppLayerParameters::cs101_default(),
            link_address: LinkAddress(1),
        }
    }
}

// ---------------------------------------------------------------------------
// Activation confirmation
// ---------------------------------------------------------------------------
/// The confirmation that a received ASDU is answered with: only an activation
/// or deactivation is confirmed, by the same ASDU with the cause turned into
/// its confirmation and the P/N bit set for a negative response.
pub open spec fn confirmation(original: AsduView, response: AsduResponse) -> Option<AsduView> {
    let cot = original.header.cause;
    if cot != CauseOfTransmission::Activation && cot != CauseOfTransmission::Deactivation {
        None
    } else {
        Some(
            AsduView {
                header: AsduHeader {
                    cause: if cot == CauseOfTransmission::Activation {
                        CauseOfTransmission::ActivationCon
                    } else {
                        CauseOfTransmission::DeactivationCon
                    },
                    is_negative: response == AsduResponse::Negative,
                    ..original.header
                },
                objects: original.objects,
            },
        )
    }
}

/// Build the activation confirmation for a received ASDU, if it is owed one.
pub fn confirmation_for(original: &Asdu, response: AsduResponse) -> (r: Option<Asdu>)
    ensures
        match (r, confirmation(original@, response)) {
            (Some(a), Some(c)) => a@ == c,
            (None, None) => true,
            _ => false,
        },
{
    let cot = original.header.cause;
    if cot != CauseOfTransmission::Activation && cot != CauseOfTransmission::Deactivation {
        return None;
    }
    let confirm_cot = if cot == CauseOfTransmission::Activation {
        CauseOfTransmission::ActivationCon
    } else {
        CauseOfTransmission::DeactivationCon
    };
    let is_negative = response == AsduResponse::Negative;
    let mut objects = Vec::new();
    let mut i: usize = 0;
    while i < original.objects.len()
        invariant
            i <= original.objects@.len(),
            objects@ == original.objects@.subrange(0, i as int),
        decreases original.objects.len() - i,
    {
        objects.push(original.objects[i]);
        assert(objects@ =~= original.objects@.subrange(0, i + 1));
        i = i + 1;
    }
    assert(objects@ =~= original.objects@);
    Some(
        Asdu {
            header: AsduHeader {
                type_id: original.header.type_id,
                is_sequence: original.header.is_sequence,
                num_objects: original.header.num_objects,
                cause: confirm_cot,
                is_test: original.header.is_test,
                is_negative,
                originator_address: original.header.originator_address,
                common_address: original.header.common_address,
            },
            objects,
        },
    )
}

// ---------------------------------------------------------------------------
// Queues of outgoing ASDUs
// ---------------------------------------------------------------------------
/// The queues of ASDUs waiting to be sent, one per class.
pub struct ServerQueues {
    class1: VecDeque<Asdu>,
    class2: VecDeque<Asdu>,
}

impl ServerQueues {
    /// The class 1 queue, front first.
    pub closed spec fn spec_class1(&self) -> Seq<Asdu> {
        self.class1@
    }

    /// The class 2 queue, front first.
    pub closed spec fn spec_class2(&self) -> Seq<Asdu> {
        self.class2@
    }

    /// Every queued ASDU can be encoded.
    pub open spec fn all_encodable(&self) -> bool {
        &&& forall|i: int| 0 <= i < self.spec_class1().len() ==> asdu_encodable((#[trigger] self.spec_class1()[i])@)
        &&& forall|i: int| 0 <= i < self.spec_class2().len() ==> asdu_encodable((#[trigger] self.spec_class2()[i])@)
    }

    pub fn new() -> (r: Self)
        ensures
            r.spec_class1() == Seq::<Asdu>::empty(),
            r.spec_class2() == Seq::<Asdu>::empty(),
    {
        ServerQueues { class1: VecDeque::new(), class2: VecDeque::new() }
    }

    /// Queues an ASDU at the back of its class.
    pub fn enqueue(&mut self, asdu: Asdu, class: EventClass)
        ensures
            class == EventClass::Class1 ==> final(self).spec_class1() == old(self).spec_class1().push(asdu)
                && final(self).spec_class2() == old(self).spec_class2(),
            class == EventClass::Class2 ==> final(self).spec_class2() == old(self).spec_class2().push(asdu)
                && final(self).spec_class1() == old(self).spec_class1(),
    {
        match class {
            EventClass::Class1 => self.class1.push_back(asdu),
            EventClass::Class2 => self.class2.push_back(asdu),
        }
    }

    /// Whether class 1 data waits (the ACD bit).
    pub fn has_class1(&self) -> (r: bool)
        ensures
            r == (self.spec_class1().len() > 0),
    {
        self.class1.len() > 0
    }

    /// Whether anything waits.
    pub fn has_any(&self) -> (r: bool)
        ensures
            r == (self.spec_class1().len() > 0 || self.spec_class2().len() > 0),
    {
        self.class1.len() > 0 || self.class2.len() > 0
    }

    /// The next ASDU to send as an I-frame: class 1 first, then class 2.
    pub fn pop_next(&mut self) -> (r: Option<Asdu>)
        ensures
            old(self).spec_class1().len() > 0 ==> r == Some(old(self).spec_class1()[0])
                && final(self).spec_class1() == old(self).spec_class1().drop_first()
                && final(self).spec_class2() == old(self).spec_class2(),
            old(self).spec_class1().len() == 0 && old(self).spec_class2().len() > 0 ==> r == Some(
                old(self).spec_class2()[0],
            ) && final(self).spec_class1() == old(self).spec_class1() && final(self).spec_class2()
                == old(self).spec_class2().drop_first(),
            old(self).spec_class1().len() == 0 && old(self).spec_class2().len() == 0 ==> r is None
                && final(self).spec_class1() == old(self).spec_class1() && final(self).spec_class2()
                == old(self).spec_class2(),
    {
        match self.class1.pop_front() {
            Some(a) => {
                assert(self.class1@ =~= old(self).class1@.drop_first());
                Some(a)
            },
            None => {
                let r = self.class2.pop_front();
                assert(r is Some ==> self.class2@ =~= old(self).class2@.drop_first());
                r
            },
        }
    }

    /// The front of one class, taken out.
    pub fn pop_class(&mut self, class: EventClass) -> (r: Option<Asdu>)
        ensures
            class == EventClass::Class1 ==> (if old(self).spec_class1().len() > 0 {
                r == Some(old(self).spec_class1()[0]) && final(self).spec_class1()
                    == old(self).spec_class1().drop_first()
            } else {
                r is None && final(self).spec_class1() == old(self).spec_class1()
            }) && final(self).spec_class2() == old(self).spec_class2(),
            class == EventClass::Class2 ==> (if old(self).spec_class2().len() > 0 {
                r == Some(old(self).spec_class2()[0]) && final(self).spec_class2()
                    == old(self).spec_class2().drop_first()
            } else {
                r is None && final(self).spec_class2() == old(self).spec_class2()
            }) && final(self).spec_class1() == old(self).spec_class1(),
    {
        match class {
            EventClass::Class1 => {
                let r = self.class1.pop_front();
                assert(r is Some ==> self.class1@ =~= old(self).class1@.drop_first());
                r
            },
            EventClass::Class2 => {
                let r = self.class2.pop_front();
                assert(r is Some ==> self.class2@ =~= old(self).class2@.drop_first());
                r
            },
        }
    }
}

// ---------------------------------------------------------------------------
// CS 101 secondary station
// ---------------------------------------------------------------------------
/// The link state of a secondary (slave) station.
#[derive(Debug, Clone, Copy, PartialEq, Eq, Structural)]
pub struct SecondaryLinkState {
    /// Expected FCB from master (toggled after each successful exchange).
    pub expected_fcb: bool,
    /// Whether the link has been reset by the master.
    pub link_reset: bool,
}

/// What the secondary station does with a received frame.
#[derive(Debug)]
pub enum SlaveAction {
    /// Not a request that is answered (not primary, or before the link reset).
    Ignore,
    /// Send this frame.
    Respond(LinkFrame),
    /// User data to confirm: decode it as an ASDU, hand it to the handler,
    /// and send [`slave_confirm_frame`] with the outcome.
    Deliver(bytes::Bytes),
}

/// A fixed secondary frame.
pub open spec fn secondary_fixed(acd: bool, function: SecondaryFunction, address: LinkAddress) -> LinkFrameView {
    LinkFrameView::Fixed { control: ControlField::Secondary { acd, dfc: false, function }, address }
}

/// The answer to a send/confirm: ACK where the ASDU decoded and the handler
/// confirmed, NACK otherwise; ACD tells whether class 1 data waits.
pub open spec fn confirm_frame(response: Option<AsduResponse>, acd: bool, address: LinkAddress) -> LinkFrameView {
    secondary_fixed(
        acd,
        if response == Some(AsduResponse::Confirm) {
            SecondaryFunction::Ack
        } else {
            SecondaryFunction::Nack
        },
        address,
    )
}

/// The answer to a send/confirm whose user data was delivered.
pub fn slave_confirm_frame(response: Option<AsduResponse>, acd: bool, address: LinkAddress) -> (r: LinkFrame)
    ensures
        r@ == confirm_frame(response, acd, address),
{
    let function = match response {
        Some(AsduResponse::Confirm) => SecondaryFunction::Ack,
        _ => SecondaryFunction::Nack,
    };
    LinkFrame::Fixed { control: ControlField::Secondary { acd, dfc: false, function }, address }
}

/// A slave action as a value.
pub enum SlaveActionView {
    Ignore,
    Respond(LinkFrameView),
    Deliver(Seq<u8>),
}

/// A slave action as a value, or the error.
pub open spec fn slave_action_view(r: Result<SlaveAction, RequestError>) -> Result<SlaveActionView, RequestError> {
    match r {
        Ok(SlaveAction::Ignore) => Ok(SlaveActionView::Ignore),
        Ok(SlaveAction::Respond(f)) => Ok(SlaveActionView::Respond(f@)),
        Ok(SlaveAction::Deliver(d)) => Ok(SlaveActionView::Deliver(crate::wire::bytes_seq(d))),
        Err(e) => Err(e),
    }
}

/// The answer to a class poll whose queue front is `next` (if any): the ASDU
/// as user data, or no data; ACD tells whether class 1 data still waits
/// after the poll. A class 1 poll answered with no data never sets ACD.
pub open spec fn class_response(
    class: EventClass,
    next: Option<Asdu>,
    class1_left: bool,
    v: crate::types::app_layer_params::AppLayerValues,
    address: LinkAddress,
) -> Result<LinkFrameView, RequestError> {
    match next {
        Some(a) => match asdu_encode_outcome(a@, v, Seq::empty()) {
            (Err(e), _) => Err(RequestError::Adu(e)),
            (Ok(_), bytes) => Ok(
                LinkFrameView::Variable {
                    control: ControlField::Secondary { acd: class1_left, dfc: false, function: SecondaryFunction::UserData },
                    address,
                    data: bytes,
                },
            ),
        },
        None => Ok(
            secondary_fixed(
                if class == EventClass::Class1 {
                    false
                } else {
                    class1_left
                },
                SecondaryFunction::NoData,
                address,
            ),
        ),
    }
}

impl SecondaryLinkState {
    pub fn new() -> (r: Self)
        ensures
            r == (SecondaryLinkState { expected_fcb: true, link_reset: false }),
    {
        SecondaryLinkState { expected_fcb: true, link_reset: false }
    }

    /// The answer to a class poll: the front of the class queue as user
    /// data, or no data.
    fn respond_class(
        queues: &mut ServerQueues,
        class: EventClass,
        app: &AppLayerParameters,
        address: LinkAddress,
    ) -> (r: Result<LinkFrame, RequestError>)
        requires
            old(queues).all_encodable(),
        ensures
            final(queues).all_encodable(),
            class == EventClass::Class1 ==> (if old(queues).spec_class1().len() > 0 {
                final(queues).spec_class1() == old(queues).spec_class1().drop_first()
            } else {
                final(queues).spec_class1() == old(queues).spec_class1()
            }) && final(queues).spec_class2() == old(queues).spec_class2(),
            class == EventClass::Class2 ==> (if old(queues).spec_class2().len() > 0 {
                final(queues).spec_class2() == old(queues).spec_class2().drop_first()
            } else {
                final(queues).spec_class2() == old(queues).spec_class2()
            }) && final(queues).spec_class1() == old(queues).spec_class1(),
            match r {
                Ok(f) => class_response(
                    class,
                    front_of(*old(queues), class),
                    final(queues).spec_class1().len() > 0,
                    app@,
                    address,
                ) == Ok::<LinkFrameView, RequestError>(f@),
                Err(e) => class_response(
                    class,
                    front_of(*old(queues), class),
                    final(queues).spec_class1().len() > 0,
                    app@,
                    address,
                ) == Err::<LinkFrameView, RequestError>(e),
            },
    {
        let next = queues.pop_class(class);
        assert(queues.all_encodable()) by {
            assert forall|i: int| 0 <= i < queues.spec_class1().len() implies asdu_encodable(
                (#[trigger] queues.spec_class1()[i])@,
            ) by {
                if class == EventClass::Class1 && old(queues).spec_class1().len() > 0 {
                    assert(queues.spec_class1()[i] == old(queues).spec_class1()[i + 1]);
                }
            }
            assert forall|i: int| 0 <= i < queues.spec_class2().len() implies asdu_encodable(
                (#[trigger] queues.spec_class2()[i])@,
            ) by {
                if class == EventClass::Class2 && old(queues).spec_class2().len() > 0 {
                    assert(queues.spec_class2()[i] == old(queues).spec_class2()[i + 1]);
                }
            }
        }
        match next {
            Some(asdu) => {
                proof {
                    if class == EventClass::Class1 {
                        assert(asdu == old(queues).spec_class1()[0]);
                    } else {
                        assert(asdu == old(queues).spec_class2()[0]);
                    }
                }
                let mut payload = bytes_mut_with_capacity(0);
                match asdu.encode(&mut payload, app) {
                    Ok(()) => {},
                    Err(e) => {
                        return Err(RequestError::Adu(e));
                    },
                }
                let acd = queues.has_class1();
                Ok(
                    LinkFrame::Variable {
                        control: ControlField::Secondary { acd, dfc: false, function: SecondaryFunction::UserData },
                        address,
                        data: freeze(payload),
                    },
                )
            },
            None => {
                let acd = match class {
                    EventClass::Class1 => false,
                    EventClass::Class2 => queues.has_class1(),
                };
                Ok(
                    LinkFrame::Fixed {
                        control: ControlField::Secondary { acd, dfc: false, function: SecondaryFunction::NoData },
                        address,
                    },
                )
            },
        }
    }

    /// The secondary station's handling of a received frame. A reset
    /// acknowledges and resets the link and the expected FCB; a status
    /// request is answered with the link status; class polls and
    /// send/confirm are answered only after a reset, and toggle the expected
    /// FCB where the FCB is valid. ACD tells whether class 1 data waits.
    pub fn on_frame(
        &mut self,
        frame: &LinkFrame,
        queues: &mut ServerQueues,
        app: &AppLayerParameters,
        address: LinkAddress,
    ) -> (r: Result<SlaveAction, RequestError>)
        requires
            old(queues).all_encodable(),
        ensures
            final(queues).all_encodable(),
            slave_action_view(r) == slave_outcome(*old(self), frame@, *old(queues), app@, address).0,
            *final(self) == slave_outcome(*old(self), frame@, *old(queues), app@, address).1,
            final(queues).spec_class1() == slave_queues_after(*old(self), frame@, *old(queues)).0,
            final(queues).spec_class2() == slave_queues_after(*old(self), frame@, *old(queues)).1,
    {
        let (fcb, fcv, function, data) = match frame {
            LinkFrame::Fixed { control: ControlField::Primary { fcb, fcv, function }, .. } => (
                *fcb,
                *fcv,
                *function,
                None,
            ),
            LinkFrame::Variable { control: ControlField::Primary { fcb, fcv, function }, data, .. } => (
                *fcb,
                *fcv,
                *function,
                Some(data.clone()),
            ),
            _ => {
                return Ok(SlaveAction::Ignore);
            },
        };
        match function {
            PrimaryFunction::ResetLink => {
                self.link_reset = true;
                self.expected_fcb = true;
                let acd = queues.has_class1();
                Ok(
                    SlaveAction::Respond(
                        LinkFrame::Fixed {
                            control: ControlField::Secondary { acd, dfc: false, function: SecondaryFunction::Ack },
                            address,
                        },
                    ),
                )
            },
            PrimaryFunction::RequestLinkStatus => {
                let acd = queues.has_class1();
                Ok(
                    SlaveAction::Respond(
                        LinkFrame::Fixed {
                            control: ControlField::Secondary {
                                acd,
                                dfc: false,
                                function: SecondaryFunction::LinkStatus,
                            },
                            address,
                        },
                    ),
                )
            },
            PrimaryFunction::RequestClass1 => {
                if !self.link_reset {
                    return Ok(SlaveAction::Ignore);
                }
                let response = SecondaryLinkState::respond_class(queues, EventClass::Class1, app, address)?;
                if fcv {
                    self.expected_fcb = !self.expected_fcb;
                }
                Ok(SlaveAction::Respond(response))
            },
            PrimaryFunction::RequestClass2 => {
                if !self.link_reset {
                    return Ok(SlaveAction::Ignore);
                }
                let response = SecondaryLinkState::respond_class(queues, EventClass::Class2, app, address)?;
                if fcv {
                    self.expected_fcb = !self.expected_fcb;
                }
                Ok(SlaveAction::Respond(response))
            },
            PrimaryFunction::SendConfirm => {
                if !self.link_reset {
                    return Ok(SlaveAction::Ignore);
                }
                if fcv {
                    self.expected_fcb = !self.expected_fcb;
                }
                match data {
                    Some(d) => Ok(SlaveAction::Deliver(d)),
                    None => {
                        let acd = queues.has_class1();
                        Ok(
                            SlaveAction::Respond(
                                LinkFrame::Fixed {
                                    control: ControlField::Secondary {
                                        acd,
                                        dfc: false,
                                        function: SecondaryFunction::Nack,
                                    },
                                    address,
                                },
                            ),
                        )
                    },
                }
            },
        }
    }
}

/// The front of one class queue, if any.
pub open spec fn front_of(q: ServerQueues, class: EventClass) -> Option<Asdu> {
    let s = if class == EventClass::Class1 {
        q.spec_class1()
    } else {
        q.spec_class2()
    };
    if s.len() > 0 {
        Some(s[0])
    } else {
        None
    }
}

/// The queue after popping the front, if there is one.
pub open spec fn after_pop(s: Seq<Asdu>) -> Seq<Asdu> {
    if s.len() > 0 {
        s.drop_first()
    } else {
        s
    }
}

/// The class poll that a primary frame makes, if it is one that the station
/// answers from a queue (only after a link reset).
pub open spec fn polled_class(s: SecondaryLinkState, f: LinkFrameView) -> Option<EventClass> {
    match f {
        LinkFrameView::Fixed { control: ControlField::Primary { function, .. }, .. } => poll_class_of(s, function),
        LinkFrameView::Variable { control: ControlField::Primary { function, .. }, .. } => poll_class_of(
            s,
            function,
        ),
        _ => None,
    }
}

/// The class that a function polls, once the link is reset.
pub open spec fn poll_class_of(s: SecondaryLinkState, function: PrimaryFunction) -> Option<EventClass> {
    if !s.link_reset {
        None
    } else if function == PrimaryFunction::RequestClass1 {
        Some(EventClass::Class1)
    } else if function == PrimaryFunction::RequestClass2 {
        Some(EventClass::Class2)
    } else {
        None
    }
}

/// The queues after the secondary station handled a frame: a class poll
/// takes the front of its class.
pub open spec fn slave_queues_after(s: SecondaryLinkState, f: LinkFrameView, q: ServerQueues) -> (
    Seq<Asdu>,
    Seq<Asdu>,
) {
    match polled_class(s, f) {
        Some(EventClass::Class1) => (after_pop(q.spec_class1()), q.spec_class2()),
        Some(EventClass::Class2) => (q.spec_class1(), after_pop(q.spec_class2())),
        None => (q.spec_class1(), q.spec_class2()),
    }
}

/// What the secondary station answers a frame with, and its link state after.
pub open spec fn slave_outcome(
    s: SecondaryLinkState,
    f: LinkFrameView,
    q: ServerQueues,
    v: crate::types::app_layer_params::AppLayerValues,
    address: LinkAddress,
) -> (Result<SlaveActionView, RequestError>, SecondaryLinkState) {
    let acd = q.spec_class1().len() > 0;
    let (fcv, function, data) = match f {
        LinkFrameView::Fixed { control: ControlField::Primary { fcv, function, .. }, .. } => (
            fcv,
            Some(function),
            None,
        ),
        LinkFrameView::Variable { control: ControlField::Primary { fcv, function, .. }, data, .. } => (
            fcv,
            Some(function),
            Some(data),
        ),
        _ => (false, None, None),
    };
    let toggled = SecondaryLinkState { expected_fcb: if fcv {
        !s.expected_fcb
    } else {
        s.expected_fcb
    }, ..s };
    match function {
        None => (Ok(SlaveActionView::Ignore), s),
        Some(PrimaryFunction::ResetLink) => (
            Ok(SlaveActionView::Respond(secondary_fixed(acd, SecondaryFunction::Ack, address))),
            SecondaryLinkState { expected_fcb: true, link_reset: true },
        ),
        Some(PrimaryFunction::RequestLinkStatus) => (
            Ok(SlaveActionView::Respond(secondary_fixed(acd, SecondaryFunction::LinkStatus, address))),
            s,
        ),
        Some(PrimaryFunction::SendConfirm) => if !s.link_reset {
            (Ok(SlaveActionView::Ignore), s)
        } else {
            (
                match data {
                    Some(d) => Ok(SlaveActionView::Deliver(d)),
                    None => Ok(SlaveActionView::Respond(secondary_fixed(acd, SecondaryFunction::Nack, address))),
                },
                toggled,
            )
        },
        Some(_) => match polled_class(s, f) {
            None => (Ok(SlaveActionView::Ignore), s),
            Some(class) => {
                let after = slave_queues_after(s, f, q);
                match class_response(class, front_of(q, class), after.0.len() > 0, v, address) {
                    Ok(frame) => (Ok(SlaveActionView::Respond(frame)), toggled),
                    Err(e) => (Err(e), s),
                }
            },
        },
    }
}

/// After a reset the station expects FCB true, and every answered exchange
/// with a valid FCB flips what it expects next.
pub proof fn lemma_slave_fcb(
    s: SecondaryLinkState,
    f: LinkFrameView,
    q: ServerQueues,
    v: crate::types::app_layer_params::AppLayerValues,
    address: LinkAddress,
)
    ensures
        f matches LinkFrameView::Fixed { control: ControlField::Primary { function: PrimaryFunction::ResetLink, .. }, .. }
            ==> slave_outcome(s, f, q, v, address).1 == (SecondaryLinkState { expected_fcb: true, link_reset: true }),
        slave_outcome(s, f, q, v, address).0 matches Ok(SlaveActionView::Respond(_)) && s.link_reset && (f matches LinkFrameView::Fixed {
            control: ControlField::Primary { fcv: true, function: PrimaryFunction::RequestClass2, .. },
            ..
        }) ==> slave_outcome(s, f, q, v, address).1.expected_fcb == !s.expected_fcb,
{
}

} // verus!
