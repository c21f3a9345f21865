//! The client (master) side: configuration, the requests that the client
//! handle builds, and the CS 101 primary link rules.
use vstd::prelude::*;

use crate::asdu::ioa::InformationObjectAddress;
use crate::asdu::{Asdu, AsduBuilder, AsduHeader, AsduView, Indexed};
use crate::error::RequestError;
use crate::ft12::{ControlField, LinkAddress, LinkFrame, LinkFrameView, PrimaryFunction, SecondaryFunction};
use crate::info::system::{ClockSyncCommand, CounterInterrogationCommand, InterrogationCommand, ReadCommand};
use crate::info::InformationObject;
use crate::transport::RetryStrategy;
use crate::types::{
    ApciParameters, AppLayerParameters, CauseOfTransmission, CommonAddress, Cp56Time2a,
    LinkLayerParameters, OriginatorAddress, TypeId,
};

verus! {

/// Connection state reported to the client handler.
#[derive(Debug, Clone, Copy, PartialEq, Eq, Structural)]
pub enum ConnectionState {
    Connected,
    Disconnected,
}

/// Protocol-level configuration for a 104 client.
#[derive(Debug, Clone, Copy)]
pub struct ClientConfig {
    pub apci: ApciParameters,
    pub app: AppLayerParameters,
    pub retry: RetryStrategy,
}

impl Default for ClientConfig {
    fn default() -> (r: Self)
        ensures
            crate::types::apci_params::apci_default_values(r.apci@),
            r.app@ == crate::types::app_layer_params::cs104_values(),
            crate::types::duration::duration_nanos(r.retry.min_delay) == 1_000_000_000,
            crate::types::duration::duration_nanos(r.retry.max_delay) == 30_000_000_000,
    {
        ClientConfig {
            apci: ApciParameters::default(),
            app: AppLayerParameters::cs104_default(),
            retry: RetryStrategy::default(),
        }
    }
}

/// Protocol-level configuration for a 101 master.
#[derive(Debug, Clone, Copy)]
pub struct Client101Config {
    pub link: LinkLayerParameters,
    pub app: AppLayerParameters,
    pub retry: RetryStrategy,
    pub link_address: LinkAddress,
}

/// A request ASDU with a single object at address `address`.
pub open spec fn single_request(
    cause: CauseOfTransmission,
    ca: CommonAddress,
    address: InformationObjectAddress,
    object: InformationObject,
) -> AsduView {
    AsduView {
        header: AsduHeader {
            type_id: object.spec_type_id(),
            is_sequence: false,
            num_objects: 1,
            cause,
            is_test: false,
            is_negative: false,
            originator_address: OriginatorAddress(0),
            common_address: ca,
        },
        objects: seq![Indexed { address, value: object }],
    }
}

/// Builds a request of one object with the ASDU builder.
fn build_single(
    cause: CauseOfTransmission,
    ca: CommonAddress,
    address: InformationObjectAddress,
    object: InformationObject,
) -> (r: Asdu)
    ensures
        r@ == single_request(cause, ca, address, object),
{
    let builder = AsduBuilder::new(cause, ca);
    let builder = match builder.add_at(address, object) {
        Ok(b) => b,
        Err(_) => {
            return vstd::pervasive::unreached();
        },
    };
    match builder.build() {
        Ok(a) => {
            assert(a@.objects =~= seq![Indexed { address, value: object }]);
            a
        },
        Err(_) => vstd::pervasive::unreached(),
    }
}

/// The station interrogation request: activation, one interrogation command
/// with the qualifier `qoi` at address 0.
pub fn interrogation_request(ca: CommonAddress, qoi: u8) -> (r: Asdu)
    ensures
        r@ == single_request(
            CauseOfTransmission::Activation,
            ca,
            InformationObjectAddress::spec_new(0),
            InformationObject::Interrogation(InterrogationCommand { qoi }),
        ),
{
    build_single(
        CauseOfTransmission::Activation,
        ca,
        InformationObjectAddress::from(0u16),
        InformationObject::Interrogation(InterrogationCommand::new(qoi)),
    )
}

/// The counter interrogation request: activation, one counter interrogation
/// command with the qualifier `qcc` at address 0.
pub fn counter_interrogation_request(ca: CommonAddress, qcc: u8) -> (r: Asdu)
    ensures
        r@ == single_request(
            CauseOfTransmission::Activation,
            ca,
            InformationObjectAddress::spec_new(0),
            InformationObject::CounterInterrogation(CounterInterrogationCommand { qcc }),
        ),
{
    build_single(
        CauseOfTransmission::Activation,
        ca,
        InformationObjectAddress::from(0u16),
        InformationObject::CounterInterrogation(CounterInterrogationCommand::new(qcc)),
    )
}

/// The read request: request, one read command at the object's address.
pub fn read_request(ca: CommonAddress, ioa: InformationObjectAddress) -> (r: Asdu)
    ensures
        r@ == single_request(CauseOfTransmission::Request, ca, ioa, InformationObject::Read(ReadCommand)),
{
    build_single(CauseOfTransmission::Request, ca, ioa, InformationObject::Read(ReadCommand))
}

/// The clock synchronization request: activation, one clock synchronization
/// command with the time at address 0.
pub fn clock_sync_request(ca: CommonAddress, time: Cp56Time2a) -> (r: Asdu)
    ensures
        r@ == single_request(
            CauseOfTransmission::Activation,
            ca,
            InformationObjectAddress::spec_new(0),
            InformationObject::ClockSync(ClockSyncCommand { time }),
        ),
{
    build_single(
        CauseOfTransmission::Activation,
        ca,
        InformationObjectAddress::from(0u16),
        InformationObject::ClockSync(ClockSyncCommand::new(time)),
    )
}

// ---------------------------------------------------------------------------
// CS 101 primary station
// ---------------------------------------------------------------------------
/// The link state of a primary (master) station.
#[derive(Debug, Clone, Copy, PartialEq, Eq, Structural)]
pub struct LinkState {
    /// Frame count bit — toggled after each confirmed exchange.
    pub fcb: bool,
    /// Whether the link has been successfully reset.
    pub link_reset: bool,
}

/// How a poll for class data was answered.
#[derive(Debug, Clone, Copy, PartialEq, Eq, Structural)]
pub enum PollOutcome {
    /// User data: decode and deliver it; `acd` tells whether class 1 data waits.
    Data { acd: bool },
    /// No data; `acd` tells whether class 1 data waits.
    NoData { acd: bool },
    /// A negative acknowledgment.
    Nack,
    /// Any other answer.
    Unexpected,
}

/// How a send/confirm was answered.
#[derive(Debug, Clone, Copy, PartialEq, Eq, Structural)]
pub enum SendOutcome {
    Confirmed,
    Nack,
    Unexpected,
}

/// Whether a frame is a positive acknowledgment: a secondary ACK or the single character.
pub open spec fn is_ack(f: LinkFrameView) -> bool {
    ||| f matches LinkFrameView::Fixed {
        control: ControlField::Secondary { function: SecondaryFunction::Ack, .. },
        ..
    }
    ||| f matches LinkFrameView::SingleAck
}

/// Whether a frame is a secondary NACK in a fixed frame.
pub open spec fn is_nack(f: LinkFrameView) -> bool {
    f matches LinkFrameView::Fixed { control: ControlField::Secondary { function: SecondaryFunction::Nack, .. }, .. }
}

impl LinkState {
    pub fn new() -> (r: Self)
        ensures
            r == (LinkState { fcb: false, link_reset: false }),
    {
        LinkState { fcb: false, link_reset: false }
    }

    /// Toggle FCB after a successful confirmed exchange.
    pub fn toggle_fcb(&mut self)
        ensures
            *final(self) == (LinkState { fcb: !old(self).fcb, ..*old(self) }),
    {
        self.fcb = !self.fcb;
    }

    /// The reset of the remote link: FC 0 without a valid frame count.
    pub fn reset_link_frame(address: LinkAddress) -> (r: LinkFrame)
        ensures
            r@ == (LinkFrameView::Fixed {
                control: ControlField::Primary { fcb: false, fcv: false, function: PrimaryFunction::ResetLink },
                address,
            }),
    {
        LinkFrame::Fixed {
            control: ControlField::Primary { fcb: false, fcv: false, function: PrimaryFunction::ResetLink },
            address,
        }
    }

    /// The answer to the reset: an acknowledgment resets the link, and the
    /// frame count bit starts at true; a NACK or anything else fails.
    pub fn on_reset_response(&mut self, response: &LinkFrame) -> (r: Result<(), RequestError>)
        ensures
            is_ack(response@) ==> r is Ok && *final(self) == (LinkState { fcb: true, link_reset: true }),
            is_nack(response@) ==> r == Err::<(), RequestError>(RequestError::LinkNack) && *final(self)
                == *old(self),
            !is_ack(response@) && !is_nack(response@) ==> r == Err::<(), RequestError>(
                RequestError::LinkResetFailed,
            ) && *final(self) == *old(self),
    {
        match response {
            LinkFrame::Fixed {
                control: ControlField::Secondary { function: SecondaryFunction::Ack, .. },
                ..
            } => {
                self.link_reset = true;
                self.fcb = true;
                Ok(())
            },
            LinkFrame::SingleAck => {
                self.link_reset = true;
                self.fcb = true;
                Ok(())
            },
            LinkFrame::Fixed {
                control: ControlField::Secondary { function: SecondaryFunction::Nack, .. },
                ..
            } => Err(RequestError::LinkNack),
            _ => Err(RequestError::LinkResetFailed),
        }
    }

    /// The poll for class data (`function` is a class request), with the
    /// current frame count bit, valid.
    pub fn poll_frame(&self, function: PrimaryFunction, address: LinkAddress) -> (r: LinkFrame)
        ensures
            r@ == (LinkFrameView::Fixed {
                control: ControlField::Primary { fcb: self.fcb, fcv: true, function },
                address,
            }),
    {
        LinkFrame::Fixed { control: ControlField::Primary { fcb: self.fcb, fcv: true, function }, address }
    }

    /// The send/confirm of user data, with the current frame count bit, valid.
    pub fn send_confirm_frame(&self, address: LinkAddress, data: bytes::Bytes) -> (r: LinkFrame)
        ensures
            r@ == (LinkFrameView::Variable {
                control: ControlField::Primary { fcb: self.fcb, fcv: true, function: PrimaryFunction::SendConfirm },
                address,
                data: crate::wire::bytes_seq(data),
            }),
    {
        LinkFrame::Variable {
            control: ControlField::Primary { fcb: self.fcb, fcv: true, function: PrimaryFunction::SendConfirm },
            address,
            data,
        }
    }
}

/// What the answer to a class poll means.
pub fn classify_poll_response(response: &LinkFrame) -> (r: PollOutcome)
    ensures
        r == (match response@ {
            LinkFrameView::Variable { control: ControlField::Secondary { acd, .. }, .. } => PollOutcome::Data {
                acd,
            },
            LinkFrameView::Fixed {
                control: ControlField::Secondary { acd, function: SecondaryFunction::NoData, .. },
                ..
            } => PollOutcome::NoData { acd },
            LinkFrameView::Fixed {
                control: ControlField::Secondary { function: SecondaryFunction::Nack, .. },
                ..
            } => PollOutcome::Nack,
            _ => PollOutcome::Unexpected,
        }),
{
    match response {
        LinkFrame::Variable { control: ControlField::Secondary { acd, .. }, .. } => PollOutcome::Data {
            acd: *acd,
        },
        LinkFrame::Fixed {
            control: ControlField::Secondary { acd, function: SecondaryFunction::NoData, .. },
            ..
        } => PollOutcome::NoData { acd: *acd },
        LinkFrame::Fixed { control: ControlField::Secondary { function: SecondaryFunction::Nack, .. }, .. } => {
            PollOutcome::Nack
        },
        _ => PollOutcome::Unexpected,
    }
}

/// Whether class 1 polling goes on: only user data or no data with ACD set does.
pub fn poll_again(outcome: PollOutcome) -> (r: bool)
    ensures
        r == (match outcome {
            PollOutcome::Data { acd } => acd,
            PollOutcome::NoData { acd } => acd,
            _ => false,
        }),
{
    match outcome {
        PollOutcome::Data { acd } => acd,
        PollOutcome::NoData { acd } => acd,
        _ => false,
    }
}

/// What the answer to a send/confirm means.
pub fn classify_send_response(response: &LinkFrame) -> (r: SendOutcome)
    ensures
        is_ack(response@) ==> r == SendOutcome::Confirmed,
        is_nack(response@) ==> r == SendOutcome::Nack,
        !is_ack(response@) && !is_nack(response@) ==> r == SendOutcome::Unexpected,
{
    match response {
        LinkFrame::Fixed { control: ControlField::Secondary { function: SecondaryFunction::Ack, .. }, .. } => {
            SendOutcome::Confirmed
        },
        LinkFrame::SingleAck => SendOutcome::Confirmed,
        LinkFrame::Fixed { control: ControlField::Secondary { function: SecondaryFunction::Nack, .. }, .. } => {
            SendOutcome::Nack
        },
        _ => SendOutcome::Unexpected,
    }
}

/// After `n` confirmed exchanges the frame count bit has toggled `n` times:
/// it is back where it started exactly when `n` is even.
pub proof fn lemma_fcb_alternates(s: LinkState, n: nat)
    ensures
        toggled(s, n).fcb == (if n % 2 == 0 {
            s.fcb
        } else {
            !s.fcb
        }),
        toggled(s, n).link_reset == s.link_reset,
    decreases n,
{
    if n > 0 {
        lemma_fcb_alternates(s, (n - 1) as nat);
    }
}

/// The link state after `n` toggles.
pub open spec fn toggled(s: LinkState, n: nat) -> LinkState
    decreases n,
{
    if n == 0 {
        s
    } else {
        let t = toggled(s, (n - 1) as nat);
        LinkState { fcb: !t.fcb, ..t }
    }
}

} // verus!
