pub mod commands;
pub mod double_point;
pub mod integrated_totals;
pub mod measured_normalized;
pub mod measured_scaled;
pub mod measured_short;
pub mod single_point;
pub mod system;
pub mod traits;

use bytes::{Bytes, BytesMut};
use vstd::prelude::*;

use crate::error::AduError;
use crate::types::{Cp56Time2a, TypeId};
use crate::wire::{bytes_mut_seq, bytes_seq};

pub use commands::SingleCommand;
pub use double_point::DoublePointInformation;
pub use integrated_totals::BinaryCounterReading;
pub use measured_normalized::{MeasuredValueNormalized, MeasuredValueNormalizedNoQuality};
pub use measured_scaled::MeasuredValueScaled;
pub use measured_short::MeasuredValueShortFloat;
pub use single_point::SinglePointInformation;
pub use system::{
    ClockSyncCommand, CounterInterrogationCommand, EndOfInitialization, InterrogationCommand,
    ReadCommand,
};
pub use traits::{Decode, Encode};

use system::{cp56_of, decode_cp56, encode_cp56};
use traits::{put_outcome, put_outcome2, short_error};

verus! {

/// The payload of an information object — variant per TypeId.
#[derive(Debug, Clone, Copy, PartialEq)]
pub enum InformationObject {
    SinglePoint(SinglePointInformation),
    DoublePoint(DoublePointInformation),
    MeasuredNormalized(MeasuredValueNormalized),
    MeasuredNormalizedNoQuality(MeasuredValueNormalizedNoQuality),
    MeasuredScaled(MeasuredValueScaled),
    MeasuredShortFloat(MeasuredValueShortFloat),
    IntegratedTotals(BinaryCounterReading),
    SinglePointCp56(SinglePointInformation, Cp56Time2a),
    DoublePointCp56(DoublePointInformation, Cp56Time2a),
    MeasuredNormalizedCp56(MeasuredValueNormalized, Cp56Time2a),
    MeasuredScaledCp56(MeasuredValueScaled, Cp56Time2a),
    MeasuredShortFloatCp56(MeasuredValueShortFloat, Cp56Time2a),
    IntegratedTotalsCp56(BinaryCounterReading, Cp56Time2a),
    SingleCommand(SingleCommand),
    SingleCommandCp56(SingleCommand, Cp56Time2a),
    Interrogation(InterrogationCommand),
    CounterInterrogation(CounterInterrogationCommand),
    Read(ReadCommand),
    ClockSync(ClockSyncCommand),
    EndOfInit(EndOfInitialization),
}

/// What reading one element of type `T` from the front of `s` gives, and how
/// many bytes it takes.
pub open spec fn element_outcome<T: Decode>(s: Seq<u8>) -> (Result<T, AduError>, int) {
    match short_error(s, T::spec_size()) {
        Some(e) => (Err(e), 0),
        None => (Ok(T::spec_parse(s)), T::spec_size() as int),
    }
}

/// What reading an element of type `T` followed by a CP56Time2a from the front
/// of `s` gives, and how many bytes it takes (the element's bytes stay taken
/// where the time is missing).
pub open spec fn element_time_outcome<T: Decode>(s: Seq<u8>) -> (Result<(T, Cp56Time2a), AduError>, int) {
    let n = T::spec_size() as int;
    match short_error(s, T::spec_size()) {
        Some(e) => (Err(e), 0),
        None => match short_error(s.subrange(n, s.len() as int), 7) {
            Some(e) => (Err(e), n),
            None => (Ok((T::spec_parse(s), cp56_of(s.subrange(n, s.len() as int)))), n + 7),
        },
    }
}

impl InformationObject {
    /// The type identification of each variant.
    pub open spec fn spec_type_id(self) -> TypeId {
        match self {
            InformationObject::SinglePoint(..) => TypeId::MSpNa1,
            InformationObject::DoublePoint(..) => TypeId::MDpNa1,
            InformationObject::MeasuredNormalized(..) => TypeId::MMeNa1,
            InformationObject::MeasuredNormalizedNoQuality(..) => TypeId::MMeNd1,
            InformationObject::MeasuredScaled(..) => TypeId::MMeNb1,
            InformationObject::MeasuredShortFloat(..) => TypeId::MMeNc1,
            InformationObject::IntegratedTotals(..) => TypeId::MItNa1,
            InformationObject::SinglePointCp56(..) => TypeId::MSpTb1,
            InformationObject::DoublePointCp56(..) => TypeId::MDpTb1,
            InformationObject::MeasuredNormalizedCp56(..) => TypeId::MMeTd1,
            InformationObject::MeasuredScaledCp56(..) => TypeId::MMeTe1,
            InformationObject::MeasuredShortFloatCp56(..) => TypeId::MMeTf1,
            InformationObject::IntegratedTotalsCp56(..) => TypeId::MItTb1,
            InformationObject::SingleCommand(..) => TypeId::CScNa1,
            InformationObject::SingleCommandCp56(..) => TypeId::CScTa1,
            InformationObject::Interrogation(..) => TypeId::CIcNa1,
            InformationObject::CounterInterrogation(..) => TypeId::CCiNa1,
            InformationObject::Read(..) => TypeId::CRdNa1,
            InformationObject::ClockSync(..) => TypeId::CCsNa1,
            InformationObject::EndOfInit(..) => TypeId::MEiNa1,
        }
    }

    /// The wire bytes of the payload (without the address).
    pub open spec fn spec_bytes(self) -> Seq<u8> {
        match self {
            InformationObject::SinglePoint(x) => x.spec_bytes(),
            InformationObject::DoublePoint(x) => x.spec_bytes(),
            InformationObject::MeasuredNormalized(x) => x.spec_bytes(),
            InformationObject::MeasuredNormalizedNoQuality(x) => x.spec_bytes(),
            InformationObject::MeasuredScaled(x) => x.spec_bytes(),
            InformationObject::MeasuredShortFloat(x) => x.spec_bytes(),
            InformationObject::IntegratedTotals(x) => x.spec_bytes(),
            InformationObject::SinglePointCp56(x, t) => x.spec_bytes() + t@,
            InformationObject::DoublePointCp56(x, t) => x.spec_bytes() + t@,
            InformationObject::MeasuredNormalizedCp56(x, t) => x.spec_bytes() + t@,
            InformationObject::MeasuredScaledCp56(x, t) => x.spec_bytes() + t@,
            InformationObject::MeasuredShortFloatCp56(x, t) => x.spec_bytes() + t@,
            InformationObject::IntegratedTotalsCp56(x, t) => x.spec_bytes() + t@,
            InformationObject::SingleCommand(x) => x.spec_bytes(),
            InformationObject::SingleCommandCp56(x, t) => x.spec_bytes() + t@,
            InformationObject::Interrogation(x) => x.spec_bytes(),
            InformationObject::CounterInterrogation(x) => x.spec_bytes(),
            InformationObject::Read(x) => x.spec_bytes(),
            InformationObject::ClockSync(x) => x.spec_bytes(),
            InformationObject::EndOfInit(x) => x.spec_bytes(),
        }
    }

    /// The outcome of encoding the payload into a buffer holding `old`.
    pub open spec fn spec_encode_outcome(self, old: Seq<u8>) -> (Result<(), AduError>, Seq<u8>) {
        match self {
            InformationObject::SinglePoint(x) => put_outcome(old, x.spec_bytes()),
            InformationObject::DoublePoint(x) => put_outcome(old, x.spec_bytes()),
            InformationObject::MeasuredNormalized(x) => put_outcome(old, x.spec_bytes()),
            InformationObject::MeasuredNormalizedNoQuality(x) => put_outcome(old, x.spec_bytes()),
            InformationObject::MeasuredScaled(x) => put_outcome(old, x.spec_bytes()),
            InformationObject::MeasuredShortFloat(x) => put_outcome(old, x.spec_bytes()),
            InformationObject::IntegratedTotals(x) => put_outcome(old, x.spec_bytes()),
            InformationObject::SinglePointCp56(x, t) => put_outcome2(old, x.spec_bytes(), t@),
            InformationObject::DoublePointCp56(x, t) => put_outcome2(old, x.spec_bytes(), t@),
            InformationObject::MeasuredNormalizedCp56(x, t) => put_outcome2(old, x.spec_bytes(), t@),
            InformationObject::MeasuredScaledCp56(x, t) => put_outcome2(old, x.spec_bytes(), t@),
            InformationObject::MeasuredShortFloatCp56(x, t) => put_outcome2(old, x.spec_bytes(), t@),
            InformationObject::IntegratedTotalsCp56(x, t) => put_outcome2(old, x.spec_bytes(), t@),
            InformationObject::SingleCommand(x) => put_outcome(old, x.spec_bytes()),
            InformationObject::SingleCommandCp56(x, t) => put_outcome2(old, x.spec_bytes(), t@),
            InformationObject::Interrogation(x) => put_outcome(old, x.spec_bytes()),
            InformationObject::CounterInterrogation(x) => put_outcome(old, x.spec_bytes()),
            InformationObject::Read(x) => put_outcome(old, x.spec_bytes()),
            InformationObject::ClockSync(x) => put_outcome(old, x.spec_bytes()),
            InformationObject::EndOfInit(x) => put_outcome(old, x.spec_bytes()),
        }
    }

    /// What decoding a payload of type `type_id` from the front of `s` gives,
    /// and how many bytes it takes.
    pub open spec fn spec_decode(type_id: TypeId, s: Seq<u8>) -> (Result<InformationObject, AduError>, int) {
        match type_id {
            TypeId::MSpNa1 => {
                let (r, n) = element_outcome::<SinglePointInformation>(s);
                (match r {
                    Ok(x) => Ok(InformationObject::SinglePoint(x)),
                    Err(e) => Err(e),
                }, n)
            },
            TypeId::MDpNa1 => {
                let (r, n) = element_outcome::<DoublePointInformation>(s);
                (match r {
                    Ok(x) => Ok(InformationObject::DoublePoint(x)),
                    Err(e) => Err(e),
                }, n)
            },
            TypeId::MMeNa1 => {
                let (r, n) = element_outcome::<MeasuredValueNormalized>(s);
                (match r {
                    Ok(x) => Ok(InformationObject::MeasuredNormalized(x)),
                    Err(e) => Err(e),
                }, n)
            },
            TypeId::MMeNd1 => {
                let (r, n) = element_outcome::<MeasuredValueNormalizedNoQuality>(s);
                (match r {
                    Ok(x) => Ok(InformationObject::MeasuredNormalizedNoQuality(x)),
                    Err(e) => Err(e),
                }, n)
            },
            TypeId::MMeNb1 => {
                let (r, n) = element_outcome::<MeasuredValueScaled>(s);
                (match r {
                    Ok(x) => Ok(InformationObject::MeasuredScaled(x)),
                    Err(e) => Err(e),
                }, n)
            },
            TypeId::MMeNc1 => {
                let (r, n) = element_outcome::<MeasuredValueShortFloat>(s);
                (match r {
                    Ok(x) => Ok(InformationObject::MeasuredShortFloat(x)),
                    Err(e) => Err(e),
                }, n)
            },
            TypeId::MItNa1 => {
                let (r, n) = element_outcome::<BinaryCounterReading>(s);
                (match r {
                    Ok(x) => Ok(InformationObject::IntegratedTotals(x)),
                    Err(e) => Err(e),
                }, n)
            },
            TypeId::MSpTb1 => {
                let (r, n) = element_time_outcome::<SinglePointInformation>(s);
                (match r {
                    Ok((x, t)) => Ok(InformationObject::SinglePointCp56(x, t)),
                    Err(e) => Err(e),
                }, n)
            },
            TypeId::MDpTb1 => {
                let (r, n) = element_time_outcome::<DoublePointInformation>(s);
                (match r {
                    Ok((x, t)) => Ok(InformationObject::DoublePointCp56(x, t)),
                    Err(e) => Err(e),
                }, n)
            },
            TypeId::MMeTd1 => {
                let (r, n) = element_time_outcome::<MeasuredValueNormalized>(s);
                (match r {
                    Ok((x, t)) => Ok(InformationObject::MeasuredNormalizedCp56(x, t)),
                    Err(e) => Err(e),
                }, n)
            },
            TypeId::MMeTe1 => {
                let (r, n) = element_time_outcome::<MeasuredValueScaled>(s);
                (match r {
                    Ok((x, t)) => Ok(InformationObject::MeasuredScaledCp56(x, t)),
                    Err(e) => Err(e),
                }, n)
            },
            TypeId::MMeTf1 => {
                let (r, n) = element_time_outcome::<MeasuredValueShortFloat>(s);
                (match r {
                    Ok((x, t)) => Ok(InformationObject::MeasuredShortFloatCp56(x, t)),
                    Err(e) => Err(e),
                }, n)
            },
            TypeId::MItTb1 => {
                let (r, n) = element_time_outcome::<BinaryCounterReading>(s);
                (match r {
                    Ok((x, t)) => Ok(InformationObject::IntegratedTotalsCp56(x, t)),
                    Err(e) => Err(e),
                }, n)
            },
            TypeId::CScNa1 => {
                let (r, n) = element_outcome::<SingleCommand>(s);
                (match r {
                    Ok(x) => Ok(InformationObject::SingleCommand(x)),
                    Err(e) => Err(e),
                }, n)
            },
            TypeId::CScTa1 => {
                let (r, n) = element_time_outcome::<SingleCommand>(s);
                (match r {
                    Ok((x, t)) => Ok(InformationObject::SingleCommandCp56(x, t)),
                    Err(e) => Err(e),
                }, n)
            },
            TypeId::CIcNa1 => {
                let (r, n) = element_outcome::<InterrogationCommand>(s);
                (match r {
                    Ok(x) => Ok(InformationObject::Interrogation(x)),
                    Err(e) => Err(e),
                }, n)
            },
            TypeId::CCiNa1 => {
                let (r, n) = element_outcome::<CounterInterrogationCommand>(s);
                (match r {
                    Ok(x) => Ok(InformationObject::CounterInterrogation(x)),
                    Err(e) => Err(e),
                }, n)
            },
            TypeId::CRdNa1 => {
                let (r, n) = element_outcome::<ReadCommand>(s);
                (match r {
                    Ok(x) => Ok(InformationObject::Read(x)),
                    Err(e) => Err(e),
                }, n)
            },
            TypeId::CCsNa1 => {
                let (r, n) = element_outcome::<ClockSyncCommand>(s);
                (match r {
                    Ok(x) => Ok(InformationObject::ClockSync(x)),
                    Err(e) => Err(e),
                }, n)
            },
            TypeId::MEiNa1 => {
                let (r, n) = element_outcome::<EndOfInitialization>(s);
                (match r {
                    Ok(x) => Ok(InformationObject::EndOfInit(x)),
                    Err(e) => Err(e),
                }, n)
            },
            _ => (Err(AduError::UnsupportedTypeId(type_id.code())), 0),
        }
    }

    /// Values that survive an encoding unchanged: flags and small fields that
    /// the wire format has room for.
    pub open spec fn spec_canonical(self) -> bool {
        match self {
            InformationObject::SinglePoint(x) => x.quality@ & 0x0F == 0,
            InformationObject::DoublePoint(x) => x.quality@ & 0x0F == 0,
            InformationObject::MeasuredNormalized(x) => x.quality@ & 0x0E == 0,
            InformationObject::MeasuredNormalizedNoQuality(x) => true,
            InformationObject::MeasuredScaled(x) => x.quality@ & 0x0E == 0,
            InformationObject::MeasuredShortFloat(x) => x.quality@ & 0x0E == 0,
            InformationObject::IntegratedTotals(x) => x.sequence_number < 32,
            InformationObject::SinglePointCp56(x, _) => x.quality@ & 0x0F == 0,
            InformationObject::DoublePointCp56(x, _) => x.quality@ & 0x0F == 0,
            InformationObject::MeasuredNormalizedCp56(x, _) => x.quality@ & 0x0E == 0,
            InformationObject::MeasuredScaledCp56(x, _) => x.quality@ & 0x0E == 0,
            InformationObject::MeasuredShortFloatCp56(x, _) => x.quality@ & 0x0E == 0,
            InformationObject::IntegratedTotalsCp56(x, _) => x.sequence_number < 32,
            InformationObject::SingleCommand(x) => x.qualifier < 32,
            InformationObject::SingleCommandCp56(x, _) => x.qualifier < 32,
            InformationObject::Interrogation(x) => true,
            InformationObject::CounterInterrogation(x) => true,
            InformationObject::Read(x) => true,
            InformationObject::ClockSync(x) => true,
            InformationObject::EndOfInit(x) => x.cause < 128,
        }
    }

    /// Decode the payload for a given TypeId.
    pub fn decode(type_id: TypeId, buf: &mut Bytes) -> (r: Result<Self, AduError>)
        ensures
            r == InformationObject::spec_decode(type_id, bytes_seq(*old(buf))).0,
            bytes_seq(*final(buf)) == bytes_seq(*old(buf)).subrange(
                InformationObject::spec_decode(type_id, bytes_seq(*old(buf))).1,
                bytes_seq(*old(buf)).len() as int,
            ),
    {
        let ghost s = bytes_seq(*buf);
        match type_id {
            TypeId::MSpNa1 => {
                let x = SinglePointInformation::decode(buf)?;
                Ok(InformationObject::SinglePoint(x))
            },
            TypeId::MDpNa1 => {
                let x = DoublePointInformation::decode(buf)?;
                Ok(InformationObject::DoublePoint(x))
            },
            TypeId::MMeNa1 => {
                let x = MeasuredValueNormalized::decode(buf)?;
                Ok(InformationObject::MeasuredNormalized(x))
            },
            TypeId::MMeNd1 => {
                let x = MeasuredValueNormalizedNoQuality::decode(buf)?;
                Ok(InformationObject::MeasuredNormalizedNoQuality(x))
            },
            TypeId::MMeNb1 => {
                let x = MeasuredValueScaled::decode(buf)?;
                Ok(InformationObject::MeasuredScaled(x))
            },
            TypeId::MMeNc1 => {
                let x = MeasuredValueShortFloat::decode(buf)?;
                Ok(InformationObject::MeasuredShortFloat(x))
            },
            TypeId::MItNa1 => {
                let x = BinaryCounterReading::decode(buf)?;
                Ok(InformationObject::IntegratedTotals(x))
            },
            TypeId::MSpTb1 => {
                let x = SinglePointInformation::decode(buf)?;
                let time = decode_cp56(buf)?;
                Ok(InformationObject::SinglePointCp56(x, time))
            },
            TypeId::MDpTb1 => {
                let x = DoublePointInformation::decode(buf)?;
                let time = decode_cp56(buf)?;
                Ok(InformationObject::DoublePointCp56(x, time))
            },
            TypeId::MMeTd1 => {
                let x = MeasuredValueNormalized::decode(buf)?;
                let time = decode_cp56(buf)?;
                Ok(InformationObject::MeasuredNormalizedCp56(x, time))
            },
            TypeId::MMeTe1 => {
                let x = MeasuredValueScaled::decode(buf)?;
                let time = decode_cp56(buf)?;
                Ok(InformationObject::MeasuredScaledCp56(x, time))
            },
            TypeId::MMeTf1 => {
                let x = MeasuredValueShortFloat::decode(buf)?;
                let time = decode_cp56(buf)?;
                Ok(InformationObject::MeasuredShortFloatCp56(x, time))
            },
            TypeId::MItTb1 => {
                let x = BinaryCounterReading::decode(buf)?;
                let time = decode_cp56(buf)?;
                Ok(InformationObject::IntegratedTotalsCp56(x, time))
            },
            TypeId::CScNa1 => {
                let x = SingleCommand::decode(buf)?;
                Ok(InformationObject::SingleCommand(x))
            },
            TypeId::CScTa1 => {
                let x = SingleCommand::decode(buf)?;
                let time = decode_cp56(buf)?;
                Ok(InformationObject::SingleCommandCp56(x, time))
            },
            TypeId::CIcNa1 => {
                let x = InterrogationCommand::decode(buf)?;
                Ok(InformationObject::Interrogation(x))
            },
            TypeId::CCiNa1 => {
                let x = CounterInterrogationCommand::decode(buf)?;
                Ok(InformationObject::CounterInterrogation(x))
            },
            TypeId::CRdNa1 => {
                let x = ReadCommand::decode(buf)?;
                Ok(InformationObject::Read(x))
            },
            TypeId::CCsNa1 => {
                let x = ClockSyncCommand::decode(buf)?;
                Ok(InformationObject::ClockSync(x))
            },
            TypeId::MEiNa1 => {
                let x = EndOfInitialization::decode(buf)?;
                Ok(InformationObject::EndOfInit(x))
            },
            _ => {
                assert(s.subrange(0, s.len() as int) =~= s);
                Err(AduError::UnsupportedTypeId(type_id.as_u8()))
            },
        }
    }

    /// Returns the TypeId corresponding to this variant.
    pub fn type_id(&self) -> (r: TypeId)
        ensures
            r == self.spec_type_id(),
    {
        match self {
            InformationObject::SinglePoint(..) => TypeId::MSpNa1,
            InformationObject::DoublePoint(..) => TypeId::MDpNa1,
            InformationObject::MeasuredNormalized(..) => TypeId::MMeNa1,
            InformationObject::MeasuredNormalizedNoQuality(..) => TypeId::MMeNd1,
            InformationObject::MeasuredScaled(..) => TypeId::MMeNb1,
            InformationObject::MeasuredShortFloat(..) => TypeId::MMeNc1,
            InformationObject::IntegratedTotals(..) => TypeId::MItNa1,
            InformationObject::SinglePointCp56(..) => TypeId::MSpTb1,
            InformationObject::DoublePointCp56(..) => TypeId::MDpTb1,
            InformationObject::MeasuredNormalizedCp56(..) => TypeId::MMeTd1,
            InformationObject::MeasuredScaledCp56(..) => TypeId::MMeTe1,
            InformationObject::MeasuredShortFloatCp56(..) => TypeId::MMeTf1,
            InformationObject::IntegratedTotalsCp56(..) => TypeId::MItTb1,
            InformationObject::SingleCommand(..) => TypeId::CScNa1,
            InformationObject::SingleCommandCp56(..) => TypeId::CScTa1,
            InformationObject::Interrogation(..) => TypeId::CIcNa1,
            InformationObject::CounterInterrogation(..) => TypeId::CCiNa1,
            InformationObject::Read(..) => TypeId::CRdNa1,
            InformationObject::ClockSync(..) => TypeId::CCsNa1,
            InformationObject::EndOfInit(..) => TypeId::MEiNa1,
        }
    }

    /// Appends the payload bytes; fails where the buffer has no room left.
    pub fn encode(&self, buf: &mut BytesMut) -> (r: Result<(), AduError>)
        ensures
            (r, bytes_mut_seq(*final(buf))) == self.spec_encode_outcome(bytes_mut_seq(*old(buf))),
    {
        match self {
            InformationObject::SinglePoint(x) => x.encode(buf),
            InformationObject::DoublePoint(x) => x.encode(buf),
            InformationObject::MeasuredNormalized(x) => x.encode(buf),
            InformationObject::MeasuredNormalizedNoQuality(x) => x.encode(buf),
            InformationObject::MeasuredScaled(x) => x.encode(buf),
            InformationObject::MeasuredShortFloat(x) => x.encode(buf),
            InformationObject::IntegratedTotals(x) => x.encode(buf),
            InformationObject::SinglePointCp56(x, t) => {
                x.encode(buf)?;
                encode_cp56(t, buf)
            },
            InformationObject::DoublePointCp56(x, t) => {
                x.encode(buf)?;
                encode_cp56(t, buf)
            },
            InformationObject::MeasuredNormalizedCp56(x, t) => {
                x.encode(buf)?;
                encode_cp56(t, buf)
            },
            InformationObject::MeasuredScaledCp56(x, t) => {
                x.encode(buf)?;
                encode_cp56(t, buf)
            },
            InformationObject::MeasuredShortFloatCp56(x, t) => {
                x.encode(buf)?;
                encode_cp56(t, buf)
            },
            InformationObject::IntegratedTotalsCp56(x, t) => {
                x.encode(buf)?;
                encode_cp56(t, buf)
            },
            InformationObject::SingleCommand(x) => x.encode(buf),
            InformationObject::SingleCommandCp56(x, t) => {
                x.encode(buf)?;
                encode_cp56(t, buf)
            },
            InformationObject::Interrogation(x) => x.encode(buf),
            InformationObject::CounterInterrogation(x) => x.encode(buf),
            InformationObject::Read(x) => x.encode(buf),
            InformationObject::ClockSync(x) => x.encode(buf),
            InformationObject::EndOfInit(x) => x.encode(buf),
        }
    }

    /// The number of payload bytes.
    pub fn encoded_size(&self) -> (n: usize)
        ensures
            n == self.spec_bytes().len(),
    {
        match self {
            InformationObject::SinglePoint(x) => x.encoded_size(),
            InformationObject::DoublePoint(x) => x.encoded_size(),
            InformationObject::MeasuredNormalized(x) => x.encoded_size(),
            InformationObject::MeasuredNormalizedNoQuality(x) => x.encoded_size(),
            InformationObject::MeasuredScaled(x) => x.encoded_size(),
            InformationObject::MeasuredShortFloat(x) => x.encoded_size(),
            InformationObject::IntegratedTotals(x) => x.encoded_size(),
            InformationObject::SinglePointCp56(x, t) => {
                proof {
                    system::lemma_cp56_roundtrip(*t, Seq::empty());
                }
                x.encoded_size() + Cp56Time2a::ENCODED_SIZE
            },
            InformationObject::DoublePointCp56(x, t) => {
                proof {
                    system::lemma_cp56_roundtrip(*t, Seq::empty());
                }
                x.encoded_size() + Cp56Time2a::ENCODED_SIZE
            },
            InformationObject::MeasuredNormalizedCp56(x, t) => {
                proof {
                    system::lemma_cp56_roundtrip(*t, Seq::empty());
                }
                x.encoded_size() + Cp56Time2a::ENCODED_SIZE
            },
            InformationObject::MeasuredScaledCp56(x, t) => {
                proof {
                    system::lemma_cp56_roundtrip(*t, Seq::empty());
                }
                x.encoded_size() + Cp56Time2a::ENCODED_SIZE
            },
            InformationObject::MeasuredShortFloatCp56(x, t) => {
                proof {
                    system::lemma_cp56_roundtrip(*t, Seq::empty());
                }
                x.encoded_size() + Cp56Time2a::ENCODED_SIZE
            },
            InformationObject::IntegratedTotalsCp56(x, t) => {
                proof {
                    system::lemma_cp56_roundtrip(*t, Seq::empty());
                }
                x.encoded_size() + Cp56Time2a::ENCODED_SIZE
            },
            InformationObject::SingleCommand(x) => x.encoded_size(),
            InformationObject::SingleCommandCp56(x, t) => {
                proof {
                    system::lemma_cp56_roundtrip(*t, Seq::empty());
                }
                x.encoded_size() + Cp56Time2a::ENCODED_SIZE
            },
            InformationObject::Interrogation(x) => x.encoded_size(),
            InformationObject::CounterInterrogation(x) => x.encoded_size(),
            InformationObject::Read(x) => x.encoded_size(),
            InformationObject::ClockSync(x) => x.encoded_size(),
            InformationObject::EndOfInit(x) => x.encoded_size(),
        }
    }
}

/// An element whose bytes start the input is read back in full.
proof fn lemma_element_read<T: Decode>(x: T, bytes: Seq<u8>, rest: Seq<u8>)
    requires
        T::spec_parse(bytes + rest) == x,
        bytes.len() == T::spec_size(),
    ensures
        element_outcome::<T>(bytes + rest) == (Ok::<T, AduError>(x), T::spec_size() as int),
{
}

/// An element and a time whose bytes start the input are read back in full.
proof fn lemma_element_time_read<T: Decode>(x: T, bytes: Seq<u8>, t: Cp56Time2a, rest: Seq<u8>)
    requires
        T::spec_parse(bytes + (t@ + rest)) == x,
        bytes.len() == T::spec_size(),
    ensures
        element_time_outcome::<T>(bytes + t@ + rest) == (
            Ok::<(T, Cp56Time2a), AduError>((x, t)),
            T::spec_size() + 7int,
        ),
        t@.len() == 7,
{
    system::lemma_cp56_roundtrip(t, rest);
    let s = bytes + t@ + rest;
    assert(s =~= bytes + (t@ + rest));
    assert(s.subrange(bytes.len() as int, s.len() as int) =~= t@ + rest);
}

/// The payload of a canonical information object, followed by anything,
/// decodes back to the object under its own type identification and takes
/// exactly its bytes.
pub proof fn lemma_information_object_roundtrip(o: InformationObject, rest: Seq<u8>)
    requires
        o.spec_canonical(),
    ensures
        InformationObject::spec_decode(o.spec_type_id(), o.spec_bytes() + rest) == (
            Ok::<InformationObject, AduError>(o),
            o.spec_bytes().len() as int,
        ),
{
    match o {
        InformationObject::SinglePoint(x) => {
            single_point::lemma_single_point_roundtrip(x, rest);
            lemma_element_read::<SinglePointInformation>(x, x.spec_bytes(), rest);
        },
        InformationObject::DoublePoint(x) => {
            double_point::lemma_double_point_info_roundtrip(x, rest);
            lemma_element_read::<DoublePointInformation>(x, x.spec_bytes(), rest);
        },
        InformationObject::MeasuredNormalized(x) => {
            measured_normalized::lemma_normalized_roundtrip(x, rest);
            lemma_element_read::<MeasuredValueNormalized>(x, x.spec_bytes(), rest);
        },
        InformationObject::MeasuredNormalizedNoQuality(x) => {
            measured_normalized::lemma_normalized_no_quality_roundtrip(x, rest);
            lemma_element_read::<MeasuredValueNormalizedNoQuality>(x, x.spec_bytes(), rest);
        },
        InformationObject::MeasuredScaled(x) => {
            measured_scaled::lemma_scaled_roundtrip(x, rest);
            lemma_element_read::<MeasuredValueScaled>(x, x.spec_bytes(), rest);
        },
        InformationObject::MeasuredShortFloat(x) => {
            measured_short::lemma_short_float_roundtrip(x, rest);
            lemma_element_read::<MeasuredValueShortFloat>(x, x.spec_bytes(), rest);
        },
        InformationObject::IntegratedTotals(x) => {
            integrated_totals::lemma_counter_roundtrip(x, rest);
            lemma_element_read::<BinaryCounterReading>(x, x.spec_bytes(), rest);
        },
        InformationObject::SingleCommand(x) => {
            commands::lemma_single_command_roundtrip(x, rest);
            lemma_element_read::<SingleCommand>(x, x.spec_bytes(), rest);
        },
        InformationObject::Interrogation(x) => {
            assert(x.spec_bytes().len() == InterrogationCommand::spec_size());
            assert((x.spec_bytes() + rest)[0] == x.spec_bytes()[0]);
            lemma_element_read::<InterrogationCommand>(x, x.spec_bytes(), rest);
        },
        InformationObject::CounterInterrogation(x) => {
            assert(x.spec_bytes().len() == CounterInterrogationCommand::spec_size());
            assert((x.spec_bytes() + rest)[0] == x.spec_bytes()[0]);
            lemma_element_read::<CounterInterrogationCommand>(x, x.spec_bytes(), rest);
        },
        InformationObject::Read(x) => {
            assert(x.spec_bytes().len() == ReadCommand::spec_size());
            lemma_element_read::<ReadCommand>(x, x.spec_bytes(), rest);
        },
        InformationObject::ClockSync(x) => {
            system::lemma_cp56_roundtrip(x.time, rest);
            lemma_element_read::<ClockSyncCommand>(x, x.spec_bytes(), rest);
        },
        InformationObject::EndOfInit(x) => {
            system::lemma_end_of_init_roundtrip(x, rest);
            lemma_element_read::<EndOfInitialization>(x, x.spec_bytes(), rest);
        },
        InformationObject::SinglePointCp56(x, t) => {
            single_point::lemma_single_point_roundtrip(x, t@ + rest);
            lemma_element_time_read::<SinglePointInformation>(x, x.spec_bytes(), t, rest);
        },
        InformationObject::DoublePointCp56(x, t) => {
            double_point::lemma_double_point_info_roundtrip(x, t@ + rest);
            lemma_element_time_read::<DoublePointInformation>(x, x.spec_bytes(), t, rest);
        },
        InformationObject::MeasuredNormalizedCp56(x, t) => {
            measured_normalized::lemma_normalized_roundtrip(x, t@ + rest);
            lemma_element_time_read::<MeasuredValueNormalized>(x, x.spec_bytes(), t, rest);
        },
        InformationObject::MeasuredScaledCp56(x, t) => {
            measured_scaled::lemma_scaled_roundtrip(x, t@ + rest);
            lemma_element_time_read::<MeasuredValueScaled>(x, x.spec_bytes(), t, rest);
        },
        InformationObject::MeasuredShortFloatCp56(x, t) => {
            measured_short::lemma_short_float_roundtrip(x, t@ + rest);
            lemma_element_time_read::<MeasuredValueShortFloat>(x, x.spec_bytes(), t, rest);
        },
        InformationObject::IntegratedTotalsCp56(x, t) => {
            integrated_totals::lemma_counter_roundtrip(x, t@ + rest);
            lemma_element_time_read::<BinaryCounterReading>(x, x.spec_bytes(), t, rest);
        },
        InformationObject::SingleCommandCp56(x, t) => {
            commands::lemma_single_command_roundtrip(x, t@ + rest);
            lemma_element_time_read::<SingleCommand>(x, x.spec_bytes(), t, rest);
        },
    }
}

/// Encoding an information object, where it succeeds, appends exactly its
/// payload bytes; a payload has at most twelve bytes.
pub proof fn lemma_encode_outcome_appends(o: InformationObject, s: Seq<u8>)
    ensures
        o.spec_encode_outcome(s).0 is Ok ==> o.spec_encode_outcome(s).1 == s + o.spec_bytes(),
        o.spec_bytes().len() <= 12,
{
    match o {
        InformationObject::SinglePointCp56(x, t) => {
            system::lemma_cp56_roundtrip(t, Seq::empty());
            assert(s + x.spec_bytes() + t@ =~= s + (x.spec_bytes() + t@));
        },
        InformationObject::DoublePointCp56(x, t) => {
            system::lemma_cp56_roundtrip(t, Seq::empty());
            assert(s + x.spec_bytes() + t@ =~= s + (x.spec_bytes() + t@));
        },
        InformationObject::MeasuredNormalizedCp56(x, t) => {
            system::lemma_cp56_roundtrip(t, Seq::empty());
            assert(s + x.spec_bytes() + t@ =~= s + (x.spec_bytes() + t@));
        },
        InformationObject::MeasuredScaledCp56(x, t) => {
            system::lemma_cp56_roundtrip(t, Seq::empty());
            assert(s + x.spec_bytes() + t@ =~= s + (x.spec_bytes() + t@));
        },
        InformationObject::MeasuredShortFloatCp56(x, t) => {
            system::lemma_cp56_roundtrip(t, Seq::empty());
            assert(s + x.spec_bytes() + t@ =~= s + (x.spec_bytes() + t@));
        },
        InformationObject::IntegratedTotalsCp56(x, t) => {
            system::lemma_cp56_roundtrip(t, Seq::empty());
            assert(s + x.spec_bytes() + t@ =~= s + (x.spec_bytes() + t@));
        },
        InformationObject::SingleCommandCp56(x, t) => {
            system::lemma_cp56_roundtrip(t, Seq::empty());
            assert(s + x.spec_bytes() + t@ =~= s + (x.spec_bytes() + t@));
        },
        InformationObject::ClockSync(x) => {
            system::lemma_cp56_roundtrip(x.time, Seq::empty());
        },
        _ => {},
    }
}

/// Decoding a payload takes no more bytes than there are.
pub proof fn lemma_decode_takes_at_most(type_id: TypeId, s: Seq<u8>)
    ensures
        0 <= InformationObject::spec_decode(type_id, s).1 <= s.len(),
{
}

/// Encoding an information object into a buffer with room for its payload
/// succeeds and appends the payload.
pub proof fn lemma_encode_outcome_ok(o: InformationObject, s: Seq<u8>)
    requires
        s.len() + o.spec_bytes().len() <= crate::wire::bytes_mut_max_len(),
    ensures
        o.spec_encode_outcome(s) == (Ok::<(), AduError>(()), s + o.spec_bytes()),
{
    match o {
        InformationObject::SinglePointCp56(x, t) => {
            system::lemma_cp56_roundtrip(t, Seq::empty());
            assert(s + x.spec_bytes() + t@ =~= s + (x.spec_bytes() + t@));
        },
        InformationObject::DoublePointCp56(x, t) => {
            system::lemma_cp56_roundtrip(t, Seq::empty());
            assert(s + x.spec_bytes() + t@ =~= s + (x.spec_bytes() + t@));
        },
        InformationObject::MeasuredNormalizedCp56(x, t) => {
            system::lemma_cp56_roundtrip(t, Seq::empty());
            assert(s + x.spec_bytes() + t@ =~= s + (x.spec_bytes() + t@));
        },
        InformationObject::MeasuredScaledCp56(x, t) => {
            system::lemma_cp56_roundtrip(t, Seq::empty());
            assert(s + x.spec_bytes() + t@ =~= s + (x.spec_bytes() + t@));
        },
        InformationObject::MeasuredShortFloatCp56(x, t) => {
            system::lemma_cp56_roundtrip(t, Seq::empty());
            assert(s + x.spec_bytes() + t@ =~= s + (x.spec_bytes() + t@));
        },
        InformationObject::IntegratedTotalsCp56(x, t) => {
            system::lemma_cp56_roundtrip(t, Seq::empty());
            assert(s + x.spec_bytes() + t@ =~= s + (x.spec_bytes() + t@));
        },
        InformationObject::SingleCommandCp56(x, t) => {
            system::lemma_cp56_roundtrip(t, Seq::empty());
            assert(s + x.spec_bytes() + t@ =~= s + (x.spec_bytes() + t@));
        },
        InformationObject::ClockSync(x) => {
            system::lemma_cp56_roundtrip(x.time, Seq::empty());
        },
        _ => {},
    }
}

} // verus!
