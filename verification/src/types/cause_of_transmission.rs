use vstd::prelude::*;

use crate::error::AduError;

verus! {

/// Cause of transmission as defined in IEC 60870-5-101 section 7.2.3.
#[derive(Debug, Clone, Copy, PartialEq, Eq, Hash, Structural)]
pub enum CauseOfTransmission {
    /// 1
    Periodic,
    /// 2
    BackgroundScan,
    /// 3
    Spontaneous,
    /// 4
    Initialized,
    /// 5
    Request,
    /// 6
    Activation,
    /// 7
    ActivationCon,
    /// 8
    Deactivation,
    /// 9
    DeactivationCon,
    /// 10
    ActivationTermination,
    /// 11
    ReturnInfoRemote,
    /// 12
    ReturnInfoLocal,
    /// 13
    FileTransfer,
    /// 14
    Authentication,
    /// 15
    MaintenanceOfAuthSessionKey,
    /// 16
    MaintenanceOfUserRoleAndUpdateKey,
    /// 20
    InterrogatedByStation,
    /// 21
    InterrogatedByGroup1,
    /// 22
    InterrogatedByGroup2,
    /// 23
    InterrogatedByGroup3,
    /// 24
    InterrogatedByGroup4,
    /// 25
    InterrogatedByGroup5,
    /// 26
    InterrogatedByGroup6,
    /// 27
    InterrogatedByGroup7,
    /// 28
    InterrogatedByGroup8,
    /// 29
    InterrogatedByGroup9,
    /// 30
    InterrogatedByGroup10,
    /// 31
    InterrogatedByGroup11,
    /// 32
    InterrogatedByGroup12,
    /// 33
    InterrogatedByGroup13,
    /// 34
    InterrogatedByGroup14,
    /// 35
    InterrogatedByGroup15,
    /// 36
    InterrogatedByGroup16,
    /// 37
    RequestedByGeneralCounter,
    /// 38
    RequestedByGroup1Counter,
    /// 39
    RequestedByGroup2Counter,
    /// 40
    RequestedByGroup3Counter,
    /// 41
    RequestedByGroup4Counter,
    /// 44
    UnknownTypeId,
    /// 45
    UnknownCot,
    /// 46
    UnknownCa,
    /// 47
    UnknownIoa,
}

impl CauseOfTransmission {
    /// The wire value (6 bits) of each cause.
    pub open spec fn code(self) -> u8 {
        match self {
            CauseOfTransmission::Periodic => 1u8,
            CauseOfTransmission::BackgroundScan => 2u8,
            CauseOfTransmission::Spontaneous => 3u8,
            CauseOfTransmission::Initialized => 4u8,
            CauseOfTransmission::Request => 5u8,
            CauseOfTransmission::Activation => 6u8,
            CauseOfTransmission::ActivationCon => 7u8,
            CauseOfTransmission::Deactivation => 8u8,
            CauseOfTransmission::DeactivationCon => 9u8,
            CauseOfTransmission::ActivationTermination => 10u8,
            CauseOfTransmission::ReturnInfoRemote => 11u8,
            CauseOfTransmission::ReturnInfoLocal => 12u8,
            CauseOfTransmission::FileTransfer => 13u8,
            CauseOfTransmission::Authentication => 14u8,
            CauseOfTransmission::MaintenanceOfAuthSessionKey => 15u8,
            CauseOfTransmission::MaintenanceOfUserRoleAndUpdateKey => 16u8,
            CauseOfTransmission::InterrogatedByStation => 20u8,
            CauseOfTransmission::InterrogatedByGroup1 => 21u8,
            CauseOfTransmission::InterrogatedByGroup2 => 22u8,
            CauseOfTransmission::InterrogatedByGroup3 => 23u8,
            CauseOfTransmission::InterrogatedByGroup4 => 24u8,
            CauseOfTransmission::InterrogatedByGroup5 => 25u8,
            CauseOfTransmission::InterrogatedByGroup6 => 26u8,
            CauseOfTransmission::InterrogatedByGroup7 => 27u8,
            CauseOfTransmission::InterrogatedByGroup8 => 28u8,
            CauseOfTransmission::InterrogatedByGroup9 => 29u8,
            CauseOfTransmission::InterrogatedByGroup10 => 30u8,
            CauseOfTransmission::InterrogatedByGroup11 => 31u8,
            CauseOfTransmission::InterrogatedByGroup12 => 32u8,
            CauseOfTransmission::InterrogatedByGroup13 => 33u8,
            CauseOfTransmission::InterrogatedByGroup14 => 34u8,
            CauseOfTransmission::InterrogatedByGroup15 => 35u8,
            CauseOfTransmission::InterrogatedByGroup16 => 36u8,
            CauseOfTransmission::RequestedByGeneralCounter => 37u8,
            CauseOfTransmission::RequestedByGroup1Counter => 38u8,
            CauseOfTransmission::RequestedByGroup2Counter => 39u8,
            CauseOfTransmission::RequestedByGroup3Counter => 40u8,
            CauseOfTransmission::RequestedByGroup4Counter => 41u8,
            CauseOfTransmission::UnknownTypeId => 44u8,
            CauseOfTransmission::UnknownCot => 45u8,
            CauseOfTransmission::UnknownCa => 46u8,
            CauseOfTransmission::UnknownIoa => 47u8,
        }
    }

    /// The cause with a given wire value, if there is one.
    pub open spec fn from_code(v: u8) -> Option<CauseOfTransmission> {
        if v == 1u8 {
            Some(CauseOfTransmission::Periodic)
        } else if v == 2u8 {
            Some(CauseOfTransmission::BackgroundScan)
        } else if v == 3u8 {
            Some(CauseOfTransmission::Spontaneous)
        } else if v == 4u8 {
            Some(CauseOfTransmission::Initialized)
        } else if v == 5u8 {
            Some(CauseOfTransmission::Request)
        } else if v == 6u8 {
            Some(CauseOfTransmission::Activation)
        } else if v == 7u8 {
            Some(CauseOfTransmission::ActivationCon)
        } else if v == 8u8 {
            Some(CauseOfTransmission::Deactivation)
        } else if v == 9u8 {
            Some(CauseOfTransmission::DeactivationCon)
        } else if v == 10u8 {
            Some(CauseOfTransmission::ActivationTermination)
        } else if v == 11u8 {
            Some(CauseOfTransmission::ReturnInfoRemote)
        } else if v == 12u8 {
            Some(CauseOfTransmission::ReturnInfoLocal)
        } else if v == 13u8 {
            Some(CauseOfTransmission::FileTransfer)
        } else if v == 14u8 {
            Some(CauseOfTransmission::Authentication)
        } else if v == 15u8 {
            Some(CauseOfTransmission::MaintenanceOfAuthSessionKey)
        } else if v == 16u8 {
            Some(CauseOfTransmission::MaintenanceOfUserRoleAndUpdateKey)
        } else if v == 20u8 {
            Some(CauseOfTransmission::InterrogatedByStation)
        } else if v == 21u8 {
            Some(CauseOfTransmission::InterrogatedByGroup1)
        } else if v == 22u8 {
            Some(CauseOfTransmission::InterrogatedByGroup2)
        } else if v == 23u8 {
            Some(CauseOfTransmission::InterrogatedByGroup3)
        } else if v == 24u8 {
            Some(CauseOfTransmission::InterrogatedByGroup4)
        } else if v == 25u8 {
            Some(CauseOfTransmission::InterrogatedByGroup5)
        } else if v == 26u8 {
            Some(CauseOfTransmission::InterrogatedByGroup6)
        } else if v == 27u8 {
            Some(CauseOfTransmission::InterrogatedByGroup7)
        } else if v == 28u8 {
            Some(CauseOfTransmission::InterrogatedByGroup8)
        } else if v == 29u8 {
            Some(CauseOfTransmission::InterrogatedByGroup9)
        } else if v == 30u8 {
            Some(CauseOfTransmission::InterrogatedByGroup10)
        } else if v == 31u8 {
            Some(CauseOfTransmission::InterrogatedByGroup11)
        } else if v == 32u8 {
            Some(CauseOfTransmission::InterrogatedByGroup12)
        } else if v == 33u8 {
            Some(CauseOfTransmission::InterrogatedByGroup13)
        } else if v == 34u8 {
            Some(CauseOfTransmission::InterrogatedByGroup14)
        } else if v == 35u8 {
            Some(CauseOfTransmission::InterrogatedByGroup15)
        } else if v == 36u8 {
            Some(CauseOfTransmission::InterrogatedByGroup16)
        } else if v == 37u8 {
            Some(CauseOfTransmission::RequestedByGeneralCounter)
        } else if v == 38u8 {
            Some(CauseOfTransmission::RequestedByGroup1Counter)
        } else if v == 39u8 {
            Some(CauseOfTransmission::RequestedByGroup2Counter)
        } else if v == 40u8 {
            Some(CauseOfTransmission::RequestedByGroup3Counter)
        } else if v == 41u8 {
            Some(CauseOfTransmission::RequestedByGroup4Counter)
        } else if v == 44u8 {
            Some(CauseOfTransmission::UnknownTypeId)
        } else if v == 45u8 {
            Some(CauseOfTransmission::UnknownCot)
        } else if v == 46u8 {
            Some(CauseOfTransmission::UnknownCa)
        } else if v == 47u8 {
            Some(CauseOfTransmission::UnknownIoa)
        } else {
            None
        }
    }

    /// The name of each cause.
    pub open spec fn name(self) -> &'static str {
        match self {
            CauseOfTransmission::Periodic => "Periodic",
            CauseOfTransmission::BackgroundScan => "BackgroundScan",
            CauseOfTransmission::Spontaneous => "Spontaneous",
            CauseOfTransmission::Initialized => "Initialized",
            CauseOfTransmission::Request => "Request",
            CauseOfTransmission::Activation => "Activation",
            CauseOfTransmission::ActivationCon => "ActivationCon",
            CauseOfTransmission::Deactivation => "Deactivation",
            CauseOfTransmission::DeactivationCon => "DeactivationCon",
            CauseOfTransmission::ActivationTermination => "ActivationTermination",
            CauseOfTransmission::ReturnInfoRemote => "ReturnInfoRemote",
            CauseOfTransmission::ReturnInfoLocal => "ReturnInfoLocal",
            CauseOfTransmission::FileTransfer => "FileTransfer",
            CauseOfTransmission::Authentication => "Authentication",
            CauseOfTransmission::MaintenanceOfAuthSessionKey => "MaintenanceOfAuthSessionKey",
            CauseOfTransmission::MaintenanceOfUserRoleAndUpdateKey => "MaintenanceOfUserRoleAndUpdateKey",
            CauseOfTransmission::InterrogatedByStation => "InterrogatedByStation",
            CauseOfTransmission::InterrogatedByGroup1 => "InterrogatedByGroup1",
            CauseOfTransmission::InterrogatedByGroup2 => "InterrogatedByGroup2",
            CauseOfTransmission::InterrogatedByGroup3 => "InterrogatedByGroup3",
            CauseOfTransmission::InterrogatedByGroup4 => "InterrogatedByGroup4",
            CauseOfTransmission::InterrogatedByGroup5 => "InterrogatedByGroup5",
            CauseOfTransmission::InterrogatedByGroup6 => "InterrogatedByGroup6",
            CauseOfTransmission::InterrogatedByGroup7 => "InterrogatedByGroup7",
            CauseOfTransmission::InterrogatedByGroup8 => "InterrogatedByGroup8",
            CauseOfTransmission::InterrogatedByGroup9 => "InterrogatedByGroup9",
            CauseOfTransmission::InterrogatedByGroup10 => "InterrogatedByGroup10",
            CauseOfTransmission::InterrogatedByGroup11 => "InterrogatedByGroup11",
            CauseOfTransmission::InterrogatedByGroup12 => "InterrogatedByGroup12",
            CauseOfTransmission::InterrogatedByGroup13 => "InterrogatedByGroup13",
            CauseOfTransmission::InterrogatedByGroup14 => "InterrogatedByGroup14",
            CauseOfTransmission::InterrogatedByGroup15 => "InterrogatedByGroup15",
            CauseOfTransmission::InterrogatedByGroup16 => "InterrogatedByGroup16",
            CauseOfTransmission::RequestedByGeneralCounter => "RequestedByGeneralCounter",
            CauseOfTransmission::RequestedByGroup1Counter => "RequestedByGroup1Counter",
            CauseOfTransmission::RequestedByGroup2Counter => "RequestedByGroup2Counter",
            CauseOfTransmission::RequestedByGroup3Counter => "RequestedByGroup3Counter",
            CauseOfTransmission::RequestedByGroup4Counter => "RequestedByGroup4Counter",
            CauseOfTransmission::UnknownTypeId => "UnknownTypeId",
            CauseOfTransmission::UnknownCot => "UnknownCot",
            CauseOfTransmission::UnknownCa => "UnknownCa",
            CauseOfTransmission::UnknownIoa => "UnknownIoa",
        }
    }

    pub fn as_u8(self) -> (r: u8)
        ensures
            r == self.code(),
    {
        match self {
            CauseOfTransmission::Periodic => 1,
            CauseOfTransmission::BackgroundScan => 2,
            CauseOfTransmission::Spontaneous => 3,
            CauseOfTransmission::Initialized => 4,
            CauseOfTransmission::Request => 5,
            CauseOfTransmission::Activation => 6,
            CauseOfTransmission::ActivationCon => 7,
            CauseOfTransmission::Deactivation => 8,
            CauseOfTransmission::DeactivationCon => 9,
            CauseOfTransmission::ActivationTermination => 10,
            CauseOfTransmission::ReturnInfoRemote => 11,
            CauseOfTransmission::ReturnInfoLocal => 12,
            CauseOfTransmission::FileTransfer => 13,
            CauseOfTransmission::Authentication => 14,
            CauseOfTransmission::MaintenanceOfAuthSessionKey => 15,
            CauseOfTransmission::MaintenanceOfUserRoleAndUpdateKey => 16,
            CauseOfTransmission::InterrogatedByStation => 20,
            CauseOfTransmission::InterrogatedByGroup1 => 21,
            CauseOfTransmission::InterrogatedByGroup2 => 22,
            CauseOfTransmission::InterrogatedByGroup3 => 23,
            CauseOfTransmission::InterrogatedByGroup4 => 24,
            CauseOfTransmission::InterrogatedByGroup5 => 25,
            CauseOfTransmission::InterrogatedByGroup6 => 26,
            CauseOfTransmission::InterrogatedByGroup7 => 27,
            CauseOfTransmission::InterrogatedByGroup8 => 28,
            CauseOfTransmission::InterrogatedByGroup9 => 29,
            CauseOfTransmission::InterrogatedByGroup10 => 30,
            CauseOfTransmission::InterrogatedByGroup11 => 31,
            CauseOfTransmission::InterrogatedByGroup12 => 32,
            CauseOfTransmission::InterrogatedByGroup13 => 33,
            CauseOfTransmission::InterrogatedByGroup14 => 34,
            CauseOfTransmission::InterrogatedByGroup15 => 35,
            CauseOfTransmission::InterrogatedByGroup16 => 36,
            CauseOfTransmission::RequestedByGeneralCounter => 37,
            CauseOfTransmission::RequestedByGroup1Counter => 38,
            CauseOfTransmission::RequestedByGroup2Counter => 39,
            CauseOfTransmission::RequestedByGroup3Counter => 40,
            CauseOfTransmission::RequestedByGroup4Counter => 41,
            CauseOfTransmission::UnknownTypeId => 44,
            CauseOfTransmission::UnknownCot => 45,
            CauseOfTransmission::UnknownCa => 46,
            CauseOfTransmission::UnknownIoa => 47,
        }
    }

    /// Decode a wire value.
    pub fn from_u8(value: u8) -> (r: Result<CauseOfTransmission, AduError>)
        ensures
            r == (match CauseOfTransmission::from_code(value) {
                Some(c) => Ok(c),
                None => Err(AduError::InvalidCauseOfTransmission(value)),
            }),
    {
        match value {
            1 => Ok(CauseOfTransmission::Periodic),
            2 => Ok(CauseOfTransmission::BackgroundScan),
            3 => Ok(CauseOfTransmission::Spontaneous),
            4 => Ok(CauseOfTransmission::Initialized),
            5 => Ok(CauseOfTransmission::Request),
            6 => Ok(CauseOfTransmission::Activation),
            7 => Ok(CauseOfTransmission::ActivationCon),
            8 => Ok(CauseOfTransmission::Deactivation),
            9 => Ok(CauseOfTransmission::DeactivationCon),
            10 => Ok(CauseOfTransmission::ActivationTermination),
            11 => Ok(CauseOfTransmission::ReturnInfoRemote),
            12 => Ok(CauseOfTransmission::ReturnInfoLocal),
            13 => Ok(CauseOfTransmission::FileTransfer),
            14 => Ok(CauseOfTransmission::Authentication),
            15 => Ok(CauseOfTransmission::MaintenanceOfAuthSessionKey),
            16 => Ok(CauseOfTransmission::MaintenanceOfUserRoleAndUpdateKey),
            20 => Ok(CauseOfTransmission::InterrogatedByStation),
            21 => Ok(CauseOfTransmission::InterrogatedByGroup1),
            22 => Ok(CauseOfTransmission::InterrogatedByGroup2),
            23 => Ok(CauseOfTransmission::InterrogatedByGroup3),
            24 => Ok(CauseOfTransmission::InterrogatedByGroup4),
            25 => Ok(CauseOfTransmission::InterrogatedByGroup5),
            26 => Ok(CauseOfTransmission::InterrogatedByGroup6),
            27 => Ok(CauseOfTransmission::InterrogatedByGroup7),
            28 => Ok(CauseOfTransmission::InterrogatedByGroup8),
            29 => Ok(CauseOfTransmission::InterrogatedByGroup9),
            30 => Ok(CauseOfTransmission::InterrogatedByGroup10),
            31 => Ok(CauseOfTransmission::InterrogatedByGroup11),
            32 => Ok(CauseOfTransmission::InterrogatedByGroup12),
            33 => Ok(CauseOfTransmission::InterrogatedByGroup13),
            34 => Ok(CauseOfTransmission::InterrogatedByGroup14),
            35 => Ok(CauseOfTransmission::InterrogatedByGroup15),
            36 => Ok(CauseOfTransmission::InterrogatedByGroup16),
            37 => Ok(CauseOfTransmission::RequestedByGeneralCounter),
            38 => Ok(CauseOfTransmission::RequestedByGroup1Counter),
            39 => Ok(CauseOfTransmission::RequestedByGroup2Counter),
            40 => Ok(CauseOfTransmission::RequestedByGroup3Counter),
            41 => Ok(CauseOfTransmission::RequestedByGroup4Counter),
            44 => Ok(CauseOfTransmission::UnknownTypeId),
            45 => Ok(CauseOfTransmission::UnknownCot),
            46 => Ok(CauseOfTransmission::UnknownCa),
            47 => Ok(CauseOfTransmission::UnknownIoa),
            _ => Err(AduError::InvalidCauseOfTransmission(value)),
        }
    }

    /// The variant name (for example `Spontaneous`).
    pub fn to_string(&self) -> (r: String)
        ensures
            r@ == self.name()@,
    {
        let s: &'static str = match self {
            CauseOfTransmission::Periodic => "Periodic",
            CauseOfTransmission::BackgroundScan => "BackgroundScan",
            CauseOfTransmission::Spontaneous => "Spontaneous",
            CauseOfTransmission::Initialized => "Initialized",
            CauseOfTransmission::Request => "Request",
            CauseOfTransmission::Activation => "Activation",
            CauseOfTransmission::ActivationCon => "ActivationCon",
            CauseOfTransmission::Deactivation => "Deactivation",
            CauseOfTransmission::DeactivationCon => "DeactivationCon",
            CauseOfTransmission::ActivationTermination => "ActivationTermination",
            CauseOfTransmission::ReturnInfoRemote => "ReturnInfoRemote",
            CauseOfTransmission::ReturnInfoLocal => "ReturnInfoLocal",
            CauseOfTransmission::FileTransfer => "FileTransfer",
            CauseOfTransmission::Authentication => "Authentication",
            CauseOfTransmission::MaintenanceOfAuthSessionKey => "MaintenanceOfAuthSessionKey",
            CauseOfTransmission::MaintenanceOfUserRoleAndUpdateKey => "MaintenanceOfUserRoleAndUpdateKey",
            CauseOfTransmission::InterrogatedByStation => "InterrogatedByStation",
            CauseOfTransmission::InterrogatedByGroup1 => "InterrogatedByGroup1",
            CauseOfTransmission::InterrogatedByGroup2 => "InterrogatedByGroup2",
            CauseOfTransmission::InterrogatedByGroup3 => "InterrogatedByGroup3",
            CauseOfTransmission::InterrogatedByGroup4 => "InterrogatedByGroup4",
            CauseOfTransmission::InterrogatedByGroup5 => "InterrogatedByGroup5",
            CauseOfTransmission::InterrogatedByGroup6 => "InterrogatedByGroup6",
            CauseOfTransmission::InterrogatedByGroup7 => "InterrogatedByGroup7",
            CauseOfTransmission::InterrogatedByGroup8 => "InterrogatedByGroup8",
            CauseOfTransmission::InterrogatedByGroup9 => "InterrogatedByGroup9",
            CauseOfTransmission::InterrogatedByGroup10 => "InterrogatedByGroup10",
            CauseOfTransmission::InterrogatedByGroup11 => "InterrogatedByGroup11",
            CauseOfTransmission::InterrogatedByGroup12 => "InterrogatedByGroup12",
            CauseOfTransmission::InterrogatedByGroup13 => "InterrogatedByGroup13",
            CauseOfTransmission::InterrogatedByGroup14 => "InterrogatedByGroup14",
            CauseOfTransmission::InterrogatedByGroup15 => "InterrogatedByGroup15",
            CauseOfTransmission::InterrogatedByGroup16 => "InterrogatedByGroup16",
            CauseOfTransmission::RequestedByGeneralCounter => "RequestedByGeneralCounter",
            CauseOfTransmission::RequestedByGroup1Counter => "RequestedByGroup1Counter",
            CauseOfTransmission::RequestedByGroup2Counter => "RequestedByGroup2Counter",
            CauseOfTransmission::RequestedByGroup3Counter => "RequestedByGroup3Counter",
            CauseOfTransmission::RequestedByGroup4Counter => "RequestedByGroup4Counter",
            CauseOfTransmission::UnknownTypeId => "UnknownTypeId",
            CauseOfTransmission::UnknownCot => "UnknownCot",
            CauseOfTransmission::UnknownCa => "UnknownCa",
            CauseOfTransmission::UnknownIoa => "UnknownIoa",
        };
        s.to_owned()
    }
}

impl TryFrom<u8> for CauseOfTransmission {
    type Error = AduError;

    fn try_from(value: u8) -> (r: Result<CauseOfTransmission, AduError>) {
        CauseOfTransmission::from_u8(value)
    }
}

impl vstd::std_specs::convert::TryFromSpecImpl<u8> for CauseOfTransmission {
    open spec fn obeys_try_from_spec() -> bool {
        true
    }

    open spec fn try_from_spec(value: u8) -> Result<CauseOfTransmission, AduError> {
        match CauseOfTransmission::from_code(value) {
            Some(c) => Ok(c),
            None => Err(AduError::InvalidCauseOfTransmission(value)),
        }
    }
}

/// Encoding a cause and decoding the result gives it back; every code fits in 6 bits.
pub proof fn lemma_cot_code_roundtrip(c: CauseOfTransmission)
    ensures
        CauseOfTransmission::from_code(c.code()) == Some(c),
        c.code() < 64,
{
}

/// A wire value that decodes to a cause is that cause's code.
pub proof fn lemma_cot_decode_is_code(v: u8)
    ensures
        CauseOfTransmission::from_code(v) matches Some(c) ==> c.code() == v,
{
}

/// Each cause of transmission goes on the wire as its number in the standard
/// (IEC 60870-5-101 7.2.3: 6 activation, 7 its confirmation, 20 interrogated
/// by station, 21-36 by groups 1-16, 37-41 counter requests, 44-47 unknown
/// type, cause, common address and object address), and a wire value decodes
/// to a cause exactly when it is that number.
pub proof fn lemma_cot_standard_numbers(c: CauseOfTransmission, v: u8)
    ensures
        c.code() as int == (match c {
            CauseOfTransmission::Periodic => 1int,
            CauseOfTransmission::BackgroundScan => 2int,
            CauseOfTransmission::Spontaneous => 3int,
            CauseOfTransmission::Initialized => 4int,
            CauseOfTransmission::Request => 5int,
            CauseOfTransmission::Activation => 6int,
            CauseOfTransmission::ActivationCon => 7int,
            CauseOfTransmission::Deactivation => 8int,
            CauseOfTransmission::DeactivationCon => 9int,
            CauseOfTransmission::ActivationTermination => 10int,
            CauseOfTransmission::ReturnInfoRemote => 11int,
            CauseOfTransmission::ReturnInfoLocal => 12int,
            CauseOfTransmission::FileTransfer => 13int,
            CauseOfTransmission::Authentication => 14int,
            CauseOfTransmission::MaintenanceOfAuthSessionKey => 15int,
            CauseOfTransmission::MaintenanceOfUserRoleAndUpdateKey => 16int,
            CauseOfTransmission::InterrogatedByStation => 20int,
            CauseOfTransmission::InterrogatedByGroup1 => 21int,
            CauseOfTransmission::InterrogatedByGroup2 => 22int,
            CauseOfTransmission::InterrogatedByGroup3 => 23int,
            CauseOfTransmission::InterrogatedByGroup4 => 24int,
            CauseOfTransmission::InterrogatedByGroup5 => 25int,
            CauseOfTransmission::InterrogatedByGroup6 => 26int,
            CauseOfTransmission::InterrogatedByGroup7 => 27int,
            CauseOfTransmission::InterrogatedByGroup8 => 28int,
            CauseOfTransmission::InterrogatedByGroup9 => 29int,
            CauseOfTransmission::InterrogatedByGroup10 => 30int,
            CauseOfTransmission::InterrogatedByGroup11 => 31int,
            CauseOfTransmission::InterrogatedByGroup12 => 32int,
            CauseOfTransmission::InterrogatedByGroup13 => 33int,
            CauseOfTransmission::InterrogatedByGroup14 => 34int,
            CauseOfTransmission::InterrogatedByGroup15 => 35int,
            CauseOfTransmission::InterrogatedByGroup16 => 36int,
            CauseOfTransmission::RequestedByGeneralCounter => 37int,
            CauseOfTransmission::RequestedByGroup1Counter => 38int,
            CauseOfTransmission::RequestedByGroup2Counter => 39int,
            CauseOfTransmission::RequestedByGroup3Counter => 40int,
            CauseOfTransmission::RequestedByGroup4Counter => 41int,
            CauseOfTransmission::UnknownTypeId => 44int,
            CauseOfTransmission::UnknownCot => 45int,
            CauseOfTransmission::UnknownCa => 46int,
            CauseOfTransmission::UnknownIoa => 47int,
        }),
        CauseOfTransmission::from_code(v) == Some(c) <==> v == c.code(),
{
}

} // verus!
