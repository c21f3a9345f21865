use vstd::prelude::*;

verus! {

/// Error returned when a raw u8 doesn't map to a known TypeId.
#[derive(Debug, Clone, Copy, PartialEq, Eq, Structural)]
pub struct InvalidTypeId(pub u8);

/// IEC 60870-5 type identification field.
///
/// Defines the type of information objects contained in an ASDU.
/// Values follow the IEC 60870-5-101/104 standard.
#[derive(Debug, Clone, Copy, PartialEq, Eq, Hash, Structural)]
pub enum TypeId {
    /// 1: Single-point information
    MSpNa1,
    /// 2: Single-point with time tag
    MSpTa1,
    /// 3: Double-point information
    MDpNa1,
    /// 4: Double-point with time tag
    MDpTa1,
    /// 5: Step position information
    MStNa1,
    /// 6: Step position with time tag
    MStTa1,
    /// 7: Bitstring of 32 bits
    MBoNa1,
    /// 8: Bitstring with time tag
    MBoTa1,
    /// 9: Measured value, normalized
    MMeNa1,
    /// 10: Measured value, normalized with time tag
    MMeTa1,
    /// 11: Measured value, scaled
    MMeNb1,
    /// 12: Measured value, scaled with time tag
    MMeTb1,
    /// 13: Measured value, short floating point
    MMeNc1,
    /// 14: Measured value, short float with time tag
    MMeTc1,
    /// 15: Integrated totals
    MItNa1,
    /// 16: Integrated totals with time tag
    MItTa1,
    /// 17: Event of protection equipment with time tag
    MEpTa1,
    /// 18: Packed start events with time tag
    MEpTb1,
    /// 19: Packed output circuit info with time tag
    MEpTc1,
    /// 20: Packed single-point with status change detection
    MPsNa1,
    /// 21: Measured value, normalized without quality descriptor
    MMeNd1,
    /// 30: Single-point with CP56Time2a
    MSpTb1,
    /// 31: Double-point with CP56Time2a
    MDpTb1,
    /// 32: Step position with CP56Time2a
    MStTb1,
    /// 33: Bitstring with CP56Time2a
    MBoTb1,
    /// 34: Measured value, normalized with CP56Time2a
    MMeTd1,
    /// 35: Measured value, scaled with CP56Time2a
    MMeTe1,
    /// 36: Measured value, short float with CP56Time2a
    MMeTf1,
    /// 37: Integrated totals with CP56Time2a
    MItTb1,
    /// 38: Event of protection with CP56Time2a
    MEpTd1,
    /// 39: Packed start events with CP56Time2a
    MEpTe1,
    /// 40: Packed output circuit info with CP56Time2a
    MEpTf1,
    /// 41: Integrated totals containing time-tagged security statistics
    SItTc1,
    /// 45: Single command
    CScNa1,
    /// 46: Double command
    CDcNa1,
    /// 47: Regulating step command
    CRcNa1,
    /// 48: Set-point command, normalized value
    CSeNa1,
    /// 49: Set-point command, scaled value
    CSeNb1,
    /// 50: Set-point command, short floating point
    CSeNc1,
    /// 51: Bitstring of 32 bits command
    CBoNa1,
    /// 58: Single command with CP56Time2a
    CScTa1,
    /// 59: Double command with CP56Time2a
    CDcTa1,
    /// 60: Regulating step command with CP56Time2a
    CRcTa1,
    /// 61: Set-point, normalized with CP56Time2a
    CSeTa1,
    /// 62: Set-point, scaled with CP56Time2a
    CSeTb1,
    /// 63: Set-point, short float with CP56Time2a
    CSeTc1,
    /// 64: Bitstring command with CP56Time2a
    CBoTa1,
    /// 70: End of initialization
    MEiNa1,
    /// 81: Authentication challenge
    SChNa1,
    /// 82: Authentication reply
    SRpNa1,
    /// 83: Aggressive mode authentication request
    SArNa1,
    /// 84: Session key status request
    SKrNa1,
    /// 85: Session key status
    SKsNa1,
    /// 86: Session key change
    SKcNa1,
    /// 87: Authentication error
    SErNa1,
    /// 90: User status change
    SUsNa1,
    /// 91: Update key change request
    SUqNa1,
    /// 92: Update key change reply
    SUrNa1,
    /// 93: Update key change (symmetric)
    SUkNa1,
    /// 94: Update key change (asymmetric)
    SUaNa1,
    /// 95: Update key change confirmation
    SUcNa1,
    /// 100: Interrogation command
    CIcNa1,
    /// 101: Counter interrogation command
    CCiNa1,
    /// 102: Read command
    CRdNa1,
    /// 103: Clock synchronization command
    CCsNa1,
    /// 104: Test command
    CTsNa1,
    /// 105: Reset process command
    CRpNa1,
    /// 106: Delay acquisition command
    CCdNa1,
    /// 107: Test command with CP56Time2a
    CTsTa1,
    /// 110: Parameter of measured value, normalized
    PMeNa1,
    /// 111: Parameter of measured value, scaled
    PMeNb1,
    /// 112: Parameter of measured value, short float
    PMeNc1,
    /// 113: Parameter activation
    PAcNa1,
    /// 120: File ready
    FFrNa1,
    /// 121: Section ready
    FSrNa1,
    /// 122: Call directory, select file, call file, call section
    FScNa1,
    /// 123: Last section, last segment
    FLsNa1,
    /// 124: ACK file, ACK section
    FAfNa1,
    /// 125: Segment
    FSgNa1,
    /// 126: Directory
    FDrTa1,
    /// 127: QueryLog (request archive file)
    FScNb1,
}

impl TypeId {
    /// The wire value of each type identification.
    pub open spec fn code(self) -> u8 {
        match self {
            TypeId::MSpNa1 => 1u8,
            TypeId::MSpTa1 => 2u8,
            TypeId::MDpNa1 => 3u8,
            TypeId::MDpTa1 => 4u8,
            TypeId::MStNa1 => 5u8,
            TypeId::MStTa1 => 6u8,
            TypeId::MBoNa1 => 7u8,
            TypeId::MBoTa1 => 8u8,
            TypeId::MMeNa1 => 9u8,
            TypeId::MMeTa1 => 10u8,
            TypeId::MMeNb1 => 11u8,
            TypeId::MMeTb1 => 12u8,
            TypeId::MMeNc1 => 13u8,
            TypeId::MMeTc1 => 14u8,
            TypeId::MItNa1 => 15u8,
            TypeId::MItTa1 => 16u8,
            TypeId::MEpTa1 => 17u8,
            TypeId::MEpTb1 => 18u8,
            TypeId::MEpTc1 => 19u8,
            TypeId::MPsNa1 => 20u8,
            TypeId::MMeNd1 => 21u8,
            TypeId::MSpTb1 => 30u8,
            TypeId::MDpTb1 => 31u8,
            TypeId::MStTb1 => 32u8,
            TypeId::MBoTb1 => 33u8,
            TypeId::MMeTd1 => 34u8,
            TypeId::MMeTe1 => 35u8,
            TypeId::MMeTf1 => 36u8,
            TypeId::MItTb1 => 37u8,
            TypeId::MEpTd1 => 38u8,
            TypeId::MEpTe1 => 39u8,
            TypeId::MEpTf1 => 40u8,
            TypeId::SItTc1 => 41u8,
            TypeId::CScNa1 => 45u8,
            TypeId::CDcNa1 => 46u8,
            TypeId::CRcNa1 => 47u8,
            TypeId::CSeNa1 => 48u8,
            TypeId::CSeNb1 => 49u8,
            TypeId::CSeNc1 => 50u8,
            TypeId::CBoNa1 => 51u8,
            TypeId::CScTa1 => 58u8,
            TypeId::CDcTa1 => 59u8,
            TypeId::CRcTa1 => 60u8,
            TypeId::CSeTa1 => 61u8,
            TypeId::CSeTb1 => 62u8,
            TypeId::CSeTc1 => 63u8,
            TypeId::CBoTa1 => 64u8,
            TypeId::MEiNa1 => 70u8,
            TypeId::SChNa1 => 81u8,
            TypeId::SRpNa1 => 82u8,
            TypeId::SArNa1 => 83u8,
            TypeId::SKrNa1 => 84u8,
            TypeId::SKsNa1 => 85u8,
            TypeId::SKcNa1 => 86u8,
            TypeId::SErNa1 => 87u8,
            TypeId::SUsNa1 => 90u8,
            TypeId::SUqNa1 => 91u8,
            TypeId::SUrNa1 => 92u8,
            TypeId::SUkNa1 => 93u8,
            TypeId::SUaNa1 => 94u8,
            TypeId::SUcNa1 => 95u8,
            TypeId::CIcNa1 => 100u8,
            TypeId::CCiNa1 => 101u8,
            TypeId::CRdNa1 => 102u8,
            TypeId::CCsNa1 => 103u8,
            TypeId::CTsNa1 => 104u8,
            TypeId::CRpNa1 => 105u8,
            TypeId::CCdNa1 => 106u8,
            TypeId::CTsTa1 => 107u8,
            TypeId::PMeNa1 => 110u8,
            TypeId::PMeNb1 => 111u8,
            TypeId::PMeNc1 => 112u8,
            TypeId::PAcNa1 => 113u8,
            TypeId::FFrNa1 => 120u8,
            TypeId::FSrNa1 => 121u8,
            TypeId::FScNa1 => 122u8,
            TypeId::FLsNa1 => 123u8,
            TypeId::FAfNa1 => 124u8,
            TypeId::FSgNa1 => 125u8,
            TypeId::FDrTa1 => 126u8,
            TypeId::FScNb1 => 127u8,
        }
    }

    /// The type identification with a given wire value, if there is one.
    pub open spec fn from_code(v: u8) -> Option<TypeId> {
        if v == 1u8 {
            Some(TypeId::MSpNa1)
        } else if v == 2u8 {
            Some(TypeId::MSpTa1)
        } else if v == 3u8 {
            Some(TypeId::MDpNa1)
        } else if v == 4u8 {
            Some(TypeId::MDpTa1)
        } else if v == 5u8 {
            Some(TypeId::MStNa1)
        } else if v == 6u8 {
            Some(TypeId::MStTa1)
        } else if v == 7u8 {
            Some(TypeId::MBoNa1)
        } else if v == 8u8 {
            Some(TypeId::MBoTa1)
        } else if v == 9u8 {
            Some(TypeId::MMeNa1)
        } else if v == 10u8 {
            Some(TypeId::MMeTa1)
        } else if v == 11u8 {
            Some(TypeId::MMeNb1)
        } else if v == 12u8 {
            Some(TypeId::MMeTb1)
        } else if v == 13u8 {
            Some(TypeId::MMeNc1)
        } else if v == 14u8 {
            Some(TypeId::MMeTc1)
        } else if v == 15u8 {
            Some(TypeId::MItNa1)
        } else if v == 16u8 {
            Some(TypeId::MItTa1)
        } else if v == 17u8 {
            Some(TypeId::MEpTa1)
        } else if v == 18u8 {
            Some(TypeId::MEpTb1)
        } else if v == 19u8 {
            Some(TypeId::MEpTc1)
        } else if v == 20u8 {
            Some(TypeId::MPsNa1)
        } else if v == 21u8 {
            Some(TypeId::MMeNd1)
        } else if v == 30u8 {
            Some(TypeId::MSpTb1)
        } else if v == 31u8 {
            Some(TypeId::MDpTb1)
        } else if v == 32u8 {
            Some(TypeId::MStTb1)
        } else if v == 33u8 {
            Some(TypeId::MBoTb1)
        } else if v == 34u8 {
            Some(TypeId::MMeTd1)
        } else if v == 35u8 {
            Some(TypeId::MMeTe1)
        } else if v == 36u8 {
            Some(TypeId::MMeTf1)
        } else if v == 37u8 {
            Some(TypeId::MItTb1)
        } else if v == 38u8 {
            Some(TypeId::MEpTd1)
        } else if v == 39u8 {
            Some(TypeId::MEpTe1)
        } else if v == 40u8 {
            Some(TypeId::MEpTf1)
        } else if v == 41u8 {
            Some(TypeId::SItTc1)
        } else if v == 45u8 {
            Some(TypeId::CScNa1)
        } else if v == 46u8 {
            Some(TypeId::CDcNa1)
        } else if v == 47u8 {
            Some(TypeId::CRcNa1)
        } else if v == 48u8 {
            Some(TypeId::CSeNa1)
        } else if v == 49u8 {
            Some(TypeId::CSeNb1)
        } else if v == 50u8 {
            Some(TypeId::CSeNc1)
        } else if v == 51u8 {
            Some(TypeId::CBoNa1)
        } else if v == 58u8 {
            Some(TypeId::CScTa1)
        } else if v == 59u8 {
            Some(TypeId::CDcTa1)
        } else if v == 60u8 {
            Some(TypeId::CRcTa1)
        } else if v == 61u8 {
            Some(TypeId::CSeTa1)
        } else if v == 62u8 {
            Some(TypeId::CSeTb1)
        } else if v == 63u8 {
            Some(TypeId::CSeTc1)
        } else if v == 64u8 {
            Some(TypeId::CBoTa1)
        } else if v == 70u8 {
            Some(TypeId::MEiNa1)
        } else if v == 81u8 {
            Some(TypeId::SChNa1)
        } else if v == 82u8 {
            Some(TypeId::SRpNa1)
        } else if v == 83u8 {
            Some(TypeId::SArNa1)
        } else if v == 84u8 {
            Some(TypeId::SKrNa1)
        } else if v == 85u8 {
            Some(TypeId::SKsNa1)
        } else if v == 86u8 {
            Some(TypeId::SKcNa1)
        } else if v == 87u8 {
            Some(TypeId::SErNa1)
        } else if v == 90u8 {
            Some(TypeId::SUsNa1)
        } else if v == 91u8 {
            Some(TypeId::SUqNa1)
        } else if v == 92u8 {
            Some(TypeId::SUrNa1)
        } else if v == 93u8 {
            Some(TypeId::SUkNa1)
        } else if v == 94u8 {
            Some(TypeId::SUaNa1)
        } else if v == 95u8 {
            Some(TypeId::SUcNa1)
        } else if v == 100u8 {
            Some(TypeId::CIcNa1)
        } else if v == 101u8 {
            Some(TypeId::CCiNa1)
        } else if v == 102u8 {
            Some(TypeId::CRdNa1)
        } else if v == 103u8 {
            Some(TypeId::CCsNa1)
        } else if v == 104u8 {
            Some(TypeId::CTsNa1)
        } else if v == 105u8 {
            Some(TypeId::CRpNa1)
        } else if v == 106u8 {
            Some(TypeId::CCdNa1)
        } else if v == 107u8 {
            Some(TypeId::CTsTa1)
        } else if v == 110u8 {
            Some(TypeId::PMeNa1)
        } else if v == 111u8 {
            Some(TypeId::PMeNb1)
        } else if v == 112u8 {
            Some(TypeId::PMeNc1)
        } else if v == 113u8 {
            Some(TypeId::PAcNa1)
        } else if v == 120u8 {
            Some(TypeId::FFrNa1)
        } else if v == 121u8 {
            Some(TypeId::FSrNa1)
        } else if v == 122u8 {
            Some(TypeId::FScNa1)
        } else if v == 123u8 {
            Some(TypeId::FLsNa1)
        } else if v == 124u8 {
            Some(TypeId::FAfNa1)
        } else if v == 125u8 {
            Some(TypeId::FSgNa1)
        } else if v == 126u8 {
            Some(TypeId::FDrTa1)
        } else if v == 127u8 {
            Some(TypeId::FScNb1)
        } else {
            None
        }
    }

    /// The standard mnemonic of each type identification.
    pub open spec fn mnemonic(self) -> &'static str {
        match self {
            TypeId::MSpNa1 => "M_SP_NA_1",
            TypeId::MSpTa1 => "M_SP_TA_1",
            TypeId::MDpNa1 => "M_DP_NA_1",
            TypeId::MDpTa1 => "M_DP_TA_1",
            TypeId::MStNa1 => "M_ST_NA_1",
            TypeId::MStTa1 => "M_ST_TA_1",
            TypeId::MBoNa1 => "M_BO_NA_1",
            TypeId::MBoTa1 => "M_BO_TA_1",
            TypeId::MMeNa1 => "M_ME_NA_1",
            TypeId::MMeTa1 => "M_ME_TA_1",
            TypeId::MMeNb1 => "M_ME_NB_1",
            TypeId::MMeTb1 => "M_ME_TB_1",
            TypeId::MMeNc1 => "M_ME_NC_1",
            TypeId::MMeTc1 => "M_ME_TC_1",
            TypeId::MItNa1 => "M_IT_NA_1",
            TypeId::MItTa1 => "M_IT_TA_1",
            TypeId::MEpTa1 => "M_EP_TA_1",
            TypeId::MEpTb1 => "M_EP_TB_1",
            TypeId::MEpTc1 => "M_EP_TC_1",
            TypeId::MPsNa1 => "M_PS_NA_1",
            TypeId::MMeNd1 => "M_ME_ND_1",
            TypeId::MSpTb1 => "M_SP_TB_1",
            TypeId::MDpTb1 => "M_DP_TB_1",
            TypeId::MStTb1 => "M_ST_TB_1",
            TypeId::MBoTb1 => "M_BO_TB_1",
            TypeId::MMeTd1 => "M_ME_TD_1",
            TypeId::MMeTe1 => "M_ME_TE_1",
            TypeId::MMeTf1 => "M_ME_TF_1",
            TypeId::MItTb1 => "M_IT_TB_1",
            TypeId::MEpTd1 => "M_EP_TD_1",
            TypeId::MEpTe1 => "M_EP_TE_1",
            TypeId::MEpTf1 => "M_EP_TF_1",
            TypeId::SItTc1 => "S_IT_TC_1",
            TypeId::CScNa1 => "C_SC_NA_1",
            TypeId::CDcNa1 => "C_DC_NA_1",
            TypeId::CRcNa1 => "C_RC_NA_1",
            TypeId::CSeNa1 => "C_SE_NA_1",
            TypeId::CSeNb1 => "C_SE_NB_1",
            TypeId::CSeNc1 => "C_SE_NC_1",
            TypeId::CBoNa1 => "C_BO_NA_1",
            TypeId::CScTa1 => "C_SC_TA_1",
            TypeId::CDcTa1 => "C_DC_TA_1",
            TypeId::CRcTa1 => "C_RC_TA_1",
            TypeId::CSeTa1 => "C_SE_TA_1",
            TypeId::CSeTb1 => "C_SE_TB_1",
            TypeId::CSeTc1 => "C_SE_TC_1",
            TypeId::CBoTa1 => "C_BO_TA_1",
            TypeId::MEiNa1 => "M_EI_NA_1",
            TypeId::SChNa1 => "S_CH_NA_1",
            TypeId::SRpNa1 => "S_RP_NA_1",
            TypeId::SArNa1 => "S_AR_NA_1",
            TypeId::SKrNa1 => "S_KR_NA_1",
            TypeId::SKsNa1 => "S_KS_NA_1",
            TypeId::SKcNa1 => "S_KC_NA_1",
            TypeId::SErNa1 => "S_ER_NA_1",
            TypeId::SUsNa1 => "S_US_NA_1",
            TypeId::SUqNa1 => "S_UQ_NA_1",
            TypeId::SUrNa1 => "S_UR_NA_1",
            TypeId::SUkNa1 => "S_UK_NA_1",
            TypeId::SUaNa1 => "S_UA_NA_1",
            TypeId::SUcNa1 => "S_UC_NA_1",
            TypeId::CIcNa1 => "C_IC_NA_1",
            TypeId::CCiNa1 => "C_CI_NA_1",
            TypeId::CRdNa1 => "C_RD_NA_1",
            TypeId::CCsNa1 => "C_CS_NA_1",
            TypeId::CTsNa1 => "C_TS_NA_1",
            TypeId::CRpNa1 => "C_RP_NA_1",
            TypeId::CCdNa1 => "C_CD_NA_1",
            TypeId::CTsTa1 => "C_TS_TA_1",
            TypeId::PMeNa1 => "P_ME_NA_1",
            TypeId::PMeNb1 => "P_ME_NB_1",
            TypeId::PMeNc1 => "P_ME_NC_1",
            TypeId::PAcNa1 => "P_AC_NA_1",
            TypeId::FFrNa1 => "F_FR_NA_1",
            TypeId::FSrNa1 => "F_SR_NA_1",
            TypeId::FScNa1 => "F_SC_NA_1",
            TypeId::FLsNa1 => "F_LS_NA_1",
            TypeId::FAfNa1 => "F_AF_NA_1",
            TypeId::FSgNa1 => "F_SG_NA_1",
            TypeId::FDrTa1 => "F_DR_TA_1",
            TypeId::FScNb1 => "F_SC_NB_1",
        }
    }

    pub fn as_u8(self) -> (r: u8)
        ensures
            r == self.code(),
    {
        match self {
            TypeId::MSpNa1 => 1,
            TypeId::MSpTa1 => 2,
            TypeId::MDpNa1 => 3,
            TypeId::MDpTa1 => 4,
            TypeId::MStNa1 => 5,
            TypeId::MStTa1 => 6,
            TypeId::MBoNa1 => 7,
            TypeId::MBoTa1 => 8,
            TypeId::MMeNa1 => 9,
            TypeId::MMeTa1 => 10,
            TypeId::MMeNb1 => 11,
            TypeId::MMeTb1 => 12,
            TypeId::MMeNc1 => 13,
            TypeId::MMeTc1 => 14,
            TypeId::MItNa1 => 15,
            TypeId::MItTa1 => 16,
            TypeId::MEpTa1 => 17,
            TypeId::MEpTb1 => 18,
            TypeId::MEpTc1 => 19,
            TypeId::MPsNa1 => 20,
            TypeId::MMeNd1 => 21,
            TypeId::MSpTb1 => 30,
            TypeId::MDpTb1 => 31,
            TypeId::MStTb1 => 32,
            TypeId::MBoTb1 => 33,
            TypeId::MMeTd1 => 34,
            TypeId::MMeTe1 => 35,
            TypeId::MMeTf1 => 36,
            TypeId::MItTb1 => 37,
            TypeId::MEpTd1 => 38,
            TypeId::MEpTe1 => 39,
            TypeId::MEpTf1 => 40,
            TypeId::SItTc1 => 41,
            TypeId::CScNa1 => 45,
            TypeId::CDcNa1 => 46,
            TypeId::CRcNa1 => 47,
            TypeId::CSeNa1 => 48,
            TypeId::CSeNb1 => 49,
            TypeId::CSeNc1 => 50,
            TypeId::CBoNa1 => 51,
            TypeId::CScTa1 => 58,
            TypeId::CDcTa1 => 59,
            TypeId::CRcTa1 => 60,
            TypeId::CSeTa1 => 61,
            TypeId::CSeTb1 => 62,
            TypeId::CSeTc1 => 63,
            TypeId::CBoTa1 => 64,
            TypeId::MEiNa1 => 70,
            TypeId::SChNa1 => 81,
            TypeId::SRpNa1 => 82,
            TypeId::SArNa1 => 83,
            TypeId::SKrNa1 => 84,
            TypeId::SKsNa1 => 85,
            TypeId::SKcNa1 => 86,
            TypeId::SErNa1 => 87,
            TypeId::SUsNa1 => 90,
            TypeId::SUqNa1 => 91,
            TypeId::SUrNa1 => 92,
            TypeId::SUkNa1 => 93,
            TypeId::SUaNa1 => 94,
            TypeId::SUcNa1 => 95,
            TypeId::CIcNa1 => 100,
            TypeId::CCiNa1 => 101,
            TypeId::CRdNa1 => 102,
            TypeId::CCsNa1 => 103,
            TypeId::CTsNa1 => 104,
            TypeId::CRpNa1 => 105,
            TypeId::CCdNa1 => 106,
            TypeId::CTsTa1 => 107,
            TypeId::PMeNa1 => 110,
            TypeId::PMeNb1 => 111,
            TypeId::PMeNc1 => 112,
            TypeId::PAcNa1 => 113,
            TypeId::FFrNa1 => 120,
            TypeId::FSrNa1 => 121,
            TypeId::FScNa1 => 122,
            TypeId::FLsNa1 => 123,
            TypeId::FAfNa1 => 124,
            TypeId::FSgNa1 => 125,
            TypeId::FDrTa1 => 126,
            TypeId::FScNb1 => 127,
        }
    }

    /// Decode a wire value.
    pub fn from_u8(value: u8) -> (r: Result<TypeId, InvalidTypeId>)
        ensures
            r == (match TypeId::from_code(value) {
                Some(t) => Ok(t),
                None => Err(InvalidTypeId(value)),
            }),
    {
        match value {
            1 => Ok(TypeId::MSpNa1),
            2 => Ok(TypeId::MSpTa1),
            3 => Ok(TypeId::MDpNa1),
            4 => Ok(TypeId::MDpTa1),
            5 => Ok(TypeId::MStNa1),
            6 => Ok(TypeId::MStTa1),
            7 => Ok(TypeId::MBoNa1),
            8 => Ok(TypeId::MBoTa1),
            9 => Ok(TypeId::MMeNa1),
            10 => Ok(TypeId::MMeTa1),
            11 => Ok(TypeId::MMeNb1),
            12 => Ok(TypeId::MMeTb1),
            13 => Ok(TypeId::MMeNc1),
            14 => Ok(TypeId::MMeTc1),
            15 => Ok(TypeId::MItNa1),
            16 => Ok(TypeId::MItTa1),
            17 => Ok(TypeId::MEpTa1),
            18 => Ok(TypeId::MEpTb1),
            19 => Ok(TypeId::MEpTc1),
            20 => Ok(TypeId::MPsNa1),
            21 => Ok(TypeId::MMeNd1),
            30 => Ok(TypeId::MSpTb1),
            31 => Ok(TypeId::MDpTb1),
            32 => Ok(TypeId::MStTb1),
            33 => Ok(TypeId::MBoTb1),
            34 => Ok(TypeId::MMeTd1),
            35 => Ok(TypeId::MMeTe1),
            36 => Ok(TypeId::MMeTf1),
            37 => Ok(TypeId::MItTb1),
            38 => Ok(TypeId::MEpTd1),
            39 => Ok(TypeId::MEpTe1),
            40 => Ok(TypeId::MEpTf1),
            41 => Ok(TypeId::SItTc1),
            45 => Ok(TypeId::CScNa1),
            46 => Ok(TypeId::CDcNa1),
            47 => Ok(TypeId::CRcNa1),
            48 => Ok(TypeId::CSeNa1),
            49 => Ok(TypeId::CSeNb1),
            50 => Ok(TypeId::CSeNc1),
            51 => Ok(TypeId::CBoNa1),
            58 => Ok(TypeId::CScTa1),
            59 => Ok(TypeId::CDcTa1),
            60 => Ok(TypeId::CRcTa1),
            61 => Ok(TypeId::CSeTa1),
            62 => Ok(TypeId::CSeTb1),
            63 => Ok(TypeId::CSeTc1),
            64 => Ok(TypeId::CBoTa1),
            70 => Ok(TypeId::MEiNa1),
            81 => Ok(TypeId::SChNa1),
            82 => Ok(TypeId::SRpNa1),
            83 => Ok(TypeId::SArNa1),
            84 => Ok(TypeId::SKrNa1),
            85 => Ok(TypeId::SKsNa1),
            86 => Ok(TypeId::SKcNa1),
            87 => Ok(TypeId::SErNa1),
            90 => Ok(TypeId::SUsNa1),
            91 => Ok(TypeId::SUqNa1),
            92 => Ok(TypeId::SUrNa1),
            93 => Ok(TypeId::SUkNa1),
            94 => Ok(TypeId::SUaNa1),
            95 => Ok(TypeId::SUcNa1),
            100 => Ok(TypeId::CIcNa1),
            101 => Ok(TypeId::CCiNa1),
            102 => Ok(TypeId::CRdNa1),
            103 => Ok(TypeId::CCsNa1),
            104 => Ok(TypeId::CTsNa1),
            105 => Ok(TypeId::CRpNa1),
            106 => Ok(TypeId::CCdNa1),
            107 => Ok(TypeId::CTsTa1),
            110 => Ok(TypeId::PMeNa1),
            111 => Ok(TypeId::PMeNb1),
            112 => Ok(TypeId::PMeNc1),
            113 => Ok(TypeId::PAcNa1),
            120 => Ok(TypeId::FFrNa1),
            121 => Ok(TypeId::FSrNa1),
            122 => Ok(TypeId::FScNa1),
            123 => Ok(TypeId::FLsNa1),
            124 => Ok(TypeId::FAfNa1),
            125 => Ok(TypeId::FSgNa1),
            126 => Ok(TypeId::FDrTa1),
            127 => Ok(TypeId::FScNb1),
            _ => Err(InvalidTypeId(value)),
        }
    }

    /// The standard mnemonic (for example `M_SP_NA_1`).
    pub fn to_string(&self) -> (r: String)
        ensures
            r@ == self.mnemonic()@,
    {
        let s: &'static str = match self {
            TypeId::MSpNa1 => "M_SP_NA_1",
            TypeId::MSpTa1 => "M_SP_TA_1",
            TypeId::MDpNa1 => "M_DP_NA_1",
            TypeId::MDpTa1 => "M_DP_TA_1",
            TypeId::MStNa1 => "M_ST_NA_1",
            TypeId::MStTa1 => "M_ST_TA_1",
            TypeId::MBoNa1 => "M_BO_NA_1",
            TypeId::MBoTa1 => "M_BO_TA_1",
            TypeId::MMeNa1 => "M_ME_NA_1",
            TypeId::MMeTa1 => "M_ME_TA_1",
            TypeId::MMeNb1 => "M_ME_NB_1",
            TypeId::MMeTb1 => "M_ME_TB_1",
            TypeId::MMeNc1 => "M_ME_NC_1",
            TypeId::MMeTc1 => "M_ME_TC_1",
            TypeId::MItNa1 => "M_IT_NA_1",
            TypeId::MItTa1 => "M_IT_TA_1",
            TypeId::MEpTa1 => "M_EP_TA_1",
            TypeId::MEpTb1 => "M_EP_TB_1",
            TypeId::MEpTc1 => "M_EP_TC_1",
            TypeId::MPsNa1 => "M_PS_NA_1",
            TypeId::MMeNd1 => "M_ME_ND_1",
            TypeId::MSpTb1 => "M_SP_TB_1",
            TypeId::MDpTb1 => "M_DP_TB_1",
            TypeId::MStTb1 => "M_ST_TB_1",
            TypeId::MBoTb1 => "M_BO_TB_1",
            TypeId::MMeTd1 => "M_ME_TD_1",
            TypeId::MMeTe1 => "M_ME_TE_1",
            TypeId::MMeTf1 => "M_ME_TF_1",
            TypeId::MItTb1 => "M_IT_TB_1",
            TypeId::MEpTd1 => "M_EP_TD_1",
            TypeId::MEpTe1 => "M_EP_TE_1",
            TypeId::MEpTf1 => "M_EP_TF_1",
            TypeId::SItTc1 => "S_IT_TC_1",
            TypeId::CScNa1 => "C_SC_NA_1",
            TypeId::CDcNa1 => "C_DC_NA_1",
            TypeId::CRcNa1 => "C_RC_NA_1",
            TypeId::CSeNa1 => "C_SE_NA_1",
            TypeId::CSeNb1 => "C_SE_NB_1",
            TypeId::CSeNc1 => "C_SE_NC_1",
            TypeId::CBoNa1 => "C_BO_NA_1",
            TypeId::CScTa1 => "C_SC_TA_1",
            TypeId::CDcTa1 => "C_DC_TA_1",
            TypeId::CRcTa1 => "C_RC_TA_1",
            TypeId::CSeTa1 => "C_SE_TA_1",
            TypeId::CSeTb1 => "C_SE_TB_1",
            TypeId::CSeTc1 => "C_SE_TC_1",
            TypeId::CBoTa1 => "C_BO_TA_1",
            TypeId::MEiNa1 => "M_EI_NA_1",
            TypeId::SChNa1 => "S_CH_NA_1",
            TypeId::SRpNa1 => "S_RP_NA_1",
            TypeId::SArNa1 => "S_AR_NA_1",
            TypeId::SKrNa1 => "S_KR_NA_1",
            TypeId::SKsNa1 => "S_KS_NA_1",
            TypeId::SKcNa1 => "S_KC_NA_1",
            TypeId::SErNa1 => "S_ER_NA_1",
            TypeId::SUsNa1 => "S_US_NA_1",
            TypeId::SUqNa1 => "S_UQ_NA_1",
            TypeId::SUrNa1 => "S_UR_NA_1",
            TypeId::SUkNa1 => "S_UK_NA_1",
            TypeId::SUaNa1 => "S_UA_NA_1",
            TypeId::SUcNa1 => "S_UC_NA_1",
            TypeId::CIcNa1 => "C_IC_NA_1",
            TypeId::CCiNa1 => "C_CI_NA_1",
            TypeId::CRdNa1 => "C_RD_NA_1",
            TypeId::CCsNa1 => "C_CS_NA_1",
            TypeId::CTsNa1 => "C_TS_NA_1",
            TypeId::CRpNa1 => "C_RP_NA_1",
            TypeId::CCdNa1 => "C_CD_NA_1",
            TypeId::CTsTa1 => "C_TS_TA_1",
            TypeId::PMeNa1 => "P_ME_NA_1",
            TypeId::PMeNb1 => "P_ME_NB_1",
            TypeId::PMeNc1 => "P_ME_NC_1",
            TypeId::PAcNa1 => "P_AC_NA_1",
            TypeId::FFrNa1 => "F_FR_NA_1",
            TypeId::FSrNa1 => "F_SR_NA_1",
            TypeId::FScNa1 => "F_SC_NA_1",
            TypeId::FLsNa1 => "F_LS_NA_1",
            TypeId::FAfNa1 => "F_AF_NA_1",
            TypeId::FSgNa1 => "F_SG_NA_1",
            TypeId::FDrTa1 => "F_DR_TA_1",
            TypeId::FScNb1 => "F_SC_NB_1",
        };
        s.to_owned()
    }
}

impl TryFrom<u8> for TypeId {
    type Error = InvalidTypeId;

    fn try_from(value: u8) -> (r: Result<TypeId, InvalidTypeId>) {
        TypeId::from_u8(value)
    }
}

impl vstd::std_specs::convert::TryFromSpecImpl<u8> for TypeId {
    open spec fn obeys_try_from_spec() -> bool {
        true
    }

    open spec fn try_from_spec(value: u8) -> Result<TypeId, InvalidTypeId> {
        match TypeId::from_code(value) {
            Some(t) => Ok(t),
            None => Err(InvalidTypeId(value)),
        }
    }
}

/// Encoding a type identification and decoding the result gives it back.
pub proof fn lemma_type_id_code_roundtrip(t: TypeId)
    ensures
        TypeId::from_code(t.code()) == Some(t),
{
}

/// A wire value that decodes to a type identification is that identification's code.
pub proof fn lemma_type_id_decode_is_code(v: u8)
    ensures
        TypeId::from_code(v) matches Some(t) ==> t.code() == v,
{
}

/// Each type identification goes on the wire as its number in the standard
/// (IEC 60870-5-101 7.2.1 and IEC 60870-5-104 8.2: 1 M_SP_NA_1, 9 M_ME_NA_1,
/// 11 M_ME_NB_1, 100 C_IC_NA_1, ...), and a wire value decodes to a type
/// identification exactly when it is that number.
pub proof fn lemma_type_id_standard_numbers(t: TypeId, v: u8)
    ensures
        t.code() as int == (match t {
            TypeId::MSpNa1 => 1int,
            TypeId::MSpTa1 => 2int,
            TypeId::MDpNa1 => 3int,
            TypeId::MDpTa1 => 4int,
            TypeId::MStNa1 => 5int,
            TypeId::MStTa1 => 6int,
            TypeId::MBoNa1 => 7int,
            TypeId::MBoTa1 => 8int,
            TypeId::MMeNa1 => 9int,
            TypeId::MMeTa1 => 10int,
            TypeId::MMeNb1 => 11int,
            TypeId::MMeTb1 => 12int,
            TypeId::MMeNc1 => 13int,
            TypeId::MMeTc1 => 14int,
            TypeId::MItNa1 => 15int,
            TypeId::MItTa1 => 16int,
            TypeId::MEpTa1 => 17int,
            TypeId::MEpTb1 => 18int,
            TypeId::MEpTc1 => 19int,
            TypeId::MPsNa1 => 20int,
            TypeId::MMeNd1 => 21int,
            TypeId::MSpTb1 => 30int,
            TypeId::MDpTb1 => 31int,
            TypeId::MStTb1 => 32int,
            TypeId::MBoTb1 => 33int,
            TypeId::MMeTd1 => 34int,
            TypeId::MMeTe1 => 35int,
            TypeId::MMeTf1 => 36int,
            TypeId::MItTb1 => 37int,
            TypeId::MEpTd1 => 38int,
            TypeId::MEpTe1 => 39int,
            TypeId::MEpTf1 => 40int,
            TypeId::SItTc1 => 41int,
            TypeId::CScNa1 => 45int,
            TypeId::CDcNa1 => 46int,
            TypeId::CRcNa1 => 47int,
            TypeId::CSeNa1 => 48int,
            TypeId::CSeNb1 => 49int,
            TypeId::CSeNc1 => 50int,
            TypeId::CBoNa1 => 51int,
            TypeId::CScTa1 => 58int,
            TypeId::CDcTa1 => 59int,
            TypeId::CRcTa1 => 60int,
            TypeId::CSeTa1 => 61int,
            TypeId::CSeTb1 => 62int,
            TypeId::CSeTc1 => 63int,
            TypeId::CBoTa1 => 64int,
            TypeId::MEiNa1 => 70int,
            TypeId::SChNa1 => 81int,
            TypeId::SRpNa1 => 82int,
            TypeId::SArNa1 => 83int,
            TypeId::SKrNa1 => 84int,
            TypeId::SKsNa1 => 85int,
            TypeId::SKcNa1 => 86int,
            TypeId::SErNa1 => 87int,
            TypeId::SUsNa1 => 90int,
            TypeId::SUqNa1 => 91int,
            TypeId::SUrNa1 => 92int,
            TypeId::SUkNa1 => 93int,
            TypeId::SUaNa1 => 94int,
            TypeId::SUcNa1 => 95int,
            TypeId::CIcNa1 => 100int,
            TypeId::CCiNa1 => 101int,
            TypeId::CRdNa1 => 102int,
            TypeId::CCsNa1 => 103int,
            TypeId::CTsNa1 => 104int,
            TypeId::CRpNa1 => 105int,
            TypeId::CCdNa1 => 106int,
            TypeId::CTsTa1 => 107int,
            TypeId::PMeNa1 => 110int,
            TypeId::PMeNb1 => 111int,
            TypeId::PMeNc1 => 112int,
            TypeId::PAcNa1 => 113int,
            TypeId::FFrNa1 => 120int,
            TypeId::FSrNa1 => 121int,
            TypeId::FScNa1 => 122int,
            TypeId::FLsNa1 => 123int,
            TypeId::FAfNa1 => 124int,
            TypeId::FSgNa1 => 125int,
            TypeId::FDrTa1 => 126int,
            TypeId::FScNb1 => 127int,
        }),
        TypeId::from_code(v) == Some(t) <==> v == t.code(),
{
}

} // verus!
