use vstd::prelude::*;

use crate::error::ConfigError;
use crate::types::OriginatorAddress;

verus! {

/// The values that application layer parameters (or their builder) hold.
pub struct AppLayerValues {
    pub size_of_cot: u8,
    pub size_of_ca: u8,
    pub size_of_ioa: u8,
    pub max_asdu_length: u16,
    pub originator_address: OriginatorAddress,
}

/// The constraints of the standard: COT and CA of 1 or 2 bytes, IOA of 1 to 3
/// bytes, and a maximum ASDU length greater than the ASDU header.
pub open spec fn app_values_valid(v: AppLayerValues) -> bool {
    &&& 1 <= v.size_of_cot <= 2
    &&& 1 <= v.size_of_ca <= 2
    &&& 1 <= v.size_of_ioa <= 3
    &&& v.max_asdu_length > 2 + v.size_of_cot + v.size_of_ca
}

/// The IEC 60870-5-104 defaults: COT 2, CA 2, IOA 3 bytes, ASDU up to 249 bytes.
pub open spec fn cs104_values() -> AppLayerValues {
    AppLayerValues {
        size_of_cot: 2,
        size_of_ca: 2,
        size_of_ioa: 3,
        max_asdu_length: 249,
        originator_address: OriginatorAddress(0),
    }
}

/// The IEC 60870-5-101 defaults: COT 2, CA 2, IOA 3 bytes, ASDU up to 254 bytes.
pub open spec fn cs101_values() -> AppLayerValues {
    AppLayerValues {
        size_of_cot: 2,
        size_of_ca: 2,
        size_of_ioa: 3,
        max_asdu_length: 254,
        originator_address: OriginatorAddress(0),
    }
}

/// The error that building from these values reports, checked in this order;
/// `None` when they meet the constraints.
pub open spec fn app_build_error(v: AppLayerValues) -> Option<ConfigError> {
    if !(1 <= v.size_of_cot <= 2) {
        Some(ConfigError::InvalidSizeOfCot(v.size_of_cot))
    } else if !(1 <= v.size_of_ca <= 2) {
        Some(ConfigError::InvalidSizeOfCa(v.size_of_ca))
    } else if !(1 <= v.size_of_ioa <= 3) {
        Some(ConfigError::InvalidSizeOfIoa(v.size_of_ioa))
    } else if v.max_asdu_length <= 2 + v.size_of_cot + v.size_of_ca {
        Some(
            ConfigError::MaxAsduLengthTooSmall {
                max: v.max_asdu_length,
                min: (2 + v.size_of_cot + v.size_of_ca) as u16,
            },
        )
    } else {
        None
    }
}

/// Building succeeds exactly on the values that meet the constraints.
pub proof fn lemma_app_build_error_iff_invalid(v: AppLayerValues)
    ensures
        app_build_error(v) is None <==> app_values_valid(v),
{
}

/// ASDU header size: type_id(1) + vsq(1) + cot + ca.
pub open spec fn header_size(v: AppLayerValues) -> int {
    2 + v.size_of_cot + v.size_of_ca
}

/// Application layer parameters for ASDU encoding/decoding.
///
/// Controls the size of variable-length fields in the ASDU header.
/// Use [`AppLayerParametersBuilder`] for custom configurations with validation.
#[derive(Debug, Clone, Copy, PartialEq, Eq)]
pub struct AppLayerParameters {
    size_of_cot: u8,
    size_of_ca: u8,
    size_of_ioa: u8,
    max_asdu_length: u16,
    originator_address: OriginatorAddress,
}

impl View for AppLayerParameters {
    type V = AppLayerValues;

    closed spec fn view(&self) -> AppLayerValues {
        AppLayerValues {
            size_of_cot: self.size_of_cot,
            size_of_ca: self.size_of_ca,
            size_of_ioa: self.size_of_ioa,
            max_asdu_length: self.max_asdu_length,
            originator_address: self.originator_address,
        }
    }
}

impl AppLayerParameters {
    /// Every value of this type meets the constraints of the standard.
    #[verifier::type_invariant]
    pub open spec fn valid(self) -> bool {
        app_values_valid(self@)
    }

    /// Two parameter sets with the same values are the same.
    pub proof fn lemma_view_injective(a: AppLayerParameters, b: AppLayerParameters)
        ensures
            a@ == b@ ==> a == b,
    {
    }

    /// Default parameters for IEC 60870-5-104.
    pub fn cs104_default() -> (r: Self)
        ensures
            r@ == cs104_values(),
    {
        AppLayerParameters {
            size_of_cot: 2,
            size_of_ca: 2,
            size_of_ioa: 3,
            max_asdu_length: 249,
            originator_address: OriginatorAddress::new(0),
        }
    }

    /// Default parameters for IEC 60870-5-101.
    pub fn cs101_default() -> (r: Self)
        ensures
            r@ == cs101_values(),
    {
        AppLayerParameters {
            size_of_cot: 2,
            size_of_ca: 2,
            size_of_ioa: 3,
            max_asdu_length: 254,
            originator_address: OriginatorAddress::new(0),
        }
    }

    /// Create a builder initialized with CS104 default values.
    pub fn builder() -> (r: AppLayerParametersBuilder)
        ensures
            r@ == cs104_values(),
    {
        AppLayerParametersBuilder::default()
    }

    /// Size of Cause of Transmission field (1 or 2 bytes).
    pub fn size_of_cot(&self) -> (r: u8)
        ensures
            r == self@.size_of_cot,
            1 <= r <= 2,
    {
        proof {
            use_type_invariant(self);
        }
        self.size_of_cot
    }

    /// Size of Common Address field (1 or 2 bytes).
    pub fn size_of_ca(&self) -> (r: u8)
        ensures
            r == self@.size_of_ca,
            1 <= r <= 2,
    {
        proof {
            use_type_invariant(self);
        }
        self.size_of_ca
    }

    /// Size of Information Object Address field (1, 2, or 3 bytes).
    pub fn size_of_ioa(&self) -> (r: u8)
        ensures
            r == self@.size_of_ioa,
            1 <= r <= 3,
    {
        proof {
            use_type_invariant(self);
        }
        self.size_of_ioa
    }

    /// Maximum ASDU length in bytes.
    pub fn max_asdu_length(&self) -> (r: u16)
        ensures
            r == self@.max_asdu_length,
    {
        self.max_asdu_length
    }

    /// Default originator address.
    pub fn originator_address(&self) -> (r: OriginatorAddress)
        ensures
            r == self@.originator_address,
    {
        self.originator_address
    }

    /// Total ASDU header size: type_id(1) + vsq(1) + cot + ca.
    pub fn asdu_header_size(&self) -> (r: usize)
        ensures
            r == header_size(self@),
            4 <= r <= 6,
    {
        proof {
            use_type_invariant(self);
        }
        2 + self.size_of_cot as usize + self.size_of_ca as usize
    }
}

impl Default for AppLayerParameters {
    fn default() -> (r: Self)
        ensures
            r@ == cs104_values(),
    {
        AppLayerParameters::cs104_default()
    }
}

/// Builder for [`AppLayerParameters`] with standard constraint validation.
#[derive(Debug, Clone, Copy)]
pub struct AppLayerParametersBuilder {
    size_of_cot: u8,
    size_of_ca: u8,
    size_of_ioa: u8,
    max_asdu_length: u16,
    originator_address: OriginatorAddress,
}

impl View for AppLayerParametersBuilder {
    type V = AppLayerValues;

    closed spec fn view(&self) -> AppLayerValues {
        AppLayerValues {
            size_of_cot: self.size_of_cot,
            size_of_ca: self.size_of_ca,
            size_of_ioa: self.size_of_ioa,
            max_asdu_length: self.max_asdu_length,
            originator_address: self.originator_address,
        }
    }
}

impl Default for AppLayerParametersBuilder {
    fn default() -> (r: Self)
        ensures
            r@ == cs104_values(),
    {
        let defaults = AppLayerParameters::cs104_default();
        AppLayerParametersBuilder {
            size_of_cot: defaults.size_of_cot,
            size_of_ca: defaults.size_of_ca,
            size_of_ioa: defaults.size_of_ioa,
            max_asdu_length: defaults.max_asdu_length,
            originator_address: defaults.originator_address,
        }
    }
}

impl AppLayerParametersBuilder {
    /// Size of Cause of Transmission field (1 or 2).
    pub fn size_of_cot(self, size: u8) -> (r: Self)
        ensures
            r@ == (AppLayerValues { size_of_cot: size, ..self@ }),
    {
        let mut s = self;
        s.size_of_cot = size;
        s
    }

    /// Size of Common Address field (1 or 2).
    pub fn size_of_ca(self, size: u8) -> (r: Self)
        ensures
            r@ == (AppLayerValues { size_of_ca: size, ..self@ }),
    {
        let mut s = self;
        s.size_of_ca = size;
        s
    }

    /// Size of Information Object Address field (1, 2, or 3).
    pub fn size_of_ioa(self, size: u8) -> (r: Self)
        ensures
            r@ == (AppLayerValues { size_of_ioa: size, ..self@ }),
    {
        let mut s = self;
        s.size_of_ioa = size;
        s
    }

    /// Maximum ASDU length in bytes.
    pub fn max_asdu_length(self, length: u16) -> (r: Self)
        ensures
            r@ == (AppLayerValues { max_asdu_length: length, ..self@ }),
    {
        let mut s = self;
        s.max_asdu_length = length;
        s
    }

    /// Default originator address.
    pub fn originator_address(self, addr: OriginatorAddress) -> (r: Self)
        ensures
            r@ == (AppLayerValues { originator_address: addr, ..self@ }),
    {
        let mut s = self;
        s.originator_address = addr;
        s
    }

    /// Build and validate the parameters.
    ///
    /// # Constraints
    /// - `size_of_cot`: 1 or 2
    /// - `size_of_ca`: 1 or 2
    /// - `size_of_ioa`: 1, 2, or 3
    /// - `max_asdu_length`: greater than the header size
    pub fn build(self) -> (r: Result<AppLayerParameters, ConfigError>)
        ensures
            match app_build_error(self@) {
                Some(e) => r == Err::<AppLayerParameters, ConfigError>(e),
                None => r matches Ok(p) && p@ == self@,
            },
    {
        if self.size_of_cot < 1 || self.size_of_cot > 2 {
            return Err(ConfigError::InvalidSizeOfCot(self.size_of_cot));
        }
        if self.size_of_ca < 1 || self.size_of_ca > 2 {
            return Err(ConfigError::InvalidSizeOfCa(self.size_of_ca));
        }
        if self.size_of_ioa < 1 || self.size_of_ioa > 3 {
            return Err(ConfigError::InvalidSizeOfIoa(self.size_of_ioa));
        }
        let min_length = 2 + self.size_of_cot as u16 + self.size_of_ca as u16;
        if self.max_asdu_length <= min_length {
            return Err(ConfigError::MaxAsduLengthTooSmall { max: self.max_asdu_length, min: min_length });
        }
        Ok(
            AppLayerParameters {
                size_of_cot: self.size_of_cot,
                size_of_ca: self.size_of_ca,
                size_of_ioa: self.size_of_ioa,
                max_asdu_length: self.max_asdu_length,
                originator_address: self.originator_address,
            },
        )
    }
}

} // verus!
