use vstd::prelude::*;

verus! {

/// Quality descriptor for measured and status values (IEC 60870-5-101 7.2.6.3).
///
/// A set of flags held as the bits of one byte; the view is that byte.
#[derive(Debug, Clone, Copy, PartialEq, Eq, Hash, Structural)]
pub struct QualityDescriptor {
    bits: u8,
}

/// Quality descriptor for protection equipment (IEC 60870-5-101 7.2.6.4).
#[derive(Debug, Clone, Copy, PartialEq, Eq, Hash, Structural)]
pub struct QualityDescriptorP {
    bits: u8,
}

/// Start events of protection equipment (IEC 60870-5-101 7.2.6.11).
#[derive(Debug, Clone, Copy, PartialEq, Eq, Hash, Structural)]
pub struct StartEvent {
    bits: u8,
}

/// Output circuit information of protection equipment (IEC 60870-5-101 7.2.6.12).
#[derive(Debug, Clone, Copy, PartialEq, Eq, Hash, Structural)]
pub struct OutputCircuitInfo {
    bits: u8,
}

impl View for QualityDescriptor {
    type V = u8;

    closed spec fn view(&self) -> u8 {
        self.bits
    }
}

impl View for QualityDescriptorP {
    type V = u8;

    closed spec fn view(&self) -> u8 {
        self.bits
    }
}

impl View for StartEvent {
    type V = u8;

    closed spec fn view(&self) -> u8 {
        self.bits
    }
}

impl View for OutputCircuitInfo {
    type V = u8;

    closed spec fn view(&self) -> u8 {
        self.bits
    }
}

/// The flag bits that a [`QualityDescriptor`] knows.
pub const QUALITY_ALL: u8 = 0xF1;

/// The flag bits that a [`QualityDescriptorP`] knows.
pub const QUALITY_P_ALL: u8 = 0xFC;

/// The flag bits that a [`StartEvent`] knows.
pub const START_EVENT_ALL: u8 = 0x3F;

/// The flag bits that an [`OutputCircuitInfo`] knows.
pub const OUTPUT_CIRCUIT_ALL: u8 = 0x0F;

impl QualityDescriptor {
    /// OV: overflow.
    pub fn overflow() -> (r: Self)
        ensures
            r@ == 0x01,
    {
        QualityDescriptor { bits: 0x01 }
    }

    /// BL: blocked.
    pub fn blocked() -> (r: Self)
        ensures
            r@ == 0x10,
    {
        QualityDescriptor { bits: 0x10 }
    }

    /// SB: substituted.
    pub fn substituted() -> (r: Self)
        ensures
            r@ == 0x20,
    {
        QualityDescriptor { bits: 0x20 }
    }

    /// NT: not topical.
    pub fn non_topical() -> (r: Self)
        ensures
            r@ == 0x40,
    {
        QualityDescriptor { bits: 0x40 }
    }

    /// IV: invalid.
    pub fn invalid() -> (r: Self)
        ensures
            r@ == 0x80,
    {
        QualityDescriptor { bits: 0x80 }
    }

    /// No flag set (good quality).
    pub fn empty() -> (r: Self)
        ensures
            r@ == 0,
    {
        QualityDescriptor { bits: 0 }
    }

    /// All known flags set.
    pub fn all() -> (r: Self)
        ensures
            r@ == QUALITY_ALL,
    {
        QualityDescriptor { bits: QUALITY_ALL }
    }

    /// The raw flag byte.
    pub fn bits(&self) -> (r: u8)
        ensures
            r == self@,
    {
        self.bits
    }

    /// The descriptor with the known flags of `bits`.
    pub closed spec fn from_byte(bits: u8) -> QualityDescriptor {
        QualityDescriptor { bits: bits & QUALITY_ALL }
    }

    /// The flags of `bits` that are known; unknown bits are dropped.
    pub fn from_bits_truncate(bits: u8) -> (r: Self)
        ensures
            r == QualityDescriptor::from_byte(bits),
            r@ == bits & QUALITY_ALL,
    {
        QualityDescriptor { bits: bits & QUALITY_ALL }
    }

    /// The flags of `bits`, if every bit set there is a known flag.
    pub fn from_bits(bits: u8) -> (r: Option<Self>)
        ensures
            r is Some <==> bits & !QUALITY_ALL == 0,
            r matches Some(q) ==> q@ == bits,
    {
        if bits & !QUALITY_ALL == 0 {
            Some(QualityDescriptor { bits })
        } else {
            None
        }
    }

    /// True if no flag is set.
    pub fn is_empty(&self) -> (r: bool)
        ensures
            r == (self@ == 0),
    {
        self.bits == 0
    }

    /// True if every flag of `other` is set in `self`.
    pub fn contains(&self, other: Self) -> (r: bool)
        ensures
            r == (self@ & other@ == other@),
    {
        self.bits & other.bits == other.bits
    }

    /// The flags set in either.
    pub fn union(self, other: Self) -> (r: Self)
        ensures
            r@ == self@ | other@,
    {
        QualityDescriptor { bits: self.bits | other.bits }
    }
}

impl core::ops::BitOr for QualityDescriptor {
    type Output = QualityDescriptor;

    fn bitor(self, rhs: QualityDescriptor) -> (r: QualityDescriptor) {
        QualityDescriptor { bits: self.bits | rhs.bits }
    }
}

impl vstd::std_specs::ops::BitOrSpecImpl for QualityDescriptor {
    open spec fn obeys_bitor_spec() -> bool {
        true
    }

    open spec fn bitor_req(self, rhs: QualityDescriptor) -> bool {
        true
    }

    closed spec fn bitor_spec(self, rhs: QualityDescriptor) -> QualityDescriptor {
        QualityDescriptor { bits: self.bits | rhs.bits }
    }
}

impl QualityDescriptorP {
    /// Reserved bit.
    pub fn reserved() -> (r: Self)
        ensures
            r@ == 0x04,
    {
        QualityDescriptorP { bits: 0x04 }
    }

    /// EI: elapsed time invalid.
    pub fn elapsed_time_invalid() -> (r: Self)
        ensures
            r@ == 0x08,
    {
        QualityDescriptorP { bits: 0x08 }
    }

    /// BL: blocked.
    pub fn blocked() -> (r: Self)
        ensures
            r@ == 0x10,
    {
        QualityDescriptorP { bits: 0x10 }
    }

    /// SB: substituted.
    pub fn substituted() -> (r: Self)
        ensures
            r@ == 0x20,
    {
        QualityDescriptorP { bits: 0x20 }
    }

    /// NT: not topical.
    pub fn non_topical() -> (r: Self)
        ensures
            r@ == 0x40,
    {
        QualityDescriptorP { bits: 0x40 }
    }

    /// IV: invalid.
    pub fn invalid() -> (r: Self)
        ensures
            r@ == 0x80,
    {
        QualityDescriptorP { bits: 0x80 }
    }

    /// No flag set.
    pub fn empty() -> (r: Self)
        ensures
            r@ == 0,
    {
        QualityDescriptorP { bits: 0 }
    }

    /// The raw flag byte.
    pub fn bits(&self) -> (r: u8)
        ensures
            r == self@,
    {
        self.bits
    }

    /// The flags of `bits` that are known; unknown bits are dropped.
    pub fn from_bits_truncate(bits: u8) -> (r: Self)
        ensures
            r@ == bits & QUALITY_P_ALL,
    {
        QualityDescriptorP { bits: bits & QUALITY_P_ALL }
    }
}

impl StartEvent {
    /// The raw flag byte.
    pub fn bits(&self) -> (r: u8)
        ensures
            r == self@,
    {
        self.bits
    }

    /// The flags of `bits` that are known; unknown bits are dropped.
    pub fn from_bits_truncate(bits: u8) -> (r: Self)
        ensures
            r@ == bits & START_EVENT_ALL,
    {
        StartEvent { bits: bits & START_EVENT_ALL }
    }
}

impl OutputCircuitInfo {
    /// The raw flag byte.
    pub fn bits(&self) -> (r: u8)
        ensures
            r == self@,
    {
        self.bits
    }

    /// The flags of `bits` that are known; unknown bits are dropped.
    pub fn from_bits_truncate(bits: u8) -> (r: Self)
        ensures
            r@ == bits & OUTPUT_CIRCUIT_ALL,
    {
        OutputCircuitInfo { bits: bits & OUTPUT_CIRCUIT_ALL }
    }
}

/// Double point value states.
#[derive(Debug, Clone, Copy, PartialEq, Eq, Hash, Structural)]
pub enum DoublePointValue {
    Intermediate,
    Off,
    On,
    Indeterminate,
}

impl DoublePointValue {
    /// The two-bit wire value of each state.
    pub open spec fn code(self) -> u8 {
        match self {
            DoublePointValue::Intermediate => 0,
            DoublePointValue::Off => 1,
            DoublePointValue::On => 2,
            DoublePointValue::Indeterminate => 3,
        }
    }

    /// The state that the two low bits of `val` select.
    pub open spec fn from_code(val: u8) -> DoublePointValue {
        let v = val % 4;
        if v == 0 {
            DoublePointValue::Intermediate
        } else if v == 1 {
            DoublePointValue::Off
        } else if v == 2 {
            DoublePointValue::On
        } else {
            DoublePointValue::Indeterminate
        }
    }

    /// Decode the two low bits of `val`; the upper bits are ignored.
    pub fn from_raw(val: u8) -> (r: Self)
        ensures
            r == DoublePointValue::from_code(val),
    {
        let v = val & 0x03;
        assert(v == val % 4) by (bit_vector)
            requires
                v == val & 0x03,
        ;
        match v {
            0 => DoublePointValue::Intermediate,
            1 => DoublePointValue::Off,
            2 => DoublePointValue::On,
            _ => DoublePointValue::Indeterminate,
        }
    }

    /// The two-bit wire value.
    pub fn as_u8(self) -> (r: u8)
        ensures
            r == self.code(),
    {
        match self {
            DoublePointValue::Intermediate => 0,
            DoublePointValue::Off => 1,
            DoublePointValue::On => 2,
            DoublePointValue::Indeterminate => 3,
        }
    }
}

/// The flag byte of [`QualityDescriptor::from_byte`].
pub proof fn lemma_quality_from_byte(bits: u8)
    ensures
        QualityDescriptor::from_byte(bits)@ == bits & QUALITY_ALL,
{
}

/// A descriptor that holds only known flags is what its flag byte decodes to.
pub proof fn lemma_quality_from_own_byte(q: QualityDescriptor)
    requires
        q@ & 0x0E == 0,
    ensures
        QualityDescriptor::from_byte(q@) == q,
{
    let b = q@;
    assert(b & 0x0E == 0 ==> b & 0xF1 == b) by (bit_vector);
}

/// Two quality descriptors with the same flag byte are the same.
pub proof fn lemma_quality_view_injective(a: QualityDescriptor, b: QualityDescriptor)
    ensures
        a@ == b@ ==> a == b,
{
}

/// Decoding the wire value of a double point state gives it back.
pub proof fn lemma_double_point_roundtrip(v: DoublePointValue)
    ensures
        DoublePointValue::from_code(v.code()) == v,
{
}

} // verus!
