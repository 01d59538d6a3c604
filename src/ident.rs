use vstd::prelude::*;

verus! {

/// Standard 11-bit CAN identifier (`0..=0x7FF`).
///
/// Lower values have a higher priority on the bus.
#[derive(Debug, Clone, Copy, PartialEq, Eq, Structural)]
pub struct StandardId(u16);

impl View for StandardId {
    type V = u16;

    closed spec fn view(&self) -> u16 {
        self.0
    }
}

impl StandardId {
    /// Largest raw value of a standard identifier.
    pub const MAX_RAW: u16 = 0x7FF;

    /// The identifier whose raw value is `raw`, in range or not.
    pub closed spec fn from_raw(raw: u16) -> StandardId {
        StandardId(raw)
    }

    /// Whether the raw value fits in eleven bits.
    pub open spec fn valid(self) -> bool {
        self@ <= 0x7FF
    }

    /// The raw value is all there is to a standard identifier.
    pub broadcast proof fn lemma_from_raw(raw: u16)
        ensures
            #[trigger] StandardId::from_raw(raw)@ == raw,
    {
    }

    /// Two standard identifiers with one raw value are the same identifier.
    pub broadcast proof fn lemma_view_determines(s: StandardId)
        ensures
            StandardId::from_raw(#[trigger] s@) == s,
    {
    }

    /// CAN ID `0`, the highest priority.
    pub fn zero() -> (r: Self)
        ensures
            r@ == 0,
    {
        Self(0)
    }

    /// CAN ID `0x7FF`, the lowest priority.
    pub fn max() -> (r: Self)
        ensures
            r@ == 0x7FF,
    {
        Self(Self::MAX_RAW)
    }

    /// Tries to create a `StandardId` from a raw 16-bit integer; `None` when `raw`
    /// does not fit in eleven bits.
    pub fn new(raw: u16) -> (r: Option<Self>)
        ensures
            r is Some <==> raw <= 0x7FF,
            r matches Some(s) ==> s@ == raw,
    {
        if raw <= Self::MAX_RAW {
            Some(Self(raw))
        } else {
            None
        }
    }

    /// Creates a `StandardId` from a raw value the caller knows to be in range.
    pub fn new_unchecked(raw: u16) -> (r: Self)
        requires
            raw <= 0x7FF,
        ensures
            r@ == raw,
    {
        Self(raw)
    }

    /// Creates a `StandardId` from register bits, without a range check.
    pub(crate) fn from_bits(raw: u16) -> (r: Self)
        ensures
            r@ == raw,
    {
        Self(raw)
    }

    /// Returns this CAN identifier as a raw 16-bit integer.
    pub fn as_raw(&self) -> (r: u16)
        ensures
            r == self@,
    {
        self.0
    }
}

/// Extended 29-bit CAN identifier (`0..=0x1FFF_FFFF`).
///
/// Lower values have a higher priority on the bus.
#[derive(Debug, Clone, Copy, PartialEq, Eq, Structural)]
pub struct ExtendedId(u32);

impl View for ExtendedId {
    type V = u32;

    closed spec fn view(&self) -> u32 {
        self.0
    }
}

impl ExtendedId {
    /// Largest raw value of an extended identifier.
    pub const MAX_RAW: u32 = 0x1FFF_FFFF;

    /// The identifier whose raw value is `raw`, in range or not.
    pub closed spec fn from_raw(raw: u32) -> ExtendedId {
        ExtendedId(raw)
    }

    /// Whether the raw value fits in 29 bits.
    pub open spec fn valid(self) -> bool {
        self@ <= 0x1FFF_FFFF
    }

    /// The raw value is all there is to an extended identifier.
    pub broadcast proof fn lemma_from_raw(raw: u32)
        ensures
            #[trigger] ExtendedId::from_raw(raw)@ == raw,
    {
    }

    /// Two extended identifiers with one raw value are the same identifier.
    pub broadcast proof fn lemma_view_determines(e: ExtendedId)
        ensures
            ExtendedId::from_raw(#[trigger] e@) == e,
    {
    }

    /// The base identifier of a raw extended value: its top eleven bits (28 to 18).
    pub open spec fn base_of(raw: u32) -> int {
        raw as int / 0x4_0000
    }

    /// CAN ID `0`, the highest priority.
    pub fn zero() -> (r: Self)
        ensures
            r@ == 0,
    {
        Self(0)
    }

    /// CAN ID `0x1FFF_FFFF`, the lowest priority.
    pub fn max() -> (r: Self)
        ensures
            r@ == 0x1FFF_FFFF,
    {
        Self(Self::MAX_RAW)
    }

    /// Tries to create an `ExtendedId` from a raw 32-bit integer; `None` when `raw`
    /// does not fit in 29 bits.
    pub fn new(raw: u32) -> (r: Option<Self>)
        ensures
            r is Some <==> raw <= 0x1FFF_FFFF,
            r matches Some(e) ==> e@ == raw,
    {
        if raw <= Self::MAX_RAW {
            Some(Self(raw))
        } else {
            None
        }
    }

    /// Creates an `ExtendedId` from a raw value the caller knows to be in range.
    pub fn new_unchecked(raw: u32) -> (r: Self)
        requires
            raw <= 0x1FFF_FFFF,
        ensures
            r@ == raw,
    {
        Self(raw)
    }

    /// Creates an `ExtendedId` from register bits, without a range check.
    pub(crate) fn from_bits(raw: u32) -> (r: Self)
        ensures
            r@ == raw,
    {
        Self(raw)
    }

    /// Returns this CAN identifier as a raw 32-bit integer.
    pub fn as_raw(&self) -> (r: u32)
        ensures
            r == self@,
    {
        self.0
    }

    /// Returns the base identifier: bits 28 to 18 of this identifier.
    pub fn standard_id(&self) -> (r: StandardId)
        ensures
            r@ as int == ExtendedId::base_of(self@),
            self.valid() ==> r.valid(),
    {
        let raw = self.0;
        assert(raw >> 18u32 <= 0x3FFF && raw >> 18u32 == raw / 0x4_0000) by (bit_vector);
        assert(raw <= 0x1FFF_FFFF ==> raw >> 18u32 <= 0x7FF) by (bit_vector);
        StandardId::from_bits((raw >> 18u32) as u16)
    }
}

/// A CAN identifier, standard or extended.
#[derive(Debug, Clone, Copy, PartialEq, Eq, Structural)]
pub enum Id {
    /// Standard 11-bit identifier (`0..=0x7FF`).
    Standard(StandardId),
    /// Extended 29-bit identifier (`0..=0x1FFF_FFFF`).
    Extended(ExtendedId),
}

impl Id {
    /// Whether the identifier held is within its format's range.
    pub open spec fn valid(self) -> bool {
        match self {
            Id::Standard(s) => s.valid(),
            Id::Extended(e) => e.valid(),
        }
    }

    /// The identifier as one flat value, whatever its format.
    pub open spec fn raw(self) -> u32 {
        match self {
            Id::Standard(s) => s@ as u32,
            Id::Extended(e) => e@,
        }
    }

    /// Returns the identifier as a flat 32-bit value, whatever its format.
    pub fn as_raw(&self) -> (r: u32)
        ensures
            r == self.raw(),
    {
        match self {
            Id::Standard(id) => id.as_raw() as u32,
            Id::Extended(id) => id.as_raw(),
        }
    }
}

impl Default for Id {
    /// The standard identifier `0`.
    fn default() -> (r: Self)
        ensures
            r matches Id::Standard(s) && s@ == 0,
    {
        Id::Standard(StandardId::zero())
    }
}

impl From<StandardId> for Id {
    fn from(id: StandardId) -> (r: Self)
        ensures
            r == Id::Standard(id),
    {
        Id::Standard(id)
    }
}

impl vstd::std_specs::convert::FromSpecImpl<StandardId> for Id {
    open spec fn obeys_from_spec() -> bool {
        true
    }

    open spec fn from_spec(id: StandardId) -> Id {
        Id::Standard(id)
    }
}

impl From<ExtendedId> for Id {
    fn from(id: ExtendedId) -> (r: Self)
        ensures
            r == Id::Extended(id),
    {
        Id::Extended(id)
    }
}

impl vstd::std_specs::convert::FromSpecImpl<ExtendedId> for Id {
    open spec fn obeys_from_spec() -> bool {
        true
    }

    open spec fn from_spec(id: ExtendedId) -> Id {
        Id::Extended(id)
    }
}

pub broadcast group group_ident {
    StandardId::lemma_from_raw,
    StandardId::lemma_view_determines,
    ExtendedId::lemma_from_raw,
    ExtendedId::lemma_view_determines,
}

} // verus!
