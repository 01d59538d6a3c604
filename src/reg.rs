use vstd::prelude::*;

use core::cmp::Ordering;

use crate::ident::{group_ident, ExtendedId, Id, StandardId};

verus! {

broadcast use group_ident;

/// Substitute remote request flag: bit 22 of the control word.
pub const SRR_MASK: u32 = 0x0040_0000;

/// Identifier extension flag: bit 21 of the control word, set for extended identifiers.
pub const IDE_MASK: u32 = 0x0020_0000;

/// Remote transmission request flag: bit 20 of the control word, set for remote frames.
pub const RTR_MASK: u32 = 0x0010_0000;

/// Data length code: bits 18 to 16 of the control word.
pub const DLC_MASK: u32 = 0x0007_0000;

/// Time stamp: bits 15 to 0 of the control word.
pub const TIMESTAMP_MASK: u32 = 0x0000_FFFF;

/// Shift that places a standard identifier in the identifier word.
pub const STANDARD_SHIFT: u32 = 18;

/// Shift of an extended identifier in the identifier word: it occupies bits 28 to 0.
pub const EXTENDED_SHIFT: u32 = 0;

/// Identifier of a CAN message as the controller's message-ID register holds it:
/// a control word (flags) and an identifier word (shifted identifier bits).
///
/// Values are ordered by bus priority: the greater value wins arbitration.
#[derive(Clone, Copy, Debug, PartialEq, Eq, Structural)]
pub struct IdReg {
    code: u32,
    id: u32,
}

impl IdReg {
    /// The control word.
    pub closed spec fn code_bits(self) -> u32 {
        self.code
    }

    /// The identifier word.
    pub closed spec fn id_bits(self) -> u32 {
        self.id
    }

    /// The register made of a control word and an identifier word.
    pub closed spec fn from_bits(code: u32, id: u32) -> IdReg {
        IdReg { code, id }
    }

    /// A register is its two words.
    pub broadcast proof fn lemma_from_bits(code: u32, id: u32)
        ensures
            #[trigger] IdReg::from_bits(code, id).code_bits() == code,
            IdReg::from_bits(code, id).id_bits() == id,
    {
    }

    /// Two registers with the same words are the same register.
    pub broadcast proof fn lemma_bits_determine(r: IdReg)
        ensures
            IdReg::from_bits(r.code_bits(), #[trigger] r.id_bits()) == r,
    {
    }

    /// The register holds an extended identifier.
    pub open spec fn extended_flag(self) -> bool {
        self.code_bits() & IDE_MASK != 0
    }

    /// The register belongs to a remote frame.
    pub open spec fn rtr_flag(self) -> bool {
        self.code_bits() & RTR_MASK != 0
    }

    /// The register that encodes a standard identifier.
    pub open spec fn encode_standard(id: StandardId) -> IdReg {
        IdReg::from_bits(0, (id@ as u32) << 18)
    }

    /// The register that encodes an extended identifier: extension flag set, the
    /// identifier unshifted in bits 28 to 0 of the identifier word.
    pub open spec fn encode_extended(id: ExtendedId) -> IdReg {
        IdReg::from_bits(IDE_MASK, id@)
    }

    /// The register with its remote frame flag set to `rtr`.
    pub open spec fn set_rtr(self, rtr: bool) -> IdReg {
        IdReg::from_bits(
            if rtr {
                self.code_bits() | RTR_MASK
            } else {
                self.code_bits() & !RTR_MASK
            },
            self.id_bits(),
        )
    }

    /// The identifier that the register holds: a standard one is read from bits
    /// 31 to 18 of the identifier word, an extended one is the word unshifted.
    pub open spec fn decoded(self) -> Id {
        if self.extended_flag() {
            Id::Extended(ExtendedId::from_raw(self.id_bits()))
        } else {
            Id::Standard(StandardId::from_raw((self.id_bits() / 0x4_0000) as u16))
        }
    }

    /// The shape that encoding gives a register: no control bits but the
    /// extension and remote flags; a standard identifier within eleven bits in
    /// bits 28 to 18, with nothing below; an extended one within 29 bits.
    pub open spec fn wf(self) -> bool {
        &&& self.code_bits() & !(IDE_MASK | RTR_MASK) == 0
        &&& !self.extended_flag() ==> self.id_bits() % 0x4_0000 == 0 && self.id_bits()
            < 0x2000_0000
        &&& self.extended_flag() ==> self.id_bits() <= 0x1FFF_FFFF
    }

    /// Creates a register from its control word and identifier word.
    pub fn new(code: u32, id: u32) -> (r: Self)
        ensures
            r == IdReg::from_bits(code, id),
    {
        Self { code, id }
    }

    /// Creates the register for a standard identifier: control word cleared, the
    /// identifier shifted into bits 28 to 18.
    pub fn new_standard(id: StandardId) -> (r: Self)
        ensures
            r == IdReg::encode_standard(id),
            id.valid() ==> r.wf(),
    {
        let code: u32 = 0;
        let raw = id.as_raw() as u32;
        let id = raw << STANDARD_SHIFT;
        proof {
            lemma_standard_shape(raw);
        }
        Self::new(code, id)
    }

    /// Creates the register for an extended identifier: extension flag set, the
    /// identifier in bits 28 to 0.
    pub fn new_extended(id: ExtendedId) -> (r: IdReg)
        ensures
            r == IdReg::encode_extended(id),
            id.valid() ==> r.wf(),
    {
        let code = IDE_MASK;
        let raw = id.as_raw();
        let id = raw << EXTENDED_SHIFT;
        proof {
            lemma_extended_shape(raw);
        }
        Self::new(code, id)
    }

    /// Returns a copy with the remote transmission flag set to `rtr`, which marks
    /// the identifier as part of a remote frame; `self` is left as it is.
    #[must_use]
    pub fn with_rtr(self, rtr: bool) -> (r: IdReg)
        ensures
            r == self.set_rtr(rtr),
            r.rtr_flag() == rtr,
            r.extended_flag() == self.extended_flag(),
            r.decoded() == self.decoded(),
            self.wf() ==> r.wf(),
    {
        proof {
            lemma_rtr_update(self.code);
        }
        if rtr {
            Self::new(self.code | RTR_MASK, self.id)
        } else {
            Self::new(self.code & !RTR_MASK, self.id)
        }
    }

    /// Returns the identifier that the register holds.
    pub fn to_id(self) -> (r: Id)
        ensures
            r == self.decoded(),
            self.wf() ==> r.valid(),
    {
        if self.is_extended() {
            let word = self.id;
            assert(word >> 0u32 == word) by (bit_vector);
            Id::Extended(ExtendedId::from_bits(word >> EXTENDED_SHIFT))
        } else {
            let word = self.id;
            assert(word >> 18u32 == word / 0x4_0000 && word >> 18u32 <= 0x3FFF) by (bit_vector);
            Id::Standard(StandardId::from_bits((word >> STANDARD_SHIFT) as u16))
        }
    }

    /// Returns `true` if the identifier is an extended identifier.
    pub fn is_extended(self) -> (r: bool)
        ensures
            r == self.extended_flag(),
    {
        self.code & IDE_MASK != 0
    }

    /// Returns `true` if the identifier is a standard identifier.
    pub fn is_standard(self) -> (r: bool)
        ensures
            r == !self.extended_flag(),
    {
        !self.is_extended()
    }

    /// Returns `true` if the identifier is part of a remote frame.
    pub fn rtr(self) -> (r: bool)
        ensures
            r == self.rtr_flag(),
    {
        self.code & RTR_MASK != 0
    }

    /// Returns the identifier word.
    pub fn to_id_reg(&self) -> (r: u32)
        ensures
            r == self.id_bits(),
    {
        self.id
    }
}

/// Whether frame `a` wins arbitration against frame `b`. The lower identifier
/// wins; at equal identifiers a data frame wins over a remote frame; between a
/// standard and an extended identifier the base identifiers are compared, and
/// on a tie the standard one wins, whatever either remote flag says.
pub open spec fn outranks(a: IdReg, b: IdReg) -> bool {
    match (a.decoded(), b.decoded()) {
        (Id::Standard(x), Id::Standard(y)) => x@ < y@ || (x@ == y@ && !a.rtr_flag()
            && b.rtr_flag()),
        (Id::Extended(x), Id::Extended(y)) => x@ < y@ || (x@ == y@ && !a.rtr_flag()
            && b.rtr_flag()),
        (Id::Standard(x), Id::Extended(y)) => x@ as int <= ExtendedId::base_of(y@),
        (Id::Extended(x), Id::Standard(y)) => ExtendedId::base_of(x@) < y@ as int,
    }
}

/// Priority order of two registers: `Greater` when `a` wins arbitration against
/// `b`, `Less` when `b` wins, `Equal` when neither does.
pub open spec fn priority_cmp(a: IdReg, b: IdReg) -> Ordering {
    if outranks(a, b) {
        Ordering::Greater
    } else if outranks(b, a) {
        Ordering::Less
    } else {
        Ordering::Equal
    }
}

/// Numeric comparison turned around: the lower identifier is the greater.
fn lower_wins(a: u32, b: u32) -> (r: Ordering)
    ensures
        r == Ordering::Greater <==> a < b,
        r == Ordering::Less <==> a > b,
        r == Ordering::Equal <==> a == b,
{
    if a < b {
        Ordering::Greater
    } else if a > b {
        Ordering::Less
    } else {
        Ordering::Equal
    }
}

/// Data frames win over remote frames.
fn data_wins(a_rtr: bool, b_rtr: bool) -> (r: Ordering)
    ensures
        r == Ordering::Greater <==> !a_rtr && b_rtr,
        r == Ordering::Less <==> a_rtr && !b_rtr,
        r == Ordering::Equal <==> a_rtr == b_rtr,
{
    if a_rtr == b_rtr {
        Ordering::Equal
    } else if b_rtr {
        Ordering::Greater
    } else {
        Ordering::Less
    }
}

/// `first`, unless it is `Equal`: then `tie`.
fn or_on_tie(first: Ordering, tie: Ordering) -> (r: Ordering)
    ensures
        r == (if first == Ordering::Equal {
            tie
        } else {
            first
        }),
{
    match first {
        Ordering::Equal => tie,
        _ => first,
    }
}

impl IdReg {
    /// Compares two registers by bus priority: the register that wins
    /// arbitration is the greater one.
    pub fn cmp(&self, other: &Self) -> (r: Ordering)
        ensures
            r == priority_cmp(*self, *other),
    {
        // At equal identifiers, data frames win over remote frames.
        let rtr = data_wins(self.rtr(), other.rtr());
        let id_a = self.to_id();
        let id_b = other.to_id();
        match (id_a, id_b) {
            (Id::Standard(a), Id::Standard(b)) => {
                // Lower identifiers win over higher ones.
                or_on_tie(lower_wins(a.as_raw() as u32, b.as_raw() as u32), rtr)
            },
            (Id::Extended(a), Id::Extended(b)) => or_on_tie(lower_wins(a.as_raw(), b.as_raw()), rtr),
            (Id::Standard(a), Id::Extended(b)) => {
                // A standard identifier wins over an extended one with the same base.
                or_on_tie(
                    lower_wins(a.as_raw() as u32, b.standard_id().as_raw() as u32),
                    Ordering::Greater,
                )
            },
            (Id::Extended(a), Id::Standard(b)) => or_on_tie(
                lower_wins(a.standard_id().as_raw() as u32, b.as_raw() as u32),
                Ordering::Less,
            ),
        }
    }
}

impl PartialOrd for IdReg {
    fn partial_cmp(&self, other: &Self) -> (r: Option<Ordering>)
        ensures
            r == Some(priority_cmp(*self, *other)),
    {
        Some(self.cmp(other))
    }
}

impl vstd::std_specs::cmp::PartialOrdSpecImpl for IdReg {
    open spec fn obeys_partial_cmp_spec() -> bool {
        true
    }

    open spec fn partial_cmp_spec(&self, other: &IdReg) -> Option<Ordering> {
        Some(priority_cmp(*self, *other))
    }
}

/// Every register ranks equal with itself.
pub proof fn lemma_priority_reflexive(a: IdReg)
    ensures
        priority_cmp(a, a) == Ordering::Equal,
{
}

/// Swapping two registers turns their order around.
pub proof fn lemma_priority_swap(a: IdReg, b: IdReg)
    ensures
        priority_cmp(a, b) == Ordering::Greater <==> priority_cmp(b, a) == Ordering::Less,
        priority_cmp(a, b) == Ordering::Equal <==> priority_cmp(b, a) == Ordering::Equal,
{
    lemma_outranks_asymmetric(a, b);
}

/// Two registers in the shape that encoding gives rank equal exactly when they
/// are the same register, so of `a < b`, `a == b` and `a > b` exactly one holds.
pub proof fn lemma_priority_equal_iff_same(a: IdReg, b: IdReg)
    requires
        a.wf(),
        b.wf(),
    ensures
        priority_cmp(a, b) == Ordering::Equal <==> a == b,
{
    lemma_outranks_asymmetric(a, b);
    if priority_cmp(a, b) == Ordering::Equal {
        lemma_flags_determine_code(a.code, b.code);
        if a.extended_flag() {
            assert(ExtendedId::from_raw(a.id)@ == ExtendedId::from_raw(b.id)@);
        } else {
            assert(StandardId::from_raw((a.id / 0x4_0000) as u16)@ == StandardId::from_raw(
                (b.id / 0x4_0000) as u16,
            )@);
        }
    }
}

/// The priority order is transitive: `a <= b` and `b <= c` give `a <= c`.
pub proof fn lemma_priority_transitive(a: IdReg, b: IdReg, c: IdReg)
    requires
        priority_cmp(a, b) != Ordering::Greater,
        priority_cmp(b, c) != Ordering::Greater,
    ensures
        priority_cmp(a, c) != Ordering::Greater,
{
    lemma_outranks_asymmetric(a, b);
    lemma_outranks_asymmetric(b, c);
    lemma_outranks_asymmetric(a, c);
    lemma_base_monotonic(a.id, b.id);
    lemma_base_monotonic(b.id, c.id);
    lemma_base_monotonic(a.id, c.id);
}

/// Decoding the encoding of a standard identifier gives that identifier back.
pub proof fn lemma_standard_round_trip(s: StandardId)
    requires
        s.valid(),
    ensures
        IdReg::encode_standard(s).decoded() == Id::Standard(s),
{
    lemma_standard_encoding(s);
}

/// Decoding the encoding of an extended identifier gives that identifier back.
pub proof fn lemma_extended_round_trip(e: ExtendedId)
    requires
        e.valid(),
    ensures
        IdReg::encode_extended(e).decoded() == Id::Extended(e),
{
    lemma_extended_shape(e@);
}

/// Distinct valid identifiers have distinct encodings.
pub proof fn lemma_encoding_injective(s: StandardId, t: StandardId, e: ExtendedId, f: ExtendedId)
    requires
        s.valid(),
        t.valid(),
        e.valid(),
        f.valid(),
    ensures
        IdReg::encode_standard(s) == IdReg::encode_standard(t) <==> s == t,
        IdReg::encode_extended(e) == IdReg::encode_extended(f) <==> e == f,
        IdReg::encode_standard(s) != IdReg::encode_extended(e),
{
    lemma_standard_encoding(s);
    lemma_standard_encoding(t);
    lemma_extended_shape(e@);
    lemma_extended_shape(f@);
}

/// Of two standard identifiers, the encoding of the lower one is the greater.
pub proof fn lemma_lower_standard_wins(x: StandardId, y: StandardId)
    requires
        x.valid(),
        y.valid(),
        x@ < y@,
    ensures
        priority_cmp(IdReg::encode_standard(x), IdReg::encode_standard(y)) == Ordering::Greater,
{
    lemma_standard_encoding(x);
    lemma_standard_encoding(y);
}

/// Of two extended identifiers, the encoding of the lower one is the greater.
pub proof fn lemma_lower_extended_wins(x: ExtendedId, y: ExtendedId)
    requires
        x.valid(),
        y.valid(),
        x@ < y@,
    ensures
        priority_cmp(IdReg::encode_extended(x), IdReg::encode_extended(y)) == Ordering::Greater,
{
    lemma_extended_shape(x@);
}

/// At one identifier, the data frame is greater than the remote frame.
pub proof fn lemma_data_frame_wins(r: IdReg)
    ensures
        priority_cmp(r.set_rtr(false), r.set_rtr(true)) == Ordering::Greater,
{
    lemma_rtr_update(r.code);
}

/// A register holding a standard identifier is greater than one holding an
/// extended identifier with the same base identifier, whatever their remote flags.
pub proof fn lemma_standard_wins_same_base(a: IdReg, b: IdReg)
    requires
        a.decoded() is Standard,
        b.decoded() is Extended,
        a.decoded()->Standard_0@ as int == ExtendedId::base_of(b.decoded()->Extended_0@),
    ensures
        priority_cmp(a, b) == Ordering::Greater,
{
}

/// The encoding of a standard identifier `s`, remote flag set or not, is greater
/// than that of an extended identifier `e` whose base identifier is `s`, remote
/// flag set or not.
pub proof fn lemma_standard_wins_over_extended(
    s: StandardId,
    e: ExtendedId,
    s_rtr: bool,
    e_rtr: bool,
)
    requires
        e.valid(),
        s@ as int == ExtendedId::base_of(e@),
    ensures
        priority_cmp(
            IdReg::encode_standard(s).set_rtr(s_rtr),
            IdReg::encode_extended(e).set_rtr(e_rtr),
        ) == Ordering::Greater,
{
    let raw = e@;
    assert(raw <= 0x1FFF_FFFF ==> raw / 0x4_0000 <= 0x7FF) by (bit_vector);
    lemma_standard_encoding(s);
    lemma_extended_shape(raw);
    lemma_rtr_update(0);
    lemma_rtr_update(IDE_MASK);
}

proof fn lemma_outranks_asymmetric(a: IdReg, b: IdReg)
    ensures
        !(outranks(a, b) && outranks(b, a)),
{
}

proof fn lemma_base_monotonic(x: u32, y: u32)
    ensures
        x <= y ==> x as int / 0x4_0000 <= y as int / 0x4_0000,
        x as int / 0x4_0000 <= 0x3FFF,
{
    assert(x <= y ==> x / 0x4_0000 <= y / 0x4_0000) by (bit_vector);
    assert(x / 0x4_0000 <= 0x3FFF) by (bit_vector);
}

proof fn lemma_standard_encoding(s: StandardId)
    requires
        s.valid(),
    ensures
        IdReg::encode_standard(s).decoded() == Id::Standard(s),
        !IdReg::encode_standard(s).extended_flag(),
{
    let raw = s@ as u32;
    assert(raw <= 0x7FF ==> (raw << 18) / 0x4_0000 == raw) by (bit_vector);
    lemma_standard_shape(raw);
}

proof fn lemma_flags_determine_code(c: u32, d: u32)
    requires
        c & !(IDE_MASK | RTR_MASK) == 0,
        d & !(IDE_MASK | RTR_MASK) == 0,
        (c & IDE_MASK != 0) == (d & IDE_MASK != 0),
        (c & RTR_MASK != 0) == (d & RTR_MASK != 0),
    ensures
        c == d,
{
    assert(c & !(0x0020_0000u32 | 0x0010_0000u32) == 0 && d & !(0x0020_0000u32 | 0x0010_0000u32)
        == 0 && (c & 0x0020_0000u32 != 0) == (d & 0x0020_0000u32 != 0) && (c & 0x0010_0000u32
        != 0) == (d & 0x0010_0000u32 != 0) ==> c == d) by (bit_vector);
}

proof fn lemma_standard_shape(raw: u32)
    requires
        raw <= 0xFFFF,
    ensures
        (raw << 18) % 0x4_0000 == 0,
        raw <= 0x7FF ==> (raw << 18) < 0x2000_0000,
        0u32 & !(IDE_MASK | RTR_MASK) == 0,
        0u32 & IDE_MASK == 0,
{
    assert(0u32 & !(0x0020_0000u32 | 0x0010_0000u32) == 0) by (bit_vector);
    assert(0u32 & 0x0020_0000u32 == 0) by (bit_vector);
    assert((raw << 18) % 0x4_0000 == 0) by (bit_vector);
    assert(raw <= 0x7FF ==> (raw << 18) < 0x2000_0000) by (bit_vector);
}

proof fn lemma_extended_shape(raw: u32)
    ensures
        raw << 0u32 == raw,
        IDE_MASK & !(IDE_MASK | RTR_MASK) == 0,
        IDE_MASK & IDE_MASK != 0,
{
    assert(raw << 0u32 == raw) by (bit_vector);
    assert(0x0020_0000u32 & !(0x0020_0000u32 | 0x0010_0000u32) == 0) by (bit_vector);
    assert(0x0020_0000u32 & 0x0020_0000u32 != 0) by (bit_vector);
}

proof fn lemma_rtr_update(code: u32)
    ensures
        (code | RTR_MASK) & RTR_MASK != 0,
        (code & !RTR_MASK) & RTR_MASK == 0,
        ((code | RTR_MASK) & IDE_MASK != 0) == (code & IDE_MASK != 0),
        ((code & !RTR_MASK) & IDE_MASK != 0) == (code & IDE_MASK != 0),
        code & !(IDE_MASK | RTR_MASK) == 0 ==> (code | RTR_MASK) & !(IDE_MASK | RTR_MASK) == 0,
        code & !(IDE_MASK | RTR_MASK) == 0 ==> (code & !RTR_MASK) & !(IDE_MASK | RTR_MASK) == 0,
{
    assert((code | 0x0010_0000u32) & 0x0010_0000u32 != 0) by (bit_vector);
    assert((code & !0x0010_0000u32) & 0x0010_0000u32 == 0) by (bit_vector);
    assert(((code | 0x0010_0000u32) & 0x0020_0000u32 != 0) == (code & 0x0020_0000u32 != 0)) by (bit_vector);
    assert(((code & !0x0010_0000u32) & 0x0020_0000u32 != 0) == (code & 0x0020_0000u32 != 0)) by (bit_vector);
    assert(code & !(0x0020_0000u32 | 0x0010_0000u32) == 0 ==> (code | 0x0010_0000u32) & !(0x0020_0000u32 | 0x0010_0000u32) == 0) by (bit_vector);
    assert(code & !(0x0020_0000u32 | 0x0010_0000u32) == 0 ==> (code & !0x0010_0000u32) & !(0x0020_0000u32 | 0x0010_0000u32) == 0) by (bit_vector);
}

} // verus!
