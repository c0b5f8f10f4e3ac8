//! The condition-flag register: a set drawn from {POS, ZRO, NEG}.

use vstd::prelude::*;

verus! {

/// Bit of the positive flag.
pub const POS_BIT: u8 = 1;

/// Bit of the zero flag.
pub const ZRO_BIT: u8 = 2;

/// Bit of the negative flag.
pub const NEG_BIT: u8 = 4;

/// A set of condition flags, held as its bit pattern.
#[derive(Clone, Copy, Debug, PartialEq, Eq, Structural)]
pub struct ConditionFlags(pub u8);

/// The signed reading of a 16-bit cell.
pub open spec fn signed(v: u16) -> int {
    if v < 0x8000 {
        v as int
    } else {
        v as int - 0x10000
    }
}

/// The two's-complement reading of a cell is the value that `as i16` gives.
pub proof fn lemma_signed_cast(v: u16)
    ensures
        (#[verifier::truncate] (v as i16)) as int == signed(v),
{
    if v < 0x8000 {
        assert(v < 0x8000 ==> (#[verifier::truncate] (v as i16)) as int == v as int) by (bit_vector);
    } else {
        assert(v >= 0x8000 ==> (#[verifier::truncate] (v as i16)) as int == v as int - 0x10000) by (bit_vector);
    }
}

/// The flag bits that a value derives: exactly one of NEG, ZRO and POS.
pub open spec fn flag_bits_of(value: int) -> u8 {
    if value == 0 {
        ZRO_BIT
    } else if value < 0 {
        NEG_BIT
    } else {
        POS_BIT
    }
}

/// The names of the flags that a bit pattern holds, in the order POS, ZRO, NEG.
pub open spec fn flag_names(bits: u8) -> Seq<Seq<char>> {
    (if bits & POS_BIT != 0 { seq!["POS"@] } else { seq![] }) + (if bits & ZRO_BIT != 0 {
        seq!["ZRO"@]
    } else {
        seq![]
    }) + (if bits & NEG_BIT != 0 { seq!["NEG"@] } else { seq![] })
}

/// The parts written one after another with `sep` between each two.
pub open spec fn joined(parts: Seq<Seq<char>>, sep: Seq<char>) -> Seq<char>
    decreases parts.len(),
{
    if parts.len() == 0 {
        seq![]
    } else if parts.len() == 1 {
        parts[0]
    } else {
        parts[0] + sep + joined(parts.drop_first(), sep)
    }
}

impl ConditionFlags {
    /// The set holding only POS.
    pub fn pos() -> (r: ConditionFlags)
        ensures
            r.0 == POS_BIT,
    {
        ConditionFlags(POS_BIT)
    }

    /// The set holding only ZRO.
    pub fn zro() -> (r: ConditionFlags)
        ensures
            r.0 == ZRO_BIT,
    {
        ConditionFlags(ZRO_BIT)
    }

    /// The set holding only NEG.
    pub fn neg() -> (r: ConditionFlags)
        ensures
            r.0 == NEG_BIT,
    {
        ConditionFlags(NEG_BIT)
    }

    /// The bit pattern of the set.
    pub fn bits(&self) -> (r: u8)
        ensures
            r == self.0,
    {
        self.0
    }

    /// The union of two sets.
    pub fn union(self, other: ConditionFlags) -> (r: ConditionFlags)
        ensures
            r.0 == self.0 | other.0,
    {
        ConditionFlags(self.0 | other.0)
    }

    /// Whether every flag of `other` is in the set.
    pub fn contains(&self, other: ConditionFlags) -> (r: bool)
        ensures
            r == (self.0 & other.0 == other.0),
    {
        self.0 & other.0 == other.0
    }

    /// Whether the set holds the flags of `condition`.
    pub fn is_condition_met(&self, condition: ConditionFlags) -> (r: bool)
        ensures
            r == (self.0 & condition.0 == condition.0),
    {
        self.contains(condition)
    }

    /// The names of the flags in the set, joined by `" | "`.
    pub fn to_debug_string(&self) -> (r: String)
        ensures
            r@ == joined(flag_names(self.0), " | "@),
    {
        let pos = self.0 & POS_BIT != 0;
        let zro = self.0 & ZRO_BIT != 0;
        let neg = self.0 & NEG_BIT != 0;
        let text = if pos {
            if zro {
                if neg { "POS | ZRO | NEG" } else { "POS | ZRO" }
            } else {
                if neg { "POS | NEG" } else { "POS" }
            }
        } else {
            if zro {
                if neg { "ZRO | NEG" } else { "ZRO" }
            } else {
                if neg { "NEG" } else { "" }
            }
        };
        proof {
            reveal_strlit("POS");
            reveal_strlit("ZRO");
            reveal_strlit("NEG");
            reveal_strlit(" | ");
            reveal_strlit("POS | ZRO | NEG");
            reveal_strlit("POS | ZRO");
            reveal_strlit("POS | NEG");
            reveal_strlit("ZRO | NEG");
            reveal_strlit("");
            let parts = flag_names(self.0);
            let (p, z, n) = ("POS"@, "ZRO"@, "NEG"@);
            let sep = " | "@;
            reveal_with_fuel(joined, 3);
            assert(seq![p, z, n].drop_first() =~= seq![z, n]);
            assert(seq![z, n].drop_first() =~= seq![n]);
            assert(seq![p, z].drop_first() =~= seq![z]);
            assert(seq![p, n].drop_first() =~= seq![n]);
            if pos && zro && neg {
                assert(parts =~= seq![p, z, n]);
                assert(text@ =~= joined(parts, sep));
            } else if pos && zro {
                assert(parts =~= seq![p, z]);
                assert(text@ =~= joined(parts, sep));
            } else if pos && neg {
                assert(parts =~= seq![p, n]);
                assert(text@ =~= joined(parts, sep));
            } else if zro && neg {
                assert(parts =~= seq![z, n]);
                assert(text@ =~= joined(parts, sep));
            } else if pos {
                assert(parts =~= seq![p]);
                assert(text@ =~= joined(parts, sep));
            } else if zro {
                assert(parts =~= seq![z]);
                assert(text@ =~= joined(parts, sep));
            } else if neg {
                assert(parts =~= seq![n]);
                assert(text@ =~= joined(parts, sep));
            } else {
                assert(parts =~= seq![]);
                assert(text@ =~= joined(parts, sep));
            }
        }
        text.to_owned()
    }

    /// The flag that a signed value derives: ZRO for zero, NEG below zero, POS above.
    pub fn update_from_value(value: i16) -> (r: ConditionFlags)
        ensures
            r.0 == flag_bits_of(value as int),
    {
        if value == 0 {
            ConditionFlags::zro()
        } else if value < 0 {
            ConditionFlags::neg()
        } else {
            ConditionFlags::pos()
        }
    }
}

impl std::ops::BitOr for ConditionFlags {
    type Output = ConditionFlags;

    fn bitor(self, other: ConditionFlags) -> (r: ConditionFlags)
        ensures
            r.0 == self.0 | other.0,
    {
        self.union(other)
    }
}

impl vstd::std_specs::ops::BitOrSpecImpl for ConditionFlags {
    open spec fn obeys_bitor_spec() -> bool {
        true
    }

    open spec fn bitor_req(self, rhs: ConditionFlags) -> bool {
        true
    }

    open spec fn bitor_spec(self, rhs: ConditionFlags) -> ConditionFlags {
        ConditionFlags(self.0 | rhs.0)
    }
}

} // verus!
