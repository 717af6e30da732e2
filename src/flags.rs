//! Drawable flag sets: the engine's flag bytes, checked against the flags they may hold.

use vstd::prelude::*;

verus! {

/// Constant drawable flags.
#[derive(Clone, Copy, Debug, PartialEq, Eq, Structural, Hash)]
pub enum ConstantDrawableFlags {
    /// Mutually exclusive with `BlendMultiplicative`.
    BlendAdditive,
    /// Mutually exclusive with `BlendAdditive`.
    BlendMultiplicative,
    IsDoubleSided,
    IsInvertedMask,
}

/// Every bit that a constant flag uses.
pub const CONSTANT_FLAG_MASK: u8 = 0x0F;

impl ConstantDrawableFlags {
    pub open spec fn bit_spec(self) -> u8 {
        match self {
            ConstantDrawableFlags::BlendAdditive => 0x01,
            ConstantDrawableFlags::BlendMultiplicative => 0x02,
            ConstantDrawableFlags::IsDoubleSided => 0x04,
            ConstantDrawableFlags::IsInvertedMask => 0x08,
        }
    }

    /// The bit of this flag in the engine's flag byte.
    pub fn bit(&self) -> (r: u8)
        ensures
            r == self.bit_spec(),
    {
        match self {
            ConstantDrawableFlags::BlendAdditive => 0x01,
            ConstantDrawableFlags::BlendMultiplicative => 0x02,
            ConstantDrawableFlags::IsDoubleSided => 0x04,
            ConstantDrawableFlags::IsInvertedMask => 0x08,
        }
    }
}

/// A set of constant drawable flags, held as the engine's flag byte.
#[derive(Clone, Copy, Debug, PartialEq, Eq, Structural, Hash)]
pub struct ConstantDrawableFlagSet {
    bits: u8,
}

impl View for ConstantDrawableFlagSet {
    type V = u8;

    closed spec fn view(&self) -> u8 {
        self.bits
    }
}

impl ConstantDrawableFlagSet {
    /// Only bits that flags use are ever set.
    #[verifier::type_invariant]
    spec fn inv(&self) -> bool {
        self.bits & !CONSTANT_FLAG_MASK == 0
    }

    /// The flag set of a byte, or `None` where the byte has a bit that no flag uses.
    pub fn new(bits: u8) -> (r: Option<ConstantDrawableFlagSet>)
        ensures
            r is Some <==> bits & !CONSTANT_FLAG_MASK == 0,
            r matches Some(s) ==> s@ == bits,
    {
        if bits & !CONSTANT_FLAG_MASK == 0 {
            Some(ConstantDrawableFlagSet { bits })
        } else {
            None
        }
    }

    pub fn bits(&self) -> (r: u8)
        ensures
            r == self@,
            r & !CONSTANT_FLAG_MASK == 0,
    {
        proof {
            use_type_invariant(self);
        }
        self.bits
    }

    pub fn contains(&self, flag: ConstantDrawableFlags) -> (r: bool)
        ensures
            r == (self@ & flag.bit_spec() != 0),
    {
        self.bits & flag.bit() != 0
    }
}

/// Dynamic drawable flags (updated with changes to parameter values).
#[derive(Clone, Copy, Debug, PartialEq, Eq, Structural, Hash)]
pub enum DynamicDrawableFlags {
    IsVisible,
    VisibilityDidChange,
    OpacityDidChange,
    DrawOrderDidChange,
    RenderOrderDidChange,
    VertexPositionsDidChange,
    BlendColorDidChange,
}

/// Every bit that a dynamic flag uses.
pub const DYNAMIC_FLAG_MASK: u8 = 0x7F;

impl DynamicDrawableFlags {
    pub open spec fn bit_spec(self) -> u8 {
        match self {
            DynamicDrawableFlags::IsVisible => 0x01,
            DynamicDrawableFlags::VisibilityDidChange => 0x02,
            DynamicDrawableFlags::OpacityDidChange => 0x04,
            DynamicDrawableFlags::DrawOrderDidChange => 0x08,
            DynamicDrawableFlags::RenderOrderDidChange => 0x10,
            DynamicDrawableFlags::VertexPositionsDidChange => 0x20,
            DynamicDrawableFlags::BlendColorDidChange => 0x40,
        }
    }

    /// The bit of this flag in the engine's flag byte.
    pub fn bit(&self) -> (r: u8)
        ensures
            r == self.bit_spec(),
    {
        match self {
            DynamicDrawableFlags::IsVisible => 0x01,
            DynamicDrawableFlags::VisibilityDidChange => 0x02,
            DynamicDrawableFlags::OpacityDidChange => 0x04,
            DynamicDrawableFlags::DrawOrderDidChange => 0x08,
            DynamicDrawableFlags::RenderOrderDidChange => 0x10,
            DynamicDrawableFlags::VertexPositionsDidChange => 0x20,
            DynamicDrawableFlags::BlendColorDidChange => 0x40,
        }
    }
}

/// A set of dynamic drawable flags, held as the engine's flag byte.
#[derive(Clone, Copy, Debug, PartialEq, Eq, Structural, Hash)]
pub struct DynamicDrawableFlagSet {
    bits: u8,
}

impl View for DynamicDrawableFlagSet {
    type V = u8;

    closed spec fn view(&self) -> u8 {
        self.bits
    }
}

impl DynamicDrawableFlagSet {
    /// Only bits that flags use are ever set.
    #[verifier::type_invariant]
    spec fn inv(&self) -> bool {
        self.bits & !DYNAMIC_FLAG_MASK == 0
    }

    /// The flag set of a byte, or `None` where the byte has a bit that no flag uses.
    pub fn new(bits: u8) -> (r: Option<DynamicDrawableFlagSet>)
        ensures
            r is Some <==> bits & !DYNAMIC_FLAG_MASK == 0,
            r matches Some(s) ==> s@ == bits,
    {
        if bits & !DYNAMIC_FLAG_MASK == 0 {
            Some(DynamicDrawableFlagSet { bits })
        } else {
            None
        }
    }

    pub fn bits(&self) -> (r: u8)
        ensures
            r == self@,
            r & !DYNAMIC_FLAG_MASK == 0,
    {
        proof {
            use_type_invariant(self);
        }
        self.bits
    }

    pub fn contains(&self, flag: DynamicDrawableFlags) -> (r: bool)
        ensures
            r == (self@ & flag.bit_spec() != 0),
    {
        self.bits & flag.bit() != 0
    }
}

} // verus!
