//! Closed tables of the integer codes the native engine expects. The order
//! of each table is fixed: a code is part of the boundary protocol.
use vstd::prelude::*;

verus! {

/// Engine flags, each a single bit.
#[derive(Debug, Clone, Copy, PartialEq, Eq, Structural)]
pub enum SoloudFlag {
    ClipRoundoff,
    EnableVisualization,
    LeftHanded3D,
    NoFpuRegisterChange,
}

/// The bit of each flag.
pub open spec fn flag_bit(f: SoloudFlag) -> u32 {
    match f {
        SoloudFlag::ClipRoundoff => 1,
        SoloudFlag::EnableVisualization => 2,
        SoloudFlag::LeftHanded3D => 4,
        SoloudFlag::NoFpuRegisterChange => 8,
    }
}

/// All flag bits together: no set of flags goes beyond them.
pub const ALL_FLAG_BITS: u32 = 15;

impl SoloudFlag {
    /// The bit of this flag.
    pub fn bits(self) -> (r: u32)
        ensures
            r == flag_bit(self),
    {
        match self {
            SoloudFlag::ClipRoundoff => 1,
            SoloudFlag::EnableVisualization => 2,
            SoloudFlag::LeftHanded3D => 4,
            SoloudFlag::NoFpuRegisterChange => 8,
        }
    }
}

/// Whether the bit of `f` is set in `bits`.
pub open spec fn bits_contain(bits: u32, f: SoloudFlag) -> bool {
    bits & flag_bit(f) == flag_bit(f)
}

/// A set of engine flags, combined into the one integer the engine takes.
#[derive(Debug, Clone, Copy, PartialEq, Eq, Structural)]
pub struct SoloudFlags {
    bits: u32,
}

impl View for SoloudFlags {
    type V = u32;

    closed spec fn view(&self) -> u32 {
        self.bits
    }
}

impl SoloudFlags {
    /// Holds only declared flag bits.
    pub open spec fn wf(&self) -> bool {
        self@ <= ALL_FLAG_BITS
    }

    /// The set with no flag.
    pub fn empty() -> (r: SoloudFlags)
        ensures
            r.wf(),
            r@ == 0,
    {
        SoloudFlags { bits: 0 }
    }

    /// The set holding `f` alone.
    pub fn of(f: SoloudFlag) -> (r: SoloudFlags)
        ensures
            r.wf(),
            r@ == flag_bit(f),
    {
        SoloudFlags { bits: f.bits() }
    }

    /// This set with `f` added.
    pub fn with(self, f: SoloudFlag) -> (r: SoloudFlags)
        requires
            self.wf(),
        ensures
            r.wf(),
            r@ == self@ | flag_bit(f),
    {
        let b = f.bits();
        let s = self.bits;
        assert(s | b <= 15u32) by (bit_vector)
            requires
                s <= 15u32,
                b == 1u32 || b == 2u32 || b == 4u32 || b == 8u32,
        ;
        SoloudFlags { bits: s | b }
    }

    /// Every flag of either set.
    pub fn union(self, other: SoloudFlags) -> (r: SoloudFlags)
        requires
            self.wf(),
            other.wf(),
        ensures
            r.wf(),
            r@ == self@ | other@,
    {
        let a = self.bits;
        let b = other.bits;
        assert(a | b <= 15u32) by (bit_vector)
            requires
                a <= 15u32,
                b <= 15u32,
        ;
        SoloudFlags { bits: a | b }
    }

    /// Whether `f` is in the set.
    pub fn contains(&self, f: SoloudFlag) -> (r: bool)
        ensures
            r == bits_contain(self@, f),
    {
        (self.bits & f.bits()) == f.bits()
    }

    /// The integer handed to the engine.
    pub fn bits(&self) -> (r: u32)
        ensures
            r == self@,
    {
        self.bits
    }
}

impl std::ops::BitOr for SoloudFlag {
    type Output = SoloudFlags;

    fn bitor(self, rhs: SoloudFlag) -> (r: SoloudFlags)
        ensures
            r.wf(),
            r@ == flag_bit(self) | flag_bit(rhs),
    {
        SoloudFlags::of(self).with(rhs)
    }
}

impl vstd::std_specs::ops::BitOrSpecImpl for SoloudFlag {
    open spec fn obeys_bitor_spec() -> bool {
        true
    }

    open spec fn bitor_req(self, rhs: SoloudFlag) -> bool {
        true
    }

    closed spec fn bitor_spec(self, rhs: SoloudFlag) -> SoloudFlags {
        SoloudFlags { bits: flag_bit(self) | flag_bit(rhs) }
    }
}

/// Adding flags keeps those already set and sets exactly the new ones.
pub proof fn lemma_with_contains(s: SoloudFlags, f: SoloudFlag, g: SoloudFlag)
    ensures
        bits_contain(s@ | flag_bit(f), g) <==> (bits_contain(s@, g) || g == f),
{
    let a = s@;
    let b = flag_bit(f);
    let m = flag_bit(g);
    assert(b == 1u32 || b == 2u32 || b == 4u32 || b == 8u32);
    assert(m == 1u32 || m == 2u32 || m == 4u32 || m == 8u32);
    assert(((a | b) & m == m) <==> ((a & m == m) || b == m)) by (bit_vector)
        requires
            b == 1u32 || b == 2u32 || b == 4u32 || b == 8u32,
            m == 1u32 || m == 2u32 || m == 4u32 || m == 8u32,
    ;
}

/// The integer the engine takes for a boolean argument.
pub fn bool_code(b: bool) -> (r: i32)
    ensures
        r == (if b {
            1i32
        } else {
            0i32
        }),
{
    if b {
        1
    } else {
        0
    }
}

/// Oscillator wave forms.
#[derive(Debug, Clone, Copy, PartialEq, Eq, Structural)]
pub enum WaveForm {
    Square,
    Saw,
    Sin,
    Triangle,
    Bounce,
    Jaws,
    Humps,
    FSquare,
    FSaw,
}

/// The code of each wave form.
pub open spec fn wave_form_code(w: WaveForm) -> i32 {
    match w {
        WaveForm::Square => 0,
        WaveForm::Saw => 1,
        WaveForm::Sin => 2,
        WaveForm::Triangle => 3,
        WaveForm::Bounce => 4,
        WaveForm::Jaws => 5,
        WaveForm::Humps => 6,
        WaveForm::FSquare => 7,
        WaveForm::FSaw => 8,
    }
}

impl WaveForm {
    /// The code the engine expects.
    pub fn to_i32(self) -> (r: i32)
        ensures
            r == wave_form_code(self),
    {
        match self {
            WaveForm::Square => 0,
            WaveForm::Saw => 1,
            WaveForm::Sin => 2,
            WaveForm::Triangle => 3,
            WaveForm::Bounce => 4,
            WaveForm::Jaws => 5,
            WaveForm::Humps => 6,
            WaveForm::FSquare => 7,
            WaveForm::FSaw => 8,
        }
    }
}

/// Distance attenuation models of 3D sound.
#[derive(Debug, Clone, Copy, PartialEq, Eq, Structural)]
pub enum AttenuationModel {
    /// No attenuation.
    NoAttenuation,
    /// Inverse distance attenuation model.
    InverseDistance,
    /// Linear distance attenuation model.
    LinearDistance,
    /// Exponential distance attenuation model.
    ExponentialDistance,
}

/// The code of each attenuation model.
pub open spec fn attenuation_code(m: AttenuationModel) -> u32 {
    match m {
        AttenuationModel::NoAttenuation => 0,
        AttenuationModel::InverseDistance => 1,
        AttenuationModel::LinearDistance => 2,
        AttenuationModel::ExponentialDistance => 3,
    }
}

impl AttenuationModel {
    /// The code the engine expects.
    pub fn to_u32(self) -> (r: u32)
        ensures
            r == attenuation_code(self),
    {
        match self {
            AttenuationModel::NoAttenuation => 0,
            AttenuationModel::InverseDistance => 1,
            AttenuationModel::LinearDistance => 2,
            AttenuationModel::ExponentialDistance => 3,
        }
    }
}

/// Colours of a noise generator.
#[derive(Debug, Clone, Copy, PartialEq, Eq, Structural)]
pub enum NoiseType {
    White,
    Pink,
    Brownish,
    Blueish,
}

/// The code of each noise colour.
pub open spec fn noise_type_code(t: NoiseType) -> i32 {
    match t {
        NoiseType::White => 0,
        NoiseType::Pink => 1,
        NoiseType::Brownish => 2,
        NoiseType::Blueish => 3,
    }
}

impl NoiseType {
    /// The code the engine expects.
    pub fn to_i32(self) -> (r: i32)
        ensures
            r == noise_type_code(self),
    {
        match self {
            NoiseType::White => 0,
            NoiseType::Pink => 1,
            NoiseType::Brownish => 2,
            NoiseType::Blueish => 3,
        }
    }
}

} // verus!
