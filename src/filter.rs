//! Filter parameters: their kinds, attribute codes and index range.
use vstd::prelude::*;

verus! {

/// The kind of value a filter parameter takes.
#[derive(Debug, Clone, Copy, PartialEq, Eq, Structural)]
pub enum ParamType {
    FloatParam,
    IntParam,
    BoolParam,
}

/// The code of each parameter kind.
pub open spec fn param_type_code(t: ParamType) -> u32 {
    match t {
        ParamType::FloatParam => 0,
        ParamType::IntParam => 1,
        ParamType::BoolParam => 2,
    }
}

impl ParamType {
    /// The code the engine uses.
    pub fn to_u32(self) -> (r: u32)
        ensures
            r == param_type_code(self),
    {
        match self {
            ParamType::FloatParam => 0,
            ParamType::IntParam => 1,
            ParamType::BoolParam => 2,
        }
    }

    /// The kind of a code the engine returned, or `None` for a code outside
    /// the table.
    pub fn from_u32(code: u32) -> (r: Option<ParamType>)
        ensures
            r is Some <==> code < 3,
            r matches Some(t) ==> param_type_code(t) == code,
    {
        match code {
            0 => Some(ParamType::FloatParam),
            1 => Some(ParamType::IntParam),
            2 => Some(ParamType::BoolParam),
            _ => None,
        }
    }
}

/// A filter's attribute, named by the code the engine gives it.
pub trait FilterAttr: Sized {
    /// The attribute's code.
    spec fn attr_code(&self) -> u32;

    /// Converts the attribute to its code.
    fn to_u32(self) -> (r: u32)
        ensures
            r == self.attr_code(),
    ;
}

/// The attributes of the bass boost filter.
#[derive(Debug, Clone, Copy, PartialEq, Eq, Structural)]
pub enum BassBoostFilterAttr {
    Wet,
    Boost,
}

impl FilterAttr for BassBoostFilterAttr {
    open spec fn attr_code(&self) -> u32 {
        match self {
            BassBoostFilterAttr::Wet => 0,
            BassBoostFilterAttr::Boost => 1,
        }
    }

    fn to_u32(self) -> (r: u32) {
        match self {
            BassBoostFilterAttr::Wet => 0,
            BassBoostFilterAttr::Boost => 1,
        }
    }
}

/// Whether `idx` names one of the `count` parameters of a filter.
pub open spec fn param_in_range(idx: u32, count: i32) -> bool {
    (idx as int) < (count as int)
}

/// Whether the engine may be asked about parameter `idx` of a filter that
/// has `count` parameters. An index outside the range is answered without
/// the engine: its name is absent.
pub fn param_index_valid(idx: u32, count: i32) -> (r: bool)
    ensures
        r == param_in_range(idx, count),
{
    count > 0 && idx < count as u32
}

} // verus!
