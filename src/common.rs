//! Miscellaneous enums and the native names they are passed by.
use vstd::prelude::*;

verus! {

/// How two windows are compared.
#[derive(Copy, Clone, Debug, PartialEq, Eq, Structural)]
pub enum ComparisonOperator {
    EQ,
    NE,
    LEQ,
    LT,
    GEQ,
    GT,
}

/// The native name of `op`.
pub open spec fn comparison_name(op: ComparisonOperator) -> Seq<char> {
    match op {
        ComparisonOperator::EQ => "="@,
        ComparisonOperator::NE => "<>"@,
        ComparisonOperator::LEQ => "<="@,
        ComparisonOperator::LT => "<"@,
        ComparisonOperator::GEQ => ">="@,
        ComparisonOperator::GT => ">"@,
    }
}

impl ComparisonOperator {
    /// The native name of the operator.
    pub fn as_spice_str(&self) -> (r: &'static str)
        ensures
            r@ == comparison_name(*self),
    {
        match self {
            ComparisonOperator::EQ => "=",
            ComparisonOperator::NE => "<>",
            ComparisonOperator::LEQ => "<=",
            ComparisonOperator::LT => "<",
            ComparisonOperator::GEQ => ">=",
            ComparisonOperator::GT => ">",
        }
    }
}

/// An end of an interval.
#[derive(Copy, Clone, Debug, PartialEq, Eq, Structural)]
pub enum Side {
    Left,
    Right,
}

impl Side {
    /// The native character for the side: `L` or `R`.
    pub fn as_spice_char(&self) -> (r: u8)
        ensures
            r == match self {
                Side::Left => 'L' as u8,
                Side::Right => 'R' as u8,
            },
    {
        match self {
            Side::Left => 'L' as u8,
            Side::Right => 'R' as u8,
        }
    }
}

/// Aberration correction for ephemeris queries.
#[derive(Copy, Clone, Debug, PartialEq, Eq, Structural)]
#[allow(non_camel_case_types)]
pub enum AberrationCorrection {
    NONE,
    LT,
    LT_S,
    CN,
    CN_S,
    XLT,
    XLT_S,
    XCN,
    XCN_S,
}

/// The native name of `correction`.
pub open spec fn correction_name(correction: AberrationCorrection) -> Seq<char> {
    match correction {
        AberrationCorrection::NONE => "NONE"@,
        AberrationCorrection::LT => "LT"@,
        AberrationCorrection::LT_S => "LT+S"@,
        AberrationCorrection::CN => "CN"@,
        AberrationCorrection::CN_S => "CN+S"@,
        AberrationCorrection::XLT => "XLT"@,
        AberrationCorrection::XLT_S => "XLT+S"@,
        AberrationCorrection::XCN => "XCN"@,
        AberrationCorrection::XCN_S => "XCN+S"@,
    }
}

impl AberrationCorrection {
    /// The native name of the correction.
    pub fn as_spice_str(&self) -> (r: &'static str)
        ensures
            r@ == correction_name(*self),
    {
        match self {
            AberrationCorrection::NONE => "NONE",
            AberrationCorrection::LT => "LT",
            AberrationCorrection::LT_S => "LT+S",
            AberrationCorrection::CN => "CN",
            AberrationCorrection::CN_S => "CN+S",
            AberrationCorrection::XLT => "XLT",
            AberrationCorrection::XLT_S => "XLT+S",
            AberrationCorrection::XCN => "XCN",
            AberrationCorrection::XCN_S => "XCN+S",
        }
    }
}

/// The shape a body is modelled as in a geometry search.
#[derive(Copy, Clone, Debug, PartialEq, Eq, Structural)]
pub enum Shape {
    Sphere,
    Point,
}

/// The native name of `shape`.
pub open spec fn shape_name(shape: Shape) -> Seq<char> {
    match shape {
        Shape::Sphere => "SPHERE"@,
        Shape::Point => "POINT"@,
    }
}

impl Shape {
    /// The native name of the shape.
    pub fn as_spice_str(&self) -> (r: &'static str)
        ensures
            r@ == shape_name(*self),
    {
        match self {
            Shape::Sphere => "SPHERE",
            Shape::Point => "POINT",
        }
    }
}

/// The relation a geometry search looks for.
#[derive(Copy, Clone, Debug, PartialEq, Eq, Structural)]
pub enum RelationalOperator {
    GT,
    EQ,
    LT,
    AbsMax,
    AbsMin,
    LocalMax,
    LocalMin,
}

/// The native name of `op`.
pub open spec fn relation_name(op: RelationalOperator) -> Seq<char> {
    match op {
        RelationalOperator::GT => ">"@,
        RelationalOperator::EQ => "="@,
        RelationalOperator::LT => "<"@,
        RelationalOperator::AbsMax => "ABSMAX"@,
        RelationalOperator::AbsMin => "ABSMIN"@,
        RelationalOperator::LocalMax => "LOCMAX"@,
        RelationalOperator::LocalMin => "LOCMIN"@,
    }
}

impl RelationalOperator {
    /// The native name of the relation.
    pub fn as_spice_str(&self) -> (r: &'static str)
        ensures
            r@ == relation_name(*self),
    {
        match self {
            RelationalOperator::GT => ">",
            RelationalOperator::EQ => "=",
            RelationalOperator::LT => "<",
            RelationalOperator::AbsMax => "ABSMAX",
            RelationalOperator::AbsMin => "ABSMIN",
            RelationalOperator::LocalMax => "LOCMAX",
            RelationalOperator::LocalMin => "LOCMIN",
        }
    }
}

} // verus!
