//! The dimensional value an action carries.
//!
//! A value is a boolean press or an axis reading in one, two or three
//! dimensions. Conversion between dimensions is total: widening places the
//! value in the first components and zero-fills the rest, narrowing keeps the
//! first components and discards the rest, and a boolean widens to one unit
//! (or zero) on the first axis.

use vstd::prelude::*;
use crate::fixed::{fix_in_range, FIX_ONE};

verus! {

/// The dimension of an [`ActionValue`].
#[derive(Clone, Copy, Debug, PartialEq, Eq, Structural)]
pub enum ActionValueDim {
    Bool,
    Axis1D,
    Axis2D,
    Axis3D,
}

/// A captured or computed input value, tagged with its dimension. Axis
/// components are fixed-point thousandths.
#[derive(Clone, Copy, Debug, PartialEq, Eq, Structural)]
pub enum ActionValue {
    Bool(bool),
    Axis1D(i64),
    Axis2D(i64, i64),
    Axis3D(i64, i64, i64),
}

/// One fixed-point unit for a pressed boolean, zero for a released one.
pub open spec fn spec_bool_fix(b: bool) -> int {
    if b {
        FIX_ONE as int
    } else {
        0
    }
}

impl ActionValue {
    /// All axis components are representable fixed-point values.
    pub open spec fn wf(self) -> bool {
        match self {
            ActionValue::Bool(_) => true,
            ActionValue::Axis1D(x) => fix_in_range(x as int),
            ActionValue::Axis2D(x, y) => fix_in_range(x as int) && fix_in_range(y as int),
            ActionValue::Axis3D(x, y, z) => fix_in_range(x as int) && fix_in_range(y as int)
                && fix_in_range(z as int),
        }
    }

    /// The dimension of this value.
    pub open spec fn spec_dim(self) -> ActionValueDim {
        match self {
            ActionValue::Bool(_) => ActionValueDim::Bool,
            ActionValue::Axis1D(_) => ActionValueDim::Axis1D,
            ActionValue::Axis2D(_, _) => ActionValueDim::Axis2D,
            ActionValue::Axis3D(_, _, _) => ActionValueDim::Axis3D,
        }
    }

    /// The first axis component, with a boolean widened to one unit or zero.
    pub open spec fn spec_x(self) -> int {
        match self {
            ActionValue::Bool(b) => spec_bool_fix(b),
            ActionValue::Axis1D(x) => x as int,
            ActionValue::Axis2D(x, _) => x as int,
            ActionValue::Axis3D(x, _, _) => x as int,
        }
    }

    /// The second axis component; zero below two dimensions.
    pub open spec fn spec_y(self) -> int {
        match self {
            ActionValue::Bool(_) => 0,
            ActionValue::Axis1D(_) => 0,
            ActionValue::Axis2D(_, y) => y as int,
            ActionValue::Axis3D(_, y, _) => y as int,
        }
    }

    /// The third axis component; zero below three dimensions.
    pub open spec fn spec_z(self) -> int {
        match self {
            ActionValue::Bool(_) => 0,
            ActionValue::Axis1D(_) => 0,
            ActionValue::Axis2D(_, _) => 0,
            ActionValue::Axis3D(_, _, z) => z as int,
        }
    }

    /// The conversion of `v` to dimension `dim`: first components kept,
    /// missing components zero-filled, a boolean read as nonzero on the first
    /// axis.
    pub open spec fn spec_convert(v: ActionValue, dim: ActionValueDim) -> ActionValue {
        match dim {
            ActionValueDim::Bool => ActionValue::Bool(v.spec_x() != 0),
            ActionValueDim::Axis1D => ActionValue::Axis1D(v.spec_x() as i64),
            ActionValueDim::Axis2D => ActionValue::Axis2D(v.spec_x() as i64, v.spec_y() as i64),
            ActionValueDim::Axis3D => ActionValue::Axis3D(
                v.spec_x() as i64,
                v.spec_y() as i64,
                v.spec_z() as i64,
            ),
        }
    }

    /// The dimension of this value.
    pub fn dim(&self) -> (d: ActionValueDim)
        ensures
            d == self.spec_dim(),
    {
        match self {
            ActionValue::Bool(_) => ActionValueDim::Bool,
            ActionValue::Axis1D(_) => ActionValueDim::Axis1D,
            ActionValue::Axis2D(_, _) => ActionValueDim::Axis2D,
            ActionValue::Axis3D(_, _, _) => ActionValueDim::Axis3D,
        }
    }

    /// The zero value of the given dimension.
    pub open spec fn spec_zero(dim: ActionValueDim) -> ActionValue {
        match dim {
            ActionValueDim::Bool => ActionValue::Bool(false),
            ActionValueDim::Axis1D => ActionValue::Axis1D(0),
            ActionValueDim::Axis2D => ActionValue::Axis2D(0, 0),
            ActionValueDim::Axis3D => ActionValue::Axis3D(0, 0, 0),
        }
    }

    /// Returns the zero value of the given dimension.
    pub fn zero(dim: ActionValueDim) -> (r: ActionValue)
        ensures
            r == ActionValue::spec_zero(dim),
            r.spec_dim() == dim,
            r.spec_x() == 0 && r.spec_y() == 0 && r.spec_z() == 0,
            r.wf(),
    {
        match dim {
            ActionValueDim::Bool => ActionValue::Bool(false),
            ActionValueDim::Axis1D => ActionValue::Axis1D(0),
            ActionValueDim::Axis2D => ActionValue::Axis2D(0, 0),
            ActionValueDim::Axis3D => ActionValue::Axis3D(0, 0, 0),
        }
    }

    /// This value read as a boolean: true exactly when the first axis
    /// component is nonzero.
    pub fn as_bool(&self) -> (b: bool)
        ensures
            b == (self.spec_x() != 0),
    {
        match self {
            ActionValue::Bool(b) => *b,
            ActionValue::Axis1D(x) => *x != 0,
            ActionValue::Axis2D(x, _) => *x != 0,
            ActionValue::Axis3D(x, _, _) => *x != 0,
        }
    }

    /// Converts this value to the given dimension.
    pub fn convert(self, dim: ActionValueDim) -> (r: ActionValue)
        requires
            self.wf(),
        ensures
            r == ActionValue::spec_convert(self, dim),
            r.wf(),
            r.spec_dim() == dim,
    {
        let x: i64 = match self {
            ActionValue::Bool(b) => if b {
                FIX_ONE
            } else {
                0
            },
            ActionValue::Axis1D(x) => x,
            ActionValue::Axis2D(x, _) => x,
            ActionValue::Axis3D(x, _, _) => x,
        };
        let y: i64 = match self {
            ActionValue::Axis2D(_, y) => y,
            ActionValue::Axis3D(_, y, _) => y,
            _ => 0,
        };
        let z: i64 = match self {
            ActionValue::Axis3D(_, _, z) => z,
            _ => 0,
        };
        match dim {
            ActionValueDim::Bool => ActionValue::Bool(x != 0),
            ActionValueDim::Axis1D => ActionValue::Axis1D(x),
            ActionValueDim::Axis2D => ActionValue::Axis2D(x, y),
            ActionValueDim::Axis3D => ActionValue::Axis3D(x, y, z),
        }
    }
}

} // verus!
