//! Which scalars the inspector edits as numbers.
use vstd::prelude::*;
use crate::model::{
    scalar_at_spec, PropertySchema, PropertyType, PropertyTypeView, ScalarPropertyType,
};

verus! {

/// The scalar types edited with a number input.
pub open spec fn is_numeric_scalar(s: ScalarPropertyType) -> bool {
    s == ScalarPropertyType::F32 || s == ScalarPropertyType::I32 || s == ScalarPropertyType::U32
}

/// The scalar type of a number input (one of `F32`, `I32`, `U32`).
#[derive(Clone, Copy, Debug, PartialEq, Eq, Structural)]
pub struct NumericInput {
    scalar: ScalarPropertyType,
}

impl View for NumericInput {
    type V = ScalarPropertyType;

    closed spec fn view(&self) -> ScalarPropertyType {
        self.scalar
    }
}

/// The number input for a property of type `ty`, if it is a single numeric scalar.
pub open spec fn numeric_input_for(ty: PropertyTypeView) -> Option<ScalarPropertyType> {
    match ty {
        PropertyTypeView::Value(vt) => match scalar_at_spec(vt, None) {
            Some(s) => if is_numeric_scalar(s) {
                Some(s)
            } else {
                None
            },
            None => None,
        },
        PropertyTypeView::Array { .. } => None,
    }
}

impl NumericInput {
    /// A number input for `scalar`, if it is numeric.
    pub fn new(scalar: ScalarPropertyType) -> (res: Option<Self>)
        ensures
            match res {
                Some(n) => is_numeric_scalar(scalar) && n@ == scalar,
                None => !is_numeric_scalar(scalar),
            },
    {
        match scalar {
            ScalarPropertyType::F32 | ScalarPropertyType::I32 | ScalarPropertyType::U32 => Some(
                NumericInput { scalar },
            ),
            _ => None,
        }
    }

    /// The number input for a property whose type is a single numeric scalar.
    pub fn for_schema(schema: &PropertySchema) -> (res: Option<Self>)
        ensures
            match res {
                Some(n) => numeric_input_for(schema@.ty) == Some(n@),
                None => numeric_input_for(schema@.ty) == None::<ScalarPropertyType>,
            },
    {
        let value_type = match schema.ty() {
            PropertyType::Value(value_type) => value_type,
            PropertyType::Array { .. } => return None,
        };
        match value_type.scalar_at(None) {
            Some(scalar) => Self::new(*scalar),
            None => None,
        }
    }

    /// The scalar type the input edits.
    pub fn scalar(&self) -> (res: ScalarPropertyType)
        ensures
            res == self@,
    {
        self.scalar
    }
}

} // verus!
