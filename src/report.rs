//! What the engine reports of a model's static data, array by array, and the
//! reading of those arrays into parameters, parts and drawables.
//!
//! Each array is indexed by parameter, part or drawable; nested arrays (key values,
//! masks, vertex UVs, triangle indices) have the lengths that the engine gives for
//! each entry.

use vstd::prelude::*;

use crate::flags::{ConstantDrawableFlagSet, CONSTANT_FLAG_MASK};
use crate::model_types::{
    copy_slice, parent_index_from_raw, parent_index_spec, vector2s_from_components, vector2s_spec,
    Drawable, DrawableView, ModelDataError, Parameter, ParameterType, ParameterView, Part, PartView,
};

verus! {

/// The engine's parameter arrays; minimum, maximum, default and key values are
/// `f32` bit patterns.
pub struct RawParameters {
    pub ids: Vec<String>,
    pub types: Vec<i32>,
    pub minimum_values: Vec<u32>,
    pub maximum_values: Vec<u32>,
    pub default_values: Vec<u32>,
    pub key_values: Vec<Vec<u32>>,
}

impl RawParameters {
    pub open spec fn lengths_agree(&self) -> bool {
        let n = self.ids@.len();
        &&& self.types@.len() == n
        &&& self.minimum_values@.len() == n
        &&& self.maximum_values@.len() == n
        &&& self.default_values@.len() == n
        &&& self.key_values@.len() == n
    }

    pub open spec fn types_known(&self) -> bool {
        forall|i: int|
            0 <= i < self.types@.len() ==> (#[trigger] ParameterType::from_raw_spec(
                self.types@[i],
            )) is Some
    }

    /// The error these arrays are refused with, if any.
    pub open spec fn error_spec(&self) -> Option<ModelDataError> {
        if !self.lengths_agree() {
            Some(ModelDataError::LengthMismatch)
        } else if !self.types_known() {
            Some(ModelDataError::UnknownParameterType)
        } else {
            None
        }
    }

    /// The parameter at `i`.
    pub open spec fn parameter_spec(&self, i: int) -> ParameterView {
        ParameterView {
            id: self.ids@[i]@,
            ty: ParameterType::from_raw_spec(self.types@[i])->Some_0,
            value_range: (self.minimum_values@[i], self.maximum_values@[i]),
            default_value: self.default_values@[i],
            keys: self.key_values@[i]@,
        }
    }
}

/// The engine's part arrays.
pub struct RawParts {
    pub ids: Vec<String>,
    pub parent_part_indices: Vec<i32>,
}

impl RawParts {
    pub open spec fn lengths_agree(&self) -> bool {
        self.parent_part_indices@.len() == self.ids@.len()
    }

    /// The error these arrays are refused with, if any.
    pub open spec fn error_spec(&self) -> Option<ModelDataError> {
        if !self.lengths_agree() {
            Some(ModelDataError::LengthMismatch)
        } else {
            None
        }
    }

    /// The part at `i`.
    pub open spec fn part_spec(&self, i: int) -> PartView {
        PartView { id: self.ids@[i]@, parent_part_index: parent_index_spec(self.parent_part_indices@[i]) }
    }
}

/// The engine's static drawable arrays; vertex UVs are flat `f32` bit patterns,
/// two per vertex.
pub struct RawDrawables {
    pub ids: Vec<String>,
    pub constant_flags: Vec<u8>,
    pub texture_indices: Vec<i32>,
    pub masks: Vec<Vec<i32>>,
    pub vertex_uvs: Vec<Vec<u32>>,
    pub triangle_indices: Vec<Vec<u16>>,
    pub parent_part_indices: Vec<i32>,
}

impl RawDrawables {
    pub open spec fn lengths_agree(&self) -> bool {
        let n = self.ids@.len();
        &&& self.constant_flags@.len() == n
        &&& self.texture_indices@.len() == n
        &&& self.masks@.len() == n
        &&& self.vertex_uvs@.len() == n
        &&& self.triangle_indices@.len() == n
        &&& self.parent_part_indices@.len() == n
    }

    pub open spec fn flags_known(&self) -> bool {
        forall|i: int|
            0 <= i < self.constant_flags@.len() ==> #[trigger] self.constant_flags@[i]
                & !CONSTANT_FLAG_MASK == 0
    }

    pub open spec fn indices_nonnegative(&self) -> bool {
        &&& forall|i: int|
            0 <= i < self.texture_indices@.len() ==> #[trigger] self.texture_indices@[i] >= 0
        &&& forall|i: int, j: int|
            0 <= i < self.masks@.len() && 0 <= j < self.masks@[i]@.len()
                ==> #[trigger] self.masks@[i]@[j] >= 0
    }

    pub open spec fn uvs_complete(&self) -> bool {
        forall|i: int|
            0 <= i < self.vertex_uvs@.len() ==> #[trigger] self.vertex_uvs@[i]@.len() % 2 == 0
    }

    /// The error these arrays are refused with, if any.
    pub open spec fn error_spec(&self) -> Option<ModelDataError> {
        if !self.lengths_agree() {
            Some(ModelDataError::LengthMismatch)
        } else if !self.flags_known() {
            Some(ModelDataError::UnknownFlagBits)
        } else if !self.indices_nonnegative() {
            Some(ModelDataError::NegativeIndex)
        } else if !self.uvs_complete() {
            Some(ModelDataError::IncompleteVector)
        } else {
            None
        }
    }

    /// The mask indices of the drawable at `i`.
    pub open spec fn masks_spec(&self, i: int) -> Seq<usize> {
        self.masks@[i]@.map_values(|m: i32| m as usize)
    }

    /// The drawable at `i`.
    pub open spec fn drawable_spec(&self, i: int) -> DrawableView {
        DrawableView {
            id: self.ids@[i]@,
            constant_flags: self.constant_flags@[i],
            texture_index: self.texture_indices@[i] as usize,
            masks: self.masks_spec(i),
            vertex_uvs: vector2s_spec(self.vertex_uvs@[i]@),
            triangle_indices: self.triangle_indices@[i]@,
            parent_part_index: parent_index_spec(self.parent_part_indices@[i]),
        }
    }
}

/// Reads the parameters. Fails with `LengthMismatch` where the arrays differ in
/// length, else with `UnknownParameterType` where a type number names no type.
pub fn parameters_from_raw(raw: &RawParameters) -> (r: Result<Vec<Parameter>, ModelDataError>)
    ensures
        !raw.lengths_agree() ==> r == Err::<Vec<Parameter>, _>(ModelDataError::LengthMismatch),
        raw.lengths_agree() && !raw.types_known() ==> r == Err::<Vec<Parameter>, _>(
            ModelDataError::UnknownParameterType,
        ),
        raw.lengths_agree() && raw.types_known() ==> r is Ok,
        r matches Ok(v) ==> {
            &&& v@.len() == raw.ids@.len()
            &&& forall|i: int| 0 <= i < v@.len() ==> #[trigger] v@[i]@ == raw.parameter_spec(i)
        },
{
    let n = raw.ids.len();
    if raw.types.len() != n || raw.minimum_values.len() != n || raw.maximum_values.len() != n
        || raw.default_values.len() != n || raw.key_values.len() != n {
        return Err(ModelDataError::LengthMismatch);
    }
    let mut out: Vec<Parameter> = Vec::new();
    let mut i: usize = 0;
    while i < n
        invariant
            raw.lengths_agree(),
            n == raw.ids@.len(),
            i <= n,
            out@.len() == i,
            forall|k: int| 0 <= k < i ==> (#[trigger] ParameterType::from_raw_spec(raw.types@[k])) is Some,
            forall|k: int| 0 <= k < i ==> #[trigger] out@[k]@ == raw.parameter_spec(k),
        decreases n - i,
    {
        let ty = match ParameterType::from_raw(raw.types[i]) {
            Some(ty) => ty,
            None => {
                return Err(ModelDataError::UnknownParameterType);
            },
        };
        let keys = copy_slice(raw.key_values[i].as_slice());
        let p = Parameter::new(
            raw.ids[i].clone(),
            ty,
            raw.minimum_values[i],
            raw.maximum_values[i],
            raw.default_values[i],
            keys,
        );
        out.push(p);
        i = i + 1;
    }
    Ok(out)
}

/// Reads the parts. Fails with `LengthMismatch` where the arrays differ in length.
pub fn parts_from_raw(raw: &RawParts) -> (r: Result<Vec<Part>, ModelDataError>)
    ensures
        !raw.lengths_agree() ==> r == Err::<Vec<Part>, _>(ModelDataError::LengthMismatch),
        raw.lengths_agree() ==> r is Ok,
        r matches Ok(v) ==> {
            &&& v@.len() == raw.ids@.len()
            &&& forall|i: int| 0 <= i < v@.len() ==> #[trigger] v@[i]@ == raw.part_spec(i)
        },
{
    let n = raw.ids.len();
    if raw.parent_part_indices.len() != n {
        return Err(ModelDataError::LengthMismatch);
    }
    let mut out: Vec<Part> = Vec::new();
    let mut i: usize = 0;
    while i < n
        invariant
            raw.lengths_agree(),
            n == raw.ids@.len(),
            i <= n,
            out@.len() == i,
            forall|k: int| 0 <= k < i ==> #[trigger] out@[k]@ == raw.part_spec(k),
        decreases n - i,
    {
        let parent = parent_index_from_raw(raw.parent_part_indices[i]);
        out.push(Part::new(raw.ids[i].clone(), parent));
        i = i + 1;
    }
    Ok(out)
}

/// Converts mask indices that are known to be non-negative.
fn masks_to_indices(masks: &[i32]) -> (r: Vec<usize>)
    requires
        forall|j: int| 0 <= j < masks@.len() ==> #[trigger] masks@[j] >= 0,
    ensures
        r@ == masks@.map_values(|m: i32| m as usize),
{
    let mut out: Vec<usize> = Vec::new();
    let mut j: usize = 0;
    while j < masks.len()
        invariant
            j <= masks@.len(),
            forall|k: int| 0 <= k < masks@.len() ==> #[trigger] masks@[k] >= 0,
            out@ == masks@.map_values(|m: i32| m as usize).take(j as int),
        decreases masks@.len() - j,
    {
        out.push(masks[j] as usize);
        j = j + 1;
        assert(out@ =~= masks@.map_values(|m: i32| m as usize).take(j as int));
    }
    assert(out@ =~= masks@.map_values(|m: i32| m as usize));
    out
}

/// Reads the drawables. Fails, checking in this order, with `LengthMismatch` where
/// the arrays differ in length, `UnknownFlagBits` where a constant flag byte has a
/// bit that no flag uses, `NegativeIndex` where a texture or mask index is
/// negative, and `IncompleteVector` where a drawable's UV components are odd in
/// number.
pub fn drawables_from_raw(raw: &RawDrawables) -> (r: Result<Vec<Drawable>, ModelDataError>)
    ensures
        !raw.lengths_agree() ==> r == Err::<Vec<Drawable>, _>(ModelDataError::LengthMismatch),
        raw.lengths_agree() && !raw.flags_known() ==> r == Err::<Vec<Drawable>, _>(
            ModelDataError::UnknownFlagBits,
        ),
        raw.lengths_agree() && raw.flags_known() && !raw.indices_nonnegative() ==> r == Err::<
            Vec<Drawable>,
            _,
        >(ModelDataError::NegativeIndex),
        raw.lengths_agree() && raw.flags_known() && raw.indices_nonnegative()
            && !raw.uvs_complete() ==> r == Err::<Vec<Drawable>, _>(
            ModelDataError::IncompleteVector,
        ),
        raw.lengths_agree() && raw.flags_known() && raw.indices_nonnegative()
            && raw.uvs_complete() ==> r is Ok,
        r matches Ok(v) ==> {
            &&& v@.len() == raw.ids@.len()
            &&& forall|i: int| 0 <= i < v@.len() ==> #[trigger] v@[i]@ == raw.drawable_spec(i)
        },
{
    let n = raw.ids.len();
    if raw.constant_flags.len() != n || raw.texture_indices.len() != n || raw.masks.len() != n
        || raw.vertex_uvs.len() != n || raw.triangle_indices.len() != n
        || raw.parent_part_indices.len() != n {
        return Err(ModelDataError::LengthMismatch);
    }
    let mut i: usize = 0;
    while i < n
        invariant
            raw.lengths_agree(),
            n == raw.ids@.len(),
            i <= n,
            forall|k: int| 0 <= k < i ==> #[trigger] raw.constant_flags@[k] & !CONSTANT_FLAG_MASK == 0,
        decreases n - i,
    {
        if raw.constant_flags[i] & !CONSTANT_FLAG_MASK != 0 {
            return Err(ModelDataError::UnknownFlagBits);
        }
        i = i + 1;
    }
    let mut i: usize = 0;
    while i < n
        invariant
            raw.lengths_agree(),
            raw.flags_known(),
            n == raw.ids@.len(),
            i <= n,
            forall|k: int| 0 <= k < i ==> #[trigger] raw.texture_indices@[k] >= 0,
            forall|k: int, j: int|
                0 <= k < i && 0 <= j < raw.masks@[k]@.len() ==> #[trigger] raw.masks@[k]@[j] >= 0,
        decreases n - i,
    {
        if raw.texture_indices[i] < 0 {
            return Err(ModelDataError::NegativeIndex);
        }
        let masks = &raw.masks[i];
        let mut j: usize = 0;
        while j < masks.len()
            invariant
                raw.lengths_agree(),
                raw.flags_known(),
                n == raw.ids@.len(),
                i < n,
                masks == raw.masks@[i as int],
                j <= masks@.len(),
                forall|k: int| 0 <= k <= i ==> #[trigger] raw.texture_indices@[k] >= 0,
                forall|k: int, l: int|
                    0 <= k < i && 0 <= l < raw.masks@[k]@.len() ==> #[trigger] raw.masks@[k]@[l] >= 0,
                forall|l: int| 0 <= l < j ==> #[trigger] raw.masks@[i as int]@[l] >= 0,
            decreases masks@.len() - j,
        {
            if masks[j] < 0 {
                return Err(ModelDataError::NegativeIndex);
            }
            j = j + 1;
        }
        i = i + 1;
    }
    let mut i: usize = 0;
    while i < n
        invariant
            raw.lengths_agree(),
            raw.flags_known(),
            raw.indices_nonnegative(),
            n == raw.ids@.len(),
            i <= n,
            forall|k: int| 0 <= k < i ==> #[trigger] raw.vertex_uvs@[k]@.len() % 2 == 0,
        decreases n - i,
    {
        if raw.vertex_uvs[i].len() % 2 != 0 {
            return Err(ModelDataError::IncompleteVector);
        }
        i = i + 1;
    }
    let mut out: Vec<Drawable> = Vec::new();
    let mut i: usize = 0;
    while i < n
        invariant
            raw.lengths_agree(),
            raw.flags_known(),
            raw.indices_nonnegative(),
            raw.uvs_complete(),
            n == raw.ids@.len(),
            i <= n,
            out@.len() == i,
            forall|k: int| 0 <= k < i ==> #[trigger] out@[k]@ == raw.drawable_spec(k),
        decreases n - i,
    {
        let flagset = match ConstantDrawableFlagSet::new(raw.constant_flags[i]) {
            Some(f) => f,
            None => {
                assert(raw.constant_flags@[i as int] & !CONSTANT_FLAG_MASK == 0);
                return Err(ModelDataError::UnknownFlagBits);
            },
        };
        let uvs = match vector2s_from_components(raw.vertex_uvs[i].as_slice()) {
            Some(v) => v,
            None => {
                assert(raw.vertex_uvs@[i as int]@.len() % 2 == 0);
                return Err(ModelDataError::IncompleteVector);
            },
        };
        assert(forall|j: int|
            0 <= j < raw.masks@[i as int]@.len() ==> #[trigger] raw.masks@[i as int]@[j] >= 0);
        let masks = masks_to_indices(raw.masks[i].as_slice());
        assert(raw.texture_indices@[i as int] >= 0);
        let d = Drawable::new(
            raw.ids[i].clone(),
            flagset,
            raw.texture_indices[i] as usize,
            masks,
            uvs,
            copy_slice(raw.triangle_indices[i].as_slice()),
            parent_index_from_raw(raw.parent_part_indices[i]),
        );
        out.push(d);
        i = i + 1;
    }
    Ok(out)
}

} // verus!
