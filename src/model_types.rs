//! The static description of a model: canvas, parameters, parts and drawables, and
//! how each is read from the arrays that the engine reports.

use vstd::prelude::*;

use crate::flags::ConstantDrawableFlagSet;

verus! {

/// A 2-component `f32` vector, each component held as its bit pattern.
#[derive(Clone, Copy, Debug, PartialEq, Eq, Structural, Hash)]
pub struct Vector2 {
    pub x: u32,
    pub y: u32,
}

/// A 4-component `f32` vector, each component held as its bit pattern.
#[derive(Clone, Copy, Debug, PartialEq, Eq, Structural, Hash)]
pub struct Vector4 {
    pub x: u32,
    pub y: u32,
    pub z: u32,
    pub w: u32,
}

/// Model canvas; every number is an `f32` held as its bit pattern.
#[derive(Clone, Copy, Debug)]
pub struct CanvasInfo {
    /// Canvas dimensions.
    pub size_in_pixels: (u32, u32),
    /// Origin of model on canvas.
    pub origin_in_pixels: (u32, u32),
    /// Aspect used for scaling pixels to units.
    pub pixels_per_unit: u32,
}

/// Parameter type.
#[derive(Clone, Copy, Debug, PartialEq, Eq, Structural, Hash)]
pub enum ParameterType {
    Normal,
    BlendShape,
}

impl ParameterType {
    /// The type that the engine's number stands for, if any.
    pub open spec fn from_raw_spec(raw: i32) -> Option<ParameterType> {
        if raw == 0 {
            Some(ParameterType::Normal)
        } else if raw == 1 {
            Some(ParameterType::BlendShape)
        } else {
            None
        }
    }

    pub fn from_raw(raw: i32) -> (r: Option<ParameterType>)
        ensures
            r == Self::from_raw_spec(raw),
    {
        if raw == 0 {
            Some(ParameterType::Normal)
        } else if raw == 1 {
            Some(ParameterType::BlendShape)
        } else {
            None
        }
    }
}

/// Errors in what the engine reports of a model: the arrays do not have the shape
/// that the engine's interface promises.
#[derive(Clone, Copy, Debug, PartialEq, Eq, Structural, Hash)]
pub enum ModelDataError {
    /// Arrays that describe one collection differ in length.
    LengthMismatch,
    /// A parameter type number that names no type.
    UnknownParameterType,
    /// A flag byte with a bit that no flag uses.
    UnknownFlagBits,
    /// A negative number where an index is expected.
    NegativeIndex,
    /// Vector components that do not make whole vectors.
    IncompleteVector,
}

/// The engine's parent index, where any value above zero names a part and is
/// decremented, and zero or below means no parent.
pub open spec fn parent_index_spec(raw: i32) -> Option<usize> {
    if raw > 0 {
        Some((raw - 1) as usize)
    } else {
        None
    }
}

pub fn parent_index_from_raw(raw: i32) -> (r: Option<usize>)
    ensures
        r == parent_index_spec(raw),
{
    if raw > 0 {
        Some((raw - 1) as usize)
    } else {
        None
    }
}

/// Flat components read two at a time.
pub open spec fn vector2s_spec(flat: Seq<u32>) -> Seq<Vector2> {
    Seq::new(flat.len() / 2, |i: int| Vector2 { x: flat[2 * i], y: flat[2 * i + 1] })
}

/// Flat components read four at a time.
pub open spec fn vector4s_spec(flat: Seq<u32>) -> Seq<Vector4> {
    Seq::new(
        flat.len() / 4,
        |i: int| Vector4 { x: flat[4 * i], y: flat[4 * i + 1], z: flat[4 * i + 2], w: flat[4 * i + 3] },
    )
}

/// Groups flat components into 2-component vectors; `None` for an odd count.
pub fn vector2s_from_components(flat: &[u32]) -> (r: Option<Vec<Vector2>>)
    ensures
        r is Some <==> flat@.len() % 2 == 0,
        r matches Some(v) ==> v@ == vector2s_spec(flat@),
{
    if flat.len() % 2 != 0 {
        return None;
    }
    let mut out: Vec<Vector2> = Vec::new();
    let mut j: usize = 0;
    while j < flat.len()
        invariant
            flat@.len() % 2 == 0,
            j % 2 == 0,
            j <= flat@.len(),
            out@ == vector2s_spec(flat@).take(j as int / 2),
        decreases flat@.len() - j,
    {
        out.push(Vector2 { x: flat[j], y: flat[j + 1] });
        j = j + 2;
        assert(out@ =~= vector2s_spec(flat@).take(j as int / 2));
    }
    assert(out@ =~= vector2s_spec(flat@));
    Some(out)
}

/// Groups flat components into 4-component vectors; `None` where the count is not
/// a multiple of four.
pub fn vector4s_from_components(flat: &[u32]) -> (r: Option<Vec<Vector4>>)
    ensures
        r is Some <==> flat@.len() % 4 == 0,
        r matches Some(v) ==> v@ == vector4s_spec(flat@),
{
    if flat.len() % 4 != 0 {
        return None;
    }
    let mut out: Vec<Vector4> = Vec::new();
    let mut j: usize = 0;
    while j < flat.len()
        invariant
            flat@.len() % 4 == 0,
            j % 4 == 0,
            j <= flat@.len(),
            out@ == vector4s_spec(flat@).take(j as int / 4),
        decreases flat@.len() - j,
    {
        out.push(Vector4 { x: flat[j], y: flat[j + 1], z: flat[j + 2], w: flat[j + 3] });
        j = j + 4;
        assert(out@ =~= vector4s_spec(flat@).take(j as int / 4));
    }
    assert(out@ =~= vector4s_spec(flat@));
    Some(out)
}

/// A copy of a slice, element by element.
pub fn copy_slice<T: Copy>(s: &[T]) -> (r: Vec<T>)
    ensures
        r@ == s@,
{
    let mut out: Vec<T> = Vec::new();
    let mut i: usize = 0;
    while i < s.len()
        invariant
            i <= s@.len(),
            out@ == s@.take(i as int),
        decreases s@.len() - i,
    {
        out.push(s[i]);
        i = i + 1;
        assert(out@ =~= s@.take(i as int));
    }
    assert(out@ =~= s@);
    out
}

/// Properties of a single parameter of a model.
#[derive(Clone, Debug)]
pub struct Parameter {
    id: String,
    ty: ParameterType,
    minimum_value: u32,
    maximum_value: u32,
    default_value: u32,
    keys: Vec<u32>,
}

/// What a parameter holds, as plain values.
pub struct ParameterView {
    pub id: Seq<char>,
    pub ty: ParameterType,
    pub value_range: (u32, u32),
    pub default_value: u32,
    pub keys: Seq<u32>,
}

impl View for Parameter {
    type V = ParameterView;

    closed spec fn view(&self) -> ParameterView {
        ParameterView {
            id: self.id@,
            ty: self.ty,
            value_range: (self.minimum_value, self.maximum_value),
            default_value: self.default_value,
            keys: self.keys@,
        }
    }
}

impl Parameter {
    pub(crate) fn new(
        id: String,
        ty: ParameterType,
        minimum_value: u32,
        maximum_value: u32,
        default_value: u32,
        keys: Vec<u32>,
    ) -> (r: Parameter)
        ensures
            r@ == (ParameterView {
                id: id@,
                ty,
                value_range: (minimum_value, maximum_value),
                default_value,
                keys: keys@,
            }),
    {
        Parameter { id, ty, minimum_value, maximum_value, default_value, keys }
    }

    pub fn id(&self) -> (r: &str)
        ensures
            r@ == self@.id,
    {
        self.id.as_str()
    }

    pub fn ty(&self) -> (r: ParameterType)
        ensures
            r == self@.ty,
    {
        self.ty
    }

    /// Minimum and maximum value.
    pub fn value_range(&self) -> (r: (u32, u32))
        ensures
            r == self@.value_range,
    {
        (self.minimum_value, self.maximum_value)
    }

    pub fn default_value(&self) -> (r: u32)
        ensures
            r == self@.default_value,
    {
        self.default_value
    }

    /// Discrete key values.
    pub fn keys(&self) -> (r: &[u32])
        ensures
            r@ == self@.keys,
    {
        self.keys.as_slice()
    }
}

/// A part: a named grouping node with an optional parent part.
#[derive(Clone, Debug)]
pub struct Part {
    id: String,
    parent_part_index: Option<usize>,
}

/// What a part holds, as plain values.
pub struct PartView {
    pub id: Seq<char>,
    pub parent_part_index: Option<usize>,
}

impl View for Part {
    type V = PartView;

    closed spec fn view(&self) -> PartView {
        PartView { id: self.id@, parent_part_index: self.parent_part_index }
    }
}

impl Part {
    pub(crate) fn new(id: String, parent_part_index: Option<usize>) -> (r: Part)
        ensures
            r@ == (PartView { id: id@, parent_part_index }),
    {
        Part { id, parent_part_index }
    }

    pub fn id(&self) -> (r: &str)
        ensures
            r@ == self@.id,
    {
        self.id.as_str()
    }

    pub fn parent_part_index(&self) -> (r: Option<usize>)
        ensures
            r == self@.parent_part_index,
    {
        self.parent_part_index
    }
}

/// A drawable: a named mesh with its constant render data.
#[derive(Clone, Debug)]
pub struct Drawable {
    id: String,
    constant_flagset: ConstantDrawableFlagSet,
    texture_index: usize,
    masks: Vec<usize>,
    vertex_uvs: Vec<Vector2>,
    triangle_indices: Vec<u16>,
    parent_part_index: Option<usize>,
}

/// What a drawable holds, as plain values.
pub struct DrawableView {
    pub id: Seq<char>,
    /// The constant flags' byte.
    pub constant_flags: u8,
    pub texture_index: usize,
    pub masks: Seq<usize>,
    pub vertex_uvs: Seq<Vector2>,
    pub triangle_indices: Seq<u16>,
    pub parent_part_index: Option<usize>,
}

impl View for Drawable {
    type V = DrawableView;

    closed spec fn view(&self) -> DrawableView {
        DrawableView {
            id: self.id@,
            constant_flags: self.constant_flagset@,
            texture_index: self.texture_index,
            masks: self.masks@,
            vertex_uvs: self.vertex_uvs@,
            triangle_indices: self.triangle_indices@,
            parent_part_index: self.parent_part_index,
        }
    }
}

impl Drawable {
    pub(crate) fn new(
        id: String,
        constant_flagset: ConstantDrawableFlagSet,
        texture_index: usize,
        masks: Vec<usize>,
        vertex_uvs: Vec<Vector2>,
        triangle_indices: Vec<u16>,
        parent_part_index: Option<usize>,
    ) -> (r: Drawable)
        ensures
            r@ == (DrawableView {
                id: id@,
                constant_flags: constant_flagset@,
                texture_index,
                masks: masks@,
                vertex_uvs: vertex_uvs@,
                triangle_indices: triangle_indices@,
                parent_part_index,
            }),
    {
        Drawable {
            id,
            constant_flagset,
            texture_index,
            masks,
            vertex_uvs,
            triangle_indices,
            parent_part_index,
        }
    }

    pub fn id(&self) -> (r: &str)
        ensures
            r@ == self@.id,
    {
        self.id.as_str()
    }

    pub fn constant_flagset(&self) -> (r: ConstantDrawableFlagSet)
        ensures
            r@ == self@.constant_flags,
    {
        self.constant_flagset
    }

    pub fn texture_index(&self) -> (r: usize)
        ensures
            r == self@.texture_index,
    {
        self.texture_index
    }

    /// Indices of the drawables that mask this one.
    pub fn masks(&self) -> (r: &[usize])
        ensures
            r@ == self@.masks,
    {
        self.masks.as_slice()
    }

    pub fn vertex_uvs(&self) -> (r: &[Vector2])
        ensures
            r@ == self@.vertex_uvs,
    {
        self.vertex_uvs.as_slice()
    }

    pub fn triangle_indices(&self) -> (r: &[u16])
        ensures
            r@ == self@.triangle_indices,
    {
        self.triangle_indices.as_slice()
    }

    pub fn parent_part_index(&self) -> (r: Option<usize>)
        ensures
            r == self@.parent_part_index,
    {
        self.parent_part_index
    }
}

} // verus!
