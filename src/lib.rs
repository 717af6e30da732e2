//! A safe, engine-independent model of the _Live2D® Cubism_ core runtime.
//!
//! The engine itself (a native library, or a host object graph on the web) reports
//! plain values: version numbers, flat arrays, flag bytes. This crate turns those
//! reports into version-checked mocs, static model descriptions and per-model
//! dynamic state, and states in its contracts what each step does.
//!
//! Floating-point values are carried as their IEEE 754 binary32 bit patterns
//! (`f32::to_bits`): the library only moves them and never computes with them.

mod cubism;
mod dynamic;
mod flags;
mod model_types;
mod report;
mod version;

pub use cubism::{CubismCore, Moc, Model, ModelReport, ModelStatic, ModelStaticView, ModelView};
pub use dynamic::{
    DrawableOutputs, ModelDynamic, ModelDynamicView, UpdateInputs, dynamic_flagsets_from_raw,
    typed_array_overwrite_slice,
};
pub use flags::{
    ConstantDrawableFlags, ConstantDrawableFlagSet, DynamicDrawableFlags, DynamicDrawableFlagSet,
    CONSTANT_FLAG_MASK, DYNAMIC_FLAG_MASK,
};
pub use model_types::{
    CanvasInfo, Drawable, DrawableView, ModelDataError, Parameter, ParameterType, ParameterView, Part,
    PartView, Vector2, Vector4, parent_index_from_raw, vector2s_from_components,
    vector4s_from_components,
};
pub use report::{
    RawDrawables, RawParameters, RawParts, drawables_from_raw, parameters_from_raw, parts_from_raw,
};
pub use version::{CubismVersion, MocError, MocVersion};
