//! Compiled assets (mocs) and the models derived from them.

use vstd::prelude::*;

use crate::dynamic::{DrawableOutputs, ModelDynamic, ModelDynamicView};
use crate::model_types::{
    copy_slice, CanvasInfo, Drawable, DrawableView, ModelDataError, Parameter, ParameterView, Part,
    PartView,
};
use crate::report::{
    drawables_from_raw, parameters_from_raw, parts_from_raw, RawDrawables, RawParameters, RawParts,
};
use crate::version::{CubismVersion, MocError, MocVersion};

verus! {

/// The outcome of decoding `len` bytes that the engine reads as moc version number
/// `reported`, on an engine whose latest supported version is `latest`. Zero is the
/// engine's "unknown": the bytes are no moc. A number above the latest supported
/// one is a moc too new to read, whether or not this library knows its version.
pub open spec fn decode_spec(latest: MocVersion, len: nat, reported: u32) -> Result<
    MocVersion,
    MocError,
> {
    if len == 0 || reported == 0 {
        Err(MocError::InvalidMoc)
    } else if reported > latest.raw_spec() {
        Err(MocError::UnsupportedMocVersion { given: reported, latest_supported: latest })
    } else {
        Ok(MocVersion::from_raw_spec(reported)->Some_0)
    }
}

/// The _Live2D® Cubism_ core, as far as decoding depends on it: its version, and
/// the latest moc version it reads.
#[derive(Clone, Copy, Debug)]
pub struct CubismCore {
    version: CubismVersion,
    latest_supported_moc_version: MocVersion,
}

impl CubismCore {
    pub closed spec fn latest_spec(&self) -> MocVersion {
        self.latest_supported_moc_version
    }

    pub closed spec fn version_spec(&self) -> CubismVersion {
        self.version
    }

    /// A core that reports `version` and reads mocs up to `latest_supported_moc_version`.
    pub fn new(version: CubismVersion, latest_supported_moc_version: MocVersion) -> (r: CubismCore)
        ensures
            r.version_spec() == version,
            r.latest_spec() == latest_supported_moc_version,
    {
        CubismCore { version, latest_supported_moc_version }
    }

    /// Gets the version of the core.
    pub fn version(&self) -> (r: CubismVersion)
        ensures
            r == self.version_spec(),
    {
        self.version
    }

    /// Gets the latest moc version that the core reads.
    pub fn latest_supported_moc_version(&self) -> (r: MocVersion)
        ensures
            r == self.latest_spec(),
    {
        self.latest_supported_moc_version
    }

    /// Decodes a moc from its bytes, which the engine reads as version number
    /// `reported_version`. An empty buffer, or the engine's "unknown" (zero), is
    /// `InvalidMoc`; a number above the latest supported version is
    /// `UnsupportedMocVersion` with both; anything else is a moc that holds the bytes
    /// and the version. Nothing is returned but a version-checked moc.
    pub fn moc_from_bytes(&self, bytes: &[u8], reported_version: u32) -> (r: Result<Moc, MocError>)
        ensures
            r is Ok <==> decode_spec(self.latest_spec(), bytes@.len(), reported_version) is Ok,
            r matches Err(e) ==> decode_spec(self.latest_spec(), bytes@.len(), reported_version)
                == Err::<MocVersion, _>(e),
            r matches Ok(m) ==> {
                &&& decode_spec(self.latest_spec(), bytes@.len(), reported_version) == Ok::<
                    _,
                    MocError,
                >(m.version_spec())
                &&& m.version_spec().supported_by(self.latest_spec())
                &&& m.bytes_spec() == bytes@
            },
    {
        if bytes.len() == 0 || reported_version == 0 {
            return Err(MocError::InvalidMoc);
        }
        if reported_version > self.latest_supported_moc_version.raw() {
            return Err(
                MocError::UnsupportedMocVersion {
                    given: reported_version,
                    latest_supported: self.latest_supported_moc_version,
                },
            );
        }
        let version = match MocVersion::from_raw(reported_version) {
            Some(v) => v,
            None => {
                return Err(MocError::InvalidMoc);
            },
        };
        Ok(Moc { version, bytes: copy_slice(bytes) })
    }
}

/// A decoded, version-checked moc.
#[derive(Debug)]
pub struct Moc {
    version: MocVersion,
    bytes: Vec<u8>,
}

impl Moc {
    pub closed spec fn version_spec(&self) -> MocVersion {
        self.version
    }

    pub closed spec fn bytes_spec(&self) -> Seq<u8> {
        self.bytes@
    }

    pub fn version(&self) -> (r: MocVersion)
        ensures
            r == self.version_spec(),
    {
        self.version
    }

    /// The moc's bytes, as they were decoded.
    pub fn bytes(&self) -> (r: &[u8])
        ensures
            r@ == self.bytes_spec(),
    {
        self.bytes.as_slice()
    }
}

/// Static properties of a model.
#[derive(Debug)]
pub struct ModelStatic {
    canvas_info: CanvasInfo,
    parameters: Vec<Parameter>,
    parts: Vec<Part>,
    drawables: Vec<Drawable>,
}

/// The static properties as plain values.
pub struct ModelStaticView {
    pub canvas_info: CanvasInfo,
    pub parameters: Seq<ParameterView>,
    pub parts: Seq<PartView>,
    pub drawables: Seq<DrawableView>,
}

impl View for ModelStatic {
    type V = ModelStaticView;

    closed spec fn view(&self) -> ModelStaticView {
        ModelStaticView {
            canvas_info: self.canvas_info,
            parameters: self.parameters@.map_values(|p: Parameter| p@),
            parts: self.parts@.map_values(|p: Part| p@),
            drawables: self.drawables@.map_values(|d: Drawable| d@),
        }
    }
}

impl ModelStatic {
    pub fn canvas_info(&self) -> (r: CanvasInfo)
        ensures
            r == self@.canvas_info,
    {
        self.canvas_info
    }

    pub fn parameters(&self) -> (r: &[Parameter])
        ensures
            r@.map_values(|p: Parameter| p@) == self@.parameters,
    {
        self.parameters.as_slice()
    }

    pub fn parts(&self) -> (r: &[Part])
        ensures
            r@.map_values(|p: Part| p@) == self@.parts,
    {
        self.parts.as_slice()
    }

    pub fn drawables(&self) -> (r: &[Drawable])
        ensures
            r@.map_values(|d: Drawable| d@) == self@.drawables,
    {
        self.drawables.as_slice()
    }

    /// The drawable at `index`, or `None` past the last.
    pub fn get_drawable(&self, index: usize) -> (r: Option<&Drawable>)
        ensures
            r is Some <==> index < self@.drawables.len(),
            r matches Some(d) ==> d@ == self@.drawables[index as int],
    {
        if index < self.drawables.len() {
            Some(&self.drawables[index])
        } else {
            None
        }
    }
}

/// What the engine reports of a model newly initialised from a moc.
pub struct ModelReport {
    pub canvas_info: CanvasInfo,
    pub parameters: RawParameters,
    pub parts: RawParts,
    pub drawables: RawDrawables,
    /// Initial parameter values, as `f32` bit patterns.
    pub parameter_values: Vec<u32>,
    /// Initial part opacities, as `f32` bit patterns.
    pub part_opacities: Vec<u32>,
    /// Initial drawable state.
    pub outputs: DrawableOutputs,
}

impl ModelReport {
    /// The error the report is refused with, if any; checked in this order.
    pub open spec fn error_spec(&self) -> Option<ModelDataError> {
        if self.parameters.error_spec() is Some {
            self.parameters.error_spec()
        } else if self.parts.error_spec() is Some {
            self.parts.error_spec()
        } else if self.drawables.error_spec() is Some {
            self.drawables.error_spec()
        } else if self.parameter_values@.len() != self.parameters.ids@.len()
            || self.part_opacities@.len() != self.parts.ids@.len() {
            Some(ModelDataError::LengthMismatch)
        } else if !self.outputs.well_formed(self.drawables.ids@.len()) {
            Some(self.outputs.error_for(self.drawables.ids@.len()))
        } else {
            None
        }
    }

    /// The static properties that the report describes.
    pub open spec fn static_spec(&self) -> ModelStaticView {
        ModelStaticView {
            canvas_info: self.canvas_info,
            parameters: Seq::new(
                self.parameters.ids@.len(),
                |i: int| self.parameters.parameter_spec(i),
            ),
            parts: Seq::new(self.parts.ids@.len(), |i: int| self.parts.part_spec(i)),
            drawables: Seq::new(self.drawables.ids@.len(), |i: int| self.drawables.drawable_spec(i)),
        }
    }

    /// The dynamic state that the report describes.
    pub open spec fn dynamic_spec(&self) -> ModelDynamicView {
        ModelDynamicView {
            parameter_values: self.parameter_values@,
            part_opacities: self.part_opacities@,
            drawable_dynamic_flags: Seq::empty(),
            drawable_draw_orders: Seq::empty(),
            drawable_render_orders: Seq::empty(),
            drawable_opacities: Seq::empty(),
            drawable_vertex_positions: Seq::empty(),
            drawable_multiply_colors: Seq::empty(),
            drawable_screen_colors: Seq::empty(),
        }.with_outputs(self.outputs)
    }
}

/// Every entry of the static collections has its entry in the dynamic arrays, at
/// the same index.
pub open spec fn index_aligned(st: ModelStaticView, d: ModelDynamicView) -> bool {
    &&& st.parameters.len() == d.parameter_values.len()
    &&& st.parts.len() == d.part_opacities.len()
    &&& st.drawables.len() == d.drawable_count()
    &&& d.wf()
}

/// A model: its static properties, and its dynamic state.
#[derive(Debug)]
pub struct Model {
    moc_version: MocVersion,
    model_static: ModelStatic,
    model_dynamic: ModelDynamic,
}

/// A model as plain values.
pub struct ModelView {
    pub moc_version: MocVersion,
    pub model_static: ModelStaticView,
    pub model_dynamic: ModelDynamicView,
}

impl View for Model {
    type V = ModelView;

    closed spec fn view(&self) -> ModelView {
        ModelView {
            moc_version: self.moc_version,
            model_static: self.model_static@,
            model_dynamic: self.model_dynamic@,
        }
    }
}

impl Model {
    /// Derives a model from `moc`, given what the engine reports of the model it
    /// initialised from it. Fails with the first error of the report (see
    /// `ModelReport::error_spec`); else the static properties and the dynamic state
    /// are those that the report describes, index-aligned.
    pub fn from_moc(moc: &Moc, report: &ModelReport) -> (r: Result<Model, ModelDataError>)
        ensures
            r is Ok <==> report.error_spec() is None,
            r matches Err(e) ==> report.error_spec() == Some(e),
            r matches Ok(m) ==> {
                &&& m@.moc_version == moc.version_spec()
                &&& m@.model_static == report.static_spec()
                &&& m@.model_dynamic == report.dynamic_spec()
                &&& index_aligned(m@.model_static, m@.model_dynamic)
            },
    {
        let parameters = match parameters_from_raw(&report.parameters) {
            Ok(p) => p,
            Err(e) => {
                return Err(e);
            },
        };
        let parts = match parts_from_raw(&report.parts) {
            Ok(p) => p,
            Err(e) => {
                return Err(e);
            },
        };
        let drawables = match drawables_from_raw(&report.drawables) {
            Ok(d) => d,
            Err(e) => {
                return Err(e);
            },
        };
        if report.parameter_values.len() != parameters.len() || report.part_opacities.len()
            != parts.len() {
            return Err(ModelDataError::LengthMismatch);
        }
        let model_dynamic = match ModelDynamic::from_report(
            copy_slice(report.parameter_values.as_slice()),
            copy_slice(report.part_opacities.as_slice()),
            &report.outputs,
            drawables.len(),
        ) {
            Ok(d) => d,
            Err(e) => {
                return Err(e);
            },
        };
        let model_static = ModelStatic {
            canvas_info: report.canvas_info,
            parameters,
            parts,
            drawables,
        };
        assert(model_static@.parameters =~= report.static_spec().parameters);
        assert(model_static@.parts =~= report.static_spec().parts);
        assert(model_static@.drawables =~= report.static_spec().drawables);
        Ok(Model { moc_version: moc.version, model_static, model_dynamic })
    }

    /// The version of the moc the model was derived from.
    pub fn moc_version(&self) -> (r: MocVersion)
        ensures
            r == self@.moc_version,
    {
        self.moc_version
    }

    /// Gets [`ModelStatic`].
    pub fn get_static(&self) -> (r: &ModelStatic)
        ensures
            r@ == self@.model_static,
    {
        &self.model_static
    }

    /// Shared access to [`ModelDynamic`].
    pub fn read_dynamic(&self) -> (r: &ModelDynamic)
        ensures
            r@ == self@.model_dynamic,
    {
        &self.model_dynamic
    }

    /// Splits the model into its static properties, which need no guarding, and its
    /// dynamic state, for a caller that shares the model between threads.
    pub fn into_parts(self) -> (r: (ModelStatic, ModelDynamic))
        ensures
            r.0@ == self@.model_static,
            r.1@ == self@.model_dynamic,
    {
        (self.model_static, self.model_dynamic)
    }

    /// Exclusive access to [`ModelDynamic`].
    pub fn write_dynamic(&mut self) -> (r: &mut ModelDynamic)
        ensures
            r@ == old(self)@.model_dynamic,
            final(self)@ == (ModelView { model_dynamic: final(r)@, ..old(self)@ }),
    {
        &mut self.model_dynamic
    }
}

/// A decoded moc never has a version newer than the latest one the core supports.
pub proof fn lemma_decoded_moc_supported(latest: MocVersion, len: nat, reported: u32)
    ensures
        decode_spec(latest, len, reported) matches Ok(v) ==> v.raw_spec() <= latest.raw_spec(),
{
}

/// Models derived from one report have identical static properties and identical
/// initial dynamic state; each holds its own copy, so changing one changes no other.
pub proof fn lemma_instances_agree(report: ModelReport, a: ModelView, b: ModelView)
    requires
        a.model_static == report.static_spec(),
        a.model_dynamic == report.dynamic_spec(),
        b.model_static == report.static_spec(),
        b.model_dynamic == report.dynamic_spec(),
    ensures
        a.model_static == b.model_static,
        a.model_dynamic == b.model_dynamic,
{
}

/// Index alignment between the static collections and the dynamic arrays survives
/// every change the dynamic state can undergo: an update with a report that fits
/// the drawables, a flag reset with one byte per drawable, and writes to parameter
/// values and part opacities that keep their number.
pub proof fn lemma_index_alignment_kept(
    st: ModelStaticView,
    d: ModelDynamicView,
    outputs: DrawableOutputs,
    flags: Seq<u8>,
    values: Seq<u32>,
    opacities: Seq<u32>,
)
    requires
        index_aligned(st, d),
    ensures
        outputs.well_formed(d.drawable_count()) ==> index_aligned(st, d.with_outputs(outputs)),
        flags.len() == d.drawable_count() ==> index_aligned(st, d.with_reset_flags(flags)),
        values.len() == d.parameter_values.len() && opacities.len() == d.part_opacities.len()
            ==> index_aligned(
            st,
            ModelDynamicView { parameter_values: values, part_opacities: opacities, ..d },
        ),
{
}

} // verus!
