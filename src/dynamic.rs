//! The dynamic half of a model: per-frame inputs (parameter values, part
//! opacities) and the drawable state that the engine computes from them.
//!
//! The state is owned here. An update is a step in two halves: the inputs are
//! handed to the engine (`update_inputs`), and what the engine computed is loaded
//! back (`update`). Between the two the engine runs; nothing here depends on how.

use vstd::prelude::*;

use crate::flags::{DynamicDrawableFlagSet, DYNAMIC_FLAG_MASK};
use crate::model_types::{
    vector2s_from_components, vector2s_spec, vector4s_from_components, vector4s_spec, ModelDataError,
    Vector2, Vector4,
};

verus! {

/// Overwrites the front of `dst` with `src`, leaving the rest of `dst` as it was.
/// Fails with `LengthMismatch`, changing nothing, where `src` is the longer.
pub fn typed_array_overwrite_slice<T: Copy>(dst: &mut [T], src: &[T]) -> (r: Result<
    (),
    ModelDataError,
>)
    ensures
        r is Ok <==> src@.len() <= old(dst)@.len(),
        r is Err ==> r == Err::<(), _>(ModelDataError::LengthMismatch) && final(dst)@ == old(dst)@,
        r is Ok ==> final(dst)@ == src@ + old(dst)@.skip(src@.len() as int),
{
    if src.len() > dst.len() {
        return Err(ModelDataError::LengthMismatch);
    }
    let mut i: usize = 0;
    while i < src.len()
        invariant
            src@.len() <= dst@.len(),
            dst@.len() == old(dst)@.len(),
            i <= src@.len(),
            dst@ == src@.take(i as int) + old(dst)@.skip(i as int),
        decreases src@.len() - i,
    {
        dst[i] = src[i];
        i = i + 1;
        assert(dst@ =~= src@.take(i as int) + old(dst)@.skip(i as int));
    }
    assert(src@.take(src@.len() as int) =~= src@);
    Ok(())
}

/// Whether every byte is a known dynamic flag byte.
pub open spec fn dynamic_flags_known(flags: Seq<u8>) -> bool {
    forall|i: int| 0 <= i < flags.len() ==> #[trigger] flags[i] & !DYNAMIC_FLAG_MASK == 0
}

/// Reads dynamic flag bytes; `UnknownFlagBits` where a byte has a bit that no flag
/// uses.
pub fn dynamic_flagsets_from_raw(flags: &[u8]) -> (r: Result<
    Vec<DynamicDrawableFlagSet>,
    ModelDataError,
>)
    ensures
        r is Ok <==> dynamic_flags_known(flags@),
        r is Err ==> r == Err::<Vec<DynamicDrawableFlagSet>, _>(ModelDataError::UnknownFlagBits),
        r matches Ok(v) ==> v@.map_values(|f: DynamicDrawableFlagSet| f@) == flags@,
{
    let mut out: Vec<DynamicDrawableFlagSet> = Vec::new();
    let mut i: usize = 0;
    while i < flags.len()
        invariant
            i <= flags@.len(),
            out@.len() == i,
            forall|k: int| 0 <= k < i ==> #[trigger] out@[k]@ == flags@[k],
            forall|k: int| 0 <= k < i ==> #[trigger] flags@[k] & !DYNAMIC_FLAG_MASK == 0,
        decreases flags@.len() - i,
    {
        match DynamicDrawableFlagSet::new(flags[i]) {
            Some(f) => out.push(f),
            None => {
                assert(!(flags@[i as int] & !DYNAMIC_FLAG_MASK == 0));
                return Err(ModelDataError::UnknownFlagBits);
            },
        }
        i = i + 1;
    }
    assert(out@.map_values(|f: DynamicDrawableFlagSet| f@) =~= flags@);
    Ok(out)
}

/// Drawable state as the engine reports it after an update, one entry per
/// drawable: opacities and vertex positions are `f32` bit patterns; vertex
/// positions are flat, two components per vertex; colors are flat, four
/// components per drawable.
pub struct DrawableOutputs {
    pub dynamic_flags: Vec<u8>,
    pub draw_orders: Vec<i32>,
    pub render_orders: Vec<i32>,
    pub opacities: Vec<u32>,
    pub vertex_positions: Vec<Vec<u32>>,
    pub multiply_colors: Vec<u32>,
    pub screen_colors: Vec<u32>,
}

impl DrawableOutputs {
    /// Every array has an entry for each of `n` drawables.
    pub open spec fn lengths_fit(&self, n: nat) -> bool {
        &&& self.dynamic_flags@.len() == n
        &&& self.draw_orders@.len() == n
        &&& self.render_orders@.len() == n
        &&& self.opacities@.len() == n
        &&& self.vertex_positions@.len() == n
        &&& self.multiply_colors@.len() == 4 * n
        &&& self.screen_colors@.len() == 4 * n
    }

    pub open spec fn positions_complete(&self) -> bool {
        forall|i: int|
            0 <= i < self.vertex_positions@.len() ==> #[trigger] self.vertex_positions@[i]@.len() % 2
                == 0
    }

    /// The report has the shape that `n` drawables give.
    pub open spec fn well_formed(&self, n: nat) -> bool {
        &&& self.lengths_fit(n)
        &&& dynamic_flags_known(self.dynamic_flags@)
        &&& self.positions_complete()
    }

    /// The error that a report of the wrong shape for `n` drawables is refused with.
    pub open spec fn error_for(&self, n: nat) -> ModelDataError {
        if !self.lengths_fit(n) {
            ModelDataError::LengthMismatch
        } else if !dynamic_flags_known(self.dynamic_flags@) {
            ModelDataError::UnknownFlagBits
        } else {
            ModelDataError::IncompleteVector
        }
    }
}

/// What the engine is handed before an update: the writable inputs.
pub struct UpdateInputs {
    pub parameter_values: Vec<u32>,
    pub part_opacities: Vec<u32>,
    pub drawable_dynamic_flags: Vec<u8>,
}

/// Dynamic state of a model.
#[derive(Debug)]
pub struct ModelDynamic {
    parameter_values: Vec<u32>,
    part_opacities: Vec<u32>,
    drawable_dynamic_flagsets: Vec<DynamicDrawableFlagSet>,
    drawable_draw_orders: Vec<i32>,
    drawable_render_orders: Vec<i32>,
    drawable_opacities: Vec<u32>,
    drawable_vertex_position_containers: Vec<Vec<Vector2>>,
    drawable_multiply_colors: Vec<Vector4>,
    drawable_screen_colors: Vec<Vector4>,
}

/// The dynamic state as plain values.
pub struct ModelDynamicView {
    pub parameter_values: Seq<u32>,
    pub part_opacities: Seq<u32>,
    pub drawable_dynamic_flags: Seq<u8>,
    pub drawable_draw_orders: Seq<i32>,
    pub drawable_render_orders: Seq<i32>,
    pub drawable_opacities: Seq<u32>,
    pub drawable_vertex_positions: Seq<Seq<Vector2>>,
    pub drawable_multiply_colors: Seq<Vector4>,
    pub drawable_screen_colors: Seq<Vector4>,
}

impl ModelDynamicView {
    /// The number of drawables.
    pub open spec fn drawable_count(&self) -> nat {
        self.drawable_dynamic_flags.len()
    }

    /// Every drawable array has one entry per drawable.
    pub open spec fn wf(&self) -> bool {
        let n = self.drawable_count();
        &&& self.drawable_draw_orders.len() == n
        &&& self.drawable_render_orders.len() == n
        &&& self.drawable_opacities.len() == n
        &&& self.drawable_vertex_positions.len() == n
        &&& self.drawable_multiply_colors.len() == n
        &&& self.drawable_screen_colors.len() == n
    }

    /// This state with the drawable flags replaced by `flags`.
    pub open spec fn with_reset_flags(self, flags: Seq<u8>) -> ModelDynamicView {
        ModelDynamicView { drawable_dynamic_flags: flags, ..self }
    }

    /// This state with its drawable part replaced by what `outputs` reports.
    pub open spec fn with_outputs(self, outputs: DrawableOutputs) -> ModelDynamicView {
        ModelDynamicView {
            parameter_values: self.parameter_values,
            part_opacities: self.part_opacities,
            drawable_dynamic_flags: outputs.dynamic_flags@,
            drawable_draw_orders: outputs.draw_orders@,
            drawable_render_orders: outputs.render_orders@,
            drawable_opacities: outputs.opacities@,
            drawable_vertex_positions: outputs.vertex_positions@.map_values(
                |p: Vec<u32>| vector2s_spec(p@),
            ),
            drawable_multiply_colors: vector4s_spec(outputs.multiply_colors@),
            drawable_screen_colors: vector4s_spec(outputs.screen_colors@),
        }
    }
}

impl View for ModelDynamic {
    type V = ModelDynamicView;

    closed spec fn view(&self) -> ModelDynamicView {
        ModelDynamicView {
            parameter_values: self.parameter_values@,
            part_opacities: self.part_opacities@,
            drawable_dynamic_flags: self.drawable_dynamic_flagsets@.map_values(
                |f: DynamicDrawableFlagSet| f@,
            ),
            drawable_draw_orders: self.drawable_draw_orders@,
            drawable_render_orders: self.drawable_render_orders@,
            drawable_opacities: self.drawable_opacities@,
            drawable_vertex_positions: self.drawable_vertex_position_containers@.map_values(
                |p: Vec<Vector2>| p@,
            ),
            drawable_multiply_colors: self.drawable_multiply_colors@,
            drawable_screen_colors: self.drawable_screen_colors@,
        }
    }
}

/// Reads each drawable's flat vertex positions two components at a time;
/// `None` where one has an odd count.
fn vertex_positions_from_raw(raw: &Vec<Vec<u32>>) -> (r: Option<Vec<Vec<Vector2>>>)
    ensures
        r is Some <==> forall|i: int| 0 <= i < raw@.len() ==> #[trigger] raw@[i]@.len() % 2 == 0,
        r matches Some(v) ==> v@.map_values(|p: Vec<Vector2>| p@) == raw@.map_values(
            |p: Vec<u32>| vector2s_spec(p@),
        ),
{
    let mut out: Vec<Vec<Vector2>> = Vec::new();
    let mut i: usize = 0;
    while i < raw.len()
        invariant
            i <= raw@.len(),
            out@.len() == i,
            forall|k: int| 0 <= k < i ==> #[trigger] out@[k]@ == vector2s_spec(raw@[k]@),
            forall|k: int| 0 <= k < i ==> #[trigger] raw@[k]@.len() % 2 == 0,
        decreases raw@.len() - i,
    {
        match vector2s_from_components(raw[i].as_slice()) {
            Some(v) => out.push(v),
            None => {
                return None;
            },
        }
        i = i + 1;
    }
    assert(out@.map_values(|p: Vec<Vector2>| p@) =~= raw@.map_values(
        |p: Vec<u32>| vector2s_spec(p@),
    ));
    Some(out)
}

/// The drawable half of a dynamic state, read from an engine report.
struct DrawableState {
    flagsets: Vec<DynamicDrawableFlagSet>,
    positions: Vec<Vec<Vector2>>,
    multiply_colors: Vec<Vector4>,
    screen_colors: Vec<Vector4>,
}

/// Checks an engine report against `n` drawables and reads the parts of it that
/// need reading.
fn drawable_state_from_outputs(outputs: &DrawableOutputs, n: usize) -> (r: Result<
    DrawableState,
    ModelDataError,
>)
    ensures
        r is Ok <==> outputs.well_formed(n as nat),
        r matches Err(e) ==> e == outputs.error_for(n as nat),
        r matches Ok(st) ==> {
            &&& st.flagsets@.map_values(|f: DynamicDrawableFlagSet| f@) == outputs.dynamic_flags@
            &&& st.positions@.map_values(|p: Vec<Vector2>| p@) == outputs.vertex_positions@.map_values(
                |p: Vec<u32>| vector2s_spec(p@),
            )
            &&& st.multiply_colors@ == vector4s_spec(outputs.multiply_colors@)
            &&& st.screen_colors@ == vector4s_spec(outputs.screen_colors@)
        },
{
    if outputs.dynamic_flags.len() != n || outputs.draw_orders.len() != n
        || outputs.render_orders.len() != n || outputs.opacities.len() != n
        || outputs.vertex_positions.len() != n || outputs.multiply_colors.len() / 4 != n
        || outputs.multiply_colors.len() % 4 != 0 || outputs.screen_colors.len() / 4 != n
        || outputs.screen_colors.len() % 4 != 0 {
        return Err(ModelDataError::LengthMismatch);
    }
    let flagsets = match dynamic_flagsets_from_raw(outputs.dynamic_flags.as_slice()) {
        Ok(f) => f,
        Err(e) => {
            return Err(e);
        },
    };
    let positions = match vertex_positions_from_raw(&outputs.vertex_positions) {
        Some(p) => p,
        None => {
            return Err(ModelDataError::IncompleteVector);
        },
    };
    let multiply_colors = match vector4s_from_components(outputs.multiply_colors.as_slice()) {
        Some(c) => c,
        None => {
            return Err(ModelDataError::IncompleteVector);
        },
    };
    let screen_colors = match vector4s_from_components(outputs.screen_colors.as_slice()) {
        Some(c) => c,
        None => {
            return Err(ModelDataError::IncompleteVector);
        },
    };
    Ok(DrawableState { flagsets, positions, multiply_colors, screen_colors })
}

impl ModelDynamic {
    /// The dynamic state of a new model: the inputs as the engine initialised them,
    /// and its first report of the drawables. Fails as `update` does where the
    /// report does not fit the drawable count `n`.
    pub fn from_report(
        parameter_values: Vec<u32>,
        part_opacities: Vec<u32>,
        outputs: &DrawableOutputs,
        n: usize,
    ) -> (r: Result<ModelDynamic, ModelDataError>)
        ensures
            r is Ok <==> outputs.well_formed(n as nat),
            r matches Err(e) ==> e == outputs.error_for(n as nat),
            r matches Ok(d) ==> {
                &&& d@ == (ModelDynamicView {
                    parameter_values: parameter_values@,
                    part_opacities: part_opacities@,
                    drawable_dynamic_flags: Seq::empty(),
                    drawable_draw_orders: Seq::empty(),
                    drawable_render_orders: Seq::empty(),
                    drawable_opacities: Seq::empty(),
                    drawable_vertex_positions: Seq::empty(),
                    drawable_multiply_colors: Seq::empty(),
                    drawable_screen_colors: Seq::empty(),
                }).with_outputs(*outputs)
                &&& d@.wf()
                &&& d@.drawable_count() == n
            },
    {
        let st = match drawable_state_from_outputs(outputs, n) {
            Ok(st) => st,
            Err(e) => {
                return Err(e);
            },
        };
        let d = ModelDynamic {
            parameter_values,
            part_opacities,
            drawable_dynamic_flagsets: st.flagsets,
            drawable_draw_orders: crate::model_types::copy_slice(outputs.draw_orders.as_slice()),
            drawable_render_orders: crate::model_types::copy_slice(outputs.render_orders.as_slice()),
            drawable_opacities: crate::model_types::copy_slice(outputs.opacities.as_slice()),
            drawable_vertex_position_containers: st.positions,
            drawable_multiply_colors: st.multiply_colors,
            drawable_screen_colors: st.screen_colors,
        };
        Ok(d)
    }

    pub fn parameter_values(&self) -> (r: &[u32])
        ensures
            r@ == self@.parameter_values,
    {
        self.parameter_values.as_slice()
    }

    /// The parameter values, for writing; their number stays as it is.
    pub fn parameter_values_mut(&mut self) -> (r: &mut [u32])
        ensures
            r@ == old(self)@.parameter_values,
            final(self)@ == (ModelDynamicView { parameter_values: final(r)@, ..old(self)@ }),
    {
        self.parameter_values.as_mut_slice()
    }

    pub fn part_opacities(&self) -> (r: &[u32])
        ensures
            r@ == self@.part_opacities,
    {
        self.part_opacities.as_slice()
    }

    /// The part opacities, for writing; their number stays as it is.
    pub fn part_opacities_mut(&mut self) -> (r: &mut [u32])
        ensures
            r@ == old(self)@.part_opacities,
            final(self)@ == (ModelDynamicView { part_opacities: final(r)@, ..old(self)@ }),
    {
        self.part_opacities.as_mut_slice()
    }

    pub fn drawable_dynamic_flagsets(&self) -> (r: &[DynamicDrawableFlagSet])
        ensures
            r@.map_values(|f: DynamicDrawableFlagSet| f@) == self@.drawable_dynamic_flags,
    {
        self.drawable_dynamic_flagsets.as_slice()
    }

    pub fn drawable_draw_orders(&self) -> (r: &[i32])
        ensures
            r@ == self@.drawable_draw_orders,
    {
        self.drawable_draw_orders.as_slice()
    }

    pub fn drawable_render_orders(&self) -> (r: &[i32])
        ensures
            r@ == self@.drawable_render_orders,
    {
        self.drawable_render_orders.as_slice()
    }

    pub fn drawable_opacities(&self) -> (r: &[u32])
        ensures
            r@ == self@.drawable_opacities,
    {
        self.drawable_opacities.as_slice()
    }

    /// Each drawable's current vertex positions.
    pub fn drawable_vertex_position_containers(&self) -> (r: &[Vec<Vector2>])
        ensures
            r@.map_values(|p: Vec<Vector2>| p@) == self@.drawable_vertex_positions,
    {
        self.drawable_vertex_position_containers.as_slice()
    }

    pub fn drawable_multiply_colors(&self) -> (r: &[Vector4])
        ensures
            r@ == self@.drawable_multiply_colors,
    {
        self.drawable_multiply_colors.as_slice()
    }

    pub fn drawable_screen_colors(&self) -> (r: &[Vector4])
        ensures
            r@ == self@.drawable_screen_colors,
    {
        self.drawable_screen_colors.as_slice()
    }

    /// What the engine is to be handed before it updates the model.
    pub fn update_inputs(&self) -> (r: UpdateInputs)
        ensures
            r.parameter_values@ == self@.parameter_values,
            r.part_opacities@ == self@.part_opacities,
            r.drawable_dynamic_flags@ == self@.drawable_dynamic_flags,
            dynamic_flags_known(r.drawable_dynamic_flags@),
    {
        let mut flags: Vec<u8> = Vec::new();
        let mut i: usize = 0;
        while i < self.drawable_dynamic_flagsets.len()
            invariant
                i <= self.drawable_dynamic_flagsets@.len(),
                flags@.len() == i,
                forall|k: int| 0 <= k < i ==> #[trigger] flags@[k] == self.drawable_dynamic_flagsets@[k]@,
                dynamic_flags_known(flags@),
            decreases self.drawable_dynamic_flagsets@.len() - i,
        {
            flags.push(self.drawable_dynamic_flagsets[i].bits());
            i = i + 1;
        }
        assert(flags@ =~= self@.drawable_dynamic_flags);
        UpdateInputs {
            parameter_values: crate::model_types::copy_slice(self.parameter_values.as_slice()),
            part_opacities: crate::model_types::copy_slice(self.part_opacities.as_slice()),
            drawable_dynamic_flags: flags,
        }
    }

    /// Completes an update with what the engine computed: every drawable output is
    /// replaced, vertex positions rebuilt from scratch, and the inputs are left as
    /// they were. A report that does not fit the model's drawables is refused and
    /// nothing changes.
    pub fn update(&mut self, outputs: &DrawableOutputs) -> (r: Result<(), ModelDataError>)
        ensures
            r is Ok <==> outputs.well_formed(old(self)@.drawable_count()),
            r matches Err(e) ==> e == outputs.error_for(old(self)@.drawable_count())
                && final(self)@ == old(self)@,
            r is Ok ==> final(self)@ == old(self)@.with_outputs(*outputs) && final(self)@.wf(),
    {
        let n = self.drawable_dynamic_flagsets.len();
        let st = match drawable_state_from_outputs(outputs, n) {
            Ok(st) => st,
            Err(e) => {
                return Err(e);
            },
        };
        self.drawable_dynamic_flagsets = st.flagsets;
        self.drawable_draw_orders = crate::model_types::copy_slice(outputs.draw_orders.as_slice());
        self.drawable_render_orders = crate::model_types::copy_slice(
            outputs.render_orders.as_slice(),
        );
        self.drawable_opacities = crate::model_types::copy_slice(outputs.opacities.as_slice());
        self.drawable_vertex_position_containers = st.positions;
        self.drawable_multiply_colors = st.multiply_colors;
        self.drawable_screen_colors = st.screen_colors;
        Ok(())
    }

    /// Loads the drawable flags that the engine holds after resetting them. Refused,
    /// with nothing changed, where their number is not the drawable count
    /// (`LengthMismatch`) or a byte has a bit that no flag uses (`UnknownFlagBits`).
    pub fn reset_drawable_dynamic_flags(&mut self, flags: &[u8]) -> (r: Result<(), ModelDataError>)
        ensures
            r is Ok <==> flags@.len() == old(self)@.drawable_count() && dynamic_flags_known(flags@),
            flags@.len() != old(self)@.drawable_count() ==> r == Err::<(), _>(
                ModelDataError::LengthMismatch,
            ),
            flags@.len() == old(self)@.drawable_count() && !dynamic_flags_known(flags@) ==> r == Err::<
                (),
                _,
            >(ModelDataError::UnknownFlagBits),
            r is Err ==> final(self)@ == old(self)@,
            r is Ok ==> final(self)@ == old(self)@.with_reset_flags(flags@),
    {
        if flags.len() != self.drawable_dynamic_flagsets.len() {
            return Err(ModelDataError::LengthMismatch);
        }
        let flagsets = match dynamic_flagsets_from_raw(flags) {
            Ok(f) => f,
            Err(e) => {
                return Err(e);
            },
        };
        let r = typed_array_overwrite_slice(
            self.drawable_dynamic_flagsets.as_mut_slice(),
            flagsets.as_slice(),
        );
        assert(old(self).drawable_dynamic_flagsets@.skip(flagsets@.len() as int) =~= Seq::empty());
        assert(self.drawable_dynamic_flagsets@ =~= flagsets@);
        r
    }
}

/// Reading the flags right after a reset gives exactly the bytes that the engine
/// reported, whatever the state held before: the outcome does not depend on which
/// engine produced the state, only on what it reported.
pub proof fn lemma_reset_flags_read_back(d1: ModelDynamicView, d2: ModelDynamicView, flags: Seq<u8>)
    ensures
        d1.with_reset_flags(flags).drawable_dynamic_flags == flags,
        d1.with_reset_flags(flags).drawable_dynamic_flags == d2.with_reset_flags(
            flags,
        ).drawable_dynamic_flags,
{
}

/// Parameter values written before an update read back unchanged after it, as do
/// part opacities: an update replaces only the drawable outputs.
pub proof fn lemma_update_keeps_written_inputs(
    d: ModelDynamicView,
    values: Seq<u32>,
    opacities: Seq<u32>,
    outputs: DrawableOutputs,
)
    ensures
        (ModelDynamicView { parameter_values: values, part_opacities: opacities, ..d }).with_outputs(
            outputs,
        ).parameter_values == values,
        (ModelDynamicView { parameter_values: values, part_opacities: opacities, ..d }).with_outputs(
            outputs,
        ).part_opacities == opacities,
{
}

/// Two updates in a row on the same engine report leave the state as one does.
pub proof fn lemma_update_idempotent(d: ModelDynamicView, outputs: DrawableOutputs)
    ensures
        d.with_outputs(outputs).with_outputs(outputs) == d.with_outputs(outputs),
{
}

} // verus!
