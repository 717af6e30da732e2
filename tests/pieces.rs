use cubism_core::{
    ConstantDrawableFlagSet, ConstantDrawableFlags, CubismVersion, DrawableOutputs,
    DynamicDrawableFlagSet, DynamicDrawableFlags, ModelDataError, ModelDynamic, MocVersion,
    ParameterType, RawDrawables, RawParameters, RawParts, Vector2, Vector4, drawables_from_raw,
    dynamic_flagsets_from_raw, parameters_from_raw, parent_index_from_raw, parts_from_raw,
    typed_array_overwrite_slice, vector2s_from_components, vector4s_from_components,
};

fn bits(v: f32) -> u32 {
    v.to_bits()
}

#[test]
fn cubism_version_fields() {
    let v = CubismVersion(0x0501_0002);
    assert_eq!(v.raw(), 0x0501_0002);
    assert_eq!(v.major(), 5);
    assert_eq!(v.minor(), 1);
    assert_eq!(v.patch(), 2);
    let w = CubismVersion(0xFFFF_FFFF);
    assert_eq!((w.major(), w.minor(), w.patch()), (255, 255, 65535));
}

#[test]
fn moc_version_numbers() {
    assert_eq!(MocVersion::from_raw(0), None);
    assert_eq!(MocVersion::from_raw(1), Some(MocVersion::Moc3_30));
    assert_eq!(MocVersion::from_raw(2), Some(MocVersion::Moc3_33));
    assert_eq!(MocVersion::from_raw(3), Some(MocVersion::Moc3_40));
    assert_eq!(MocVersion::from_raw(4), Some(MocVersion::Moc3_42));
    assert_eq!(MocVersion::from_raw(5), None);
    assert_eq!(MocVersion::Moc3_40.raw(), 3);
    assert!(MocVersion::Moc3_30.is_supported_by(MocVersion::Moc3_30));
    assert!(!MocVersion::Moc3_42.is_supported_by(MocVersion::Moc3_40));
}

#[test]
fn parameter_type_numbers() {
    assert_eq!(ParameterType::from_raw(0), Some(ParameterType::Normal));
    assert_eq!(ParameterType::from_raw(1), Some(ParameterType::BlendShape));
    assert_eq!(ParameterType::from_raw(2), None);
    assert_eq!(ParameterType::from_raw(-1), None);
}

#[test]
fn parent_index_encoding() {
    assert_eq!(parent_index_from_raw(-1), None);
    assert_eq!(parent_index_from_raw(0), None);
    assert_eq!(parent_index_from_raw(1), Some(0));
    assert_eq!(parent_index_from_raw(5), Some(4));
}

#[test]
fn constant_flag_sets() {
    assert!(ConstantDrawableFlagSet::new(0x10).is_none());
    let f = ConstantDrawableFlagSet::new(0x0A).unwrap();
    assert_eq!(f.bits(), 0x0A);
    assert!(f.contains(ConstantDrawableFlags::BlendMultiplicative));
    assert!(f.contains(ConstantDrawableFlags::IsInvertedMask));
    assert!(!f.contains(ConstantDrawableFlags::BlendAdditive));
    assert!(!f.contains(ConstantDrawableFlags::IsDoubleSided));
}

#[test]
fn dynamic_flag_sets() {
    assert!(DynamicDrawableFlagSet::new(0x80).is_none());
    let f = DynamicDrawableFlagSet::new(0x41).unwrap();
    assert!(f.contains(DynamicDrawableFlags::IsVisible));
    assert!(f.contains(DynamicDrawableFlags::BlendColorDidChange));
    assert!(!f.contains(DynamicDrawableFlags::VertexPositionsDidChange));
    assert_eq!(DynamicDrawableFlags::RenderOrderDidChange.bit(), 0x10);
    let all = dynamic_flagsets_from_raw(&[0x00, 0x7F]).unwrap();
    assert_eq!(all[1].bits(), 0x7F);
    assert_eq!(dynamic_flagsets_from_raw(&[0x01, 0xFF]).unwrap_err(), ModelDataError::UnknownFlagBits);
}

#[test]
fn vector_grouping() {
    assert_eq!(
        vector2s_from_components(&[1, 2, 3, 4]).unwrap(),
        vec![Vector2 { x: 1, y: 2 }, Vector2 { x: 3, y: 4 }]
    );
    assert!(vector2s_from_components(&[1, 2, 3]).is_none());
    assert_eq!(vector2s_from_components(&[]).unwrap(), vec![]);
    assert_eq!(
        vector4s_from_components(&[1, 2, 3, 4, 5, 6, 7, 8]).unwrap(),
        vec![Vector4 { x: 1, y: 2, z: 3, w: 4 }, Vector4 { x: 5, y: 6, z: 7, w: 8 }]
    );
    assert!(vector4s_from_components(&[1, 2, 3, 4, 5, 6]).is_none());
}

#[test]
fn overwrite_slice_front() {
    let mut dst = [1, 2, 3, 4];
    typed_array_overwrite_slice(&mut dst, &[9, 8]).unwrap();
    assert_eq!(dst, [9, 8, 3, 4]);
    assert_eq!(typed_array_overwrite_slice(&mut dst, &[0; 5]).unwrap_err(), ModelDataError::LengthMismatch);
    assert_eq!(dst, [9, 8, 3, 4]);
    typed_array_overwrite_slice(&mut dst, &[5, 6, 7, 8]).unwrap();
    assert_eq!(dst, [5, 6, 7, 8]);
}

fn raw_parameters() -> RawParameters {
    RawParameters {
        ids: vec!["A".to_string()],
        types: vec![1],
        minimum_values: vec![bits(-1.0)],
        maximum_values: vec![bits(1.0)],
        default_values: vec![bits(0.5)],
        key_values: vec![vec![bits(-1.0), bits(1.0)]],
    }
}

#[test]
fn parameters_read_and_refused() {
    let p = parameters_from_raw(&raw_parameters()).unwrap();
    assert_eq!(p.len(), 1);
    assert_eq!(p[0].id(), "A");
    assert_eq!(p[0].ty(), ParameterType::BlendShape);
    assert_eq!(p[0].value_range(), (bits(-1.0), bits(1.0)));
    assert_eq!(p[0].default_value(), bits(0.5));
    assert_eq!(p[0].keys(), &[bits(-1.0), bits(1.0)]);
    let mut r = raw_parameters();
    r.key_values.push(vec![]);
    assert_eq!(parameters_from_raw(&r).unwrap_err(), ModelDataError::LengthMismatch);
    let mut r = raw_parameters();
    r.types[0] = 3;
    assert_eq!(parameters_from_raw(&r).unwrap_err(), ModelDataError::UnknownParameterType);
    let empty = RawParameters {
        ids: vec![],
        types: vec![],
        minimum_values: vec![],
        maximum_values: vec![],
        default_values: vec![],
        key_values: vec![],
    };
    assert!(parameters_from_raw(&empty).unwrap().is_empty());
}

#[test]
fn parts_read_and_refused() {
    let raw = RawParts { ids: vec!["PartA".to_string(), "PartB".to_string(), "PartC".to_string()], parent_part_indices: vec![0, 1, 2] };
    let parts = parts_from_raw(&raw).unwrap();
    assert_eq!(parts[0].parent_part_index(), None);
    assert_eq!(parts[1].parent_part_index(), Some(0));
    assert_eq!(parts[2].parent_part_index(), Some(1));
    assert_eq!(parts[2].id(), "PartC");
    let bad = RawParts { ids: vec!["PartA".to_string()], parent_part_indices: vec![] };
    assert_eq!(parts_from_raw(&bad).unwrap_err(), ModelDataError::LengthMismatch);
}

fn raw_drawables() -> RawDrawables {
    RawDrawables {
        ids: vec!["D".to_string()],
        constant_flags: vec![0x04],
        texture_indices: vec![2],
        masks: vec![vec![3, 0]],
        vertex_uvs: vec![vec![bits(0.0), bits(1.0)]],
        triangle_indices: vec![vec![0, 0, 0]],
        parent_part_indices: vec![3],
    }
}

#[test]
fn drawables_read_and_refused() {
    let d = drawables_from_raw(&raw_drawables()).unwrap();
    assert_eq!(d[0].id(), "D");
    assert!(d[0].constant_flagset().contains(ConstantDrawableFlags::IsDoubleSided));
    assert_eq!(d[0].texture_index(), 2);
    assert_eq!(d[0].masks(), &[3usize, 0]);
    assert_eq!(d[0].vertex_uvs(), &[Vector2 { x: bits(0.0), y: bits(1.0) }]);
    assert_eq!(d[0].triangle_indices(), &[0u16, 0, 0]);
    assert_eq!(d[0].parent_part_index(), Some(2));

    let mut r = raw_drawables();
    r.parent_part_indices.clear();
    assert_eq!(drawables_from_raw(&r).unwrap_err(), ModelDataError::LengthMismatch);
    let mut r = raw_drawables();
    r.constant_flags[0] = 0x20;
    assert_eq!(drawables_from_raw(&r).unwrap_err(), ModelDataError::UnknownFlagBits);
    let mut r = raw_drawables();
    r.texture_indices[0] = -1;
    assert_eq!(drawables_from_raw(&r).unwrap_err(), ModelDataError::NegativeIndex);
    let mut r = raw_drawables();
    r.masks[0][1] = -2;
    assert_eq!(drawables_from_raw(&r).unwrap_err(), ModelDataError::NegativeIndex);
    let mut r = raw_drawables();
    r.vertex_uvs[0].push(bits(2.0));
    assert_eq!(drawables_from_raw(&r).unwrap_err(), ModelDataError::IncompleteVector);
    let mut r = raw_drawables();
    r.vertex_uvs[0].push(bits(2.0));
    r.constant_flags[0] = 0xF0;
    assert_eq!(drawables_from_raw(&r).unwrap_err(), ModelDataError::UnknownFlagBits);
}

fn outputs(flag: u8, order: i32, opacity: f32) -> DrawableOutputs {
    DrawableOutputs {
        dynamic_flags: vec![flag],
        draw_orders: vec![order],
        render_orders: vec![0],
        opacities: vec![bits(opacity)],
        vertex_positions: vec![vec![bits(opacity), bits(2.0)]],
        multiply_colors: vec![bits(1.0), bits(1.0), bits(1.0), bits(1.0)],
        screen_colors: vec![bits(0.0), bits(0.0), bits(0.0), bits(1.0)],
    }
}

fn dynamic() -> ModelDynamic {
    ModelDynamic::from_report(vec![bits(0.0), bits(1.0)], vec![bits(1.0)], &outputs(0x01, 500, 1.0), 1).unwrap()
}

#[test]
fn update_keeps_written_parameter_values() {
    let mut d = dynamic();
    d.parameter_values_mut()[1] = bits(0.3);
    d.part_opacities_mut()[0] = bits(0.25);
    let inputs = d.update_inputs();
    assert_eq!(inputs.parameter_values, vec![bits(0.0), bits(0.3)]);
    assert_eq!(inputs.part_opacities, vec![bits(0.25)]);
    assert_eq!(inputs.drawable_dynamic_flags, vec![0x01]);
    d.update(&outputs(0x3F, 400, 0.5)).unwrap();
    assert_eq!(d.parameter_values(), &[bits(0.0), bits(0.3)]);
    assert_eq!(d.part_opacities(), &[bits(0.25)]);
    assert_eq!(d.drawable_draw_orders(), &[400]);
    assert_eq!(d.drawable_opacities(), &[bits(0.5)]);
    assert_eq!(d.drawable_vertex_position_containers()[0], vec![Vector2 { x: bits(0.5), y: bits(2.0) }]);
    assert_eq!(d.drawable_dynamic_flagsets()[0].bits(), 0x3F);
}

#[test]
fn update_twice_is_stable() {
    let mut d = dynamic();
    d.update(&outputs(0x21, 7, 0.75)).unwrap();
    let once = (d.drawable_draw_orders().to_vec(), d.drawable_opacities().to_vec(), d.drawable_vertex_position_containers().to_vec());
    d.update(&outputs(0x21, 7, 0.75)).unwrap();
    let twice = (d.drawable_draw_orders().to_vec(), d.drawable_opacities().to_vec(), d.drawable_vertex_position_containers().to_vec());
    assert_eq!(once, twice);
}

#[test]
fn update_refuses_misshapen_reports() {
    let mut d = dynamic();
    let mut o = outputs(0x01, 1, 0.5);
    o.draw_orders.push(2);
    assert_eq!(d.update(&o).unwrap_err(), ModelDataError::LengthMismatch);
    let mut o = outputs(0x01, 1, 0.5);
    o.dynamic_flags[0] = 0x80;
    assert_eq!(d.update(&o).unwrap_err(), ModelDataError::UnknownFlagBits);
    let mut o = outputs(0x01, 1, 0.5);
    o.vertex_positions[0].push(0);
    assert_eq!(d.update(&o).unwrap_err(), ModelDataError::IncompleteVector);
    assert_eq!(d.drawable_draw_orders(), &[500]);
    assert_eq!(d.drawable_opacities(), &[bits(1.0)]);
}

#[test]
fn reset_flags_read_back() {
    let mut a = dynamic();
    let mut b = dynamic();
    b.update(&outputs(0x7F, 3, 0.1)).unwrap();
    a.reset_drawable_dynamic_flags(&[0x01]).unwrap();
    b.reset_drawable_dynamic_flags(&[0x01]).unwrap();
    assert_eq!(a.drawable_dynamic_flagsets()[0].bits(), 0x01);
    assert_eq!(a.drawable_dynamic_flagsets(), b.drawable_dynamic_flagsets());
    assert_eq!(a.reset_drawable_dynamic_flags(&[0x01, 0x01]).unwrap_err(), ModelDataError::LengthMismatch);
    assert_eq!(a.reset_drawable_dynamic_flags(&[0x81]).unwrap_err(), ModelDataError::UnknownFlagBits);
    assert_eq!(a.drawable_dynamic_flagsets()[0].bits(), 0x01);
}

#[test]
fn dynamic_from_report_refused() {
    let r = ModelDynamic::from_report(vec![], vec![], &outputs(0x01, 1, 1.0), 2);
    assert_eq!(r.unwrap_err(), ModelDataError::LengthMismatch);
}
