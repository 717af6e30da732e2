use cubism_core::{
    CubismCore, CubismVersion, DrawableOutputs, DynamicDrawableFlags, Model, ModelReport, MocError,
    MocVersion, ParameterType, RawDrawables, RawParameters, RawParts, Vector2, Vector4,
    CanvasInfo,
};

fn bits(v: f32) -> u32 {
    v.to_bits()
}

fn sample_outputs(seed: f32) -> DrawableOutputs {
    DrawableOutputs {
        dynamic_flags: vec![0x01, 0x21],
        draw_orders: vec![500, 501],
        render_orders: vec![1, 0],
        opacities: vec![bits(1.0), bits(seed)],
        vertex_positions: vec![
            vec![bits(0.0), bits(seed), bits(1.0), bits(1.5)],
            vec![bits(-1.0), bits(2.0)],
        ],
        multiply_colors: vec![bits(1.0); 8],
        screen_colors: vec![bits(0.0), bits(0.0), bits(0.0), bits(1.0), bits(0.5), bits(0.5), bits(0.5), bits(1.0)],
    }
}

fn sample_report() -> ModelReport {
    ModelReport {
        canvas_info: CanvasInfo {
            size_in_pixels: (bits(1024.0), bits(2048.0)),
            origin_in_pixels: (bits(512.0), bits(1024.0)),
            pixels_per_unit: bits(1024.0),
        },
        parameters: RawParameters {
            ids: vec!["ParamAngleX".to_string(), "ParamBlend".to_string()],
            types: vec![0, 1],
            minimum_values: vec![bits(-30.0), bits(0.0)],
            maximum_values: vec![bits(30.0), bits(1.0)],
            default_values: vec![bits(0.0), bits(0.0)],
            key_values: vec![vec![bits(-30.0), bits(0.0), bits(30.0)], vec![]],
        },
        parts: RawParts {
            ids: vec!["PartCore".to_string(), "PartArm".to_string()],
            parent_part_indices: vec![-1, 1],
        },
        drawables: RawDrawables {
            ids: vec!["ArtMesh0".to_string(), "ArtMesh1".to_string()],
            constant_flags: vec![0x00, 0x05],
            texture_indices: vec![0, 1],
            masks: vec![vec![], vec![0]],
            vertex_uvs: vec![
                vec![bits(0.0), bits(0.0), bits(1.0), bits(1.0)],
                vec![bits(0.25), bits(0.75)],
            ],
            triangle_indices: vec![vec![0, 1, 0], vec![]],
            parent_part_indices: vec![1, 0],
        },
        parameter_values: vec![bits(0.0), bits(0.0)],
        part_opacities: vec![bits(1.0), bits(1.0)],
        outputs: sample_outputs(0.5),
    }
}

fn sample_model() -> Model {
    let core = CubismCore::new(CubismVersion(0x0500_0000), MocVersion::Moc3_42);
    let moc = core.moc_from_bytes(&[0x4d, 0x4f, 0x43, 0x33], 4).expect("moc_from_bytes should succeed");
    Model::from_moc(&moc, &sample_report()).expect("from_moc should succeed")
}

#[test]
fn public_api_use() {
    let cubism_core = CubismCore::new(CubismVersion(0x0500_0000), MocVersion::Moc3_42);
    assert_eq!(cubism_core.version().major(), 5);
    assert_eq!(cubism_core.latest_supported_moc_version(), MocVersion::Moc3_42);

    {
        let invalid_moc_bytes = b"{ \"Version\": 3 }";
        cubism_core.moc_from_bytes(invalid_moc_bytes, 0).expect_err("moc_from_bytes should fail");
    }

    let moc = cubism_core.moc_from_bytes(&[1, 2, 3, 4], 3).expect("moc_from_bytes should succeed");
    assert_eq!(moc.version(), MocVersion::Moc3_40);

    let mut model = Model::from_moc(&moc, &sample_report()).expect("from_moc should succeed");

    {
        let model_static = model.get_static();
        assert_eq!(model_static.canvas_info().pixels_per_unit, bits(1024.0));
        assert_eq!(model_static.parameters().len(), 2);
        assert_eq!(model_static.parts().len(), 2);
        assert_eq!(model_static.drawables().len(), 2);
    }

    {
        let dynamic = model.read_dynamic();
        assert_eq!(dynamic.parameter_values().len(), 2);
        assert_eq!(dynamic.part_opacities().len(), 2);
        assert!(dynamic.drawable_dynamic_flagsets()[0].contains(DynamicDrawableFlags::IsVisible));
        assert_eq!(dynamic.drawable_draw_orders(), &[500, 501]);
        assert_eq!(dynamic.drawable_render_orders(), &[1, 0]);
        assert_eq!(dynamic.drawable_opacities().len(), 2);
        assert_eq!(dynamic.drawable_vertex_position_containers()[0].len(), 2);
        assert_eq!(dynamic.drawable_multiply_colors().len(), 2);
        assert_eq!(dynamic.drawable_screen_colors().len(), 2);
    }
    {
        let dynamic = model.write_dynamic();
        dynamic.reset_drawable_dynamic_flags(&[0x00, 0x01]).expect("reset should succeed");
        let _inputs = dynamic.update_inputs();
        dynamic.update(&sample_outputs(0.25)).expect("update should succeed");
    }
    {
        let dynamic = model.read_dynamic();
        assert_eq!(dynamic.drawable_dynamic_flagsets()[0].bits(), 0x01);
        assert_eq!(dynamic.drawable_opacities()[1], bits(0.25));
    }
}

#[test]
fn model_static_matches_report() {
    let model = sample_model();
    let st = model.get_static();
    let p = &st.parameters()[0];
    assert_eq!(p.id(), "ParamAngleX");
    assert_eq!(p.ty(), ParameterType::Normal);
    assert_eq!(p.value_range(), (bits(-30.0), bits(30.0)));
    assert_eq!(p.default_value(), bits(0.0));
    assert_eq!(p.keys(), &[bits(-30.0), bits(0.0), bits(30.0)]);
    assert_eq!(st.parameters()[1].ty(), ParameterType::BlendShape);
    assert_eq!(st.parts()[0].id(), "PartCore");
    assert_eq!(st.parts()[0].parent_part_index(), None);
    assert_eq!(st.parts()[1].parent_part_index(), Some(0));
    let d = &st.drawables()[1];
    assert_eq!(d.id(), "ArtMesh1");
    assert_eq!(d.constant_flagset().bits(), 0x05);
    assert_eq!(d.texture_index(), 1);
    assert_eq!(d.masks(), &[0usize]);
    assert_eq!(d.vertex_uvs(), &[Vector2 { x: bits(0.25), y: bits(0.75) }]);
    assert!(d.triangle_indices().is_empty());
    assert_eq!(d.parent_part_index(), None);
    assert_eq!(st.drawables()[0].parent_part_index(), Some(0));
    assert_eq!(st.drawables()[0].triangle_indices(), &[0u16, 1, 0]);
    assert!(st.get_drawable(1).is_some());
    assert!(st.get_drawable(2).is_none());
    assert_eq!(model.moc_version(), MocVersion::Moc3_42);
}

#[test]
fn model_index_alignment() {
    let model = sample_model();
    let st = model.get_static();
    let d = model.read_dynamic();
    assert_eq!(st.parameters().len(), d.parameter_values().len());
    assert_eq!(st.parts().len(), d.part_opacities().len());
    assert_eq!(st.drawables().len(), d.drawable_dynamic_flagsets().len());
    assert_eq!(st.drawables().len(), d.drawable_vertex_position_containers().len());
    assert_eq!(d.drawable_screen_colors()[1], Vector4 { x: bits(0.5), y: bits(0.5), z: bits(0.5), w: bits(1.0) });
}

#[test]
fn instances_are_independent() {
    let mut a = sample_model();
    let b = sample_model();
    a.write_dynamic().parameter_values_mut()[0] = bits(12.5);
    a.write_dynamic().update(&sample_outputs(0.75)).unwrap();
    assert_eq!(b.read_dynamic().parameter_values()[0], bits(0.0));
    assert_eq!(b.read_dynamic().drawable_opacities()[1], bits(0.5));
    assert_eq!(a.get_static().parameters()[0].id(), b.get_static().parameters()[0].id());
    assert_eq!(a.get_static().drawables()[0].vertex_uvs(), b.get_static().drawables()[0].vertex_uvs());
}

#[test]
fn from_moc_refuses_bad_reports() {
    let core = CubismCore::new(CubismVersion(0x0500_0000), MocVersion::Moc3_42);
    let moc = core.moc_from_bytes(&[9], 1).unwrap();
    let mut r = sample_report();
    r.parameter_values.pop();
    assert_eq!(Model::from_moc(&moc, &r).unwrap_err(), cubism_core::ModelDataError::LengthMismatch);
    let mut r = sample_report();
    r.parameters.types[1] = 7;
    assert_eq!(Model::from_moc(&moc, &r).unwrap_err(), cubism_core::ModelDataError::UnknownParameterType);
    let mut r = sample_report();
    r.outputs.dynamic_flags[0] = 0x80;
    assert_eq!(Model::from_moc(&moc, &r).unwrap_err(), cubism_core::ModelDataError::UnknownFlagBits);
    let mut r = sample_report();
    r.outputs.multiply_colors.pop();
    assert_eq!(Model::from_moc(&moc, &r).unwrap_err(), cubism_core::ModelDataError::LengthMismatch);
}

#[test]
fn decode_scenarios() {
    let core = CubismCore::new(CubismVersion(0x0500_0000), MocVersion::Moc3_42);
    assert_eq!(core.moc_from_bytes(&[], 4).unwrap_err(), MocError::InvalidMoc);
    assert_eq!(
        core.moc_from_bytes(&[1, 2], 99).unwrap_err(),
        MocError::UnsupportedMocVersion { given: 99, latest_supported: MocVersion::Moc3_42 }
    );
    assert_eq!(core.moc_from_bytes(&[1, 2], 0).unwrap_err(), MocError::InvalidMoc);
    let older = CubismCore::new(CubismVersion(0x0400_0000), MocVersion::Moc3_33);
    assert_eq!(
        older.moc_from_bytes(&[1, 2], 4).unwrap_err(),
        MocError::UnsupportedMocVersion { given: 4, latest_supported: MocVersion::Moc3_33 }
    );
    let moc = older.moc_from_bytes(&[1, 2], 2).unwrap();
    assert_eq!(moc.version(), MocVersion::Moc3_33);
    assert_eq!(moc.bytes(), &[1, 2]);
    assert!(moc.version().is_supported_by(older.latest_supported_moc_version()));
}
