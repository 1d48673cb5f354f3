use gpui::pipeline::{bind_commands, pipeline_for, BindCommand, BlendFactor, PipelineKind, PipelineState};
use gpui::scene::PrimitiveKind;

#[test]
fn pipelines_by_kind() {
    assert_eq!(pipeline_for(PrimitiveKind::Quads), Some(PipelineKind::Quads));
    assert_eq!(pipeline_for(PrimitiveKind::Shadows), Some(PipelineKind::Shadows));
    assert_eq!(pipeline_for(PrimitiveKind::Underlines), Some(PipelineKind::Underlines));
    assert_eq!(pipeline_for(PrimitiveKind::Paths), None);
    assert_eq!(pipeline_for(PrimitiveKind::Surfaces), None);
}

#[test]
fn pipeline_fixed_state() {
    let s = PipelineState::for_target(1424, 714);
    assert_eq!(s.viewport_width, 1424);
    assert_eq!(s.viewport_height, 714);
    assert_eq!(s.vertices_per_instance, 6);
    assert_eq!(s.sample_count, 1);
    assert_eq!(s.push_constant_size, 8);
    assert_eq!(s.blend.src_color, BlendFactor::SrcAlpha);
    assert_eq!(s.blend.dst_color, BlendFactor::OneMinusSrcAlpha);
    assert_eq!(s.blend.src_alpha, BlendFactor::One);
    assert_eq!(s.blend.dst_alpha, BlendFactor::One);
}

#[test]
fn bind_order_and_push_constants() {
    let cmds = bind_commands(PipelineKind::Shadows, 512, 1424, 714);
    assert_eq!(cmds.len(), 3);
    assert!(matches!(cmds[0], BindCommand::BindPipeline { pipeline: PipelineKind::Shadows }));
    assert!(matches!(
        cmds[1],
        BindCommand::BindDescriptorSet { pipeline: PipelineKind::Shadows, dynamic_offset: 512 }
    ));
    let mut expected = 1424i32.to_ne_bytes().to_vec();
    expected.extend_from_slice(&714i32.to_ne_bytes());
    match &cmds[2] {
        BindCommand::PushConstants { pipeline, bytes } => {
            assert_eq!(*pipeline, PipelineKind::Shadows);
            assert_eq!(bytes, &expected);
        }
        _ => panic!("third command is not a push"),
    }
}
