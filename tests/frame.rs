use gpui::executor::{FrameAction, FrameEvent, FrameExecutor, FramePhase};
use gpui::frame::{descriptor_range, plan_frame, DrawCall, FrameError};
use gpui::pipeline::PipelineKind;
use gpui::scene::{PrimitiveBatch, PrimitiveKind, Scene};
use gpui::staging::STAGING_BUFFER_CAPACITY;

fn batch(kind: PrimitiveKind, record_size: usize, count: usize) -> PrimitiveBatch {
    PrimitiveBatch::new(kind, record_size, vec![7u8; record_size * count]).unwrap()
}

/// Runs one whole frame through the executor, answering each action as a
/// renderer would; returns the actions and the draws recorded.
fn run_frame(ex: &mut FrameExecutor, scene: &Scene) -> (Vec<FrameAction>, Vec<DrawCall>) {
    let mut actions = vec![ex.begin_frame(scene).unwrap()];
    let mut recorded = Vec::new();
    loop {
        let event = match *actions.last().unwrap() {
            FrameAction::AcquireImage => FrameEvent::ImageAcquired { image_index: 1 },
            FrameAction::BeginRenderPass { .. } => FrameEvent::RenderPassBegun,
            FrameAction::RecordBatches => {
                recorded.extend_from_slice(ex.draws());
                FrameEvent::RenderPassEnded
            }
            FrameAction::SubmitAndWait => FrameEvent::SubmitFenceSignaled,
            FrameAction::Present { .. } => FrameEvent::PresentDone,
            FrameAction::Finished => break,
            FrameAction::Rejected => panic!("event rejected"),
        };
        actions.push(ex.step(event));
    }
    (actions, recorded)
}

#[test]
fn empty_scene_runs_full_cycle_without_draws() {
    let mut ex = FrameExecutor::new(2, STAGING_BUFFER_CAPACITY);
    let (actions, draws) = run_frame(&mut ex, &Scene::empty());
    assert_eq!(
        actions,
        vec![
            FrameAction::AcquireImage,
            FrameAction::BeginRenderPass { image_index: 1 },
            FrameAction::RecordBatches,
            FrameAction::SubmitAndWait,
            FrameAction::Present { image_index: 1 },
            FrameAction::Finished,
        ]
    );
    assert!(draws.is_empty());
    assert_eq!(ex.phase, FramePhase::Idle);
}

#[test]
fn single_quad_batch_is_one_draw_at_offset_zero() {
    let mut scene = Scene::empty();
    scene.push(batch(PrimitiveKind::Quads, 32, 3));
    let mut ex = FrameExecutor::new(2, STAGING_BUFFER_CAPACITY);
    let (_, draws) = run_frame(&mut ex, &scene);
    assert_eq!(
        draws,
        vec![DrawCall {
            pipeline: PipelineKind::Quads,
            batch_index: 0,
            offset: 0,
            byte_len: 96,
            instance_count: 3,
        }]
    );
}

#[test]
fn mixed_batches_offsets() {
    let mut scene = Scene::empty();
    scene.push(batch(PrimitiveKind::Quads, 32, 2));
    scene.push(batch(PrimitiveKind::Shadows, 48, 1));
    let draws = plan_frame(&scene, STAGING_BUFFER_CAPACITY).unwrap();
    assert_eq!(draws.len(), 2);
    assert_eq!(draws[0].pipeline, PipelineKind::Quads);
    assert_eq!(draws[0].offset, 0);
    assert_eq!(draws[0].instance_count, 2);
    assert_eq!(draws[1].pipeline, PipelineKind::Shadows);
    assert_eq!(draws[1].offset, 256);
    assert_eq!(draws[1].instance_count, 1);
    assert_eq!(draws[1].batch_index, 1);
}

#[test]
fn three_kinds_in_order() {
    let mut scene = Scene::empty();
    scene.push(batch(PrimitiveKind::Shadows, 16, 20));
    scene.push(batch(PrimitiveKind::Underlines, 24, 1));
    scene.push(batch(PrimitiveKind::Quads, 32, 8));
    let draws = plan_frame(&scene, STAGING_BUFFER_CAPACITY).unwrap();
    let offsets: Vec<u64> = draws.iter().map(|d| d.offset).collect();
    assert_eq!(offsets, vec![0, 512, 768]);
    let kinds: Vec<PipelineKind> = draws.iter().map(|d| d.pipeline).collect();
    assert_eq!(kinds, vec![PipelineKind::Shadows, PipelineKind::Underlines, PipelineKind::Quads]);
}

#[test]
fn unknown_kind_is_skipped() {
    let mut with = Scene::empty();
    with.push(batch(PrimitiveKind::Quads, 32, 2));
    with.push(batch(PrimitiveKind::Paths, 64, 5));
    with.push(batch(PrimitiveKind::MonochromeSprites, 8, 1));
    with.push(batch(PrimitiveKind::Underlines, 32, 1));
    let mut without = Scene::empty();
    without.push(batch(PrimitiveKind::Quads, 32, 2));
    without.push(batch(PrimitiveKind::Underlines, 32, 1));
    let a = plan_frame(&with, STAGING_BUFFER_CAPACITY).unwrap();
    let b = plan_frame(&without, STAGING_BUFFER_CAPACITY).unwrap();
    assert_eq!(a.len(), 2);
    assert_eq!(a[0].offset, b[0].offset);
    assert_eq!(a[1].offset, b[1].offset);
    assert_eq!(a[1].offset, 256);
    assert_eq!(a[1].batch_index, 3);
    let mut only = Scene::empty();
    only.push(batch(PrimitiveKind::Surfaces, 4, 3));
    only.push(batch(PrimitiveKind::PolychromeSprites, 4, 3));
    assert!(plan_frame(&only, 16).unwrap().is_empty());
}

#[test]
fn overflow_fails_the_frame() {
    let mut scene = Scene::empty();
    scene.push(batch(PrimitiveKind::Quads, 32, 2));
    scene.push(batch(PrimitiveKind::Shadows, 32, 9));
    // 64 bytes, then 288 bytes at 256: ends at 544.
    assert_eq!(plan_frame(&scene, 543), Err(FrameError::StagingOverflow));
    assert_eq!(plan_frame(&scene, 544).unwrap()[1].offset, 256);
    let mut ex = FrameExecutor::new(2, 543);
    assert_eq!(ex.begin_frame(&scene), Err(FrameError::StagingOverflow));
    assert_eq!(ex.phase, FramePhase::Idle);
    assert!(ex.draws().is_empty());
}

#[test]
fn begin_while_busy_is_refused() {
    let mut ex = FrameExecutor::new(2, 1024);
    let scene = Scene::empty();
    assert_eq!(ex.begin_frame(&scene), Ok(FrameAction::AcquireImage));
    assert_eq!(ex.begin_frame(&scene), Err(FrameError::Busy));
    assert_eq!(ex.phase, FramePhase::Acquiring);
}

#[test]
fn no_recording_before_submission_fence() {
    let mut ex = FrameExecutor::new(2, 1024);
    let scene = Scene::empty();
    ex.begin_frame(&scene).unwrap();
    ex.step(FrameEvent::ImageAcquired { image_index: 0 });
    ex.step(FrameEvent::RenderPassBegun);
    assert_eq!(ex.step(FrameEvent::RenderPassEnded), FrameAction::SubmitAndWait);
    // Nothing but the fence moves a submitted frame on.
    assert_eq!(ex.begin_frame(&scene), Err(FrameError::Busy));
    assert_eq!(ex.step(FrameEvent::Begin), FrameAction::Rejected);
    assert_eq!(ex.step(FrameEvent::RenderPassBegun), FrameAction::Rejected);
    assert_eq!(ex.step(FrameEvent::PresentDone), FrameAction::Rejected);
    assert_eq!(ex.phase, FramePhase::RenderPassClosed { image_index: 0 });
    assert_eq!(ex.step(FrameEvent::SubmitFenceSignaled), FrameAction::Present { image_index: 0 });
    assert_eq!(ex.step(FrameEvent::PresentDone), FrameAction::Finished);
    assert_eq!(ex.begin_frame(&scene), Ok(FrameAction::AcquireImage));
}

#[test]
fn out_of_range_image_index_is_rejected() {
    let mut ex = FrameExecutor::new(2, 1024);
    ex.begin_frame(&Scene::empty()).unwrap();
    assert_eq!(ex.step(FrameEvent::ImageAcquired { image_index: 2 }), FrameAction::Rejected);
    assert_eq!(ex.phase, FramePhase::Acquiring);
}

#[test]
fn batch_construction_checks_record_size() {
    assert!(PrimitiveBatch::new(PrimitiveKind::Quads, 0, vec![]).is_none());
    assert!(PrimitiveBatch::new(PrimitiveKind::Quads, 32, vec![0u8; 33]).is_none());
    let b = PrimitiveBatch::new(PrimitiveKind::Quads, 32, vec![0u8; 64]).unwrap();
    assert_eq!(b.len(), 2);
    assert_eq!(b.byte_len(), 64);
    let empty = PrimitiveBatch::new(PrimitiveKind::Shadows, 16, vec![]).unwrap();
    assert_eq!(empty.len(), 0);
}

#[test]
fn descriptor_range_covers_largest_batch_of_pipeline() {
    let mut scene = Scene::empty();
    scene.push(batch(PrimitiveKind::Quads, 32, 2));
    scene.push(batch(PrimitiveKind::Shadows, 16, 1));
    scene.push(batch(PrimitiveKind::Quads, 32, 5));
    scene.push(batch(PrimitiveKind::Underlines, 8, 0));
    let draws = plan_frame(&scene, STAGING_BUFFER_CAPACITY).unwrap();
    assert_eq!(descriptor_range(&draws, PipelineKind::Quads), Some(160));
    assert_eq!(descriptor_range(&draws, PipelineKind::Shadows), Some(16));
    assert_eq!(descriptor_range(&draws, PipelineKind::Underlines), Some(1));
    assert_eq!(descriptor_range(&draws[..2], PipelineKind::Underlines), None);
}
