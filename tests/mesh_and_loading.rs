use aefr::bus::Command;
use aefr::clips::{clip_in_range, find_clip, next_clip, previous_clip};
use aefr::loader::{
    audio_outcome, background_outcome, load_outcome, next_attempt, skeleton_attempts, AttemptStep, SkeletonFormat,
};
use aefr::schedule::{map_slots_here, Scheduler};
use aefr::mesh::{assemble_indices, Attachment, MeshError};

#[test]
fn vertex_count_sums_visible_attachments() {
    let parts = vec![
        Attachment::Region,
        Attachment::Hidden,
        Attachment::Mesh { vertex_count: 3, triangles: vec![0, 1, 2] },
        Attachment::Region,
    ];
    let m = assemble_indices(&parts).unwrap();
    assert_eq!(m.vertex_count, 11);
    assert_eq!(
        m.indices,
        vec![0, 1, 2, 2, 3, 0, 4, 5, 6, 7, 8, 9, 9, 10, 7]
    );
}

#[test]
fn empty_and_hidden_frames_have_no_geometry() {
    let m = assemble_indices(&Vec::new()).unwrap();
    assert_eq!(m.vertex_count, 0);
    assert!(m.indices.is_empty());
    let m = assemble_indices(&vec![Attachment::Hidden, Attachment::Hidden]).unwrap();
    assert_eq!(m.vertex_count, 0);
    assert!(m.indices.is_empty());
}

#[test]
fn bad_triangle_is_refused() {
    let parts = vec![Attachment::Region, Attachment::Mesh { vertex_count: 2, triangles: vec![0, 1, 2] }];
    assert_eq!(assemble_indices(&parts).err(), Some(MeshError::BadTriangle));
}

#[test]
fn too_many_vertices_is_refused() {
    let big = usize::MAX / 2;
    let parts = vec![
        Attachment::Mesh { vertex_count: big, triangles: vec![0] },
        Attachment::Mesh { vertex_count: big, triangles: vec![0] },
    ];
    assert_eq!(assemble_indices(&parts).err(), Some(MeshError::TooManyVertices));
}

#[test]
fn skeleton_formats_in_order() {
    assert_eq!(skeleton_attempts(true, true), vec![SkeletonFormat::Binary, SkeletonFormat::Json]);
    assert_eq!(skeleton_attempts(false, true), vec![SkeletonFormat::Json]);
    assert_eq!(skeleton_attempts(true, false), vec![SkeletonFormat::Binary]);
    assert!(skeleton_attempts(false, false).is_empty());
}

#[test]
fn loader_outcomes_become_events() {
    let ok: Command<u8, u8> = load_outcome(2, Ok(9));
    assert!(matches!(ok, Command::LoadSuccess { slot: 2, character: 9 }));
    let bad: Command<u8, u8> = load_outcome(2, Err("no atlas".to_string()));
    match bad {
        Command::Log { message } => assert_eq!(message, "[错误] no atlas"),
        _ => panic!("expected a log"),
    }
    let bg: Command<u8, u8> = background_outcome(Ok(4));
    assert!(matches!(bg, Command::LoadBackgroundSuccess { image: 4 }));
    let au: Command<u8, u8> = audio_outcome(Ok(vec![1]), true);
    assert!(matches!(au, Command::AudioReady { looping: true, .. }));
    let au: Command<u8, u8> = audio_outcome(Err("gone".to_string()), false);
    assert!(matches!(au, Command::Log { .. }));
}

#[test]
fn clip_lookup_and_stepping() {
    let names = vec!["idle".to_string(), "walk".to_string(), "idle".to_string()];
    assert_eq!(find_clip(&names, "idle"), Some(0));
    assert_eq!(find_clip(&names, "walk"), Some(1));
    assert_eq!(find_clip(&names, "run"), None);
    assert_eq!(next_clip(2, 3), 0);
    assert_eq!(next_clip(0, 3), 1);
    assert_eq!(previous_clip(0, 3), 2);
    assert_eq!(previous_clip(2, 3), 1);
    assert_eq!(clip_in_range(5, 3), 0);
    assert_eq!(clip_in_range(1, 3), 1);
}

#[test]
fn skeleton_fallback_steps() {
    assert_eq!(next_attempt(2, 0, false), AttemptStep::Try { index: 0 });
    assert_eq!(next_attempt(2, 1, false), AttemptStep::Try { index: 1 });
    assert_eq!(next_attempt(2, 1, true), AttemptStep::Done);
    assert_eq!(next_attempt(2, 2, false), AttemptStep::GiveUp);
    assert_eq!(next_attempt(0, 0, false), AttemptStep::GiveUp);
}

#[test]
fn sequential_slot_map_matches_parallel() {
    let update = |i: usize, p: u64| p * 2 + i as u64;
    let slots = vec![Some(4u64), None, Some(4), None, Some(1)];
    let here = map_slots_here(slots.clone(), &update);
    let pool = Scheduler::new(3).unwrap().map_slots(slots, &update);
    assert_eq!(here, pool);
    assert_eq!(here, vec![Some(8), None, Some(10), None, Some(6)]);
}
