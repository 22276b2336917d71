use aefr::bus::{Command, Effect};
use aefr::scenario::Scene;
use aefr::stage::Stage;

fn scene(text: &str) -> Scene {
    let mut s = Scene::new();
    s.speaker_name = "Sensei".to_string();
    s.dialogue_content = text.to_string();
    s
}

fn stage() -> Stage<String, u8> {
    Stage::new(scene("hello"), true)
}

#[test]
fn load_line_fills_only_its_slot() {
    let mut st = stage();
    let cmd = st.submit_line("LOAD 0 \"a.atlas\"").unwrap();
    assert_eq!(st.logs()[0], "> LOAD 0 \"a.atlas\"");
    match st.apply(cmd) {
        Effect::SpawnCharacterLoad { slot, path } => {
            assert_eq!(slot, 0);
            assert_eq!(path, "a.atlas");
        }
        _ => panic!("expected one loader"),
    }
    assert_eq!(st.logs()[1], "[解析] a.atlas");
    assert!(st.slots().iter().all(|s| s.is_none()));
    st.apply(Command::LoadSuccess { slot: 0, character: "A".to_string() });
    assert_eq!(st.slots()[0], Some("A".to_string()));
    assert!(st.slots()[1..].iter().all(|s| s.is_none()));
}

#[test]
fn last_drained_load_wins() {
    let mut st = stage();
    let a = st.submit_line("LOAD 0 \"a.atlas\"").unwrap();
    let b = st.submit_line("LOAD 0 \"b.atlas\"").unwrap();
    st.apply(a);
    st.apply(b);
    st.apply(Command::LoadSuccess { slot: 0, character: "b".to_string() });
    st.apply(Command::LoadSuccess { slot: 0, character: "a".to_string() });
    assert_eq!(st.slots()[0], Some("a".to_string()));
    assert_eq!(st.slots().len(), 5);
}

#[test]
fn out_of_range_slots_are_ignored() {
    let mut st = stage();
    assert!(matches!(
        st.apply(Command::RequestLoad { slot: 5, path: "x".to_string() }),
        Effect::Nothing
    ));
    st.apply(Command::LoadSuccess { slot: 9, character: "x".to_string() });
    st.apply(Command::RemoveCharacter { slot: 7 });
    assert!(st.slots().iter().all(|s| s.is_none()));
    assert!(st.logs().is_empty());
}

#[test]
fn remove_clears_a_slot() {
    let mut st = stage();
    st.apply(Command::LoadSuccess { slot: 3, character: "c".to_string() });
    st.apply(Command::RemoveCharacter { slot: 3 });
    assert_eq!(st.slots()[3], None);
}

#[test]
fn dialogue_sets_scene_and_restarts_reveal() {
    let mut st = stage();
    st.skip_text();
    assert!(st.text_finished());
    st.apply(Command::Dialogue {
        name: "Yuuka".to_string(),
        affiliation: "Millennium".to_string(),
        content: "Budget!".to_string(),
    });
    assert_eq!(st.current_scene().speaker_name, "Yuuka");
    assert_eq!(st.current_scene().speaker_aff, "Millennium");
    assert_eq!(st.current_scene().dialogue_content, "Budget!");
    assert_eq!(st.shown_text(), "");
    assert!(!st.text_finished());
}

#[test]
fn background_and_music_are_recorded_in_the_scene() {
    let mut st = stage();
    match st.apply(Command::LoadBackground { path: "bg.png".to_string() }) {
        Effect::SpawnBackgroundDecode { path } => assert_eq!(path, "bg.png"),
        _ => panic!("expected a decode"),
    }
    assert_eq!(st.current_scene().bg_path, Some("bg.png".to_string()));
    match st.apply(Command::PlayBgm { path: "m.ogg".to_string() }) {
        Effect::ReadAudio { path, looping } => {
            assert_eq!(path, "m.ogg");
            assert!(looping);
        }
        _ => panic!("expected a read"),
    }
    assert_eq!(st.current_scene().bgm_path, Some("m.ogg".to_string()));
    assert!(matches!(
        st.apply(Command::PlaySe { path: "s.wav".to_string() }),
        Effect::ReadAudio { looping: false, .. }
    ));
    st.apply(Command::LoadBackgroundSuccess { image: 7 });
    assert_eq!(*st.background(), Some(7));
}

#[test]
fn audio_is_silent_without_a_device() {
    let mut quiet: Stage<String, u8> = Stage::new(scene("x"), false);
    assert!(matches!(
        quiet.apply(Command::AudioReady { data: vec![1, 2], looping: true }),
        Effect::Nothing
    ));
    assert!(matches!(quiet.apply(Command::StopBgm), Effect::Nothing));
    let mut loud = stage();
    match loud.apply(Command::AudioReady { data: vec![1, 2], looping: false }) {
        Effect::PlayAudio { data, looping } => {
            assert_eq!(data, vec![1, 2]);
            assert!(!looping);
        }
        _ => panic!("expected play"),
    }
    assert!(matches!(loud.apply(Command::StopBgm), Effect::StopMusic));
}

#[test]
fn set_animation_needs_a_character() {
    let mut st = stage();
    let ask = || Command::SetAnimation { slot: 1, clip: "idle".to_string(), looping: true };
    assert!(matches!(st.apply(ask()), Effect::Nothing));
    st.apply(Command::LoadSuccess { slot: 1, character: "c".to_string() });
    match st.apply(ask()) {
        Effect::SetAnimation { slot, clip, looping } => {
            assert_eq!(slot, 1);
            assert_eq!(clip, "idle");
            assert!(looping);
        }
        _ => panic!("expected set animation"),
    }
}

#[test]
fn log_events_are_kept_in_order() {
    let mut st = stage();
    st.apply(Command::Log { message: "one".to_string() });
    st.apply(Command::Log { message: "two".to_string() });
    assert_eq!(st.logs(), &vec!["one".to_string(), "two".to_string()]);
    assert!(st.submit_line("   ").is_none());
    assert_eq!(st.logs().len(), 2);
    assert!(st.submit_line("nonsense").is_none());
    assert_eq!(st.logs()[2], "> nonsense");
}

#[test]
fn update_character_changes_one_slot() {
    let mut st = stage();
    st.apply(Command::LoadSuccess { slot: 2, character: "c".to_string() });
    st.update_character(2, |c| c + "!");
    st.update_character(0, |c| c + "?");
    assert_eq!(st.slots()[2], Some("c!".to_string()));
    assert_eq!(st.slots()[0], None);
}

#[test]
fn advance_characters_updates_every_populated_slot() {
    let sched = aefr::schedule::Scheduler::new(3).unwrap();
    let mut st: Stage<u32, u8> = Stage::new(scene("x"), true);
    st.apply(Command::LoadSuccess { slot: 0, character: 1 });
    st.apply(Command::LoadSuccess { slot: 4, character: 1 });
    st.advance_characters(&sched, &|i: usize, p: u32| p + 10 * i as u32);
    assert_eq!(st.slots(), &vec![Some(1), None, None, None, Some(41)]);
}
