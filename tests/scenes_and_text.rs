use aefr::scenario::Scene;
use aefr::stage::Stage;
use aefr::typewriter::Typewriter;

fn scene(text: &str) -> Scene {
    let mut s = Scene::new();
    s.dialogue_content = text.to_string();
    s
}

#[test]
fn reveal_one_character_per_interval() {
    let mut t = Typewriter::new("abc".to_string());
    t.tick(20_000);
    assert_eq!(t.shown(), "");
    t.tick(10_000);
    assert_eq!(t.shown(), "");
    t.tick(1);
    assert_eq!(t.shown(), "a");
    t.tick(40_000);
    assert_eq!(t.shown(), "ab");
    t.tick(30_001);
    assert_eq!(t.shown(), "abc");
    assert!(t.finished());
    t.tick(99_999);
    assert_eq!(t.visible_count(), 3);
}

#[test]
fn reveal_counts_characters_not_bytes() {
    let mut t = Typewriter::new("先生".to_string());
    t.tick(30_001);
    assert_eq!(t.shown(), "先");
}

#[test]
fn hidden_dialogue_does_not_advance() {
    let mut st: Stage<u8, u8> = Stage::new(scene("hi"), true);
    st.tick_text(50_000, false);
    assert_eq!(st.shown_text(), "");
    st.tick_text(50_000, true);
    assert_eq!(st.shown_text(), "h");
}

#[test]
fn insert_copies_scene_with_empty_dialogue() {
    let mut first = scene("one");
    first.bg_path = Some("bg.png".to_string());
    let mut st: Stage<u8, u8> = Stage::new(first, true);
    st.insert_scene();
    assert_eq!(st.scenes().len(), 2);
    assert_eq!(st.current_index(), 1);
    assert_eq!(st.current_scene().bg_path, Some("bg.png".to_string()));
    assert_eq!(st.current_scene().dialogue_content, "");
    assert_eq!(st.scenes()[0].dialogue_content, "one");
}

#[test]
fn navigation_shows_text_whole_and_stops_at_ends() {
    let mut st: Stage<u8, u8> = Stage::new(scene("one"), true);
    st.insert_scene();
    st.edit_current_scene("N".to_string(), "A".to_string(), "two".to_string());
    st.previous_scene();
    assert_eq!(st.current_index(), 0);
    assert_eq!(st.shown_text(), "one");
    st.previous_scene();
    assert_eq!(st.current_index(), 0);
    st.next_scene();
    assert_eq!(st.current_index(), 1);
    assert_eq!(st.shown_text(), "two");
    st.next_scene();
    assert_eq!(st.current_index(), 1);
    st.go_to_scene(0);
    assert_eq!(st.current_index(), 0);
    st.go_to_scene(99);
    assert_eq!(st.current_index(), 1);
    st.replay_dialogue();
    assert_eq!(st.shown_text(), "");
}

#[test]
fn delete_keeps_at_least_one_scene() {
    let mut st: Stage<u8, u8> = Stage::new(scene("one"), true);
    st.delete_scene();
    assert_eq!(st.scenes().len(), 1);
    st.insert_scene();
    st.edit_current_scene(String::new(), String::new(), "two".to_string());
    st.delete_scene();
    assert_eq!(st.scenes().len(), 1);
    assert_eq!(st.current_index(), 0);
    assert_eq!(st.current_scene().dialogue_content, "one");
}

#[test]
fn replacing_the_scenario() {
    let mut st: Stage<u8, u8> = Stage::new(scene("one"), true);
    assert!(!st.replace_scenario(Vec::new()));
    assert_eq!(st.scenes().len(), 1);
    assert!(st.replace_scenario(vec![scene("a"), scene("b")]));
    assert_eq!(st.current_index(), 0);
    assert_eq!(st.scenes().len(), 2);
    assert_eq!(st.shown_text(), "a");
    assert!(st.text_finished());
}

#[test]
fn duplicate_scene_is_equal() {
    let mut s = scene("x");
    s.char_paths[2] = Some("c.atlas".to_string());
    s.char_anims[2] = Some("idle".to_string());
    let d = s.duplicate();
    assert_eq!(d.char_paths[2], Some("c.atlas".to_string()));
    assert_eq!(d.char_anims[2], Some("idle".to_string()));
    assert_eq!(d.dialogue_content, "x");
}
