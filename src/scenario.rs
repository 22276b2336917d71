//! Scenes and the scenario they make up: the data that is saved and loaded.
use vstd::prelude::*;
use crate::SLOT_COUNT;

verus! {

/// One scene: its resources and the line of dialogue it shows.
pub struct Scene {
    pub bg_path: Option<String>,
    pub bgm_path: Option<String>,
    pub char_paths: [Option<String>; SLOT_COUNT],
    pub char_anims: [Option<String>; SLOT_COUNT],
    pub speaker_name: String,
    pub speaker_aff: String,
    pub dialogue_content: String,
}

pub struct SceneModel {
    pub bg_path: Option<Seq<char>>,
    pub bgm_path: Option<Seq<char>>,
    pub char_paths: Seq<Option<Seq<char>>>,
    pub char_anims: Seq<Option<Seq<char>>>,
    pub speaker_name: Seq<char>,
    pub speaker_aff: Seq<char>,
    pub dialogue_content: Seq<char>,
}

pub open spec fn opt_text(o: Option<String>) -> Option<Seq<char>> {
    match o {
        Some(s) => Some(s@),
        None => None,
    }
}

pub open spec fn opt_texts(a: Seq<Option<String>>) -> Seq<Option<Seq<char>>> {
    Seq::new(a.len(), |i: int| opt_text(a[i]))
}

impl View for Scene {
    type V = SceneModel;

    open spec fn view(&self) -> SceneModel {
        SceneModel {
            bg_path: opt_text(self.bg_path),
            bgm_path: opt_text(self.bgm_path),
            char_paths: opt_texts(self.char_paths@),
            char_anims: opt_texts(self.char_anims@),
            speaker_name: self.speaker_name@,
            speaker_aff: self.speaker_aff@,
            dialogue_content: self.dialogue_content@,
        }
    }
}

/// The scenes of a scenario, in order.
pub open spec fn scenes_view(v: Seq<Scene>) -> Seq<SceneModel> {
    Seq::new(v.len(), |i: int| v[i]@)
}

/// A copy of an optional text.
pub fn copy_text(o: &Option<String>) -> (r: Option<String>)
    ensures
        opt_text(r) == opt_text(*o),
{
    match o {
        Some(s) => Some(s.clone()),
        None => None,
    }
}

fn copy_texts(a: &[Option<String>; SLOT_COUNT]) -> (r: [Option<String>; SLOT_COUNT])
    ensures
        opt_texts(r@) == opt_texts(a@),
{
    let r = [copy_text(&a[0]), copy_text(&a[1]), copy_text(&a[2]), copy_text(&a[3]), copy_text(&a[4])];
    assert(opt_texts(r@) =~= opt_texts(a@));
    r
}

impl Scene {
    /// A scene with no resources and empty dialogue.
    pub fn new() -> (r: Scene)
        ensures
            r@.bg_path is None,
            r@.bgm_path is None,
            r@.char_paths == Seq::new(SLOT_COUNT as nat, |i: int| None::<Seq<char>>),
            r@.char_anims == Seq::new(SLOT_COUNT as nat, |i: int| None::<Seq<char>>),
            r@.speaker_name.len() == 0,
            r@.speaker_aff.len() == 0,
            r@.dialogue_content.len() == 0,
    {
        let r = Scene {
            bg_path: None,
            bgm_path: None,
            char_paths: [None, None, None, None, None],
            char_anims: [None, None, None, None, None],
            speaker_name: String::new(),
            speaker_aff: String::new(),
            dialogue_content: String::new(),
        };
        assert(r@.char_paths =~= Seq::new(SLOT_COUNT as nat, |i: int| None::<Seq<char>>));
        assert(r@.char_anims =~= Seq::new(SLOT_COUNT as nat, |i: int| None::<Seq<char>>));
        r
    }

    /// A scene equal to this one.
    pub fn duplicate(&self) -> (r: Scene)
        ensures
            r@ == self@,
    {
        Scene {
            bg_path: copy_text(&self.bg_path),
            bgm_path: copy_text(&self.bgm_path),
            char_paths: copy_texts(&self.char_paths),
            char_anims: copy_texts(&self.char_anims),
            speaker_name: self.speaker_name.clone(),
            speaker_aff: self.speaker_aff.clone(),
            dialogue_content: self.dialogue_content.clone(),
        }
    }
}

} // verus!
