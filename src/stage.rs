//! The scene state owned by the frame loop, and its consumption of command
//! bus events: every cross-thread change of the stage goes through `apply`.
use vstd::prelude::*;
use vstd::string::*;
use crate::SLOT_COUNT;
use crate::bus::{Command, Effect, EffectModel, console_action_of};
use crate::console::{ConsoleAction, lemma_load_line, parse_console, parse_console_spec};
use crate::text::{is_keyword, is_space, strip_quotes, trim_text, trimmed};
use crate::schedule::{Scheduler, advanced, map_slots_here};
use crate::scenario::{Scene, SceneModel, scenes_view};
use crate::typewriter::{Typewriter, TypewriterModel};

verus! {

/// The frame loop's scene state: five character slots, the background, the
/// scenario being edited with its current scene, the dialogue reveal, the
/// console log, and whether audio output is available.
pub struct Stage<C, B> {
    slots: Vec<Option<C>>,
    background: Option<B>,
    scenes: Vec<Scene>,
    current: usize,
    reveal: Typewriter,
    logs: Vec<String>,
    audio: bool,
}

pub struct StageModel<C, B> {
    pub slots: Seq<Option<C>>,
    pub background: Option<B>,
    pub scenes: Seq<SceneModel>,
    pub current: nat,
    pub reveal: TypewriterModel,
    pub logs: Seq<Seq<char>>,
    pub audio: bool,
}

/// The log line that records a load request.
pub open spec fn load_note(path: Seq<char>) -> Seq<char> {
    "[解析] "@ + path
}

/// The log line that echoes a console line.
pub open spec fn echo_note(line: Seq<char>) -> Seq<char> {
    "> "@ + line
}

impl<C, B> StageModel<C, B> {
    pub open spec fn wf(self) -> bool {
        &&& self.slots.len() == SLOT_COUNT
        &&& self.scenes.len() > 0
        &&& self.current < self.scenes.len()
    }

    pub open spec fn current_scene(self) -> SceneModel {
        self.scenes[self.current as int]
    }

    /// The model with the current scene replaced by `s`.
    pub open spec fn with_scene(self, s: SceneModel) -> StageModel<C, B> {
        StageModel { scenes: self.scenes.update(self.current as int, s), ..self }
    }

    /// The reveal retargeted at the current scene's dialogue.
    pub open spec fn synced(self) -> StageModel<C, B> {
        StageModel {
            reveal: TypewriterModel { text: self.current_scene().dialogue_content, ..self.reveal },
            ..self
        }
    }

    /// `synced`, then the whole text shown.
    pub open spec fn synced_shown(self) -> StageModel<C, B> {
        let s = self.synced();
        StageModel { reveal: TypewriterModel { visible: s.reveal.text.len(), ..s.reveal }, ..s }
    }

    /// The state after consuming `cmd`.
    pub open spec fn after(self, cmd: Command<C, B>) -> StageModel<C, B> {
        match cmd {
            Command::Dialogue { name, affiliation, content } => {
                let s = SceneModel {
                    speaker_name: name@,
                    speaker_aff: affiliation@,
                    dialogue_content: content@,
                    ..self.current_scene()
                };
                let m = self.with_scene(s);
                StageModel { reveal: TypewriterModel { text: content@, visible: 0, ..m.reveal }, ..m }
            },
            Command::RequestLoad { slot, path } => if slot < SLOT_COUNT {
                StageModel { logs: self.logs.push(load_note(path@)), ..self }
            } else {
                self
            },
            Command::LoadSuccess { slot, character } => if slot < SLOT_COUNT {
                StageModel { slots: self.slots.update(slot as int, Some(character)), ..self }
            } else {
                self
            },
            Command::RemoveCharacter { slot } => if slot < SLOT_COUNT {
                StageModel { slots: self.slots.update(slot as int, None), ..self }
            } else {
                self
            },
            Command::LoadBackground { path } => self.with_scene(
                SceneModel { bg_path: Some(path@), ..self.current_scene() },
            ),
            Command::LoadBackgroundSuccess { image } => StageModel {
                background: Some(image),
                ..self
            },
            Command::PlayBgm { path } => self.with_scene(
                SceneModel { bgm_path: Some(path@), ..self.current_scene() },
            ),
            Command::Log { message } => StageModel { logs: self.logs.push(message@), ..self },
            Command::PlaySe { .. } => self,
            Command::AudioReady { .. } => self,
            Command::StopBgm => self,
            Command::SetAnimation { .. } => self,
        }
    }

    /// The effect that consuming `cmd` asks for.
    pub open spec fn effect_of(self, cmd: Command<C, B>) -> EffectModel {
        match cmd {
            Command::RequestLoad { slot, path } => if slot < SLOT_COUNT {
                EffectModel::SpawnCharacterLoad { slot: slot as nat, path: path@ }
            } else {
                EffectModel::Nothing
            },
            Command::LoadBackground { path } => EffectModel::SpawnBackgroundDecode { path: path@ },
            Command::PlayBgm { path } => EffectModel::ReadAudio { path: path@, looping: true },
            Command::PlaySe { path } => EffectModel::ReadAudio { path: path@, looping: false },
            Command::AudioReady { data, looping } => if self.audio {
                EffectModel::PlayAudio { data: data@, looping }
            } else {
                EffectModel::Nothing
            },
            Command::StopBgm => if self.audio {
                EffectModel::StopMusic
            } else {
                EffectModel::Nothing
            },
            Command::SetAnimation { slot, clip, looping } => if slot < SLOT_COUNT
                && self.slots[slot as int] is Some {
                EffectModel::SetAnimation { slot: slot as nat, clip: clip@, looping }
            } else {
                EffectModel::Nothing
            },
            _ => EffectModel::Nothing,
        }
    }
}

/// A well-formed `LOAD` line becomes a request that starts exactly one loader,
/// for that slot and path, and leaves every slot as it was; consuming the
/// loader's success then puts exactly the loaded character in that slot,
/// whatever the slot held before, and changes no other slot.
pub proof fn lemma_load_fills_slot<C, B>(
    m: StageModel<C, B>,
    line: Seq<char>,
    slot: usize,
    path: Seq<char>,
    request: Command<C, B>,
    character: C,
)
    requires
        m.wf(),
        parse_console_spec(line) == Some(ConsoleAction::Load { slot: slot as nat, path }),
        console_action_of(request) == parse_console_spec(line),
    ensures
        m.after(request).wf(),
        m.after(request).slots == m.slots,
        m.effect_of(request) == (EffectModel::SpawnCharacterLoad { slot: slot as nat, path }),
        m.after(request).after(Command::LoadSuccess { slot, character }).wf(),
        m.after(request).after(Command::LoadSuccess { slot, character }).slots[slot as int]
            == Some(character),
        forall|j: int|
            0 <= j < SLOT_COUNT && j != slot ==> m.after(request).after(
                Command::LoadSuccess { slot, character },
            ).slots[j] == m.slots[j],
{
    assert(slot < SLOT_COUNT);
    match request {
        Command::RequestLoad { slot: s, path: p } => {
            assert(s == slot && p@ == path);
        },
        _ => {},
    }
}

/// For every line `LOAD <d> <path>` of the shape `lemma_load_line` names:
/// the request it becomes starts one loader for slot `d` and that path, and
/// once the loader's success is consumed slot `d` holds exactly the loaded
/// character while every other slot is as before.
pub proof fn lemma_load_line_fills_slot<C, B>(
    m: StageModel<C, B>,
    kw: Seq<char>,
    d: char,
    path: Seq<char>,
    request: Command<C, B>,
    character: C,
)
    requires
        m.wf(),
        is_keyword(kw, seq!['l', 'o', 'a', 'd']),
        48 <= (d as u32) && (d as u32) < 48 + SLOT_COUNT,
        path.len() > 0,
        !is_space(path[0]),
        !is_space(path.last()),
        strip_quotes(path).len() > 0,
        console_action_of(request) == parse_console_spec(kw + seq![' ', d, ' '] + path),
    ensures
        m.effect_of(request) == (EffectModel::SpawnCharacterLoad {
            slot: ((d as u32) - 48) as nat,
            path: strip_quotes(path),
        }),
        m.after(request).slots == m.slots,
        m.after(request).after(
            Command::LoadSuccess { slot: ((d as u32) - 48) as usize, character },
        ).slots[(d as u32) - 48] == Some(character),
        forall|j: int|
            0 <= j < SLOT_COUNT && j != (d as u32) - 48 ==> m.after(request).after(
                Command::LoadSuccess { slot: ((d as u32) - 48) as usize, character },
            ).slots[j] == m.slots[j],
{
    lemma_load_line(kw, d, path);
    lemma_load_fills_slot(
        m,
        kw + seq![' ', d, ' '] + path,
        ((d as u32) - 48) as usize,
        strip_quotes(path),
        request,
        character,
    );
}

/// Two loads into one slot, their successes consumed one after the other,
/// leave that slot holding exactly the character of the success consumed
/// last, whole, and no other slot changed.
pub proof fn lemma_last_load_wins<C, B>(m: StageModel<C, B>, slot: usize, earlier: C, later: C)
    requires
        m.wf(),
        slot < SLOT_COUNT,
    ensures
        m.after(Command::LoadSuccess { slot, character: earlier }).after(
            Command::LoadSuccess { slot, character: later },
        ).wf(),
        m.after(Command::LoadSuccess { slot, character: earlier }).after(
            Command::LoadSuccess { slot, character: later },
        ).slots[slot as int] == Some(later),
        forall|j: int|
            0 <= j < SLOT_COUNT && j != slot ==> m.after(
                Command::LoadSuccess { slot, character: earlier },
            ).after(Command::LoadSuccess { slot, character: later }).slots[j] == m.slots[j],
{
}

impl<C, B> View for Stage<C, B> {
    type V = StageModel<C, B>;

    closed spec fn view(&self) -> StageModel<C, B> {
        StageModel {
            slots: self.slots@,
            background: self.background,
            scenes: scenes_view(self.scenes@),
            current: self.current as nat,
            reveal: self.reveal@,
            logs: Seq::new(self.logs@.len(), |i: int| self.logs@[i]@),
            audio: self.audio,
        }
    }
}

impl<C, B> Stage<C, B> {
    /// Five slots, at least one scene, and a current scene among them.
    pub closed spec fn wf(&self) -> bool {
        &&& self.slots.len() == SLOT_COUNT
        &&& self.scenes.len() > 0
        &&& self.current < self.scenes.len()
    }

    /// A well-formed stage has a well-formed model.
    pub proof fn lemma_wf(&self)
        requires
            self.wf(),
        ensures
            self@.wf(),
    {
    }

    /// An empty stage showing `first` as its only scene, its dialogue not yet
    /// revealed.
    pub fn new(first: Scene, audio_enabled: bool) -> (r: Stage<C, B>)
        ensures
            r.wf(),
            r@.slots == Seq::new(SLOT_COUNT as nat, |i: int| None::<C>),
            r@.background is None,
            r@.scenes == seq![first@],
            r@.current == 0,
            r@.reveal == (TypewriterModel { text: first@.dialogue_content, visible: 0, timer: 0 }),
            r@.logs.len() == 0,
            r@.audio == audio_enabled,
    {
        let reveal = Typewriter::new(first.dialogue_content.clone());
        let mut scenes: Vec<Scene> = Vec::new();
        scenes.push(first);
        let r = Stage {
            slots: vec![None, None, None, None, None],
            background: None,
            scenes,
            current: 0,
            reveal,
            logs: Vec::new(),
            audio: audio_enabled,
        };
        assert(r@.slots =~= Seq::new(SLOT_COUNT as nat, |i: int| None::<C>));
        assert(r@.scenes =~= seq![first@]);
        r
    }

    /// Consumes one bus event: changes the state as `after` says and returns
    /// the effect that `effect_of` names.
    pub fn apply(&mut self, cmd: Command<C, B>) -> (r: Effect)
        requires
            old(self).wf(),
        ensures
            final(self).wf(),
            final(self)@ == old(self)@.after(cmd),
            r@ == old(self)@.effect_of(cmd),
    {
        let ghost cmd0 = cmd;
        let r = match cmd {
            Command::Dialogue { name, affiliation, content } => {
                let text = content.clone();
                let cur = self.current;
                let mut scene = Scene::new();
                self.scenes.set_and_swap(cur, &mut scene);
                scene.speaker_name = name;
                scene.speaker_aff = affiliation;
                scene.dialogue_content = content;
                self.scenes.set(cur, scene);
                self.reveal.restart(text);
                assert(self@.scenes =~= old(self)@.after(cmd0).scenes);
                assert(self@.logs =~= old(self)@.logs);
                Effect::Nothing
            },
            Command::RequestLoad { slot, path } => {
                if slot < SLOT_COUNT {
                    let mut note = "[解析] ".to_owned();
                    note.append(path.as_str());
                    self.logs.push(note);
                    assert(self@.logs =~= old(self)@.after(cmd0).logs);
                    Effect::SpawnCharacterLoad { slot, path }
                } else {
                    Effect::Nothing
                }
            },
            Command::LoadSuccess { slot, character } => {
                if slot < SLOT_COUNT {
                    self.slots.set(slot, Some(character));
                }
                Effect::Nothing
            },
            Command::RemoveCharacter { slot } => {
                if slot < SLOT_COUNT {
                    self.slots.set(slot, None);
                }
                Effect::Nothing
            },
            Command::LoadBackground { path } => {
                let cur = self.current;
                let mut scene = Scene::new();
                self.scenes.set_and_swap(cur, &mut scene);
                scene.bg_path = Some(path.clone());
                self.scenes.set(cur, scene);
                assert(self@.scenes =~= old(self)@.after(cmd0).scenes);
                Effect::SpawnBackgroundDecode { path }
            },
            Command::LoadBackgroundSuccess { image } => {
                self.background = Some(image);
                Effect::Nothing
            },
            Command::PlayBgm { path } => {
                let cur = self.current;
                let mut scene = Scene::new();
                self.scenes.set_and_swap(cur, &mut scene);
                scene.bgm_path = Some(path.clone());
                self.scenes.set(cur, scene);
                assert(self@.scenes =~= old(self)@.after(cmd0).scenes);
                Effect::ReadAudio { path, looping: true }
            },
            Command::PlaySe { path } => Effect::ReadAudio { path, looping: false },
            Command::AudioReady { data, looping } => {
                if self.audio {
                    Effect::PlayAudio { data, looping }
                } else {
                    Effect::Nothing
                }
            },
            Command::StopBgm => {
                if self.audio {
                    Effect::StopMusic
                } else {
                    Effect::Nothing
                }
            },
            Command::SetAnimation { slot, clip, looping } => {
                if slot < SLOT_COUNT && self.slots[slot].is_some() {
                    Effect::SetAnimation { slot, clip, looping }
                } else {
                    Effect::Nothing
                }
            },
            Command::Log { message } => {
                self.logs.push(message);
                assert(self@.logs =~= old(self)@.after(cmd0).logs);
                Effect::Nothing
            },
        };
        r
    }

    /// Makes scene `index` current, retargets the reveal at its dialogue and
    /// shows that dialogue whole.
    fn show_scene(&mut self, index: usize)
        requires
            old(self).wf(),
            index < old(self)@.scenes.len(),
        ensures
            final(self).wf(),
            final(self)@ == (StageModel { current: index as nat, ..old(self)@ }).synced_shown(),
    {
        self.current = index;
        let text = self.scenes[index].dialogue_content.clone();
        self.reveal.retarget(text);
        self.reveal.reveal_all();
    }

    /// Steps back one scene, if there is one before the current scene.
    pub fn previous_scene(&mut self)
        requires
            old(self).wf(),
        ensures
            final(self).wf(),
            final(self)@ == if old(self)@.current > 0 {
                (StageModel { current: (old(self)@.current - 1) as nat, ..old(self)@ }).synced_shown()
            } else {
                old(self)@
            },
    {
        if self.current > 0 {
            self.show_scene(self.current - 1);
        }
    }

    /// Steps on one scene, if there is one after the current scene.
    pub fn next_scene(&mut self)
        requires
            old(self).wf(),
        ensures
            final(self).wf(),
            final(self)@ == if old(self)@.current + 1 < old(self)@.scenes.len() {
                (StageModel { current: old(self)@.current + 1, ..old(self)@ }).synced_shown()
            } else {
                old(self)@
            },
    {
        if self.current + 1 < self.scenes.len() {
            self.show_scene(self.current + 1);
        }
    }

    /// Jumps to scene `index`, or to the last scene where there are fewer.
    pub fn go_to_scene(&mut self, index: usize)
        requires
            old(self).wf(),
        ensures
            final(self).wf(),
            final(self)@ == (StageModel {
                current: if index < old(self)@.scenes.len() {
                    index as nat
                } else {
                    (old(self)@.scenes.len() - 1) as nat
                },
                ..old(self)@
            }).synced_shown(),
    {
        let last = self.scenes.len() - 1;
        let target = if index < last {
            index
        } else {
            last
        };
        self.show_scene(target);
    }

    /// Inserts after the current scene a copy of it with empty dialogue, and
    /// makes the copy current.
    pub fn insert_scene(&mut self)
        requires
            old(self).wf(),
        ensures
            final(self).wf(),
            final(self)@ == (StageModel {
                scenes: old(self)@.scenes.insert(
                    old(self)@.current + 1 as int,
                    SceneModel { dialogue_content: Seq::empty(), ..old(self)@.current_scene() },
                ),
                current: old(self)@.current + 1,
                ..old(self)@
            }).synced(),
    {
        let cur = self.current;
        let mut copy = self.scenes[cur].duplicate();
        copy.dialogue_content = String::new();
        self.scenes.insert(cur + 1, copy);
        self.current = cur + 1;
        self.reveal.retarget(String::new());
        assert(self@.scenes =~= old(self)@.scenes.insert(
            old(self)@.current + 1 as int,
            SceneModel { dialogue_content: Seq::empty(), ..old(self)@.current_scene() },
        ));
        assert(self@.logs =~= old(self)@.logs);
    }

    /// Deletes the current scene, unless it is the only one; the scene that
    /// takes its place, or the new last scene, becomes current.
    pub fn delete_scene(&mut self)
        requires
            old(self).wf(),
        ensures
            final(self).wf(),
            final(self)@ == if old(self)@.scenes.len() > 1 {
                (StageModel {
                    scenes: old(self)@.scenes.remove(old(self)@.current as int),
                    current: if old(self)@.current < old(self)@.scenes.len() - 1 {
                        old(self)@.current
                    } else {
                        (old(self)@.scenes.len() - 2) as nat
                    },
                    ..old(self)@
                }).synced()
            } else {
                old(self)@
            },
    {
        if self.scenes.len() > 1 {
            let cur = self.current;
            self.scenes.remove(cur);
            let last = self.scenes.len() - 1;
            if cur > last {
                self.current = last;
            }
            let text = self.scenes[self.current].dialogue_content.clone();
            self.reveal.retarget(text);
            assert(self@.scenes =~= old(self)@.scenes.remove(old(self)@.current as int));
            assert(self@.logs =~= old(self)@.logs);
        }
    }

    /// Replaces the scenario with `scenes` and shows its first scene whole;
    /// refuses, leaving the stage as it was, a scenario without scenes.
    pub fn replace_scenario(&mut self, scenes: Vec<Scene>) -> (r: bool)
        requires
            old(self).wf(),
        ensures
            final(self).wf(),
            r == (scenes.len() > 0),
            r ==> final(self)@ == (StageModel {
                scenes: scenes_view(scenes@),
                current: 0,
                ..old(self)@
            }).synced_shown(),
            !r ==> final(self)@ == old(self)@,
    {
        if scenes.len() == 0 {
            return false;
        }
        self.current = 0;
        self.scenes = scenes;
        self.show_scene(0);
        true
    }

    /// Sets the current scene's speaker and dialogue, as the editor does,
    /// without touching the reveal.
    pub fn edit_current_scene(&mut self, name: String, affiliation: String, content: String)
        requires
            old(self).wf(),
        ensures
            final(self).wf(),
            final(self)@ == old(self)@.with_scene(
                SceneModel {
                    speaker_name: name@,
                    speaker_aff: affiliation@,
                    dialogue_content: content@,
                    ..old(self)@.current_scene()
                },
            ),
    {
        let cur = self.current;
        let mut scene = Scene::new();
        self.scenes.set_and_swap(cur, &mut scene);
        scene.speaker_name = name;
        scene.speaker_aff = affiliation;
        scene.dialogue_content = content;
        self.scenes.set(cur, scene);
        assert(self@.scenes =~= old(self)@.with_scene(
            SceneModel {
                speaker_name: name@,
                speaker_aff: affiliation@,
                dialogue_content: content@,
                ..old(self)@.current_scene()
            },
        ).scenes);
        assert(self@.logs =~= old(self)@.logs);
    }

    /// Reveals the current scene's dialogue again from its first character.
    pub fn replay_dialogue(&mut self)
        requires
            old(self).wf(),
        ensures
            final(self).wf(),
            final(self)@ == (StageModel {
                reveal: TypewriterModel {
                    text: old(self)@.current_scene().dialogue_content,
                    visible: 0,
                    ..old(self)@.reveal
                },
                ..old(self)@
            }),
    {
        let text = self.scenes[self.current].dialogue_content.clone();
        self.reveal.restart(text);
    }

    /// One frame of the reveal, while the dialogue box is shown.
    pub fn tick_text(&mut self, dt_micros: u64, showing: bool)
        requires
            old(self).wf(),
        ensures
            final(self).wf(),
            final(self)@ == if showing {
                StageModel { reveal: old(self)@.reveal.ticked(dt_micros as nat), ..old(self)@ }
            } else {
                old(self)@
            },
    {
        if showing {
            self.reveal.tick(dt_micros);
        }
    }

    /// Shows the whole dialogue at once.
    pub fn skip_text(&mut self)
        requires
            old(self).wf(),
        ensures
            final(self).wf(),
            final(self)@ == (StageModel {
                reveal: TypewriterModel { visible: old(self)@.reveal.text.len(), ..old(self)@.reveal },
                ..old(self)@
            }),
    {
        self.reveal.reveal_all();
    }

    /// The dialogue characters on show.
    pub fn shown_text(&self) -> (r: String)
        ensures
            r@ == self@.reveal.shown(),
    {
        self.reveal.shown()
    }

    /// Whether the whole dialogue is on show.
    pub fn text_finished(&self) -> (r: bool)
        ensures
            r == self@.reveal.finished(),
    {
        self.reveal.finished()
    }

    /// Takes one console line: a line that is not blank is echoed to the log,
    /// and a well-formed one becomes the bus event to send.
    pub fn submit_line(&mut self, line: &str) -> (r: Option<Command<C, B>>)
        requires
            old(self).wf(),
        ensures
            final(self).wf(),
            final(self)@ == if trimmed(line@).len() > 0 {
                StageModel { logs: old(self)@.logs.push(echo_note(trimmed(line@))), ..old(self)@ }
            } else {
                old(self)@
            },
            match parse_console_spec(line@) {
                Some(a) => r matches Some(c) && console_action_of(c) == Some(a),
                None => r is None,
            },
    {
        let text = trim_text(line);
        if text.unicode_len() > 0 {
            let mut note = "> ".to_owned();
            note.append(text);
            self.logs.push(note);
            assert(self@.logs =~= old(self)@.logs.push(echo_note(trimmed(line@))));
        }
        match parse_console(line) {
            Some(c) => Some(c.into_command()),
            None => None,
        }
    }

    /// Changes the character in `slot`, if there is one, into what `f` makes
    /// of it; any other slot, or an empty one, stays as it was.
    pub fn update_character<F: FnOnce(C) -> C>(&mut self, slot: usize, f: F)
        requires
            old(self).wf(),
            slot < SLOT_COUNT ==> (old(self)@.slots[slot as int] matches Some(c) ==> f.requires((c,))),
        ensures
            final(self).wf(),
            final(self)@ == (StageModel { slots: final(self)@.slots, ..old(self)@ }),
            final(self)@.slots.len() == SLOT_COUNT,
            forall|i: int| 0 <= i < SLOT_COUNT && i != slot ==> final(self)@.slots[i] == old(self)@.slots[i],
            slot < SLOT_COUNT ==> match old(self)@.slots[slot as int] {
                Some(c) => final(self)@.slots[slot as int] matches Some(d) && f.ensures((c,), d),
                None => final(self)@.slots[slot as int] is None,
            },
    {
        if slot < SLOT_COUNT {
            let mut taken: Option<C> = None;
            self.slots.set_and_swap(slot, &mut taken);
            match taken {
                Some(c) => {
                    let d = f(c);
                    self.slots.set(slot, Some(d));
                },
                None => {},
            }
        }
    }

    /// One frame of pose work: every populated slot goes through `f`, with its
    /// index, on the scheduler's pool, and the call returns once all are done.
    pub fn advance_characters<F: Fn(usize, C) -> C + Sync>(&mut self, scheduler: &Scheduler, f: &F) where
        C: Send,

        requires
            old(self).wf(),
            forall|i: usize, c: C| f.requires((i, c)),
        ensures
            final(self).wf(),
            final(self)@ == (StageModel { slots: final(self)@.slots, ..old(self)@ }),
            advanced(old(self)@.slots, final(self)@.slots, *f),
    {
        let mut taken: Vec<Option<C>> = Vec::new();
        std::mem::swap(&mut self.slots, &mut taken);
        self.slots = scheduler.map_slots(taken, f);
    }

    /// `advance_characters` on the calling thread, one slot after another,
    /// for when no worker pool could be started.
    pub fn advance_characters_here<F: Fn(usize, C) -> C>(&mut self, f: &F)
        requires
            old(self).wf(),
            forall|i: usize, c: C| f.requires((i, c)),
        ensures
            final(self).wf(),
            final(self)@ == (StageModel { slots: final(self)@.slots, ..old(self)@ }),
            advanced(old(self)@.slots, final(self)@.slots, *f),
    {
        let mut taken: Vec<Option<C>> = Vec::new();
        std::mem::swap(&mut self.slots, &mut taken);
        self.slots = map_slots_here(taken, f);
    }

    /// The five character slots.
    pub fn slots(&self) -> (r: &Vec<Option<C>>)
        ensures
            r@ == self@.slots,
    {
        &self.slots
    }

    /// The background, if one has been loaded.
    pub fn background(&self) -> (r: &Option<B>)
        ensures
            *r == self@.background,
    {
        &self.background
    }

    /// The scenes of the scenario.
    pub fn scenes(&self) -> (r: &Vec<Scene>)
        ensures
            scenes_view(r@) == self@.scenes,
    {
        &self.scenes
    }

    /// The index of the current scene.
    pub fn current_index(&self) -> (r: usize)
        ensures
            r == self@.current,
    {
        self.current
    }

    /// The current scene.
    pub fn current_scene(&self) -> (r: &Scene)
        requires
            self.wf(),
        ensures
            r@ == self@.current_scene(),
    {
        &self.scenes[self.current]
    }

    /// The console log, oldest line first.
    pub fn logs(&self) -> (r: &Vec<String>)
        ensures
            r@.len() == self@.logs.len(),
            forall|i: int| 0 <= i < r@.len() ==> r@[i]@ == self@.logs[i],
    {
        &self.logs
    }

    /// Whether audio output is available.
    pub fn audio_enabled(&self) -> (r: bool)
        ensures
            r == self@.audio,
    {
        self.audio
    }
}

} // verus!
