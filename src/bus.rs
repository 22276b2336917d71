//! The events that cross threads on the command bus, and the effects that
//! consuming one asks the frame loop to carry out.
use vstd::prelude::*;
use crate::console::{ConsoleAction, ConsoleCommand};

verus! {

/// An event on the command bus. `C` is a fully constructed character and `B`
/// a ready background, both owned by the event until it is consumed.
pub enum Command<C, B> {
    Dialogue { name: String, affiliation: String, content: String },
    RequestLoad { slot: usize, path: String },
    LoadSuccess { slot: usize, character: C },
    RemoveCharacter { slot: usize },
    LoadBackground { path: String },
    LoadBackgroundSuccess { image: B },
    PlayBgm { path: String },
    PlaySe { path: String },
    AudioReady { data: Vec<u8>, looping: bool },
    StopBgm,
    SetAnimation { slot: usize, clip: String, looping: bool },
    Log { message: String },
}

/// Work that the frame loop carries out after consuming an event.
pub enum Effect {
    Nothing,
    /// Start a loader for the character at `path`, bound for `slot`.
    SpawnCharacterLoad { slot: usize, path: String },
    /// Start decoding the background image at `path`.
    SpawnBackgroundDecode { path: String },
    /// Read the audio file at `path`; music loops, a sound effect does not.
    ReadAudio { path: String, looping: bool },
    /// Play decoded-ready audio bytes.
    PlayAudio { data: Vec<u8>, looping: bool },
    /// Stop the music.
    StopMusic,
    /// Switch the character in `slot` to the clip named `clip`.
    SetAnimation { slot: usize, clip: String, looping: bool },
}

pub enum EffectModel {
    Nothing,
    SpawnCharacterLoad { slot: nat, path: Seq<char> },
    SpawnBackgroundDecode { path: Seq<char> },
    ReadAudio { path: Seq<char>, looping: bool },
    PlayAudio { data: Seq<u8>, looping: bool },
    StopMusic,
    SetAnimation { slot: nat, clip: Seq<char>, looping: bool },
}

impl View for Effect {
    type V = EffectModel;

    open spec fn view(&self) -> EffectModel {
        match self {
            Effect::Nothing => EffectModel::Nothing,
            Effect::SpawnCharacterLoad { slot, path } => EffectModel::SpawnCharacterLoad {
                slot: *slot as nat,
                path: path@,
            },
            Effect::SpawnBackgroundDecode { path } => EffectModel::SpawnBackgroundDecode {
                path: path@,
            },
            Effect::ReadAudio { path, looping } => EffectModel::ReadAudio {
                path: path@,
                looping: *looping,
            },
            Effect::PlayAudio { data, looping } => EffectModel::PlayAudio {
                data: data@,
                looping: *looping,
            },
            Effect::StopMusic => EffectModel::StopMusic,
            Effect::SetAnimation { slot, clip, looping } => EffectModel::SetAnimation {
                slot: *slot as nat,
                clip: clip@,
                looping: *looping,
            },
        }
    }
}

/// The console action that an event stands for, where a console line can
/// ask for it.
pub open spec fn console_action_of<C, B>(cmd: Command<C, B>) -> Option<ConsoleAction> {
    match cmd {
        Command::RequestLoad { slot, path } => Some(
            ConsoleAction::Load { slot: slot as nat, path: path@ },
        ),
        Command::SetAnimation { slot, clip, looping } => Some(
            ConsoleAction::Anim { slot: slot as nat, clip: clip@, looping },
        ),
        Command::PlayBgm { path } => Some(ConsoleAction::Bgm { path: path@ }),
        Command::PlaySe { path } => Some(ConsoleAction::Se { path: path@ }),
        Command::StopBgm => Some(ConsoleAction::Stop),
        Command::Dialogue { name, affiliation, content } => Some(
            ConsoleAction::Talk { name: name@, affiliation: affiliation@, content: content@ },
        ),
        Command::LoadBackground { path } => Some(ConsoleAction::Bg { path: path@ }),
        _ => None,
    }
}

impl ConsoleCommand {
    /// The bus event that this console line sends.
    pub fn into_command<C, B>(self) -> (r: Command<C, B>)
        ensures
            console_action_of(r) == Some(self@),
    {
        match self {
            ConsoleCommand::Load { slot, path } => Command::RequestLoad { slot, path },
            ConsoleCommand::Anim { slot, clip, looping } => Command::SetAnimation {
                slot,
                clip,
                looping,
            },
            ConsoleCommand::Bgm { path } => Command::PlayBgm { path },
            ConsoleCommand::Se { path } => Command::PlaySe { path },
            ConsoleCommand::Stop => Command::StopBgm,
            ConsoleCommand::Talk { name, affiliation, content } => Command::Dialogue {
                name,
                affiliation,
                content,
            },
            ConsoleCommand::Bg { path } => Command::LoadBackground { path },
        }
    }
}

} // verus!
