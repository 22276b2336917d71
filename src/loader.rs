//! The decisions of the background loaders: which skeleton files to try, in
//! what order, and which bus event each outcome sends. The loaders
//! themselves read files off the frame thread and never touch it otherwise.
use vstd::prelude::*;
use vstd::string::*;
use crate::bus::Command;

verus! {

/// An on-disk form of a skeleton definition.
#[derive(Debug, PartialEq, Eq, Structural)]
pub enum SkeletonFormat {
    /// The `.skel` binary form.
    Binary,
    /// The `.json` text form.
    Json,
}

/// The forms to try, in order: the binary form first where it exists, then
/// the text form where it exists. An empty list means neither is there.
pub fn skeleton_attempts(binary_exists: bool, json_exists: bool) -> (r: Vec<SkeletonFormat>)
    ensures
        r@ == (if binary_exists {
            seq![SkeletonFormat::Binary]
        } else {
            Seq::empty()
        }) + (if json_exists {
            seq![SkeletonFormat::Json]
        } else {
            Seq::empty()
        }),
{
    let mut r: Vec<SkeletonFormat> = Vec::new();
    if binary_exists {
        r.push(SkeletonFormat::Binary);
    }
    if json_exists {
        r.push(SkeletonFormat::Json);
    }
    proof {
        let a = if binary_exists {
            seq![SkeletonFormat::Binary]
        } else {
            Seq::empty()
        };
        let b = if json_exists {
            seq![SkeletonFormat::Json]
        } else {
            Seq::empty()
        };
        assert(r@ =~= a + b);
    }
    r
}

/// What a loader does after its latest attempt at the skeleton.
#[derive(Debug, PartialEq, Eq, Structural)]
pub enum AttemptStep {
    /// The skeleton was read: stop.
    Done,
    /// Try the form at `index` of the attempt list next.
    Try { index: usize },
    /// Every form failed, or none exists: report the last failure.
    GiveUp,
}

/// The next step of a loader that has made `tried` of its `attempts`
/// attempts, the latest of which `succeeded` or not. Before the first
/// attempt, `tried` is 0 and `succeeded` false.
pub fn next_attempt(attempts: usize, tried: usize, succeeded: bool) -> (r: AttemptStep)
    ensures
        r == if succeeded {
            AttemptStep::Done
        } else if tried < attempts {
            AttemptStep::Try { index: tried }
        } else {
            AttemptStep::GiveUp
        },
{
    if succeeded {
        AttemptStep::Done
    } else if tried < attempts {
        AttemptStep::Try { index: tried }
    } else {
        AttemptStep::GiveUp
    }
}

/// The log line that reports a failed background job.
pub open spec fn error_note(message: Seq<char>) -> Seq<char> {
    "[错误] "@ + message
}

fn error_log<C, B>(message: String) -> (r: Command<C, B>)
    ensures
        r matches Command::Log { message: m } && m@ == error_note(message@),
{
    let mut note = "[错误] ".to_owned();
    note.append(message.as_str());
    Command::Log { message: note }
}

/// The event a character loader sends: the character, bound for `slot`, or
/// a log line naming the failure, with the slot left alone.
pub fn load_outcome<C, B>(slot: usize, result: Result<C, String>) -> (r: Command<C, B>)
    ensures
        match result {
            Ok(c) => r == (Command::LoadSuccess::<C, B> { slot, character: c }),
            Err(e) => r matches Command::Log { message: m } && m@ == error_note(e@),
        },
{
    match result {
        Ok(c) => Command::LoadSuccess { slot, character: c },
        Err(e) => error_log(e),
    }
}

/// The event a background decoder sends.
pub fn background_outcome<C, B>(result: Result<B, String>) -> (r: Command<C, B>)
    ensures
        match result {
            Ok(b) => r == (Command::LoadBackgroundSuccess::<C, B> { image: b }),
            Err(e) => r matches Command::Log { message: m } && m@ == error_note(e@),
        },
{
    match result {
        Ok(b) => Command::LoadBackgroundSuccess { image: b },
        Err(e) => error_log(e),
    }
}

/// The event an audio reader sends; `looping` marks music.
pub fn audio_outcome<C, B>(result: Result<Vec<u8>, String>, looping: bool) -> (r: Command<C, B>)
    ensures
        match result {
            Ok(d) => r matches Command::AudioReady { data, looping: l } && data@ == d@ && l
                == looping,
            Err(e) => r matches Command::Log { message: m } && m@ == error_note(e@),
        },
{
    match result {
        Ok(data) => Command::AudioReady { data, looping },
        Err(e) => error_log(e),
    }
}

} // verus!
