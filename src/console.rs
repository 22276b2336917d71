//! The operator console grammar:
//!
//! ```text
//! LOAD <slot:0-4> <path>
//! ANIM <slot:0-4> <clip_name> [loop:true|false]   (loop defaults to true)
//! BGM <path>    SE <path>    STOP
//! TALK <name>|<affiliation>|<content>
//! BG <path>
//! ```
//!
//! Keywords ignore ASCII case. A path is the rest of the line with its double
//! quotes removed, and must not come out empty. A line that does not fit is
//! malformed and yields nothing.
use vstd::prelude::*;
use vstd::string::*;
use crate::SLOT_COUNT;
use crate::text::{
    all_digits, chars_of, is_space, same_ignoring_case, trim_end, digits_value, find_char, find_char_from, is_digit, is_keyword,
    lemma_digits_value_prefix, skip_spaces, skip_spaces_from, starts_with_keyword,
    starts_with_keyword_exec, strip_quotes, trim_text, trimmed, unquoted, word_end,
    word_end_from,
};

verus! {

/// A well-formed console line.
pub enum ConsoleCommand {
    Load { slot: usize, path: String },
    Anim { slot: usize, clip: String, looping: bool },
    Bgm { path: String },
    Se { path: String },
    Stop,
    Talk { name: String, affiliation: String, content: String },
    Bg { path: String },
}

/// What a console line asks for, over character sequences.
pub enum ConsoleAction {
    Load { slot: nat, path: Seq<char> },
    Anim { slot: nat, clip: Seq<char>, looping: bool },
    Bgm { path: Seq<char> },
    Se { path: Seq<char> },
    Stop,
    Talk { name: Seq<char>, affiliation: Seq<char>, content: Seq<char> },
    Bg { path: Seq<char> },
}

impl View for ConsoleCommand {
    type V = ConsoleAction;

    open spec fn view(&self) -> ConsoleAction {
        match self {
            ConsoleCommand::Load { slot, path } => ConsoleAction::Load {
                slot: *slot as nat,
                path: path@,
            },
            ConsoleCommand::Anim { slot, clip, looping } => ConsoleAction::Anim {
                slot: *slot as nat,
                clip: clip@,
                looping: *looping,
            },
            ConsoleCommand::Bgm { path } => ConsoleAction::Bgm { path: path@ },
            ConsoleCommand::Se { path } => ConsoleAction::Se { path: path@ },
            ConsoleCommand::Stop => ConsoleAction::Stop,
            ConsoleCommand::Talk { name, affiliation, content } => ConsoleAction::Talk {
                name: name@,
                affiliation: affiliation@,
                content: content@,
            },
            ConsoleCommand::Bg { path } => ConsoleAction::Bg { path: path@ },
        }
    }
}

pub open spec fn action_of(r: Option<ConsoleCommand>) -> Option<ConsoleAction> {
    match r {
        Some(c) => Some(c@),
        None => None,
    }
}

pub open spec fn kw_load() -> Seq<char> {
    seq!['l', 'o', 'a', 'd', ' ']
}

pub open spec fn kw_anim() -> Seq<char> {
    seq!['a', 'n', 'i', 'm', ' ']
}

pub open spec fn kw_bgm() -> Seq<char> {
    seq!['b', 'g', 'm', ' ']
}

pub open spec fn kw_se() -> Seq<char> {
    seq!['s', 'e', ' ']
}

pub open spec fn kw_stop() -> Seq<char> {
    seq!['s', 't', 'o', 'p']
}

pub open spec fn kw_talk() -> Seq<char> {
    seq!['t', 'a', 'l', 'k', ' ']
}

pub open spec fn kw_bg() -> Seq<char> {
    seq!['b', 'g', ' ']
}

pub open spec fn kw_true() -> Seq<char> {
    seq!['t', 'r', 'u', 'e']
}

/// The slot that a word names: decimal digits writing a number below
/// `SLOT_COUNT`.
pub open spec fn slot_of(w: Seq<char>) -> Option<nat> {
    if w.len() > 0 && all_digits(w) && digits_value(w) < SLOT_COUNT {
        Some(digits_value(w))
    } else {
        None
    }
}

/// The path argument that starts at `from` in the trimmed line `t`.
pub open spec fn path_arg(t: Seq<char>, from: int) -> Seq<char> {
    strip_quotes(t.subrange(skip_spaces(t, from), t.len() as int))
}

pub open spec fn parse_load(t: Seq<char>) -> Option<ConsoleAction> {
    let i1 = skip_spaces(t, 5);
    let i2 = word_end(t, i1);
    let path = path_arg(t, i2);
    match slot_of(t.subrange(i1, i2)) {
        Some(slot) => if path.len() > 0 {
            Some(ConsoleAction::Load { slot, path })
        } else {
            None
        },
        None => None,
    }
}

pub open spec fn parse_anim(t: Seq<char>) -> Option<ConsoleAction> {
    let i1 = skip_spaces(t, 5);
    let i2 = word_end(t, i1);
    let i3 = skip_spaces(t, i2);
    let i4 = word_end(t, i3);
    let i5 = skip_spaces(t, i4);
    let i6 = word_end(t, i5);
    let looping = i5 == i6 || is_keyword(t.subrange(i5, i6), kw_true());
    match slot_of(t.subrange(i1, i2)) {
        Some(slot) => if i3 < i4 {
            Some(ConsoleAction::Anim { slot, clip: t.subrange(i3, i4), looping })
        } else {
            None
        },
        None => None,
    }
}

pub open spec fn parse_talk(t: Seq<char>) -> Option<ConsoleAction> {
    let body = t.subrange(5, t.len() as int);
    let p1 = find_char(body, '|', 0);
    let p2 = find_char(body, '|', p1 + 1);
    let p3 = find_char(body, '|', p2 + 1);
    if p1 < body.len() && p2 < body.len() && p3 == body.len() {
        Some(
            ConsoleAction::Talk {
                name: body.subrange(0, p1),
                affiliation: body.subrange(p1 + 1, p2),
                content: body.subrange(p2 + 1, body.len() as int),
            },
        )
    } else {
        None
    }
}

/// A path command whose keyword takes `k` characters.
pub open spec fn parse_path(t: Seq<char>, k: int) -> Option<Seq<char>> {
    let path = path_arg(t, k);
    if path.len() > 0 {
        Some(path)
    } else {
        None
    }
}

/// What the console line `s` asks for, or `None` where it is malformed.
pub open spec fn parse_console_spec(s: Seq<char>) -> Option<ConsoleAction> {
    let t = trimmed(s);
    if t.len() == 0 {
        None
    } else if starts_with_keyword(t, kw_load()) {
        parse_load(t)
    } else if starts_with_keyword(t, kw_anim()) {
        parse_anim(t)
    } else if starts_with_keyword(t, kw_bgm()) {
        match parse_path(t, 4) {
            Some(path) => Some(ConsoleAction::Bgm { path }),
            None => None,
        }
    } else if starts_with_keyword(t, kw_se()) {
        match parse_path(t, 3) {
            Some(path) => Some(ConsoleAction::Se { path }),
            None => None,
        }
    } else if is_keyword(t, kw_stop()) {
        Some(ConsoleAction::Stop)
    } else if starts_with_keyword(t, kw_talk()) {
        parse_talk(t)
    } else if starts_with_keyword(t, kw_bg()) {
        match parse_path(t, 3) {
            Some(path) => Some(ConsoleAction::Bg { path }),
            None => None,
        }
    } else {
        None
    }
}

/// Every line `LOAD <d> <path>` parses to a load of slot `d` with the path's
/// double quotes removed: the keyword in any ASCII case, one space after it,
/// a single digit below 5, one space, and a path that neither starts nor
/// ends with white space and is not made of quotes alone.
pub proof fn lemma_load_line(kw: Seq<char>, d: char, path: Seq<char>)
    requires
        is_keyword(kw, seq!['l', 'o', 'a', 'd']),
        48 <= (d as u32) && (d as u32) < 48 + SLOT_COUNT,
        path.len() > 0,
        !is_space(path[0]),
        !is_space(path.last()),
        strip_quotes(path).len() > 0,
    ensures
        parse_console_spec(kw + seq![' ', d, ' '] + path) == Some(
            ConsoleAction::Load { slot: ((d as u32) - 48) as nat, path: strip_quotes(path) },
        ),
{
    let line = kw + seq![' ', d, ' '] + path;
    let n = line.len() as int;
    assert(same_ignoring_case(kw[0], 'l'));
    assert(line[0] == kw[0]);
    assert(!is_space(line[0]));
    assert(skip_spaces(line, 0) == 0);
    assert(line[n - 1] == path.last());
    assert(trim_end(line, 0, n) == n);
    assert(line.subrange(0, n) =~= line);
    let t = trimmed(line);
    assert(t == line);
    assert(t[4] == ' ' && t[5] == d && t[6] == ' ' && t[7] == path[0]);
    assert(starts_with_keyword(t, kw_load())) by {
        assert forall|i: int| 0 <= i < 5 implies same_ignoring_case(t[i], kw_load()[i]) by {
            if i < 4 {
                assert(t[i] == kw[i]);
                assert(same_ignoring_case(kw[i], seq!['l', 'o', 'a', 'd'][i]));
            }
        }
    }
    assert(skip_spaces(t, 5) == 5);
    assert(word_end(t, 6) == 6);
    assert(word_end(t, 5) == 6);
    assert(skip_spaces(t, 7) == 7);
    assert(skip_spaces(t, 6) == 7);
    assert(t.subrange(7, n) =~= path);
    let w = t.subrange(5, 6);
    assert(w =~= seq![d]);
    assert(w.drop_last() =~= Seq::<char>::empty());
    assert(digits_value(Seq::<char>::empty()) == 0);
    assert(digits_value(w) == ((d as u32) - 48) as nat);
    assert(all_digits(w));
}

/// The slot named by `t[a..b]`.
fn slot_word(t: &Vec<char>, a: usize, b: usize) -> (r: Option<usize>)
    requires
        a <= b <= t.len(),
    ensures
        match slot_of(t@.subrange(a as int, b as int)) {
            Some(n) => r == Some(n as usize),
            None => r is None,
        },
{
    let ghost w = t@.subrange(a as int, b as int);
    if a == b {
        return None;
    }
    let mut v: usize = 0;
    let mut k = a;
    while k < b
        invariant
            a <= k <= b <= t.len(),
            w == t@.subrange(a as int, b as int),
            all_digits(t@.subrange(a as int, k as int)),
            v as nat == digits_value(t@.subrange(a as int, k as int)),
            v < SLOT_COUNT,
        decreases b - k,
    {
        let c = t[k];
        let u = c as u32;
        if u < 48 || u > 57 {
            assert(!is_digit(w[k - a]));
            return None;
        }
        let ghost prefix = t@.subrange(a as int, k + 1);
        assert(prefix.drop_last() =~= t@.subrange(a as int, k as int));
        v = v * 10 + (u - 48) as usize;
        k += 1;
        if v >= SLOT_COUNT {
            proof {
                if all_digits(w) {
                    assert(w.subrange(0, k - a) =~= prefix);
                    lemma_digits_value_prefix(w, k - a);
                }
            }
            return None;
        }
    }
    assert(t@.subrange(a as int, k as int) =~= w);
    Some(v)
}

fn load_line(text: &str, t: &Vec<char>) -> (r: Option<ConsoleCommand>)
    requires
        t@ == text@,
        t.len() >= 5,
    ensures
        action_of(r) == parse_load(t@),
{
    let i1 = skip_spaces_from(t, 5);
    let i2 = word_end_from(t, i1);
    let i3 = skip_spaces_from(t, i2);
    let path = unquoted(text, t, i3, t.len());
    match slot_word(t, i1, i2) {
        Some(slot) => if path.unicode_len() > 0 {
            Some(ConsoleCommand::Load { slot, path })
        } else {
            None
        },
        None => None,
    }
}

fn anim_line(t: &Vec<char>, text: &str) -> (r: Option<ConsoleCommand>)
    requires
        t@ == text@,
        t.len() >= 5,
    ensures
        action_of(r) == parse_anim(t@),
{
    let i1 = skip_spaces_from(t, 5);
    let i2 = word_end_from(t, i1);
    let i3 = skip_spaces_from(t, i2);
    let i4 = word_end_from(t, i3);
    let i5 = skip_spaces_from(t, i4);
    let i6 = word_end_from(t, i5);
    let looping = if i5 == i6 {
        true
    } else if i6 - i5 == 4 {
        let word = chars_of(text.substring_char(i5, i6));
        starts_with_keyword_exec(&word, &vec!['t', 'r', 'u', 'e'])
    } else {
        false
    };
    match slot_word(t, i1, i2) {
        Some(slot) => if i3 < i4 {
            let clip = text.substring_char(i3, i4).to_owned();
            Some(ConsoleCommand::Anim { slot, clip, looping })
        } else {
            None
        },
        None => None,
    }
}

fn talk_line(t: &Vec<char>, text: &str) -> (r: Option<ConsoleCommand>)
    requires
        t@ == text@,
        t.len() >= 5,
    ensures
        action_of(r) == parse_talk(t@),
{
    let body_text = text.substring_char(5, t.len());
    let body = chars_of(body_text);
    let n = body.len();
    let p1 = find_char_from(&body, '|', 0);
    if p1 == n {
        return None;
    }
    let p2 = find_char_from(&body, '|', p1 + 1);
    if p2 == n {
        return None;
    }
    let p3 = find_char_from(&body, '|', p2 + 1);
    if p3 != n {
        return None;
    }
    Some(
        ConsoleCommand::Talk {
            name: body_text.substring_char(0, p1).to_owned(),
            affiliation: body_text.substring_char(p1 + 1, p2).to_owned(),
            content: body_text.substring_char(p2 + 1, n).to_owned(),
        },
    )
}

/// The path argument of a path command whose keyword takes `k` characters.
fn path_line(t: &Vec<char>, text: &str, k: usize) -> (r: Option<String>)
    requires
        t@ == text@,
        k <= t.len(),
    ensures
        match parse_path(t@, k as int) {
            Some(p) => r matches Some(s) && s@ == p,
            None => r is None,
        },
{
    let from = skip_spaces_from(t, k);
    let path = unquoted(text, t, from, t.len());
    if path.unicode_len() > 0 {
        Some(path)
    } else {
        None
    }
}

/// Parses one console line; `None` for a blank or malformed line.
pub fn parse_console(input: &str) -> (r: Option<ConsoleCommand>)
    ensures
        action_of(r) == parse_console_spec(input@),
{
    let text = trim_text(input);
    let t = chars_of(text);
    if t.len() == 0 {
        return None;
    }
    if starts_with_keyword_exec(&t, &vec!['l', 'o', 'a', 'd', ' ']) {
        return load_line(text, &t);
    }
    if starts_with_keyword_exec(&t, &vec!['a', 'n', 'i', 'm', ' ']) {
        return anim_line(&t, text);
    }
    if starts_with_keyword_exec(&t, &vec!['b', 'g', 'm', ' ']) {
        return match path_line(&t, text, 4) {
            Some(path) => Some(ConsoleCommand::Bgm { path }),
            None => None,
        };
    }
    if starts_with_keyword_exec(&t, &vec!['s', 'e', ' ']) {
        return match path_line(&t, text, 3) {
            Some(path) => Some(ConsoleCommand::Se { path }),
            None => None,
        };
    }
    if t.len() == 4 && starts_with_keyword_exec(&t, &vec!['s', 't', 'o', 'p']) {
        return Some(ConsoleCommand::Stop);
    }
    if starts_with_keyword_exec(&t, &vec!['t', 'a', 'l', 'k', ' ']) {
        return talk_line(&t, text);
    }
    if starts_with_keyword_exec(&t, &vec!['b', 'g', ' ']) {
        return match path_line(&t, text, 3) {
            Some(path) => Some(ConsoleCommand::Bg { path }),
            None => None,
        };
    }
    None
}

} // verus!
