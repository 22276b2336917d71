//! The dialogue text reveal: one more character becomes visible each time the
//! accumulated frame time passes the reveal interval.
use vstd::prelude::*;
use vstd::string::*;

verus! {

/// Time, in microseconds, after which one more character is revealed.
pub const REVEAL_INTERVAL_MICROS: u64 = 30_000;

/// The text being revealed, how many characters of it show, and the time
/// gathered towards the next one.
pub struct Typewriter {
    text: String,
    len: usize,
    visible: usize,
    timer: u64,
}

pub struct TypewriterModel {
    pub text: Seq<char>,
    pub visible: nat,
    pub timer: nat,
}

impl TypewriterModel {
    /// The characters on show: the first `visible` ones, or all of them.
    pub open spec fn shown(self) -> Seq<char> {
        if self.visible <= self.text.len() {
            self.text.subrange(0, self.visible as int)
        } else {
            self.text
        }
    }

    /// The whole text is on show.
    pub open spec fn finished(self) -> bool {
        self.visible >= self.text.len()
    }

    /// One frame of `dt` microseconds: while characters remain hidden, the
    /// time gathers, and once it passes the interval one more character
    /// shows and the gathered time starts again from zero.
    pub open spec fn ticked(self, dt: nat) -> TypewriterModel {
        if self.visible < self.text.len() {
            if self.timer + dt > REVEAL_INTERVAL_MICROS {
                TypewriterModel { visible: self.visible + 1, timer: 0, ..self }
            } else {
                TypewriterModel { timer: self.timer + dt, ..self }
            }
        } else {
            self
        }
    }
}

impl View for Typewriter {
    type V = TypewriterModel;

    closed spec fn view(&self) -> TypewriterModel {
        TypewriterModel { text: self.text@, visible: self.visible as nat, timer: self.timer as nat }
    }
}

impl Typewriter {
    #[verifier::type_invariant]
    spec fn inv(&self) -> bool {
        &&& self.len == self.text@.len()
        &&& self.timer <= REVEAL_INTERVAL_MICROS
    }

    /// `text`, with nothing on show yet.
    pub fn new(text: String) -> (r: Typewriter)
        ensures
            r@ == (TypewriterModel { text: text@, visible: 0, timer: 0 }),
    {
        let len = text.unicode_len();
        Typewriter { text, len, visible: 0, timer: 0 }
    }

    /// Starts revealing `text` from its first character.
    pub fn restart(&mut self, text: String)
        ensures
            final(self)@ == (TypewriterModel { text: text@, visible: 0, ..old(self)@ }),
    {
        proof {
            use_type_invariant(&*self);
        }
        let len = text.unicode_len();
        *self = Typewriter { text, len, visible: 0, timer: self.timer };
    }

    /// Puts `text` in place of the current text, keeping the count on show.
    pub fn retarget(&mut self, text: String)
        ensures
            final(self)@ == (TypewriterModel { text: text@, ..old(self)@ }),
    {
        proof {
            use_type_invariant(&*self);
        }
        let len = text.unicode_len();
        *self = Typewriter { text, len, visible: self.visible, timer: self.timer };
    }

    /// Shows the whole text at once.
    pub fn reveal_all(&mut self)
        ensures
            final(self)@ == (TypewriterModel { visible: old(self)@.text.len(), ..old(self)@ }),
    {
        proof {
            use_type_invariant(&*self);
        }
        self.visible = self.len;
    }

    /// Advances the reveal by one frame of `dt_micros` microseconds.
    pub fn tick(&mut self, dt_micros: u64)
        ensures
            final(self)@ == old(self)@.ticked(dt_micros as nat),
    {
        proof {
            use_type_invariant(&*self);
        }
        if self.visible < self.len {
            if dt_micros > REVEAL_INTERVAL_MICROS - self.timer {
                self.visible = self.visible + 1;
                self.timer = 0;
            } else {
                self.timer = self.timer + dt_micros;
            }
        }
    }

    /// The characters on show.
    pub fn shown(&self) -> (r: String)
        ensures
            r@ == self@.shown(),
    {
        proof {
            use_type_invariant(self);
        }
        if self.visible <= self.len {
            self.text.as_str().substring_char(0, self.visible).to_owned()
        } else {
            self.text.clone()
        }
    }

    /// Whether the whole text is on show.
    pub fn finished(&self) -> (r: bool)
        ensures
            r == self@.finished(),
    {
        proof {
            use_type_invariant(self);
        }
        self.visible >= self.len
    }

    /// The number of characters on show.
    pub fn visible_count(&self) -> (r: usize)
        ensures
            r == self@.visible,
    {
        self.visible
    }
}

} // verus!
