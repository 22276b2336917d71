//! Choosing among a character's animation clips by name or by stepping
//! through them.
use vstd::prelude::*;

verus! {

/// Whether some clip in `names` is called `name`.
pub open spec fn has_clip(names: Seq<String>, name: Seq<char>) -> bool {
    exists|j: int| 0 <= j < names.len() && names[j]@ == name
}

/// The first clip called `name`, if any.
pub fn find_clip(names: &Vec<String>, name: &str) -> (r: Option<usize>)
    ensures
        match r {
            Some(i) => {
                &&& i < names.len()
                &&& names@[i as int]@ == name@
                &&& forall|j: int| 0 <= j < i ==> names@[j]@ != name@
            },
            None => !has_clip(names@, name@),
        },
{
    let wanted = name.to_owned();
    let mut i: usize = 0;
    while i < names.len()
        invariant
            wanted@ == name@,
            i <= names.len(),
            forall|j: int| 0 <= j < i ==> names@[j]@ != name@,
        decreases names.len() - i,
    {
        if names[i] == wanted {
            return Some(i);
        }
        i += 1;
    }
    None
}

/// A preview position brought back into range: past the last clip it
/// starts again from the first.
pub fn clip_in_range(index: usize, count: usize) -> (r: usize)
    ensures
        r == if index < count {
            index
        } else {
            0
        },
{
    if index < count {
        index
    } else {
        0
    }
}

/// The clip after `index`, wrapping from the last to the first.
pub fn next_clip(index: usize, count: usize) -> (r: usize)
    requires
        index < count,
    ensures
        r == if index + 1 == count {
            0
        } else {
            index + 1
        },
{
    if index + 1 == count {
        0
    } else {
        index + 1
    }
}

/// The clip before `index`, wrapping from the first to the last.
pub fn previous_clip(index: usize, count: usize) -> (r: usize)
    requires
        index < count,
    ensures
        r == if index == 0 {
            count - 1
        } else {
            index - 1
        },
{
    if index == 0 {
        count - 1
    } else {
        index - 1
    }
}

} // verus!
