//! The pure decisions of the render loop: what a key means when no feature
//! claims it, which configured action a character key fires, and how long
//! the loop waits for input. The loop itself — querying the size, flushing,
//! polling — lives with the terminal.

use vstd::prelude::*;

verus! {

use crate::config::ActionConfig;
use crate::features::KeyPress;
use crate::features::ScreensaverAction;

/// How long a frame of a fast animation waits for input, in milliseconds.
pub const POLL_INTERVAL_FAST_MS: u64 = 50;

/// How long a clock frame waits for input, in milliseconds.
pub const POLL_INTERVAL_CLOCK_MS: u64 = 500;

/// What a key means to a display without its own bindings: escape leaves,
/// everything else keeps going.
pub fn loop_key_action(key: KeyPress) -> (r: ScreensaverAction)
    ensures
        r == match key {
            KeyPress::Esc => ScreensaverAction::Exit,
            _ => ScreensaverAction::Continue,
        },
{
    match key {
        KeyPress::Esc => ScreensaverAction::Exit,
        _ => ScreensaverAction::Continue,
    }
}

/// An ASCII letter folded to lower case; every other character unchanged.
pub open spec fn lower_char(c: char) -> char {
    if c == 'A' {
        'a'
    } else if c == 'B' {
        'b'
    } else if c == 'C' {
        'c'
    } else if c == 'D' {
        'd'
    } else if c == 'E' {
        'e'
    } else if c == 'F' {
        'f'
    } else if c == 'G' {
        'g'
    } else if c == 'H' {
        'h'
    } else if c == 'I' {
        'i'
    } else if c == 'J' {
        'j'
    } else if c == 'K' {
        'k'
    } else if c == 'L' {
        'l'
    } else if c == 'M' {
        'm'
    } else if c == 'N' {
        'n'
    } else if c == 'O' {
        'o'
    } else if c == 'P' {
        'p'
    } else if c == 'Q' {
        'q'
    } else if c == 'R' {
        'r'
    } else if c == 'S' {
        's'
    } else if c == 'T' {
        't'
    } else if c == 'U' {
        'u'
    } else if c == 'V' {
        'v'
    } else if c == 'W' {
        'w'
    } else if c == 'X' {
        'x'
    } else if c == 'Y' {
        'y'
    } else if c == 'Z' {
        'z'
    } else {
        c
    }
}

fn lower_char_exec(c: char) -> (r: char)
    ensures
        r == lower_char(c),
{
    match c {
        'A' => 'a',
        'B' => 'b',
        'C' => 'c',
        'D' => 'd',
        'E' => 'e',
        'F' => 'f',
        'G' => 'g',
        'H' => 'h',
        'I' => 'i',
        'J' => 'j',
        'K' => 'k',
        'L' => 'l',
        'M' => 'm',
        'N' => 'n',
        'O' => 'o',
        'P' => 'p',
        'Q' => 'q',
        'R' => 'r',
        'S' => 's',
        'T' => 't',
        'U' => 'u',
        'V' => 'v',
        'W' => 'w',
        'X' => 'x',
        'Y' => 'y',
        'Z' => 'z',
        _ => c,
    }
}

/// Whether an action's key fires on character `c`: the key, folded to lower
/// case, is exactly that one character folded the same way.
pub open spec fn key_matches(key: Seq<char>, c: char) -> bool {
    key.map_values(|k: char| lower_char(k)) == seq![lower_char(c)]
}

/// The first configured action whose key matches the pressed character, if
/// any does.
#[verifier::loop_isolation(false)]
pub fn find_action(actions: &Vec<ActionConfig>, c: char) -> (r: Option<usize>)
    ensures
        match r {
            Some(i) => {
                &&& i < actions@.len()
                &&& key_matches(actions@[i as int].key@, c)
                &&& forall|j: int| 0 <= j < i ==> !key_matches(#[trigger] actions@[j].key@, c)
            },
            None => forall|j: int|
                0 <= j < actions@.len() ==> !key_matches(#[trigger] actions@[j].key@, c),
        },
{
    let lc = lower_char_exec(c);
    let mut i: usize = 0;
    while i < actions.len()
        invariant
            i <= actions@.len(),
            lc == lower_char(c),
            forall|j: int| 0 <= j < i ==> !key_matches(#[trigger] actions@[j].key@, c),
        decreases actions@.len() - i,
    {
        let key = &actions[i].key;
        let klen = key.as_str().unicode_len();
        if klen == 1 {
            let kc = lower_char_exec(key.as_str().get_char(0));
            if kc == lc {
                proof {
                    assert(actions@[i as int].key@.map_values(|k: char| lower_char(k)) =~= seq![
                        lower_char(c),
                    ]);
                }
                return Some(i);
            } else {
                proof {
                    let mapped = actions@[i as int].key@.map_values(|k: char| lower_char(k));
                    assert(mapped[0] == lower_char(actions@[i as int].key@[0]));
                    assert(mapped != seq![lower_char(c)]);
                }
            }
        } else {
            proof {
                let mapped = actions@[i as int].key@.map_values(|k: char| lower_char(k));
                assert(mapped.len() != 1);
            }
        }
        i = i + 1;
    }
    None
}

} // verus!
