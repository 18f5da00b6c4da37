//! The fixed 4x4 keyboard layout of the keypad.
//!
//! A physical key is identified by its key symbol: the character that the
//! platform reports for it (digit and letter keys report their unshifted,
//! lower-case character; Escape reports `'\u{1b}'`).
use vstd::prelude::*;

verus! {

/// The key symbol of the Escape key, which ends the host loop.
pub const EXIT_KEY: char = '\u{1b}';

/// The keypad index that the key with symbol `c` stands for, if any.
///
/// ```text
/// 1 2 3 4      ->  1 2 3 C
/// q w e r      ->  4 5 6 D
/// a s d f      ->  7 8 9 E
/// z x c v      ->  A 0 B F
/// ```
pub open spec fn layout(c: char) -> Option<usize> {
    if c == '1' { Some(0x1) }
    else if c == '2' { Some(0x2) }
    else if c == '3' { Some(0x3) }
    else if c == '4' { Some(0xC) }
    else if c == 'q' { Some(0x4) }
    else if c == 'w' { Some(0x5) }
    else if c == 'e' { Some(0x6) }
    else if c == 'r' { Some(0xD) }
    else if c == 'a' { Some(0x7) }
    else if c == 's' { Some(0x8) }
    else if c == 'd' { Some(0x9) }
    else if c == 'f' { Some(0xE) }
    else if c == 'z' { Some(0xA) }
    else if c == 'x' { Some(0x0) }
    else if c == 'c' { Some(0xB) }
    else if c == 'v' { Some(0xF) }
    else { None }
}

/// Maps the key with symbol `key` to its keypad index; keys outside the
/// layout give `None`.
pub fn keypad_index(key: char) -> (r: Option<usize>)
    ensures
        r == layout(key),
        r matches Some(i) ==> i < 16,
{
    match key {
        '1' => Some(0x1),
        '2' => Some(0x2),
        '3' => Some(0x3),
        '4' => Some(0xC),
        'q' => Some(0x4),
        'w' => Some(0x5),
        'e' => Some(0x6),
        'r' => Some(0xD),
        'a' => Some(0x7),
        's' => Some(0x8),
        'd' => Some(0x9),
        'f' => Some(0xE),
        'z' => Some(0xA),
        'x' => Some(0x0),
        'c' => Some(0xB),
        'v' => Some(0xF),
        _ => None,
    }
}

/// No two distinct keys of the layout share a keypad index.
pub proof fn lemma_layout_injective(c1: char, c2: char)
    requires
        layout(c1) is Some,
        layout(c1) == layout(c2),
    ensures
        c1 == c2,
{
}

/// Every keypad index is reached by some key of the layout.
pub proof fn lemma_layout_covers(i: usize)
    requires
        i < 16,
    ensures
        exists|c: char| layout(c) == Some(i),
{
    let keys = seq!['x', '1', '2', '3', 'q', 'w', 'e', 'a', 's', 'd', 'z', 'c', '4', 'r', 'f', 'v'];
    assert(layout(keys[i as int]) == Some(i));
}

} // verus!
