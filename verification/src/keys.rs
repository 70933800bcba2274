use vstd::prelude::*;

verus! {

/// The keyboard keys a jammed shredder may ask the player to hammer.
#[derive(Clone, Copy, PartialEq, Eq, Debug)]
pub enum Key {
    A,
    X,
    K,
    Q,
    P,
    T,
    L,
    O,
    H,
    M,
}

/// Number of keys a jam can be cleared with.
pub const RANDOM_KEY_COUNT: usize = 10;

/// The keys a jam can ask for, in the order a random draw indexes them.
pub open spec fn random_keys() -> Seq<Key> {
    seq![Key::A, Key::X, Key::K, Key::Q, Key::P, Key::T, Key::L, Key::O, Key::H, Key::M]
}

/// The text shown on screen for a key.
pub open spec fn key_name(k: Key) -> Seq<char> {
    match k {
        Key::A => "A"@,
        Key::X => "X"@,
        Key::K => "K"@,
        Key::Q => "Q"@,
        Key::P => "P"@,
        Key::T => "T"@,
        Key::L => "L"@,
        Key::O => "O"@,
        Key::H => "H"@,
        Key::M => "M"@,
    }
}

impl Key {
    /// The text shown on screen for this key.
    pub fn label(&self) -> (r: &'static str)
        ensures
            r@ == key_name(*self),
    {
        match self {
            Key::A => "A",
            Key::X => "X",
            Key::K => "K",
            Key::Q => "Q",
            Key::P => "P",
            Key::T => "T",
            Key::L => "L",
            Key::O => "O",
            Key::H => "H",
            Key::M => "M",
        }
    }
}

/// The key (with its label) that a uniform draw `index` in `0..RANDOM_KEY_COUNT` picks.
pub fn random_key(index: usize) -> (r: (&'static str, Key))
    requires
        index < RANDOM_KEY_COUNT,
    ensures
        r.1 == random_keys()[index as int],
        r.0@ == key_name(r.1),
{
    let k = match index {
        0 => Key::A,
        1 => Key::X,
        2 => Key::K,
        3 => Key::Q,
        4 => Key::P,
        5 => Key::T,
        6 => Key::L,
        7 => Key::O,
        8 => Key::H,
        _ => Key::M,
    };
    (k.label(), k)
}

} // verus!
