//! The keystrokes of a simulated copy gesture.
use vstd::prelude::*;

verus! {

/// A key that the copy gesture touches.
#[derive(Debug, Clone, Copy, PartialEq, Eq, Structural)]
pub enum Key {
    Control,
    Alt,
    Shift,
    Meta,
    C,
}

/// What is done with a key.
#[derive(Debug, Clone, Copy, PartialEq, Eq, Structural)]
pub enum Direction {
    Press,
    Release,
    Click,
}

/// One keystroke.
#[derive(Debug, Clone, Copy, PartialEq, Eq, Structural)]
pub struct Keystroke {
    pub key: Key,
    pub direction: Direction,
}

/// The keystroke doing `direction` with `key`.
pub open spec fn stroke(key: Key, direction: Direction) -> Keystroke {
    Keystroke { key, direction }
}

/// The copy gesture with `modifier` held: every modifier is released first,
/// in case an aborted gesture left one down; then the modifier is pressed,
/// `C` is tapped and the modifier released.
pub open spec fn copy_gesture_spec(modifier: Key) -> Seq<Keystroke> {
    seq![
        stroke(Key::Control, Direction::Release),
        stroke(Key::Alt, Direction::Release),
        stroke(Key::Shift, Direction::Release),
        stroke(Key::Meta, Direction::Release),
        stroke(modifier, Direction::Press),
        stroke(Key::C, Direction::Click),
        stroke(modifier, Direction::Release),
    ]
}

fn push_stroke(v: &mut Vec<Keystroke>, key: Key, direction: Direction)
    ensures
        final(v)@ == old(v)@.push(stroke(key, direction)),
{
    v.push(Keystroke { key, direction });
}

/// The keystrokes of the copy gesture, as `copy_gesture_spec` lists them.
pub fn copy_gesture(modifier: Key) -> (r: Vec<Keystroke>)
    ensures
        r@ == copy_gesture_spec(modifier),
{
    let mut v: Vec<Keystroke> = Vec::new();
    push_stroke(&mut v, Key::Control, Direction::Release);
    push_stroke(&mut v, Key::Alt, Direction::Release);
    push_stroke(&mut v, Key::Shift, Direction::Release);
    push_stroke(&mut v, Key::Meta, Direction::Release);
    push_stroke(&mut v, modifier, Direction::Press);
    push_stroke(&mut v, Key::C, Direction::Click);
    push_stroke(&mut v, modifier, Direction::Release);
    assert(v@ =~= copy_gesture_spec(modifier));
    v
}

/// The keystrokes that undo a gesture whose keystroke at `failed_at` could
/// not be sent: the modifier is released where it was pressed and not yet
/// released; else nothing.
pub fn recovery_after_failure(modifier: Key, failed_at: usize) -> (r: Vec<Keystroke>)
    ensures
        failed_at == 5 ==> r@ == seq![stroke(modifier, Direction::Release)],
        failed_at != 5 ==> r@.len() == 0,
{
    let mut v: Vec<Keystroke> = Vec::new();
    if failed_at == 5 {
        push_stroke(&mut v, modifier, Direction::Release);
        assert(v@ =~= seq![stroke(modifier, Direction::Release)]);
    }
    v
}

} // verus!
