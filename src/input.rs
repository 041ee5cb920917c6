use vstd::prelude::*;

verus! {

/// A direction in which the camera can be moved, relative to where it looks.
#[derive(Clone, Copy, Debug, PartialEq, Eq, Structural)]
pub enum Direction {
    Forward,
    Backward,
    Left,
    Right,
}

/// Which of the keys that steer the camera are held down in this frame.
#[derive(Clone, Copy, Debug, PartialEq, Eq, Structural)]
pub struct KeyState {
    pub escape: bool,
    pub forward: bool,
    pub backward: bool,
    pub left: bool,
    pub right: bool,
}

/// What the frame loop should do in answer to the keys held down.
pub struct InputActions {
    pub close_window: bool,
    pub moves: Vec<Direction>,
}

/// The moves that the held keys ask for, in the order forward, backward, left, right.
pub open spec fn moves_for(keys: KeyState) -> Seq<Direction> {
    (if keys.forward { seq![Direction::Forward] } else { Seq::empty() })
        + (if keys.backward { seq![Direction::Backward] } else { Seq::empty() })
        + (if keys.left { seq![Direction::Left] } else { Seq::empty() })
        + (if keys.right { seq![Direction::Right] } else { Seq::empty() })
}

/// Decides, from the keys held down, whether the window should close and which
/// camera moves to make this frame.
pub fn process_input(keys: KeyState) -> (r: InputActions)
    ensures
        r.close_window == keys.escape,
        r.moves@ == moves_for(keys),
{
    let mut moves: Vec<Direction> = Vec::new();
    if keys.forward {
        moves.push(Direction::Forward);
    }
    if keys.backward {
        moves.push(Direction::Backward);
    }
    if keys.left {
        moves.push(Direction::Left);
    }
    if keys.right {
        moves.push(Direction::Right);
    }
    assert(moves@ =~= moves_for(keys));
    InputActions { close_window: keys.escape, moves }
}

} // verus!
