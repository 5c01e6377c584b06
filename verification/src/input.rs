use vstd::prelude::*;
use crate::camera::MovementEvent;

verus! {

/// Which of the keys that the tutorials poll are held down.
#[derive(Debug, PartialEq, Eq, Clone, Copy, Structural)]
pub struct KeyStates {
    pub escape: bool,
    pub w: bool,
    pub s: bool,
    pub a: bool,
    pub d: bool,
}

/// What the held keys ask for in one frame.
#[derive(Debug)]
pub struct InputCommands {
    /// Whether the window is to close.
    pub close_window: bool,
    /// The camera movements to perform, in this order.
    pub movements: Vec<MovementEvent>,
}

/// `m` alone when `held`, nothing otherwise.
pub open spec fn when_held(held: bool, m: MovementEvent) -> Seq<MovementEvent> {
    if held {
        seq![m]
    } else {
        Seq::empty()
    }
}

/// W moves forward, S backward, A left and D right, checked in that order.
pub open spec fn held_movements(keys: KeyStates) -> Seq<MovementEvent> {
    when_held(keys.w, MovementEvent::Forward) + when_held(keys.s, MovementEvent::Backward)
        + when_held(keys.a, MovementEvent::Left) + when_held(keys.d, MovementEvent::Right)
}

fn push_when_held(out: &mut Vec<MovementEvent>, held: bool, m: MovementEvent)
    ensures
        final(out)@ == old(out)@ + when_held(held, m),
{
    if held {
        out.push(m);
    }
    assert(final(out)@ =~= old(out)@ + when_held(held, m));
}

/// The place of a movement in the order in which keys are checked.
pub open spec fn check_order(m: MovementEvent) -> int {
    match m {
        MovementEvent::Forward => 0,
        MovementEvent::Backward => 1,
        MovementEvent::Left => 2,
        MovementEvent::Right => 3,
    }
}

/// Each held key contributes its own movement, whatever the other keys: a
/// movement is asked for exactly when its key is held, each at most once,
/// in the order forward, backward, left, right.
pub proof fn lemma_each_held_key_moves(keys: KeyStates)
    ensures
        held_movements(keys).contains(MovementEvent::Forward) <==> keys.w,
        held_movements(keys).contains(MovementEvent::Backward) <==> keys.s,
        held_movements(keys).contains(MovementEvent::Left) <==> keys.a,
        held_movements(keys).contains(MovementEvent::Right) <==> keys.d,
        held_movements(keys).len() == (if keys.w { 1int } else { 0 }) + (if keys.s { 1int } else {
            0
        }) + (if keys.a { 1int } else { 0 }) + (if keys.d { 1int } else { 0 }),
        forall|i: int, j: int|
            0 <= i < j < held_movements(keys).len() ==> check_order(
                #[trigger] held_movements(keys)[i],
            ) < check_order(#[trigger] held_movements(keys)[j]),
{
    let s = held_movements(keys);
    let f = when_held(keys.w, MovementEvent::Forward);
    let b = when_held(keys.s, MovementEvent::Backward);
    let l = when_held(keys.a, MovementEvent::Left);
    let r = when_held(keys.d, MovementEvent::Right);
    assert(s =~= f + b + l + r);
    assert forall|k: int| 0 <= k < s.len() implies (#[trigger] s[k] == MovementEvent::Forward
        && keys.w && k == 0) || (s[k] == MovementEvent::Backward && keys.s && k == f.len()) || (
    s[k] == MovementEvent::Left && keys.a && k == f.len() + b.len()) || (s[k]
        == MovementEvent::Right && keys.d && k == f.len() + b.len() + l.len()) by {
        if k < f.len() {
        } else if k < f.len() + b.len() {
            assert(s[k] == b[k - f.len()]);
        } else if k < f.len() + b.len() + l.len() {
            assert(s[k] == l[k - f.len() - b.len()]);
        } else {
            assert(s[k] == r[k - f.len() - b.len() - l.len()]);
        }
    }
    if keys.w {
        assert(s[0] == MovementEvent::Forward);
    }
    if keys.s {
        assert(s[f.len() as int] == MovementEvent::Backward);
    }
    if keys.a {
        assert(s[(f.len() + b.len()) as int] == MovementEvent::Left);
    }
    if keys.d {
        assert(s[(f.len() + b.len() + l.len()) as int] == MovementEvent::Right);
    }
}

/// An event closes the window exactly when it is a press of Escape; a
/// resize always sets the viewport to the whole new framebuffer; every other
/// event asks for nothing.
pub proof fn lemma_event_answers(event: WindowEvent)
    ensures
        command_for(event) == Some(WindowCommand::Close) <==> event == (WindowEvent::Key {
            key: Key::Escape,
            action: KeyAction::Press,
        }),
        event matches WindowEvent::FramebufferSize { width, height } ==> command_for(event) == Some(
            WindowCommand::SetViewport { x: 0, y: 0, width, height },
        ),
        event !is FramebufferSize && event != (WindowEvent::Key {
            key: Key::Escape,
            action: KeyAction::Press,
        }) ==> command_for(event) is None,
{
}

/// The commands for one frame of keyboard polling: Escape closes the window,
/// W, S, A and D move the camera forward, backward, left and right.
pub fn commands_for_keys(keys: KeyStates) -> (r: InputCommands)
    ensures
        r.close_window == keys.escape,
        r.movements@ == held_movements(keys),
        r.movements@.contains(MovementEvent::Forward) <==> keys.w,
        r.movements@.contains(MovementEvent::Backward) <==> keys.s,
        r.movements@.contains(MovementEvent::Left) <==> keys.a,
        r.movements@.contains(MovementEvent::Right) <==> keys.d,
{
    let mut movements: Vec<MovementEvent> = Vec::new();
    push_when_held(&mut movements, keys.w, MovementEvent::Forward);
    push_when_held(&mut movements, keys.s, MovementEvent::Backward);
    push_when_held(&mut movements, keys.a, MovementEvent::Left);
    push_when_held(&mut movements, keys.d, MovementEvent::Right);
    assert(movements@ =~= held_movements(keys));
    proof {
        lemma_each_held_key_moves(keys);
    }
    InputCommands { close_window: keys.escape, movements }
}

/// A key, as far as the window events handled here tell keys apart.
#[derive(Debug, PartialEq, Eq, Clone, Copy, Structural)]
pub enum Key {
    Escape,
    Other,
}

/// What happened to a key.
#[derive(Debug, PartialEq, Eq, Clone, Copy, Structural)]
pub enum KeyAction {
    Press,
    Release,
    Repeat,
}

/// A window event, with the payload that decides how it is answered.
#[derive(Debug, PartialEq, Eq, Clone, Copy, Structural)]
pub enum WindowEvent {
    /// The framebuffer was resized to `width` by `height` pixels.
    FramebufferSize { width: i32, height: i32 },
    /// A key changed state.
    Key { key: Key, action: KeyAction },
    /// Any other event.
    Other,
}

/// What the window or the OpenGL context is to do in answer to an event.
#[derive(Debug, PartialEq, Eq, Clone, Copy, Structural)]
pub enum WindowCommand {
    /// Set the OpenGL viewport to the given rectangle.
    SetViewport { x: i32, y: i32, width: i32, height: i32 },
    /// Ask the window to close.
    Close,
}

/// The answer to `event`: a resized framebuffer makes the viewport cover it
/// whole, and pressing Escape closes the window; other events need nothing.
pub open spec fn command_for(event: WindowEvent) -> Option<WindowCommand> {
    match event {
        WindowEvent::FramebufferSize { width, height } => Some(
            WindowCommand::SetViewport { x: 0, y: 0, width, height },
        ),
        WindowEvent::Key { key: Key::Escape, action: KeyAction::Press } => Some(
            WindowCommand::Close,
        ),
        _ => None,
    }
}

/// Decides how to answer one window event.
pub fn command_for_event(event: WindowEvent) -> (r: Option<WindowCommand>)
    ensures
        r == command_for(event),
        r == Some(WindowCommand::Close) <==> event == (WindowEvent::Key {
            key: Key::Escape,
            action: KeyAction::Press,
        }),
{
    match event {
        WindowEvent::FramebufferSize { width, height } => Some(
            WindowCommand::SetViewport { x: 0, y: 0, width, height },
        ),
        WindowEvent::Key { key: Key::Escape, action: KeyAction::Press } => Some(
            WindowCommand::Close,
        ),
        _ => None,
    }
}

} // verus!
