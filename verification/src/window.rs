//! The window every demo opens, and what a demo does about the events that
//! the window reports.

use vstd::prelude::*;

verus! {

/// Width of the window, in screen coordinates.
pub const SCR_WIDTH: u32 = 800;

/// Height of the window, in screen coordinates.
pub const SCR_HEIGHT: u32 = 600;

/// Title of the window.
pub const TITLE: &'static str = "LearnOpenGL";

/// The keys a demo tells apart.
#[derive(Clone, Copy, Debug, PartialEq, Eq, Structural)]
pub enum Key {
    Escape,
    Other,
}

/// What happened to a key.
#[derive(Clone, Copy, Debug, PartialEq, Eq, Structural)]
pub enum Action {
    Release,
    Press,
    Repeat,
}

/// A window event, reduced to what a demo looks at.
#[derive(Clone, Copy, Debug, PartialEq, Eq, Structural)]
pub enum WindowEvent {
    /// The framebuffer now has this width and height, in pixels.
    FramebufferSize(i32, i32),
    Key(Key, Action),
    Other,
}

/// What a demo does about one event.
#[derive(Clone, Copy, Debug, PartialEq, Eq, Structural)]
pub enum Reaction {
    /// Draw into this rectangle of the framebuffer from now on.
    Viewport { x: i32, y: i32, width: i32, height: i32 },
    /// Ask the window to close.
    Close,
    /// Leave everything as it is.
    Ignore,
}

/// A resized framebuffer is covered whole by the viewport, pressing Escape
/// closes the window, and nothing else has an effect.
pub open spec fn reaction_to(event: WindowEvent) -> Reaction {
    match event {
        WindowEvent::FramebufferSize(width, height) => Reaction::Viewport {
            x: 0,
            y: 0,
            width,
            height,
        },
        WindowEvent::Key(Key::Escape, Action::Press) => Reaction::Close,
        _ => Reaction::Ignore,
    }
}

/// The reactions to a batch of events, one for each and in their order.
pub open spec fn reactions_to(events: Seq<WindowEvent>) -> Seq<Reaction> {
    events.map_values(|event: WindowEvent| reaction_to(event))
}

/// Decides what to do about one event.
pub fn process_event(event: WindowEvent) -> (reaction: Reaction)
    ensures
        reaction == reaction_to(event),
{
    match event {
        WindowEvent::FramebufferSize(width, height) => Reaction::Viewport {
            x: 0,
            y: 0,
            width,
            height,
        },
        WindowEvent::Key(Key::Escape, Action::Press) => Reaction::Close,
        _ => Reaction::Ignore,
    }
}

/// Decides what to do about the events that have come in since the last
/// frame. The reactions are to be carried out in the order given.
pub fn process_events(events: &Vec<WindowEvent>) -> (reactions: Vec<Reaction>)
    ensures
        reactions@ == reactions_to(events@),
{
    let mut reactions: Vec<Reaction> = Vec::new();
    let mut i: usize = 0;
    while i < events.len()
        invariant
            i <= events.len(),
            reactions@ == reactions_to(events@.take(i as int)),
        decreases events.len() - i,
    {
        reactions.push(process_event(events[i]));
        i += 1;
        assert(reactions@ =~= reactions_to(events@.take(i as int)));
    }
    assert(events@.take(i as int) =~= events@);
    reactions
}

/// After a batch the window is to close exactly if Escape was pressed in it.
pub proof fn lemma_closes_on_escape(events: Seq<WindowEvent>)
    ensures
        reactions_to(events).contains(Reaction::Close) <==> events.contains(
            WindowEvent::Key(Key::Escape, Action::Press),
        ),
{
    let reactions = reactions_to(events);
    let pressed = WindowEvent::Key(Key::Escape, Action::Press);
    if reactions.contains(Reaction::Close) {
        let i = choose|i: int| 0 <= i < reactions.len() && reactions[i] == Reaction::Close;
        assert(events[i] == pressed);
    }
    if events.contains(pressed) {
        let i = choose|i: int| 0 <= i < events.len() && events[i] == pressed;
        assert(reactions[i] == Reaction::Close);
    }
}

} // verus!
