use vstd::prelude::*;

use crate::keyboard::RendererKey;

verus! {

/// An event the native window reports to the renderer by its number.
#[derive(Clone, Copy, Debug, PartialEq, Eq, Structural)]
pub enum RuntimeEvent {
    /// The wake pipe has bytes to drain.
    Wake,
    /// Snapshots are waiting.
    Snapshots,
    /// The capture control channel has events.
    CaptureControl,
    /// A frame tick.
    Tick,
    /// The window gained focus.
    Focused,
    /// The window lost focus.
    Unfocused,
    /// A key went down.
    Pressed(RendererKey),
    /// A key came up.
    Released(RendererKey),
}

/// The event each number stands for; other numbers stand for none.
pub open spec fn runtime_event_for(code: i32) -> Option<RuntimeEvent> {
    if code == 1 {
        Some(RuntimeEvent::Wake)
    } else if code == 2 {
        Some(RuntimeEvent::Snapshots)
    } else if code == 3 {
        Some(RuntimeEvent::CaptureControl)
    } else if code == 4 {
        Some(RuntimeEvent::Tick)
    } else if code == 10 {
        Some(RuntimeEvent::Focused)
    } else if code == 11 {
        Some(RuntimeEvent::Unfocused)
    } else if code == 100 {
        Some(RuntimeEvent::Pressed(RendererKey::Escape))
    } else if code == 101 {
        Some(RuntimeEvent::Pressed(RendererKey::Left))
    } else if code == 102 {
        Some(RuntimeEvent::Pressed(RendererKey::Right))
    } else if code == 201 {
        Some(RuntimeEvent::Released(RendererKey::Left))
    } else if code == 202 {
        Some(RuntimeEvent::Released(RendererKey::Right))
    } else {
        None
    }
}

/// The event a number from the native window stands for.
pub fn decode_runtime_event(code: i32) -> (event: Option<RuntimeEvent>)
    ensures
        event == runtime_event_for(code),
{
    match code {
        1 => Some(RuntimeEvent::Wake),
        2 => Some(RuntimeEvent::Snapshots),
        3 => Some(RuntimeEvent::CaptureControl),
        4 => Some(RuntimeEvent::Tick),
        10 => Some(RuntimeEvent::Focused),
        11 => Some(RuntimeEvent::Unfocused),
        100 => Some(RuntimeEvent::Pressed(RendererKey::Escape)),
        101 => Some(RuntimeEvent::Pressed(RendererKey::Left)),
        102 => Some(RuntimeEvent::Pressed(RendererKey::Right)),
        201 => Some(RuntimeEvent::Released(RendererKey::Left)),
        202 => Some(RuntimeEvent::Released(RendererKey::Right)),
        _ => None,
    }
}

} // verus!
