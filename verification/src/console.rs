//! A console on a framebuffer: what it does with the devices it is handed
//! and with the input it receives.

use crate::text::{text_is, text_of};
use vstd::prelude::*;

verus! {

/// Bytes of one pixel of a framebuffer.
pub const BYTES_PER_PIXEL: usize = 4;

/// What an input device reports.
#[derive(Clone, Copy, Debug, PartialEq, Eq, Structural)]
pub enum InputEvent {
    /// A slot of the input queue that holds no event.
    Default,
    /// A key was pressed.
    KeyPressed(char),
}

impl Default for InputEvent {
    fn default() -> (r: InputEvent)
        ensures
            r == InputEvent::Default,
    {
        InputEvent::Default
    }
}

/// The kinds of device that the console drives.
#[derive(Clone, Copy, Debug, PartialEq, Eq, Structural)]
pub enum DeviceKind {
    Framebuffer,
    Keyboard,
}

/// What the console does after it has waited for input.
#[derive(Clone, Copy, Debug, PartialEq, Eq, Structural)]
pub struct ConsoleUpdate {
    /// The character to write to the console.
    pub written: Option<char>,
    /// Whether to tell the owner of the framebuffer that it has changed.
    pub needs_redraw: bool,
}

/// What the console does with what its input queue handed it: the character
/// of a pressed key is written and the framebuffer redrawn; without an event
/// nothing happens.
pub open spec fn update_for(event: Option<InputEvent>) -> ConsoleUpdate {
    match event {
        Some(InputEvent::KeyPressed(key)) => ConsoleUpdate {
            written: Some(key),
            needs_redraw: true,
        },
        _ => ConsoleUpdate { written: None, needs_redraw: false },
    }
}

/// The kind of a device that is handed to the console: a framebuffer where
/// its type says so, else a keyboard where its input type says so.
pub open spec fn kind_of(device_type: Option<Seq<char>>, hid_type: Option<Seq<char>>) -> Option<
    DeviceKind,
> {
    if device_type == Some("framebuffer"@) {
        Some(DeviceKind::Framebuffer)
    } else if hid_type == Some("keyboard"@) {
        Some(DeviceKind::Keyboard)
    } else {
        None
    }
}

/// Decides what the console does with what its input queue handed it. The
/// queue never hands out an empty slot.
pub fn on_input(event: Option<InputEvent>) -> (r: ConsoleUpdate)
    requires
        event != Some(InputEvent::Default),
    ensures
        r == update_for(event),
{
    match event {
        Some(InputEvent::KeyPressed(key)) => ConsoleUpdate { written: Some(key), needs_redraw: true },
        _ => ConsoleUpdate { written: None, needs_redraw: false },
    }
}

/// Whether an optional text reads as `literal`.
fn reads_as(text: &Option<String>, literal: &str) -> (r: bool)
    ensures
        r == (text_of(*text) == Some(literal@)),
{
    match text {
        Some(text) => text_is(text, literal),
        None => false,
    }
}

/// Tells the kind of a device from its `type` and `hid.type` properties, or
/// gives `None` for a device that the console does not drive.
pub fn classify_device(device_type: &Option<String>, hid_type: &Option<String>) -> (r: Option<
    DeviceKind,
>)
    ensures
        r == kind_of(text_of(*device_type), text_of(*hid_type)),
{
    if reads_as(device_type, "framebuffer") {
        Some(DeviceKind::Framebuffer)
    } else if reads_as(hid_type, "keyboard") {
        Some(DeviceKind::Keyboard)
    } else {
        None
    }
}

/// The size in bytes of a framebuffer of `width` by `height` pixels, or
/// `None` where it does not fit the address space.
pub fn framebuffer_bytes(width: usize, height: usize) -> (r: Option<usize>)
    ensures
        r == if width * height * BYTES_PER_PIXEL <= usize::MAX {
            Some((width * height * BYTES_PER_PIXEL) as usize)
        } else {
            None
        },
{
    match width.checked_mul(height) {
        Some(pixels) => {
            pixels.checked_mul(BYTES_PER_PIXEL)
        },
        None => {
            proof {
                assert(width * height * BYTES_PER_PIXEL >= width * height) by (nonlinear_arith)
                    requires
                        width * height >= 0,
                        BYTES_PER_PIXEL == 4,
                ;
            }
            None
        },
    }
}

} // verus!
