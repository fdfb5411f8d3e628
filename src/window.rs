//! The windowing host's state and decisions: which semantic event each
//! platform event becomes, when the loop stops, and how long each frame
//! sleeps. Running the loop against the platform is left to the caller.
use vstd::prelude::*;

verus! {

/// The keys the host tells apart.
#[derive(Clone, Copy, Debug, PartialEq, Eq, Structural)]
pub enum Keycode {
    Escape,
    Left,
    Right,
    Up,
    Down,
    Other,
}

#[derive(Clone, Copy, Debug, PartialEq, Eq, Structural)]
pub enum MouseButton {
    Left,
    Middle,
    Right,
    X1,
    X2,
    Unknown,
}

/// A platform event, reduced to what the host decides on. Pointer
/// coordinates stay with the caller, which hands them on with the event.
#[derive(Clone, Copy, Debug, PartialEq, Eq, Structural)]
pub enum PlatformEvent {
    Quit,
    Resized { width: u32, height: u32 },
    /// A wheel turn: whether the reported vertical amount is negative, and
    /// whether the platform reports the direction flipped.
    MouseWheel { y_negative: bool, flipped: bool },
    KeyDown(Keycode),
    MouseButtonDown(MouseButton),
    MouseMotion,
    Other,
}

/// What the application handler is told.
#[derive(Clone, Copy, Debug, PartialEq, Eq, Structural)]
pub enum InputEvent {
    Scroll { down: bool },
    KeyDown(Keycode),
    MouseDown(MouseButton),
    MouseMove,
    Resized { width: u32, height: u32 },
}

/// The time one frame may take, in nanoseconds: a sixtieth of a second.
pub const FRAME_NANOS: u64 = 1_000_000_000 / 60;

/// Whether a wheel turn scrolls down: a negative amount does, unless the
/// platform reports the direction flipped.
pub open spec fn scroll_down_spec(y_negative: bool, flipped: bool) -> bool {
    if flipped {
        !y_negative
    } else {
        y_negative
    }
}

pub fn scroll_down(y_negative: bool, flipped: bool) -> (r: bool)
    ensures
        r == scroll_down_spec(y_negative, flipped),
{
    if flipped {
        !y_negative
    } else {
        y_negative
    }
}

/// The event the handler receives for a platform event; `None` for a quit
/// request and for events the host ignores.
pub open spec fn translate_spec(event: PlatformEvent) -> Option<InputEvent> {
    match event {
        PlatformEvent::Quit => None,
        PlatformEvent::Resized { width, height } => Some(InputEvent::Resized { width, height }),
        PlatformEvent::MouseWheel { y_negative, flipped } => Some(
            InputEvent::Scroll { down: scroll_down_spec(y_negative, flipped) },
        ),
        PlatformEvent::KeyDown(k) => Some(InputEvent::KeyDown(k)),
        PlatformEvent::MouseButtonDown(b) => Some(InputEvent::MouseDown(b)),
        PlatformEvent::MouseMotion => Some(InputEvent::MouseMove),
        PlatformEvent::Other => None,
    }
}

/// Whether the host itself ends the loop on this event.
pub open spec fn stops_spec(event: PlatformEvent) -> bool {
    event == PlatformEvent::Quit || event == PlatformEvent::KeyDown(Keycode::Escape)
}

/// How long to sleep after a frame whose work took `elapsed_nanos`: the rest
/// of the frame budget, or nothing once it is spent.
pub open spec fn frame_delay_spec(elapsed_nanos: u64) -> u64 {
    if elapsed_nanos < FRAME_NANOS {
        (FRAME_NANOS - elapsed_nanos) as u64
    } else {
        0
    }
}

pub fn frame_delay(elapsed_nanos: u64) -> (r: u64)
    ensures
        r == frame_delay_spec(elapsed_nanos),
        r <= FRAME_NANOS,
{
    if elapsed_nanos < FRAME_NANOS {
        FRAME_NANOS - elapsed_nanos
    } else {
        0
    }
}

/// The host's state: the window's size in pixels and whether the loop runs.
pub struct Window {
    width: u32,
    height: u32,
    working: bool,
}

impl Window {
    pub closed spec fn running(&self) -> bool {
        self.working
    }

    pub closed spec fn width_spec(&self) -> u32 {
        self.width
    }

    pub closed spec fn height_spec(&self) -> u32 {
        self.height
    }

    pub fn width(&self) -> (r: u32)
        ensures
            r == self.width_spec(),
    {
        self.width
    }

    pub fn height(&self) -> (r: u32)
        ensures
            r == self.height_spec(),
    {
        self.height
    }

    /// The state of a window of `width` by `height` pixels whose loop has not
    /// started.
    pub fn init(width: u32, height: u32) -> (r: Window)
        ensures
            r.width_spec() == width,
            r.height_spec() == height,
            !r.running(),
    {
        Window { width, height, working: false }
    }

    /// Starts the loop.
    pub fn start(&mut self)
        ensures
            final(self).running(),
            final(self).width_spec() == old(self).width_spec(),
            final(self).height_spec() == old(self).height_spec(),
    {
        self.working = true;
    }

    /// Asks the loop to end after the current frame.
    pub fn request_exit(&mut self)
        ensures
            !final(self).running(),
            final(self).width_spec() == old(self).width_spec(),
            final(self).height_spec() == old(self).height_spec(),
    {
        self.working = false;
    }

    pub fn is_running(&self) -> (r: bool)
        ensures
            r == self.running(),
    {
        self.working
    }

    /// Takes one platform event: records a new size, ends the loop on a quit
    /// request or Escape, and returns the event for the handler, if any.
    pub fn handle_event(&mut self, event: PlatformEvent) -> (r: Option<InputEvent>)
        ensures
            r == translate_spec(event),
            final(self).running() == (old(self).running() && !stops_spec(event)),
            match event {
                PlatformEvent::Resized { width, height } => {
                    &&& final(self).width_spec() == width
                    &&& final(self).height_spec() == height
                },
                _ => {
                    &&& final(self).width_spec() == old(self).width_spec()
                    &&& final(self).height_spec() == old(self).height_spec()
                },
            },
    {
        match event {
            PlatformEvent::Quit => {
                self.request_exit();
                None
            },
            PlatformEvent::Resized { width, height } => {
                self.width = width;
                self.height = height;
                Some(InputEvent::Resized { width, height })
            },
            PlatformEvent::MouseWheel { y_negative, flipped } => Some(
                InputEvent::Scroll { down: scroll_down(y_negative, flipped) },
            ),
            PlatformEvent::KeyDown(k) => {
                if k == Keycode::Escape {
                    self.request_exit();
                }
                Some(InputEvent::KeyDown(k))
            },
            PlatformEvent::MouseButtonDown(b) => Some(InputEvent::MouseDown(b)),
            PlatformEvent::MouseMotion => Some(InputEvent::MouseMove),
            PlatformEvent::Other => None,
        }
    }
}

} // verus!
