//! The application state machine: menu and viewing modes, the pause state,
//! and the dispatch of key presses to navigation, capture and render steps.
//!
//! The machine never touches a device or the terminal itself. The caller
//! performs the returned [`Action`], captures frames, and hands both results
//! back as plain values.

use vstd::prelude::*;
use vstd::string::StringExecFns;
use crate::list::next_cursor;
use crate::list::prev_cursor;
use crate::list::StatefulList;
use crate::render::is_render_of;
use crate::render::render_frame;
use crate::render::RawFrame;

verus! {

/// One enumerated capture device: a display label and an opaque handle that
/// only the device layer interprets.
pub struct Device {
    pub name: String,
    pub handle: u64,
}

/// The mode of the application. A frozen frame exists only while paused and
/// viewing, so the illegal combinations of pause flag, frozen frame and
/// active capture cannot be represented at all.
pub enum Mode {
    /// No capture is active; the device menu is shown.
    Menu,
    /// A capture is active and every tick pulls a fresh frame.
    Live,
    /// Pause was requested; the next rendered frame will be frozen.
    PausePending,
    /// Paused, holding the frozen frame that every tick re-renders.
    Frozen(RawFrame),
}

/// A key press that the application understands. The shell around the
/// library reduces raw terminal events to these before dispatching them.
#[derive(Clone, Copy, Debug)]
pub enum Key {
    Quit,
    Down,
    Up,
    Confirm,
    TogglePause,
    Back,
    Other,
}

/// What the caller must do after a key was dispatched: nothing, leave the
/// loop, try to open the device at the given menu index, or release the
/// active capture.
#[derive(Clone, Copy, Debug, PartialEq, Eq, Structural)]
pub enum Action {
    Idle,
    Quit,
    TryOpen(usize),
    Close,
}

/// The mode after a key press. In the menu only `open_result` can change the
/// mode; while viewing, toggling pause moves between live and paused and the
/// back key returns to the menu, discarding any frozen frame.
pub open spec fn mode_after_key(m: Mode, k: Key) -> Mode {
    match m {
        Mode::Menu => Mode::Menu,
        Mode::Live => match k {
            Key::TogglePause => Mode::PausePending,
            Key::Back => Mode::Menu,
            _ => Mode::Live,
        },
        Mode::PausePending => match k {
            Key::TogglePause => Mode::Live,
            Key::Back => Mode::Menu,
            _ => Mode::PausePending,
        },
        Mode::Frozen(f) => match k {
            Key::TogglePause => Mode::Live,
            Key::Back => Mode::Menu,
            _ => Mode::Frozen(f),
        },
    }
}

/// The menu cursor after a key press: arrow keys navigate with wraparound
/// while the menu is shown; no other key and no viewing mode moves it.
pub open spec fn cursor_after_key(m: Mode, k: Key, c: Option<usize>, len: int) -> Option<usize> {
    match m {
        Mode::Menu => match k {
            Key::Down => next_cursor(c, len),
            Key::Up => prev_cursor(c, len),
            _ => c,
        },
        _ => c,
    }
}

/// The action owed to a key press: quit from anywhere, open the selected
/// device on confirm in the menu, release the capture on back while viewing.
pub open spec fn action_for_key(m: Mode, k: Key, c: Option<usize>) -> Action {
    match k {
        Key::Quit => Action::Quit,
        Key::Confirm => match m {
            Mode::Menu => match c {
                Option::Some(i) => Action::TryOpen(i),
                Option::None => Action::Idle,
            },
            _ => Action::Idle,
        },
        Key::Back => match m {
            Mode::Menu => Action::Idle,
            _ => Action::Close,
        },
        _ => Action::Idle,
    }
}

/// The whole application state: the device menu and the current mode.
pub struct App {
    pub menu: StatefulList<Device>,
    pub mode: Mode,
}

impl App {
    /// The menu cursor is in range and a frozen frame, if any, is a valid
    /// image buffer.
    pub open spec fn wf(&self) -> bool {
        &&& self.menu.wf()
        &&& match self.mode {
            Mode::Frozen(f) => f.wf(),
            _ => true,
        }
    }

    /// Builds the application in menu mode over the enumerated devices, with
    /// nothing selected yet.
    pub fn with_devices(devices: Vec<Device>) -> (r: App)
        ensures
            r.wf(),
            r.menu.items@ == devices@,
            r.menu.cursor == Option::<usize>::None,
            r.mode is Menu,
    {
        App { menu: StatefulList::with_items(devices), mode: Mode::Menu }
    }

    /// Dispatches one key press: navigation moves the menu cursor, pause
    /// toggles between live and paused viewing, back leaves to the menu, and
    /// the returned action tells the caller what outside work is owed.
    pub fn handle_key(&mut self, key: Key) -> (a: Action)
        requires
            old(self).wf(),
        ensures
            final(self).wf(),
            final(self).menu.items@ == old(self).menu.items@,
            final(self).menu.cursor == cursor_after_key(
                old(self).mode,
                key,
                old(self).menu.cursor,
                old(self).menu.items@.len() as int,
            ),
            final(self).mode == mode_after_key(old(self).mode, key),
            a == action_for_key(old(self).mode, key, old(self).menu.cursor),
    {
        let is_menu = match &self.mode {
            Mode::Menu => true,
            _ => false,
        };
        if is_menu {
            match key {
                Key::Quit => Action::Quit,
                Key::Down => {
                    self.menu.next();
                    Action::Idle
                },
                Key::Up => {
                    self.menu.previous();
                    Action::Idle
                },
                Key::Confirm => match self.menu.selected() {
                    Some(i) => Action::TryOpen(i),
                    None => Action::Idle,
                },
                _ => Action::Idle,
            }
        } else {
            match key {
                Key::Quit => Action::Quit,
                Key::TogglePause => {
                    let to_pending = match &self.mode {
                        Mode::Live => true,
                        _ => false,
                    };
                    if to_pending {
                        self.mode = Mode::PausePending;
                    } else {
                        self.mode = Mode::Live;
                    }
                    Action::Idle
                },
                Key::Back => {
                    self.mode = Mode::Menu;
                    Action::Close
                },
                _ => Action::Idle,
            }
        }
    }

    /// Applies the outcome of the attempt to open the device at `index`. On
    /// success the application enters live viewing with the menu untouched.
    /// On failure it stays in the menu, the cursor does not move, and only
    /// the chosen entry's label is annotated with an error note.
    pub fn open_result(&mut self, index: usize, ok: bool)
        requires
            old(self).wf(),
            old(self).mode is Menu,
            index < old(self).menu.items@.len(),
        ensures
            final(self).wf(),
            final(self).menu.cursor == old(self).menu.cursor,
            final(self).menu.items@.len() == old(self).menu.items@.len(),
            ok ==> final(self).mode is Live && final(self).menu.items@ == old(self).menu.items@,
            !ok ==> final(self).mode is Menu,
            !ok ==> forall|j: int|
                0 <= j < old(self).menu.items@.len() && j != index ==> final(self).menu.items@[j]
                    == old(self).menu.items@[j],
            !ok ==> final(self).menu.items@[index as int].handle == old(
                self,
            ).menu.items@[index as int].handle,
            !ok ==> final(self).menu.items@[index as int].name@ == old(
                self,
            ).menu.items@[index as int].name@ + " - An Error occured"@,
    {
        if ok {
            self.mode = Mode::Live;
        } else {
            self.menu.items[index].name.append(" - An Error occured");
        }
    }

    /// Renders one freshly captured frame while viewing. In live mode the
    /// state is unchanged; when a pause is pending, the frame is frozen so
    /// that later ticks re-render it without touching the device.
    pub fn render_live(&mut self, frame: RawFrame, out_w: u32, out_h: u32) -> (t: String)
        requires
            old(self).wf(),
            old(self).mode is Live || old(self).mode is PausePending,
            frame.wf(),
            out_w >= 1,
            out_h >= 1,
        ensures
            final(self).wf(),
            final(self).menu == old(self).menu,
            is_render_of(
                t@,
                frame.data@,
                frame.width as int,
                frame.height as int,
                out_w as int,
                out_h as int,
            ),
            old(self).mode is Live ==> final(self).mode == old(self).mode,
            old(self).mode is PausePending ==> final(self).mode == Mode::Frozen(frame),
    {
        let t = render_frame(&frame, out_w, out_h);
        let pending = match &self.mode {
            Mode::PausePending => true,
            _ => false,
        };
        if pending {
            self.mode = Mode::Frozen(frame);
        }
        t
    }

    /// Re-renders the frozen frame. The state is untouched, so the displayed
    /// content stays the same from tick to tick for as long as the pause
    /// lasts, whatever the requested dimensions of the moment are.
    pub fn render_frozen(&self, out_w: u32, out_h: u32) -> (t: String)
        requires
            self.wf(),
            self.mode is Frozen,
            out_w >= 1,
            out_h >= 1,
        ensures
            match self.mode {
                Mode::Frozen(f) => is_render_of(
                    t@,
                    f.data@,
                    f.width as int,
                    f.height as int,
                    out_w as int,
                    out_h as int,
                ),
                _ => false,
            },
    {
        match &self.mode {
            Mode::Frozen(f) => render_frame(f, out_w, out_h),
            _ => {
                assert(false);
                String::new()
            },
        }
    }

    /// True in menu mode: no capture is active.
    pub fn in_menu(&self) -> (r: bool)
        ensures
            r == (self.mode is Menu),
    {
        match &self.mode {
            Mode::Menu => true,
            _ => false,
        }
    }

    /// True when pause has been requested or a frame is already frozen.
    pub fn is_paused(&self) -> (r: bool)
        ensures
            r == (self.mode is PausePending || self.mode is Frozen),
    {
        match &self.mode {
            Mode::PausePending => true,
            Mode::Frozen(_) => true,
            _ => false,
        }
    }

    /// True when the next tick must pull a fresh frame from the capture.
    pub fn needs_frame(&self) -> (r: bool)
        ensures
            r == (self.mode is Live || self.mode is PausePending),
    {
        match &self.mode {
            Mode::Live => true,
            Mode::PausePending => true,
            _ => false,
        }
    }
}

} // verus!
