use vstd::prelude::*;
use std::collections::VecDeque;
use crate::error::WindowError;
use crate::event::{
    Event, NativeMessage, event_of, packed_position, packed_size, translate_message, unpack_position,
    unpack_size, WM_DESTROY, WM_DPICHANGED, WM_KILLFOCUS, WM_MOVE, WM_SETFOCUS, WM_SIZE,
};
use crate::geometry::{Monitor, PhysicalPosition, PhysicalSize, Rect};
use crate::style::{Fullscreen, Style, Visibility, get_window_ex_style, get_window_style,
    window_ex_style_bits, window_style_bits};
use crate::utilities::{lo_word, BASE_DPI};

verus! {

/// How the event stream is consumed.
#[derive(Debug, Clone, Copy, PartialEq, Eq, Hash, Structural)]
pub enum Flow {
    /// Asking for an event blocks until one arrives.
    Wait,
    /// Asking for an event never blocks; `Event::Idle` stands for none.
    Poll,
}

/// Where and how large the window was, and its style, before it went
/// fullscreen.
#[derive(Debug, Clone, Copy, PartialEq, Eq, Structural)]
pub struct Placement {
    pub position: PhysicalPosition,
    pub size: PhysicalSize,
    pub style: Style,
}

/// The properties of a window that both threads see.  The control thread
/// is the only writer; each message or intent moves it from one whole
/// state to the next.
#[derive(Debug, Clone, Copy, PartialEq, Eq, Structural)]
pub struct WindowState {
    pub size: PhysicalSize,
    pub position: PhysicalPosition,
    pub dpi: u32,
    pub focused: bool,
    pub cursor_visible: bool,
    pub cursor_clip: Option<Rect>,
    pub style: Style,
    /// The windowed placement to restore; present exactly while fullscreen.
    pub windowed: Option<Placement>,
    pub destroyed: bool,
}

/// The native frame a window must be given: style bits, extended style
/// bits and placement, applied together.
#[derive(Debug, Clone, Copy, PartialEq, Eq, Structural)]
pub struct FrameUpdate {
    pub style: u32,
    pub ex_style: u32,
    pub position: PhysicalPosition,
    pub size: PhysicalSize,
}

/// A change asked for by the owning thread, carried out by the control
/// thread.
#[derive(Debug, Clone, Copy, PartialEq, Eq, Structural)]
pub enum Intent {
    SetFullscreen(Option<Fullscreen>),
    SetVisibility(Visibility),
    SetResizeable(bool),
    SetDecorations(Visibility),
    SetCursorVisibility(Visibility),
    SetCursorClip(Option<Rect>),
    Close,
}

/// The native call the control thread makes to carry out an intent.
#[derive(Debug, Clone, Copy, PartialEq, Eq, Structural)]
pub enum Action {
    /// Nothing changes.
    Nothing,
    /// Re-apply the frame: style bits and placement in one step.
    ApplyFrame(FrameUpdate),
    /// Show or hide the cursor.
    ShowCursor(bool),
    /// Confine the cursor to the rectangle, or free it.
    ClipCursor(Option<Rect>),
    /// Destroy the native window.
    Destroy,
}

impl WindowState {
    /// The fullscreen flag and the saved placement agree, and the saved
    /// placement is a windowed one.
    pub open spec fn wf(self) -> bool {
        &&& (self.style.fullscreen is Some) == (self.windowed is Some)
        &&& self.windowed matches Some(p) ==> p.style.fullscreen is None
    }

    /// The state after the window procedure handled `m`.
    pub open spec fn after_message(self, m: NativeMessage) -> WindowState {
        if m.id == WM_SIZE {
            WindowState { size: packed_size(m.lparam), ..self }
        } else if m.id == WM_MOVE {
            WindowState { position: packed_position(m.lparam), ..self }
        } else if m.id == WM_DPICHANGED {
            WindowState {
                dpi: ((m.wparam as u32) % 0x1_0000) as u32,
                position: m.rect.spec_origin(),
                size: m.rect.spec_extent(),
                ..self
            }
        } else if m.id == WM_SETFOCUS {
            WindowState { focused: true, ..self }
        } else if m.id == WM_KILLFOCUS {
            WindowState { focused: false, ..self }
        } else if m.id == WM_DESTROY {
            WindowState { destroyed: true, ..self }
        } else {
            self
        }
    }

    /// The state after entering borderless fullscreen on `monitor`: the
    /// windowed placement is saved and the window covers the display.  A
    /// window already fullscreen stays as it is.
    pub open spec fn entered_fullscreen(self, monitor: Monitor) -> WindowState {
        if self.style.fullscreen is Some {
            self
        } else {
            WindowState {
                position: monitor.spec_position(),
                size: monitor.spec_size(),
                style: Style { fullscreen: Some(Fullscreen::Borderless), ..self.style },
                windowed: Some(Placement { position: self.position, size: self.size, style: self.style }),
                ..self
            }
        }
    }

    /// The state after leaving fullscreen: the saved placement and style
    /// come back.  A windowed window stays as it is.
    pub open spec fn left_fullscreen(self) -> WindowState {
        match self.windowed {
            Some(p) => WindowState {
                position: p.position,
                size: p.size,
                style: p.style,
                windowed: None,
                ..self
            },
            None => self,
        }
    }

    /// The frame the window has in this state.
    pub open spec fn spec_frame(self) -> FrameUpdate {
        FrameUpdate {
            style: window_style_bits(self.style),
            ex_style: window_ex_style_bits(self.style),
            position: self.position,
            size: self.size,
        }
    }

    /// The state with a new style and saved placement; a style intent
    /// changes both, so that leaving fullscreen keeps the change.
    pub open spec fn restyled(self, style: Style, saved: Option<Placement>) -> WindowState {
        WindowState { style, windowed: saved, ..self }
    }

    /// The state and the native call after `intent`.
    pub open spec fn after_intent(self, intent: Intent, monitor: Monitor) -> (WindowState, Action) {
        match intent {
            Intent::SetFullscreen(Some(_)) => {
                let s = self.entered_fullscreen(monitor);
                (s, if self.style.fullscreen is Some { Action::Nothing } else { Action::ApplyFrame(s.spec_frame()) })
            },
            Intent::SetFullscreen(None) => {
                let s = self.left_fullscreen();
                (s, if self.windowed is None { Action::Nothing } else { Action::ApplyFrame(s.spec_frame()) })
            },
            Intent::SetVisibility(v) => {
                let s = self.restyled(
                    Style { visibility: v, ..self.style },
                    match self.windowed {
                        Some(p) => Some(Placement { style: Style { visibility: v, ..p.style }, ..p }),
                        None => None,
                    },
                );
                (s, Action::ApplyFrame(s.spec_frame()))
            },
            Intent::SetResizeable(r) => {
                let s = self.restyled(
                    Style { resizeable: r, ..self.style },
                    match self.windowed {
                        Some(p) => Some(Placement { style: Style { resizeable: r, ..p.style }, ..p }),
                        None => None,
                    },
                );
                (s, Action::ApplyFrame(s.spec_frame()))
            },
            Intent::SetDecorations(d) => {
                let s = self.restyled(
                    Style { decorations: d, ..self.style },
                    match self.windowed {
                        Some(p) => Some(Placement { style: Style { decorations: d, ..p.style }, ..p }),
                        None => None,
                    },
                );
                (s, Action::ApplyFrame(s.spec_frame()))
            },
            Intent::SetCursorVisibility(v) => {
                let shown = v == Visibility::Shown;
                (WindowState { cursor_visible: shown, ..self }, Action::ShowCursor(shown))
            },
            Intent::SetCursorClip(r) => (WindowState { cursor_clip: r, ..self }, Action::ClipCursor(r)),
            Intent::Close => (self, Action::Destroy),
        }
    }

    /// The frame the window has now.
    pub fn frame(&self) -> (f: FrameUpdate)
        ensures
            f == self.spec_frame(),
    {
        FrameUpdate {
            style: get_window_style(&self.style),
            ex_style: get_window_ex_style(&self.style),
            position: self.position,
            size: self.size,
        }
    }

    /// Handles one native message on the control thread: updates the
    /// properties it changes and returns the event it stands for.
    pub fn handle_message(&mut self, m: &NativeMessage) -> (e: Option<Event>)
        ensures
            *final(self) == old(self).after_message(*m),
            e == event_of(*m),
            old(self).wf() ==> final(self).wf(),
    {
        let id = m.id;
        if id == WM_SIZE {
            self.size = unpack_size(m.lparam);
        } else if id == WM_MOVE {
            self.position = unpack_position(m.lparam);
        } else if id == WM_DPICHANGED {
            self.dpi = lo_word(m.wparam as u32) as u32;
            self.position = m.rect.origin();
            self.size = m.rect.extent();
        } else if id == WM_SETFOCUS {
            self.focused = true;
        } else if id == WM_KILLFOCUS {
            self.focused = false;
        } else if id == WM_DESTROY {
            self.destroyed = true;
        }
        translate_message(m)
    }

    /// Enters borderless fullscreen on `monitor`; returns the frame to
    /// apply, or `None` when the window already was fullscreen.
    pub fn enter_fullscreen(&mut self, monitor: &Monitor) -> (f: Option<FrameUpdate>)
        ensures
            *final(self) == old(self).entered_fullscreen(*monitor),
            f == (if old(self).style.fullscreen is Some { None::<FrameUpdate> } else { Some(final(self).spec_frame()) }),
            old(self).wf() ==> final(self).wf(),
    {
        if self.style.fullscreen.is_some() {
            return None;
        }
        let saved = Placement { position: self.position, size: self.size, style: self.style };
        self.position = monitor.position();
        self.size = monitor.size();
        self.style = Style { fullscreen: Some(Fullscreen::Borderless), ..self.style };
        self.windowed = Some(saved);
        Some(self.frame())
    }

    /// Leaves fullscreen, restoring the saved placement and style; returns
    /// the frame to apply, or `None` when the window was not fullscreen.
    pub fn leave_fullscreen(&mut self) -> (f: Option<FrameUpdate>)
        ensures
            *final(self) == old(self).left_fullscreen(),
            f == (if old(self).windowed is None { None::<FrameUpdate> } else { Some(final(self).spec_frame()) }),
            old(self).wf() ==> final(self).wf(),
    {
        match self.windowed {
            Some(p) => {
                self.position = p.position;
                self.size = p.size;
                self.style = p.style;
                self.windowed = None;
                Some(self.frame())
            },
            None => None,
        }
    }

    /// Carries out an intent of the owning thread; a window already
    /// destroyed refuses every intent.
    pub fn apply_intent(&mut self, intent: Intent, monitor: &Monitor) -> (r: Result<Action, WindowError>)
        ensures
            old(self).destroyed ==> *final(self) == *old(self) && r == Err::<Action, WindowError>(WindowError::InvalidHandle),
            !old(self).destroyed ==> *final(self) == old(self).after_intent(intent, *monitor).0
                && r == Ok::<Action, WindowError>(old(self).after_intent(intent, *monitor).1),
            old(self).wf() ==> final(self).wf(),
    {
        if self.destroyed {
            return Err(WindowError::InvalidHandle);
        }
        match intent {
            Intent::SetFullscreen(Some(_)) => match self.enter_fullscreen(monitor) {
                Some(f) => Ok(Action::ApplyFrame(f)),
                None => Ok(Action::Nothing),
            },
            Intent::SetFullscreen(None) => match self.leave_fullscreen() {
                Some(f) => Ok(Action::ApplyFrame(f)),
                None => Ok(Action::Nothing),
            },
            Intent::SetVisibility(v) => {
                self.style = Style { visibility: v, ..self.style };
                self.windowed = match self.windowed {
                    Some(p) => Some(Placement { style: Style { visibility: v, ..p.style }, ..p }),
                    None => None,
                };
                Ok(Action::ApplyFrame(self.frame()))
            },
            Intent::SetResizeable(resizeable) => {
                self.style = Style { resizeable, ..self.style };
                self.windowed = match self.windowed {
                    Some(p) => Some(Placement { style: Style { resizeable, ..p.style }, ..p }),
                    None => None,
                };
                Ok(Action::ApplyFrame(self.frame()))
            },
            Intent::SetDecorations(d) => {
                self.style = Style { decorations: d, ..self.style };
                self.windowed = match self.windowed {
                    Some(p) => Some(Placement { style: Style { decorations: d, ..p.style }, ..p }),
                    None => None,
                };
                Ok(Action::ApplyFrame(self.frame()))
            },
            Intent::SetCursorVisibility(v) => {
                let shown = v == Visibility::Shown;
                self.cursor_visible = shown;
                Ok(Action::ShowCursor(shown))
            },
            Intent::SetCursorClip(r) => {
                self.cursor_clip = r;
                Ok(Action::ClipCursor(r))
            },
            Intent::Close => Ok(Action::Destroy),
        }
    }
}

/// What a window is created with.  `size` is logical: it is scaled by the
/// DPI of the window when the window is made.
pub struct WindowSettings {
    pub title: String,
    pub size: (u32, u32),
    pub position: Option<(i32, i32)>,
    pub resizeable: bool,
    pub visibility: Visibility,
    pub decorations: Visibility,
    pub fullscreen: Option<Fullscreen>,
    pub flow: Flow,
}

impl WindowSettings {
    pub open spec fn spec_style(&self) -> Style {
        Style {
            resizeable: self.resizeable,
            visibility: self.visibility,
            decorations: self.decorations,
            fullscreen: self.fullscreen,
        }
    }

    /// The style the window is created with.
    pub fn style(&self) -> (s: Style)
        ensures
            s == self.spec_style(),
    {
        Style {
            resizeable: self.resizeable,
            visibility: self.visibility,
            decorations: self.decorations,
            fullscreen: self.fullscreen,
        }
    }
}

impl Default for WindowSettings {
    /// A shown, decorated, resizeable 800 by 600 window, windowed, whose
    /// events are waited for.
    fn default() -> (s: WindowSettings)
        ensures
            s.title@ == "Window"@,
            s.size == (800u32, 600u32),
            s.position is None,
            s.resizeable,
            s.visibility == Visibility::Shown,
            s.decorations == Visibility::Shown,
            s.fullscreen is None,
            s.flow == Flow::Wait,
    {
        WindowSettings {
            title: String::from_str("Window"),
            size: (800, 600),
            position: None,
            resizeable: true,
            visibility: Visibility::Shown,
            decorations: Visibility::Shown,
            fullscreen: None,
            flow: Flow::Wait,
        }
    }
}

impl WindowSettings {
    pub fn with_title(self, title: &str) -> (s: WindowSettings)
        ensures
            s.title@ == title@,
            s.size == self.size && s.position == self.position && s.flow == self.flow,
            s.spec_style() == self.spec_style(),
    {
        WindowSettings { title: title.to_string(), ..self }
    }

    /// Sets the logical size.
    pub fn with_size(self, size: (u32, u32)) -> (s: WindowSettings)
        ensures
            s.size == size,
            s.title == self.title && s.position == self.position && s.flow == self.flow,
            s.spec_style() == self.spec_style(),
    {
        WindowSettings { size, ..self }
    }

    pub fn with_position(self, position: Option<(i32, i32)>) -> (s: WindowSettings)
        ensures
            s.position == position,
            s.title == self.title && s.size == self.size && s.flow == self.flow,
            s.spec_style() == self.spec_style(),
    {
        WindowSettings { position, ..self }
    }

    pub fn with_flow(self, flow: Flow) -> (s: WindowSettings)
        ensures
            s.flow == flow,
            s.title == self.title && s.size == self.size && s.position == self.position,
            s.spec_style() == self.spec_style(),
    {
        WindowSettings { flow, ..self }
    }

    pub fn with_style(self, style: Style) -> (s: WindowSettings)
        ensures
            s.spec_style() == style,
            s.title == self.title && s.size == self.size && s.position == self.position
                && s.flow == self.flow,
    {
        WindowSettings {
            resizeable: style.resizeable,
            visibility: style.visibility,
            decorations: style.decorations,
            fullscreen: style.fullscreen,
            ..self
        }
    }
}

/// A logical length in physical pixels at `dpi`, rounded down and capped
/// at the largest `u32`.
pub open spec fn to_physical(v: u32, dpi: u32) -> u32 {
    let p = v as int * dpi as int / BASE_DPI as int;
    if p > u32::MAX as int { u32::MAX } else { p as u32 }
}

/// Scales a logical length to physical pixels at `dpi`.
pub fn logical_to_physical(v: u32, dpi: u32) -> (p: u32)
    ensures
        p == to_physical(v, dpi),
{
    proof {
        assert(v as int * dpi as int <= u32::MAX as int * u32::MAX as int) by (nonlinear_arith)
            requires
                v <= u32::MAX,
                dpi <= u32::MAX,
        ;
    }
    let wide = (v as u64) * (dpi as u64) / (BASE_DPI as u64);
    if wide > u32::MAX as u64 {
        u32::MAX
    } else {
        wide as u32
    }
}

impl WindowState {
    /// The state of a window just made from `settings` at `dpi`: windowed
    /// at the given position (the origin when none is given), then moved
    /// to borderless fullscreen on `monitor` if the settings ask for it.
    pub open spec fn spec_initial(settings: &WindowSettings, dpi: u32, monitor: Monitor) -> WindowState {
        let windowed = WindowState {
            size: PhysicalSize { width: to_physical(settings.size.0, dpi), height: to_physical(settings.size.1, dpi) },
            position: match settings.position {
                Some((x, y)) => PhysicalPosition { x, y },
                None => PhysicalPosition { x: 0, y: 0 },
            },
            dpi,
            focused: false,
            cursor_visible: true,
            cursor_clip: None,
            style: Style { fullscreen: None, ..settings.spec_style() },
            windowed: None,
            destroyed: false,
        };
        if settings.fullscreen is Some {
            windowed.entered_fullscreen(monitor)
        } else {
            windowed
        }
    }

    pub fn new(settings: &WindowSettings, dpi: u32, monitor: &Monitor) -> (s: WindowState)
        ensures
            s == WindowState::spec_initial(settings, dpi, *monitor),
            s.wf(),
    {
        let position = match settings.position {
            Some((x, y)) => PhysicalPosition { x, y },
            None => PhysicalPosition { x: 0, y: 0 },
        };
        let mut s = WindowState {
            size: PhysicalSize {
                width: logical_to_physical(settings.size.0, dpi),
                height: logical_to_physical(settings.size.1, dpi),
            },
            position,
            dpi,
            focused: false,
            cursor_visible: true,
            cursor_clip: None,
            style: Style { fullscreen: None, ..settings.style() },
            windowed: None,
            destroyed: false,
        };
        if settings.fullscreen.is_some() {
            s.enter_fullscreen(monitor);
        }
        s
    }

    pub fn size(&self) -> (r: PhysicalSize)
        ensures
            r == self.size,
    {
        self.size
    }

    pub fn position(&self) -> (r: PhysicalPosition)
        ensures
            r == self.position,
    {
        self.position
    }

    /// The DPI of the window; its scale factor is this over the base DPI.
    pub fn dpi(&self) -> (r: u32)
        ensures
            r == self.dpi,
    {
        self.dpi
    }

    pub fn is_cursor_visible(&self) -> (r: bool)
        ensures
            r == self.cursor_visible,
    {
        self.cursor_visible
    }

    pub fn is_destroyed(&self) -> (r: bool)
        ensures
            r == self.destroyed,
    {
        self.destroyed
    }
}

/// The state after the window procedure handled each of `msgs` in turn.
pub open spec fn state_after_all(s: WindowState, msgs: Seq<NativeMessage>) -> WindowState
    decreases msgs.len(),
{
    if msgs.len() == 0 {
        s
    } else {
        state_after_all(s, msgs.drop_last()).after_message(msgs.last())
    }
}

/// The events that `msgs` give, in order; messages with no portable
/// meaning give none.
pub open spec fn events_of(msgs: Seq<NativeMessage>) -> Seq<Event>
    decreases msgs.len(),
{
    if msgs.len() == 0 {
        Seq::empty()
    } else {
        match event_of(msgs.last()) {
            Some(e) => events_of(msgs.drop_last()).push(e),
            None => events_of(msgs.drop_last()),
        }
    }
}

impl WindowState {
    /// Handles each of `msgs` in turn and returns the events they give.
    pub fn handle_messages(&mut self, msgs: &Vec<NativeMessage>) -> (events: Vec<Event>)
        ensures
            *final(self) == state_after_all(*old(self), msgs@),
            events@ == events_of(msgs@),
            old(self).wf() ==> final(self).wf(),
    {
        let mut events: Vec<Event> = Vec::new();
        let mut i: usize = 0;
        while i < msgs.len()
            invariant
                i <= msgs@.len(),
                *self == state_after_all(*old(self), msgs@.take(i as int)),
                events@ == events_of(msgs@.take(i as int)),
                old(self).wf() ==> self.wf(),
            decreases msgs@.len() - i,
        {
            proof {
                assert(msgs@.take(i as int + 1).drop_last() == msgs@.take(i as int));
                assert(msgs@.take(i as int + 1).last() == msgs@[i as int]);
            }
            match self.handle_message(&msgs[i]) {
                Some(e) => events.push(e),
                None => {},
            }
            i = i + 1;
        }
        proof {
            assert(msgs@.take(msgs@.len() as int) == msgs@);
        }
        events
    }
}

/// Handling a sequence of native messages gives at most one event per
/// message.
pub proof fn lemma_events_at_most_messages(msgs: Seq<NativeMessage>)
    ensures
        events_of(msgs).len() <= msgs.len(),
    decreases msgs.len(),
{
    if msgs.len() > 0 {
        lemma_events_at_most_messages(msgs.drop_last());
    }
}

/// The payload of a geometry event is what the shared state holds right
/// after the message that gave it: a reader that sees the event reads the
/// new size, position or DPI, never an older one.
pub proof fn lemma_geometry_event_matches_state(s: WindowState, m: NativeMessage)
    ensures
        event_of(m) matches Some(Event::Resized(size)) ==> s.after_message(m).size == size,
        event_of(m) matches Some(Event::Moved(position)) ==> s.after_message(m).position == position,
        event_of(m) matches Some(Event::DpiChanged { dpi, size }) ==> s.after_message(m).dpi == dpi
            && s.after_message(m).size == size,
{
}

/// Over a whole run of messages: the payload of each geometry event is
/// what the shared state holds right after the message that gave it.
pub proof fn lemma_geometry_events_match_states(s: WindowState, msgs: Seq<NativeMessage>, i: int)
    requires
        0 <= i < msgs.len(),
    ensures
        event_of(msgs[i]) matches Some(Event::Resized(size)) ==> state_after_all(s, msgs.take(i + 1)).size
            == size,
        event_of(msgs[i]) matches Some(Event::Moved(position))
            ==> state_after_all(s, msgs.take(i + 1)).position == position,
        event_of(msgs[i]) matches Some(Event::DpiChanged { dpi, size }) ==> state_after_all(
            s,
            msgs.take(i + 1),
        ).dpi == dpi && state_after_all(s, msgs.take(i + 1)).size == size,
{
    assert(msgs.take(i + 1).drop_last() == msgs.take(i));
    assert(msgs.take(i + 1).last() == msgs[i]);
    lemma_geometry_event_matches_state(state_after_all(s, msgs.take(i)), msgs[i]);
}

/// Entering fullscreen a second time changes nothing.
pub proof fn lemma_enter_fullscreen_idempotent(s: WindowState, monitor: Monitor)
    ensures
        s.entered_fullscreen(monitor).entered_fullscreen(monitor) == s.entered_fullscreen(monitor),
{
}

/// Entering borderless fullscreen and leaving it again brings back the
/// windowed window exactly: its placement, its style, and so its native
/// style bits.
pub proof fn lemma_fullscreen_round_trip(s: WindowState, monitor: Monitor)
    requires
        s.wf(),
        s.style.fullscreen is None,
    ensures
        s.entered_fullscreen(monitor).left_fullscreen() == s,
        s.entered_fullscreen(monitor).left_fullscreen().spec_frame() == s.spec_frame(),
{
}

/// The queue of events from the control thread to the owning thread.  It
/// closes when the terminal `Destroyed` event is pushed: nothing is pushed
/// after it, and once the queue has been drained it is exhausted.
pub struct EventQueue {
    pending: VecDeque<Event>,
    closed: bool,
}

/// What asking the queue for the next event gives.
#[derive(Debug, Clone, Copy, PartialEq, Eq, Structural)]
pub enum NextEvent {
    /// The next event (`Event::Idle` under `Flow::Poll` when none waits).
    Ready(Event),
    /// Nothing waits yet: under `Flow::Wait` the consumer blocks until the
    /// control thread pushes.
    Blocked,
    /// The window is gone and every event has been taken.
    Exhausted,
}

impl EventQueue {
    /// The events waiting, oldest first, and whether the queue is closed.
    pub closed spec fn view(&self) -> (Seq<Event>, bool) {
        (self.pending@, self.closed)
    }

    pub fn new() -> (q: EventQueue)
        ensures
            q@ == (Seq::<Event>::empty(), false),
    {
        EventQueue { pending: VecDeque::new(), closed: false }
    }

    /// Whether the terminal event has been pushed.
    pub fn is_closed(&self) -> (c: bool)
        ensures
            c == self@.1,
    {
        self.closed
    }

    /// Number of events waiting.
    pub fn len(&self) -> (n: usize)
        ensures
            n == self@.0.len(),
    {
        self.pending.len()
    }

    /// Pushes an event at the back; `Destroyed` closes the queue.  A closed
    /// queue takes nothing more.
    pub fn push(&mut self, e: Event)
        ensures
            old(self)@.1 ==> final(self)@ == old(self)@,
            !old(self)@.1 ==> final(self)@ == (old(self)@.0.push(e), e == Event::Destroyed),
    {
        if self.closed {
            return;
        }
        self.pending.push_back(e);
        if e == Event::Destroyed {
            self.closed = true;
        }
    }

    /// Takes the oldest event.  With none waiting: exhausted once closed,
    /// else `Idle` under `Flow::Poll` and blocked under `Flow::Wait`.
    pub fn next(&mut self, flow: Flow) -> (r: NextEvent)
        ensures
            old(self)@.0.len() > 0 ==> r == NextEvent::Ready(old(self)@.0[0])
                && final(self)@ == (old(self)@.0.drop_first(), old(self)@.1),
            old(self)@.0.len() == 0 ==> final(self)@ == old(self)@ && r == (if old(self)@.1 {
                NextEvent::Exhausted
            } else if flow == Flow::Poll {
                NextEvent::Ready(Event::Idle)
            } else {
                NextEvent::Blocked
            }),
    {
        match self.pending.pop_front() {
            Some(e) => NextEvent::Ready(e),
            None => if self.closed {
                NextEvent::Exhausted
            } else if flow == Flow::Poll {
                NextEvent::Ready(Event::Idle)
            } else {
                NextEvent::Blocked
            },
        }
    }
}

/// How the control thread fetches the next native message.
#[derive(Debug, Clone, Copy, PartialEq, Eq, Structural)]
pub enum PumpMode {
    /// Block until a message arrives.
    Block,
    /// Take a message if one is pending, else go on at once.
    Peek,
    /// The window is gone: leave the loop.
    Exit,
}

/// The way the message pump runs next, from the current flow and whether
/// the window has been destroyed.
pub fn pump_mode(flow: Flow, destroyed: bool) -> (m: PumpMode)
    ensures
        m == (if destroyed { PumpMode::Exit } else if flow == Flow::Wait { PumpMode::Block } else { PumpMode::Peek }),
{
    if destroyed {
        PumpMode::Exit
    } else if flow == Flow::Wait {
        PumpMode::Block
    } else {
        PumpMode::Peek
    }
}

} // verus!
