use vstd::prelude::*;
use crate::error::{StartLoopError, WindowAccessError};

verus! {

pub const DEFAULT_WINDOW_TITLE: &'static str = "Torii Application";
pub const DEFAULT_WINDOW_WIDTH: u32 = 800;
pub const DEFAULT_WINDOW_HEIGHT: u32 = 600;

/// How a new window is made: its title and inner size.
#[derive(Clone, Copy, Debug)]
pub struct WindowDetails {
    pub window_title: &'static str,
    pub window_height: u32,
    pub window_width: u32,
}

pub open spec fn default_details() -> WindowDetails {
    WindowDetails {
        window_title: DEFAULT_WINDOW_TITLE,
        window_height: DEFAULT_WINDOW_HEIGHT,
        window_width: DEFAULT_WINDOW_WIDTH,
    }
}

impl Default for WindowDetails {
    fn default() -> (r: Self)
        ensures
            r == default_details(),
    {
        WindowDetails {
            window_title: DEFAULT_WINDOW_TITLE,
            window_height: DEFAULT_WINDOW_HEIGHT,
            window_width: DEFAULT_WINDOW_WIDTH,
        }
    }
}

/// Requests that reach the loop from outside it.
#[derive(Clone, Copy, PartialEq, Eq, Structural, Debug)]
pub enum AppEvents {
    CreateWindow,
}

/// The kinds of window event that the dispatch tells apart.
#[derive(Clone, Copy, PartialEq, Eq, Structural, Debug)]
pub enum WindowEventKind {
    CloseRequested,
    RedrawRequested,
    Other,
}

/// The life of the event loop: it runs once.
#[derive(Clone, Copy, PartialEq, Eq, Structural, Debug)]
pub enum LoopPhase {
    NotStarted,
    Running,
    Stopped,
}

/// What the caller is to do on behalf of the dispatch.
#[derive(Clone, Copy, Debug)]
pub enum DispatchAction {
    Nothing,
    /// Make a window with these details and register it.
    CreateWindow(WindowDetails),
    /// Ask the window at this index of the registry to redraw.
    RequestRedraw(usize),
    /// Leave the event loop.
    Exit,
    /// Hand this error to the error callback.
    ReportError(WindowAccessError),
}

/// A live window under the identity that the platform gave it.
#[derive(Debug)]
pub struct LiveWindow<W> {
    pub id: u64,
    pub window: W,
}

pub struct DispatchView<W> {
    pub phase: LoopPhase,
    pub window_details: Option<WindowDetails>,
    pub windows: Seq<LiveWindow<W>>,
}

pub open spec fn ids_of<W>(ws: Seq<LiveWindow<W>>) -> Seq<u64> {
    ws.map_values(|w: LiveWindow<W>| w.id)
}

/// No identity is live twice.
pub open spec fn unique_ids<W>(ws: Seq<LiveWindow<W>>) -> bool {
    forall|i: int, j: int| 0 <= i < ws.len() && 0 <= j < ws.len() && i != j ==> #[trigger] ws[i].id != #[trigger] ws[j].id
}

/// `i` is the index of the window with identity `id`.
pub open spec fn index_of<W>(ws: Seq<LiveWindow<W>>, id: u64, i: int) -> bool {
    0 <= i < ws.len() && ws[i].id == id
}

pub open spec fn is_live<W>(ws: Seq<LiveWindow<W>>, id: u64) -> bool {
    exists|i: int| index_of(ws, id, i)
}

pub open spec fn details_or_default(d: Option<WindowDetails>) -> WindowDetails {
    match d {
        Some(x) => x,
        None => default_details(),
    }
}

/// The answer to a request for a window: while the loop runs, a window with
/// the current details, or the default ones where none are set.
pub open spec fn creation_spec<W>(v: DispatchView<W>) -> DispatchAction {
    if v.phase == LoopPhase::Running {
        DispatchAction::CreateWindow(details_or_default(v.window_details))
    } else {
        DispatchAction::Nothing
    }
}

/// What a window event does to the dispatch, and what it asks of the caller.
pub open spec fn window_event_spec<W>(v: DispatchView<W>, id: u64, kind: WindowEventKind) -> (DispatchView<W>, DispatchAction) {
    if v.phase != LoopPhase::Running {
        (v, DispatchAction::Nothing)
    } else if !is_live(v.windows, id) {
        (v, DispatchAction::ReportError(WindowAccessError::WindowNotFoundError(id)))
    } else {
        let i = choose|i: int| index_of(v.windows, id, i);
        match kind {
            WindowEventKind::CloseRequested => if v.windows.len() > 1 {
                (DispatchView { windows: v.windows.remove(i), ..v }, DispatchAction::Nothing)
            } else {
                (DispatchView { phase: LoopPhase::Stopped, ..v }, DispatchAction::Exit)
            },
            WindowEventKind::RedrawRequested => (v, DispatchAction::RequestRedraw(i as usize)),
            WindowEventKind::Other => (v, DispatchAction::Nothing),
        }
    }
}

/// The dispatch of window events: the registry of live windows, the details
/// of the next window, and the phase of the loop. The caller runs the loop,
/// hands each event here and performs the action that comes back.
pub struct DispatchCore<W> {
    phase: LoopPhase,
    window_details: Option<WindowDetails>,
    windows: Vec<LiveWindow<W>>,
}

impl<W> View for DispatchCore<W> {
    type V = DispatchView<W>;

    closed spec fn view(&self) -> DispatchView<W> {
        DispatchView { phase: self.phase, window_details: self.window_details, windows: self.windows@ }
    }
}

impl<W> DispatchCore<W> {
    pub open spec fn wf(&self) -> bool {
        unique_ids(self@.windows)
    }

    pub fn new() -> (r: Self)
        ensures
            r.wf(),
            r@.phase == LoopPhase::NotStarted,
            r@.window_details is None,
            r@.windows.len() == 0,
    {
        DispatchCore { phase: LoopPhase::NotStarted, window_details: None, windows: Vec::new() }
    }

    pub fn phase(&self) -> (r: LoopPhase)
        ensures
            r == self@.phase,
    {
        self.phase
    }

    /// Marks the loop as running; a loop runs once.
    pub fn start_loop(&mut self) -> (r: Result<(), StartLoopError>)
        ensures
            old(self)@.phase == LoopPhase::NotStarted ==> r is Ok && final(self)@ == (DispatchView {
                phase: LoopPhase::Running,
                ..old(self)@
            }),
            old(self)@.phase != LoopPhase::NotStarted ==> r == Err::<(), StartLoopError>(
                StartLoopError::EventLoopAlreadyConsumedError,
            ) && final(self)@ == old(self)@,
    {
        if self.phase == LoopPhase::NotStarted {
            self.phase = LoopPhase::Running;
            Ok(())
        } else {
            Err(StartLoopError::EventLoopAlreadyConsumedError)
        }
    }

    /// Marks the loop as ended, once it has returned.
    pub fn stop_loop(&mut self)
        ensures
            final(self)@ == (DispatchView { phase: LoopPhase::Stopped, ..old(self)@ }),
    {
        self.phase = LoopPhase::Stopped;
    }

    pub fn set_window_details(&mut self, window_details: Option<WindowDetails>)
        ensures
            final(self)@ == (DispatchView { window_details, ..old(self)@ }),
    {
        self.window_details = window_details;
    }

    pub fn window_details(&self) -> (r: &Option<WindowDetails>)
        ensures
            *r == self@.window_details,
    {
        &self.window_details
    }

    pub fn windows(&self) -> (r: &Vec<LiveWindow<W>>)
        ensures
            r@ == self@.windows,
    {
        &self.windows
    }

    fn find_window(&self, id: u64) -> (r: Option<usize>)
        ensures
            match r {
                Some(i) => index_of(self@.windows, id, i as int),
                None => !is_live(self@.windows, id),
            },
    {
        let mut i: usize = 0;
        while i < self.windows.len()
            invariant
                i <= self.windows@.len(),
                forall|j: int| 0 <= j < i ==> self.windows@[j].id != id,
            decreases self.windows@.len() - i,
        {
            if self.windows[i].id == id {
                return Some(i);
            }
            i = i + 1;
        }
        None
    }

    /// Whether a window with identity `id` is live.
    pub fn has_window(&self, id: u64) -> (r: bool)
        ensures
            r == is_live(self@.windows, id),
    {
        self.find_window(id).is_some()
    }

    fn creation_request(&self) -> (r: DispatchAction)
        ensures
            r == creation_spec(self@),
    {
        if self.phase == LoopPhase::Running {
            match self.window_details {
                Some(d) => DispatchAction::CreateWindow(d),
                None => DispatchAction::CreateWindow(WindowDetails::default()),
            }
        } else {
            DispatchAction::Nothing
        }
    }

    /// The loop became active: a window is wanted.
    pub fn resumed(&self) -> (r: DispatchAction)
        ensures
            r == creation_spec(self@),
    {
        self.creation_request()
    }

    /// A request from outside the loop.
    pub fn user_event(&self, event: AppEvents) -> (r: DispatchAction)
        ensures
            r == creation_spec(self@),
    {
        match event {
            AppEvents::CreateWindow => self.creation_request(),
        }
    }

    /// Adds a window that the caller made on a `CreateWindow` action.
    pub fn register_window(&mut self, id: u64, window: W)
        requires
            old(self).wf(),
            !is_live(old(self)@.windows, id),
        ensures
            final(self).wf(),
            final(self)@ == (DispatchView { windows: old(self)@.windows.push(LiveWindow { id, window }), ..old(self)@ }),
    {
        self.windows.push(LiveWindow { id, window });
        proof {
            let ws = self.windows@;
            assert forall|i: int, j: int| 0 <= i < ws.len() && 0 <= j < ws.len() && i != j implies #[trigger] ws[i].id != #[trigger] ws[j].id by {
                if i == ws.len() - 1 {
                    assert(!index_of(old(self)@.windows, id, j));
                } else if j == ws.len() - 1 {
                    assert(!index_of(old(self)@.windows, id, i));
                }
            }
        }
    }

    /// An event of the window with identity `id`.
    pub fn window_event(&mut self, id: u64, kind: WindowEventKind) -> (r: DispatchAction)
        requires
            old(self).wf(),
        ensures
            final(self).wf(),
            (final(self)@, r) == window_event_spec(old(self)@, id, kind),
    {
        if self.phase != LoopPhase::Running {
            return DispatchAction::Nothing;
        }
        match self.find_window(id) {
            None => DispatchAction::ReportError(WindowAccessError::WindowNotFoundError(id)),
            Some(i) => {
                proof {
                    let k = choose|k: int| index_of(self@.windows, id, k);
                    assert(k == i);
                }
                match kind {
                    WindowEventKind::CloseRequested => {
                        if self.windows.len() > 1 {
                            let _closed = self.windows.remove(i);
                            proof {
                                let ws = self.windows@;
                                let os = old(self)@.windows;
                                assert forall|a: int, b: int| 0 <= a < ws.len() && 0 <= b < ws.len() && a != b implies #[trigger] ws[a].id != #[trigger] ws[b].id by {
                                    let a0 = if a < i { a } else { a + 1 };
                                    let b0 = if b < i { b } else { b + 1 };
                                    assert(ws[a] == os[a0]);
                                    assert(ws[b] == os[b0]);
                                }
                            }
                            DispatchAction::Nothing
                        } else {
                            self.phase = LoopPhase::Stopped;
                            DispatchAction::Exit
                        }
                    },
                    WindowEventKind::RedrawRequested => DispatchAction::RequestRedraw(i),
                    WindowEventKind::Other => DispatchAction::Nothing,
                }
            },
        }
    }
}

/// A close request on a live window of a running loop never leaves the loop
/// running with no window: with more than one window exactly that one goes,
/// and the others keep their identities and their order; with one window the
/// loop stops instead.
pub proof fn lemma_close_keeps_a_window<W>(v: DispatchView<W>, id: u64)
    requires
        unique_ids(v.windows),
        v.phase == LoopPhase::Running,
        is_live(v.windows, id),
    ensures
        ({
            let (t, a) = window_event_spec(v, id, WindowEventKind::CloseRequested);
            &&& t.phase == LoopPhase::Running ==> t.windows.len() >= 1
            &&& v.windows.len() > 1 ==> {
                &&& t.phase == LoopPhase::Running
                &&& t.windows.len() == v.windows.len() - 1
                &&& !is_live(t.windows, id)
                &&& forall|other: u64| other != id ==> (is_live(t.windows, other) <==> is_live(v.windows, other))
                &&& exists|i: int| index_of(v.windows, id, i) && ids_of(t.windows) == ids_of(v.windows).remove(i)
            }
            &&& v.windows.len() == 1 ==> t.phase == LoopPhase::Stopped && t.windows == v.windows && a is Exit
        }),
{
    let i = choose|i: int| index_of(v.windows, id, i);
    let (t, a) = window_event_spec(v, id, WindowEventKind::CloseRequested);
    if v.windows.len() > 1 {
        let ws = v.windows;
        let ts = t.windows;
        assert(ts == ws.remove(i));
        assert(ids_of(ts) =~= ids_of(ws).remove(i));
        assert forall|other: u64| other != id implies (is_live(ts, other) <==> is_live(ws, other)) by {
            if is_live(ws, other) {
                let k = choose|k: int| index_of(ws, other, k);
                assert(k != i);
                let k2 = if k < i { k } else { k - 1 };
                assert(index_of(ts, other, k2));
            }
            if is_live(ts, other) {
                let k = choose|k: int| index_of(ts, other, k);
                let k0 = if k < i { k } else { k + 1 };
                assert(index_of(ws, other, k0));
            }
        }
        if is_live(ts, id) {
            let k = choose|k: int| index_of(ts, id, k);
            let k0 = if k < i { k } else { k + 1 };
            assert(ws[k0].id == ws[i].id);
        }
    }
}

/// An event that names no live window reports the identity to the error
/// callback and leaves the dispatch as it was, whatever its kind.
pub proof fn lemma_unknown_window_reported<W>(v: DispatchView<W>, id: u64, kind: WindowEventKind)
    requires
        v.phase == LoopPhase::Running,
        !is_live(v.windows, id),
    ensures
        window_event_spec(v, id, kind) == (v, DispatchAction::ReportError(WindowAccessError::WindowNotFoundError(id))),
{
}

} // verus!
