//! The interaction state machine: how an input event changes the list, the
//! mode and the preview cache, and when a preview image is to be fetched.

use crate::catalog::{lemma_filtered_positions_exact, ListView, StreamInfo, StreamList};
use crate::input::{Action, FetchRequest, InputEvent, Key, KeyKind, Mode, Tick};
use crate::preview::{FetchError, PreviewCache};
use vstd::prelude::*;

verus! {

/// The whole state of the browser, as plain values.
pub struct AppView<H> {
    pub list: ListView,
    pub preview: PreviewCache<H>,
    pub mode: Mode,
    pub should_quit: bool,
    pub loading: bool,
}

impl<H> AppView<H> {
    /// The state at startup: no catalog yet, nothing selected, nothing
    /// cached, input going to the list.
    pub open spec fn initial() -> AppView<H> {
        AppView {
            list: ListView::loaded(Seq::empty()),
            preview: PreviewCache::empty(),
            mode: Mode::Browsing,
            should_quit: false,
            loading: true,
        }
    }

    /// The state once the catalog has arrived.
    pub open spec fn with_streams(self, streams: Seq<StreamInfo>) -> AppView<H> {
        AppView { list: ListView::loaded(streams), loading: false, ..self }
    }

    /// The state after the filter query is replaced.
    pub open spec fn with_query(self, query: Seq<char>) -> AppView<H> {
        AppView { list: self.list.with_query(query), ..self }
    }

    /// The state after a key press while the filter query is being typed.
    pub open spec fn after_filter_key(self, key: Key) -> AppView<H> {
        match key {
            Key::Escape => AppView { mode: Mode::Browsing, ..self.with_query(Seq::empty()) },
            Key::Enter => AppView { mode: Mode::Browsing, ..self },
            Key::Backspace => self.with_query(
                if self.list.query.len() > 0 {
                    self.list.query.drop_last()
                } else {
                    self.list.query
                },
            ),
            Key::Char(c) => self.with_query(self.list.query.push(c)),
            _ => self,
        }
    }

    /// The state after a key press while browsing, and what the caller is
    /// asked to do.
    pub open spec fn after_browse_key(self, key: Key) -> (AppView<H>, Action) {
        match key {
            Key::Char(c) => if c == 'q' {
                (AppView { should_quit: true, ..self }, Action::Idle)
            } else if c == '/' {
                (AppView { mode: Mode::FilterEditing, ..self }, Action::Idle)
            } else if c == 'j' {
                (AppView { list: self.list.next(), ..self }, Action::Idle)
            } else if c == 'k' {
                (AppView { list: self.list.previous(), ..self }, Action::Idle)
            } else {
                (self, Action::Idle)
            },
            Key::Escape => if self.list.query.len() > 0 {
                (self.with_query(Seq::empty()), Action::Idle)
            } else {
                (AppView { should_quit: true, ..self }, Action::Idle)
            },
            Key::Down => (AppView { list: self.list.next(), ..self }, Action::Idle),
            Key::Up => (AppView { list: self.list.previous(), ..self }, Action::Idle),
            Key::Enter => match self.list.current() {
                Some(i) => (self, Action::Play { id: self.list.streams[i as int].id }),
                None => (self, Action::Idle),
            },
            _ => (self, Action::Idle),
        }
    }

    /// The state after a key press, by mode.
    pub open spec fn after_key(self, key: Key) -> (AppView<H>, Action) {
        match self.mode {
            Mode::FilterEditing => (self.after_filter_key(key), Action::Idle),
            Mode::Browsing => self.after_browse_key(key),
        }
    }

    /// The state after one terminal event. A key counts only when pressed;
    /// a resize clears the preview cache in either mode.
    pub open spec fn after_event(self, event: InputEvent) -> (AppView<H>, Action) {
        match event {
            InputEvent::Key { key, kind } => match kind {
                KeyKind::Press => self.after_key(key),
                _ => (self, Action::Idle),
            },
            InputEvent::Resize => (
                AppView { preview: PreviewCache::spec_invalidated(), ..self },
                Action::Idle,
            ),
            InputEvent::Other => (self, Action::Idle),
        }
    }

    /// The preview is stale: it was fetched for another catalog position
    /// than the selected one, or a resize has cleared it.
    pub open spec fn needs_refresh(self) -> bool {
        self.preview.needs_refresh(self.list.current())
    }

    /// The catalog position to fetch a preview for: the selected one, while
    /// the preview is stale.
    pub open spec fn refresh_target(self) -> Option<usize> {
        if self.needs_refresh() {
            self.list.current()
        } else {
            None
        }
    }

    /// The fetch to ask for: the selected stream, while the preview is stale.
    pub open spec fn fetch_request(self) -> Option<FetchRequest> {
        match self.refresh_target() {
            Some(i) => Some(FetchRequest { index: i, id: self.list.streams[i as int].id }),
            None => None,
        }
    }

    /// The state after the input of one pass of the loop, where the poll
    /// may have timed out without an event.
    pub open spec fn after_input(self, event: Option<InputEvent>) -> (AppView<H>, Action) {
        match event {
            Some(e) => self.after_event(e),
            None => (self, Action::Idle),
        }
    }

    /// The state after a fetch for catalog position `index` has ended: a
    /// fetched image replaces the cache, a failure changes nothing.
    pub open spec fn after_fetch(self, index: usize, outcome: Result<H, FetchError>) -> AppView<
        H,
    > {
        match outcome {
            Ok(image) => AppView { preview: PreviewCache::spec_holding(index, image), ..self },
            Err(_) => self,
        }
    }
}

/// No event changes the catalog, and every event leaves the list well
/// formed.
pub proof fn lemma_event_keeps_list<H>(app: AppView<H>, event: InputEvent)
    requires
        app.list.wf(),
    ensures
        app.after_event(event).0.list.wf(),
        app.after_event(event).0.list.streams == app.list.streams,
{
    lemma_filtered_positions_exact(app.list.streams, app.list.query);
}

/// After a resize the preview is stale, though the list and its selection
/// are as before.
pub proof fn lemma_resize_forces_refresh<H>(app: AppView<H>)
    ensures
        app.after_event(InputEvent::Resize).0.needs_refresh(),
        app.after_event(InputEvent::Resize).0.list == app.list,
        app.after_event(InputEvent::Resize).0.preview.image is None,
        app.after_event(InputEvent::Resize).0.preview.last_fetched is None,
{
}

/// A failed fetch leaves the whole state, the preview cache and its
/// position included, exactly as it was; a stale preview stays stale, so
/// the fetch is asked for again.
pub proof fn lemma_failed_fetch_changes_nothing<H>(app: AppView<H>, index: usize, error: FetchError)
    ensures
        app.after_fetch(index, Err(error)) == app,
        app.after_fetch(index, Err(error)).refresh_target() == app.refresh_target(),
{
}

/// A fetched image for the position that was asked for makes the preview
/// fresh, and touches nothing but the cache.
pub proof fn lemma_fetch_settles<H>(app: AppView<H>, index: usize, image: H)
    requires
        app.refresh_target() == Some(index),
    ensures
        !app.after_fetch(index, Ok(image)).needs_refresh(),
        app.after_fetch(index, Ok(image)).preview.image == Some(image),
        app.after_fetch(index, Ok(image)).preview.last_fetched == Some(index),
        app.after_fetch(index, Ok(image)).list == app.list,
{
}

/// An image fetched for a position that is no longer the selected one is
/// stored all the same, and the preview stays stale until the selected
/// position has been fetched.
pub proof fn lemma_late_fetch_is_corrected<H>(app: AppView<H>, index: usize, image: H)
    requires
        app.list.current() is Some,
        app.list.current() != Some(index),
    ensures
        app.after_fetch(index, Ok(image)).preview.image == Some(image),
        app.after_fetch(index, Ok(image)).refresh_target() == app.list.current(),
{
}

/// Over an empty catalog every event leaves the selection absent, no event
/// asks for a stream to be played, and no fetch is ever asked for.
pub proof fn lemma_empty_catalog_stays_unselected<H>(app: AppView<H>, event: InputEvent)
    requires
        app.list.wf(),
        app.list.streams.len() == 0,
    ensures
        app.list.selected is None,
        app.after_event(event).0.list.selected is None,
        app.after_event(event).1 == Action::Idle,
        app.after_event(event).0.refresh_target() is None,
{
    lemma_event_keeps_list(app, event);
    lemma_filtered_positions_exact(app.list.streams, app.list.query);
    let after = app.after_event(event).0;
    lemma_filtered_positions_exact(after.list.streams, after.list.query);
}

/// The browser: catalog, filter, selection, mode and preview cache. `H` is
/// the type of the image handle that the renderer draws.
pub struct App<H> {
    list: StreamList,
    preview: PreviewCache<H>,
    mode: Mode,
    should_quit: bool,
    loading: bool,
}

impl<H> View for App<H> {
    type V = AppView<H>;

    closed spec fn view(&self) -> AppView<H> {
        AppView {
            list: self.list@,
            preview: self.preview,
            mode: self.mode,
            should_quit: self.should_quit,
            loading: self.loading,
        }
    }
}

impl<H> App<H> {
    /// The browser at startup, before the catalog has arrived.
    pub fn new() -> (app: App<H>)
        ensures
            app@ == AppView::<H>::initial(),
            app@.list.wf(),
    {
        App {
            list: StreamList::new(Vec::new()),
            preview: PreviewCache::empty(),
            mode: Mode::Browsing,
            should_quit: false,
            loading: true,
        }
    }

    /// Takes the catalog for the session.
    pub fn set_streams(&mut self, streams: Vec<StreamInfo>)
        ensures
            final(self)@ == old(self)@.with_streams(streams@),
            final(self)@.list.wf(),
    {
        self.list = StreamList::new(streams);
        self.loading = false;
    }

    /// Replaces the filter query and recomputes the filtered view.
    pub fn set_query(&mut self, query: &str)
        ensures
            final(self)@ == old(self)@.with_query(query@),
            final(self)@.list.wf(),
    {
        self.list.set_query(query);
    }

    /// Moves the selection one entry down, cyclically.
    pub fn next(&mut self)
        ensures
            final(self)@ == (AppView { list: old(self)@.list.next(), ..old(self)@ }),
            final(self)@.list.wf(),
    {
        self.list.next();
    }

    /// Moves the selection one entry up, cyclically.
    pub fn previous(&mut self)
        ensures
            final(self)@ == (AppView { list: old(self)@.list.previous(), ..old(self)@ }),
            final(self)@.list.wf(),
    {
        self.list.previous();
    }

    /// The catalog position of the selected entry.
    pub fn selected_stream_index(&self) -> (index: Option<usize>)
        ensures
            index == self@.list.current(),
            self@.list.wf(),
            index matches Some(i) ==> i < self@.list.streams.len(),
    {
        self.list.selected_stream_index()
    }

    fn on_filter_key(&mut self, key: Key)
        ensures
            final(self)@ == old(self)@.after_filter_key(key),
    {
        match key {
            Key::Escape => {
                self.mode = Mode::Browsing;
                let cleared = String::new();
                self.list.set_query(cleared.as_str());
            },
            Key::Enter => {
                self.mode = Mode::Browsing;
            },
            Key::Backspace => {
                let mut query = self.list.query().to_owned();
                let _ = query.pop();
                self.list.set_query(query.as_str());
            },
            Key::Char(c) => {
                let mut query = self.list.query().to_owned();
                query.push(c);
                self.list.set_query(query.as_str());
            },
            _ => {},
        }
    }

    fn on_browse_key(&mut self, key: Key) -> (action: Action)
        ensures
            (final(self)@, action) == old(self)@.after_browse_key(key),
    {
        match key {
            Key::Char(c) => {
                if c == 'q' {
                    self.should_quit = true;
                } else if c == '/' {
                    self.mode = Mode::FilterEditing;
                } else if c == 'j' {
                    self.list.next();
                } else if c == 'k' {
                    self.list.previous();
                }
                Action::Idle
            },
            Key::Escape => {
                if self.list.query().is_empty() {
                    self.should_quit = true;
                } else {
                    let cleared = String::new();
                    self.list.set_query(cleared.as_str());
                }
                Action::Idle
            },
            Key::Down => {
                self.list.next();
                Action::Idle
            },
            Key::Up => {
                self.list.previous();
                Action::Idle
            },
            Key::Enter => match self.list.selected_stream() {
                Some(stream) => Action::Play { id: stream.id.clone() },
                None => Action::Idle,
            },
            _ => Action::Idle,
        }
    }

    /// Handles one terminal event and says what the caller is to do.
    pub fn handle_event(&mut self, event: InputEvent) -> (action: Action)
        ensures
            (final(self)@, action) == old(self)@.after_event(event),
            final(self)@.list.wf(),
    {
        let _ = self.list.selected();
        proof {
            lemma_event_keeps_list(self@, event);
        }
        match event {
            InputEvent::Key { key, kind } => match kind {
                KeyKind::Press => match self.mode {
                    Mode::FilterEditing => {
                        self.on_filter_key(key);
                        Action::Idle
                    },
                    Mode::Browsing => self.on_browse_key(key),
                },
                _ => Action::Idle,
            },
            InputEvent::Resize => {
                self.preview.invalidate();
                Action::Idle
            },
            InputEvent::Other => Action::Idle,
        }
    }

    /// Whether the preview is stale.
    pub fn needs_thumbnail_reload(&self) -> (stale: bool)
        ensures
            stale == self@.needs_refresh(),
    {
        self.preview.needs_refresh(self.list.selected_stream_index())
    }

    /// The stream to fetch a preview for, if the preview is stale and a
    /// stream is selected.
    pub fn refresh_request(&self) -> (request: Option<FetchRequest>)
        ensures
            request == self@.fetch_request(),
            request matches Some(r) ==> r.index < self@.list.streams.len(),
            self@.list.wf(),
    {
        let current = self.list.selected_stream_index();
        if !self.preview.needs_refresh(current) {
            return None;
        }
        match current {
            Some(i) => Some(FetchRequest { index: i, id: self.list.streams()[i].id.clone() }),
            None => None,
        }
    }

    /// One pass of the loop: handles the event that the poll brought, if
    /// any, and only then decides whether a preview is to be fetched.
    pub fn tick(&mut self, event: Option<InputEvent>) -> (plan: Tick)
        ensures
            final(self)@ == old(self)@.after_input(event).0,
            plan.action == old(self)@.after_input(event).1,
            plan.fetch == final(self)@.fetch_request(),
            final(self)@.list.wf(),
    {
        let action = match event {
            Some(e) => self.handle_event(e),
            None => {
                let _ = self.list.selected();
                Action::Idle
            },
        };
        let fetch = self.refresh_request();
        Tick { action, fetch }
    }

    /// Takes the outcome of a fetch for catalog position `index`.
    pub fn complete_refresh(&mut self, index: usize, outcome: Result<H, FetchError>)
        ensures
            final(self)@ == old(self)@.after_fetch(index, outcome),
            outcome is Err ==> *final(self) == *old(self),
    {
        match outcome {
            Ok(image) => {
                self.preview.store(index, image);
            },
            Err(_) => {},
        }
    }

    /// The catalog, the filter and the selection.
    pub fn list(&self) -> (list: &StreamList)
        ensures
            list@ == self@.list,
            list@.wf(),
    {
        let _ = self.list.selected();
        &self.list
    }

    /// The cached image, for the renderer to draw and to resize in place.
    pub fn thumbnail_mut(&mut self) -> (image: Option<&mut H>)
        ensures
            old(self)@.preview.image is None ==> image is None && *final(self) == *old(self),
            old(self)@.preview.image is Some ==> image is Some && *image->0 == old(
                self,
            )@.preview.image->0 && final(self)@ == (AppView {
                preview: PreviewCache { image: Some(*final(image->0)), ..old(self)@.preview },
                ..old(self)@
            }),
    {
        self.preview.image.as_mut()
    }

    /// Whether an image is cached.
    pub fn has_thumbnail(&self) -> (present: bool)
        ensures
            present == self@.preview.image is Some,
    {
        self.preview.image.is_some()
    }

    /// The catalog position that the cached image was fetched for.
    pub fn last_fetched(&self) -> (index: Option<usize>)
        ensures
            index == self@.preview.last_fetched,
    {
        self.preview.last_fetched
    }

    /// Where input goes.
    pub fn mode(&self) -> (mode: Mode)
        ensures
            mode == self@.mode,
    {
        self.mode
    }

    /// Whether the user has asked to leave.
    pub fn should_quit(&self) -> (quit: bool)
        ensures
            quit == self@.should_quit,
    {
        self.should_quit
    }

    /// Whether the catalog is still awaited.
    pub fn loading(&self) -> (loading: bool)
        ensures
            loading == self@.loading,
    {
        self.loading
    }
}

} // verus!
