//! The state of the application and the steps that change it: keys pressed,
//! and fetches that come back.
//!
//! The application itself neither reads keys nor fetches. It is told of each
//! key and says what is to be done; it is told how a fetch ended and takes the
//! result in. A fetch that fails leaves no data behind: the history shown
//! before is dropped, and the state names the player whose data was asked for.

use crate::dataset::{listing_of, Dataset};
use crate::error::ErrorKind;
use crate::input::{with_char_at, without_char_before, InputLine};
use crate::selection::{next_spec, previous_spec, StatefulList};
use crate::labels::time_labels_spec;
use crate::series::{bounds_spec, chart, extract_series, is_chart_of, series_of, Chart};
use crate::skills::{skill_name_spec, skill_names, Skills, CATALOG_SIZE};
use vstd::prelude::*;
use vstd::string::StringExecFns;

verus! {

/// Whether keys move the selection or edit the player's name.
#[derive(Debug, Clone, Copy, PartialEq, Eq, Structural)]
pub enum InputMode {
    Normal,
    Editing,
}

/// A key, as far as the application tells keys apart.
#[derive(Debug, Clone, Copy, PartialEq, Eq, Structural)]
pub enum Key {
    Char(char),
    Enter,
    Backspace,
    Left,
    Right,
    Up,
    Down,
    Esc,
    Other,
}

/// What is to be done after a key.
#[derive(Debug, Clone, PartialEq, Eq)]
pub enum Action {
    /// Nothing but to go on.
    Continue,
    /// Leave the application.
    Quit,
    /// Fetch the history of the player of this name, and report how it ended.
    Fetch(String),
}

/// What has become of the player's data.
#[derive(Debug)]
pub enum FetchState {
    /// No fetch has come back yet.
    Uninitialized,
    /// The last fetch succeeded, with this history.
    Loaded(Dataset),
    /// The last fetch failed. Names the player asked for, and keeps the cause
    /// for display.
    Failed { username: String, cause: ErrorKind },
}

/// The mathematical content of a [`FetchState`].
pub ghost enum Phase {
    Uninitialized,
    Loaded(Map<i64, Skills>),
    Failed { username: Seq<char>, cause: ErrorKind },
}

impl View for FetchState {
    type V = Phase;

    open spec fn view(&self) -> Phase {
        match self {
            FetchState::Uninitialized => Phase::Uninitialized,
            FetchState::Loaded(dataset) => Phase::Loaded(dataset@),
            FetchState::Failed { username, cause } => Phase::Failed {
                username: username@,
                cause: *cause,
            },
        }
    }
}

/// The mathematical content of an [`Action`].
pub ghost enum Request {
    Continue,
    Quit,
    Fetch(Seq<char>),
}

impl View for Action {
    type V = Request;

    open spec fn view(&self) -> Request {
        match self {
            Action::Continue => Request::Continue,
            Action::Quit => Request::Quit,
            Action::Fetch(name) => Request::Fetch(name@),
        }
    }
}

/// The mathematical content of an [`App`].
pub ghost struct AppView {
    /// What has become of the player's data.
    pub phase: Phase,
    /// The index of the selected skill.
    pub selected: Option<usize>,
    /// The player last asked for.
    pub username: Seq<char>,
    /// The text of the input line.
    pub input: Seq<char>,
    /// The cursor in the input line.
    pub cursor: usize,
    /// What keys mean at present.
    pub mode: InputMode,
    /// Whether a fetch has been asked for and has not come back.
    pub pending: bool,
}

/// The state after `key`, and what is to be done.
///
/// While a fetch is pending every key is ignored, so that no second fetch is
/// asked for before the first has come back.
pub open spec fn after_key(app: AppView, key: Key) -> (AppView, Request) {
    if app.pending {
        (app, Request::Continue)
    } else {
        match app.mode {
            InputMode::Normal => match key {
                Key::Char(c) => if c == 'q' {
                    (app, Request::Quit)
                } else if c == 'e' {
                    (AppView { mode: InputMode::Editing, ..app }, Request::Continue)
                } else {
                    (app, Request::Continue)
                },
                Key::Down => (
                    AppView { selected: next_spec(app.selected, CATALOG_SIZE as nat), ..app },
                    Request::Continue,
                ),
                Key::Up => (
                    AppView { selected: previous_spec(app.selected, CATALOG_SIZE as nat), ..app },
                    Request::Continue,
                ),
                _ => (app, Request::Continue),
            },
            InputMode::Editing => match key {
                Key::Enter => (
                    AppView {
                        username: app.input,
                        mode: InputMode::Normal,
                        pending: true,
                        ..app
                    },
                    Request::Fetch(app.input),
                ),
                Key::Char(c) => (
                    AppView {
                        input: with_char_at(app.input, app.cursor as int, c),
                        cursor: (app.cursor + 1) as usize,
                        ..app
                    },
                    Request::Continue,
                ),
                Key::Backspace => if app.cursor == 0 {
                    (app, Request::Continue)
                } else {
                    (
                        AppView {
                            input: without_char_before(app.input, app.cursor as int),
                            cursor: (app.cursor - 1) as usize,
                            ..app
                        },
                        Request::Continue,
                    )
                },
                Key::Left => (
                    AppView {
                        cursor: if app.cursor == 0 {
                            0
                        } else {
                            (app.cursor - 1) as usize
                        },
                        ..app
                    },
                    Request::Continue,
                ),
                Key::Right => (
                    AppView {
                        cursor: if app.cursor == app.input.len() {
                            app.cursor
                        } else {
                            (app.cursor + 1) as usize
                        },
                        ..app
                    },
                    Request::Continue,
                ),
                Key::Esc => (AppView { mode: InputMode::Normal, ..app }, Request::Continue),
                _ => (app, Request::Continue),
            },
        }
    }
}

/// The state after a fetch has come back with `outcome`.
///
/// A success puts the fetched history in the place of whatever was there. A
/// failure of any kind leaves none, and names the player asked for. An outcome
/// that no fetch is pending for changes nothing.
pub open spec fn after_fetch(app: AppView, outcome: Result<Map<i64, Skills>, ErrorKind>) -> AppView {
    if !app.pending {
        app
    } else {
        match outcome {
            Ok(history) => AppView { phase: Phase::Loaded(history), pending: false, ..app },
            Err(cause) => AppView {
                phase: Phase::Failed { username: app.username, cause },
                pending: false,
                ..app
            },
        }
    }
}

/// A fetch that fails leaves the state failed, with the name of the player
/// asked for and with no history, whatever the state was before.
pub proof fn lemma_failed_fetch_leaves_no_history(app: AppView, cause: ErrorKind)
    requires
        app.pending,
    ensures
        after_fetch(app, Err(cause)).phase == (Phase::Failed { username: app.username, cause }),
        !after_fetch(app, Err(cause)).pending,
{
}

/// A fetch that succeeds leaves exactly the fetched history.
pub proof fn lemma_fetched_history_replaces(app: AppView, history: Map<i64, Skills>)
    requires
        app.pending,
    ensures
        after_fetch(app, Ok(history)).phase == Phase::Loaded(history),
        !after_fetch(app, Ok(history)).pending,
{
}

/// At most one fetch is under way: while one is pending no key asks for
/// another, and a key that asks for one leaves it pending.
pub proof fn lemma_one_fetch_at_a_time(app: AppView, key: Key)
    ensures
        app.pending ==> after_key(app, key).1 == Request::Continue && after_key(app, key).0 == app,
        after_key(app, key).1 is Fetch ==> after_key(app, key).0.pending,
{
}

/// Keys and outcomes keep a sound state sound.
pub proof fn lemma_steps_keep_soundness(
    app: AppView,
    key: Key,
    outcome: Result<Map<i64, Skills>, ErrorKind>,
)
    requires
        is_sound(app),
        app.input.len() < usize::MAX,
    ensures
        is_sound(after_key(app, key).0),
        is_sound(after_fetch(app, outcome)),
{
}

/// The mathematical content of the outcome of a fetch.
pub open spec fn outcome_view(outcome: Result<Dataset, ErrorKind>) -> Result<
    Map<i64, Skills>,
    ErrorKind,
> {
    match outcome {
        Ok(dataset) => Ok(dataset@),
        Err(cause) => Err(cause),
    }
}

/// The state in which an application for the player `username` starts: no
/// data yet, the first skill selected, the name in the input line, and the
/// first fetch pending.
pub open spec fn initial_view(username: Seq<char>) -> AppView {
    AppView {
        phase: Phase::Uninitialized,
        selected: Some(0),
        username,
        input: username,
        cursor: username.len() as usize,
        mode: InputMode::Normal,
        pending: true,
    }
}

/// What every state of the application satisfies: a selected skill is one of
/// the catalog, and the cursor stands in the input line.
pub open spec fn is_sound(app: AppView) -> bool {
    &&& app.selected matches Some(i) ==> i < CATALOG_SIZE
    &&& app.cursor <= app.input.len()
}

/// The text shown when there is no data to chart for the player `username`.
pub open spec fn failure_text(username: Seq<char>) -> Seq<char> {
    "Failed to get data for user: \""@ + username + "\"."@
}

/// The application: the player's data, the selected skill, and the line in
/// which the next player's name is typed.
#[derive(Debug)]
pub struct App {
    state: FetchState,
    skills: StatefulList,
    username: String,
    input: InputLine,
    input_mode: InputMode,
    pending: bool,
}

impl View for App {
    type V = AppView;

    closed spec fn view(&self) -> AppView {
        AppView {
            phase: self.state@,
            selected: self.skills.selected_spec(),
            username: self.username@,
            input: self.input.text_spec(),
            cursor: self.input.cursor_spec(),
            mode: self.input_mode,
            pending: self.pending,
        }
    }
}

impl App {
    /// The list of skills is the catalog.
    #[verifier::type_invariant]
    pub closed spec fn wf(self) -> bool {
        &&& self.skills.wf()
        &&& self.input.wf()
        &&& self.skills.items_spec().len() == CATALOG_SIZE
        &&& forall|i: int|
            0 <= i < CATALOG_SIZE ==> (#[trigger] self.skills.items_spec()[i])@ == skill_name_spec(
                i,
            )
    }

    /// The names in the list of skills.
    pub closed spec fn skill_list(self) -> Seq<String> {
        self.skills.items_spec()
    }

    /// An application for the player `username`. Its first fetch is pending:
    /// it is for the caller to fetch that player's history and to report the
    /// outcome.
    pub fn new(username: String) -> (app: App)
        ensures
            app@ == initial_view(username@),
            is_sound(app@),
            app.wf(),
    {
        let mut skills = StatefulList::with_items(skill_names());
        skills.next();
        let input = InputLine::new(username.clone());
        App {
            state: FetchState::Uninitialized,
            skills,
            username,
            input,
            input_mode: InputMode::Normal,
            pending: true,
        }
    }

    /// What has become of the player's data.
    pub fn state(&self) -> (state: &FetchState)
        ensures
            state@ == self@.phase,
    {
        &self.state
    }

    /// The list of skills with its selection.
    pub fn skills(&self) -> (skills: &StatefulList)
        ensures
            skills.selected_spec() == self@.selected,
            skills.items_spec() == self.skill_list(),
            skills.items_spec().len() == CATALOG_SIZE,
            forall|i: int|
                0 <= i < CATALOG_SIZE ==> (#[trigger] skills.items_spec()[i])@ == skill_name_spec(
                    i,
                ),
    {
        proof {
            use_type_invariant(self);
        }
        &self.skills
    }

    /// The player last asked for.
    pub fn username(&self) -> (username: &String)
        ensures
            username@ == self@.username,
    {
        &self.username
    }

    /// The input line.
    pub fn input(&self) -> (input: &InputLine)
        ensures
            input.text_spec() == self@.input,
            input.cursor_spec() == self@.cursor,
    {
        &self.input
    }

    /// What keys mean at present.
    pub fn input_mode(&self) -> (mode: InputMode)
        ensures
            mode == self@.mode,
    {
        self.input_mode
    }

    /// The player whose history is to be fetched, while a fetch is pending.
    pub fn pending_fetch(&self) -> (name: Option<&String>)
        ensures
            match name {
                Some(n) => self@.pending && n@ == self@.username,
                None => !self@.pending,
            },
    {
        if self.pending {
            Some(&self.username)
        } else {
            None
        }
    }

    /// Every state is sound.
    pub proof fn lemma_sound(self)
        requires
            self.wf(),
        ensures
            is_sound(self@),
    {
        self.skills.lemma_selection_valid();
        self.input.lemma_cursor_in_text();
    }

    /// Takes the name in the input line as the player to show, leaves the
    /// editing mode, and asks for that player's history.
    fn submit_username(&mut self) -> (action: Action)
        requires
            !old(self)@.pending,
        ensures
            final(self)@ == (AppView {
                username: old(self)@.input,
                mode: InputMode::Normal,
                pending: true,
                ..old(self)@
            }),
            action@ == Request::Fetch(old(self)@.input),
            final(self).wf(),
    {
        proof {
            use_type_invariant(&*self);
        }
        let name = self.input.text().clone();
        self.username = name.clone();
        self.input_mode = InputMode::Normal;
        self.pending = true;
        Action::Fetch(name)
    }

    /// Takes the input line out of the state, to be put back after an edit.
    fn take_input(&mut self) -> (line: InputLine)
        ensures
            line.text_spec() == old(self)@.input,
            line.cursor_spec() == old(self)@.cursor,
            line.wf(),
            final(self)@ == (AppView { input: Seq::empty(), cursor: 0, ..old(self)@ }),
            final(self).wf(),
            final(self).skill_list() == old(self).skill_list(),
    {
        proof {
            use_type_invariant(&*self);
        }
        let mut line = InputLine::new(String::new());
        std::mem::swap(&mut self.input, &mut line);
        line
    }

    /// Takes in a key and says what is to be done.
    ///
    /// In normal mode `q` quits, the arrows up and down move the selection
    /// in a circle, and `e` starts editing. In editing mode characters are
    /// typed into the input line, backspace deletes, the arrows left and
    /// right move the cursor, escape leaves the mode, and enter submits the
    /// line as the next player's name. While a fetch is pending, keys are
    /// ignored.
    pub fn handle_key(&mut self, key: Key) -> (action: Action)
        ensures
            (final(self)@, action@) == after_key(old(self)@, key),
            is_sound(final(self)@),
            final(self).wf(),
    {
        proof {
            use_type_invariant(&*self);
            self.lemma_sound();
        }
        if self.pending {
            return Action::Continue;
        }
        match self.input_mode {
            InputMode::Normal => match key {
                Key::Char(c) => {
                    if c == 'q' {
                        return Action::Quit;
                    } else if c == 'e' {
                        self.input_mode = InputMode::Editing;
                    }
                },
                Key::Down => {
                    self.skills.next();
                },
                Key::Up => {
                    self.skills.previous();
                },
                _ => {},
            },
            InputMode::Editing => match key {
                Key::Enter => {
                    return self.submit_username();
                },
                Key::Char(c) => {
                    let mut line = self.take_input();
                    line.enter_char(c);
                    self.input = line;
                },
                Key::Backspace => {
                    let mut line = self.take_input();
                    line.delete_char();
                    self.input = line;
                },
                Key::Left => {
                    let mut line = self.take_input();
                    line.move_cursor_left();
                    self.input = line;
                },
                Key::Right => {
                    let mut line = self.take_input();
                    line.move_cursor_right();
                    self.input = line;
                },
                Key::Esc => {
                    self.input_mode = InputMode::Normal;
                },
                _ => {},
            },
        }
        proof {
            use_type_invariant(&*self);
            self.lemma_sound();
        }
        Action::Continue
    }

    /// Takes in the outcome of the pending fetch.
    ///
    /// A fetched history takes the place of whatever was there. A failure
    /// leaves no history, and the state names the player asked for, with the
    /// cause. Without a pending fetch the outcome is dropped.
    pub fn complete_fetch(&mut self, outcome: Result<Dataset, ErrorKind>)
        ensures
            final(self)@ == after_fetch(old(self)@, outcome_view(outcome)),
            is_sound(final(self)@),
            final(self).wf(),
    {
        proof {
            use_type_invariant(&*self);
            self.lemma_sound();
        }
        if !self.pending {
            return ;
        }
        match outcome {
            Ok(dataset) => {
                self.state = FetchState::Loaded(dataset);
            },
            Err(cause) => {
                self.state = FetchState::Failed { username: self.username.clone(), cause };
            },
        }
        self.pending = false;
        proof {
            use_type_invariant(&*self);
            self.lemma_sound();
        }
    }

    /// The series of the selected skill over the loaded history.
    ///
    /// There is none without a loaded history, with an empty one, or without
    /// a selected skill.
    pub fn get_data(&self) -> (series: Option<Vec<(i64, u64)>>)
        ensures
            match series {
                Some(points) => {
                    &&& self@.phase matches Phase::Loaded(history)
                    &&& self@.selected matches Some(index)
                    &&& !history.is_empty()
                    &&& points@ == series_of(listing_of(history), index as int)
                },
                None => {
                    ||| !(self@.phase is Loaded)
                    ||| self@.selected is None
                    ||| self@.phase matches Phase::Loaded(history) && history.is_empty()
                },
            },
    {
        proof {
            use_type_invariant(self);
            self.lemma_sound();
        }
        match &self.state {
            FetchState::Loaded(dataset) => extract_series(dataset, self.skills.selected()),
            _ => None,
        }
    }

    /// What the chart shows: the selected series, the comparison series, the
    /// bounds and the labels. None where `get_data` gives no series, or where
    /// the calendar cannot write a date of the time axis.
    pub fn chart(&self) -> (chart: Option<Chart>)
        ensures
            match chart {
                Some(c) => {
                    &&& self@.phase matches Phase::Loaded(history)
                    &&& self@.selected matches Some(index)
                    &&& !history.is_empty()
                    &&& is_chart_of(c, listing_of(history), index as int)
                },
                None => {
                    ||| !(self@.phase is Loaded)
                    ||| self@.selected is None
                    ||| self@.phase matches Phase::Loaded(history) && (history.is_empty() || {
                        let bounds = bounds_spec(
                            series_of(listing_of(history), self@.selected.unwrap() as int),
                        );
                        time_labels_spec(bounds.x_min, bounds.x_max) is None
                    })
                },
            },
    {
        proof {
            use_type_invariant(self);
            self.lemma_sound();
        }
        match &self.state {
            FetchState::Loaded(dataset) => chart(dataset, self.skills.selected()),
            _ => None,
        }
    }

    /// The text to show in place of a chart when there is no data to chart:
    /// it names the player last asked for.
    pub fn failure_message(&self) -> (message: String)
        ensures
            message@ == failure_text(self@.username),
    {
        let mut text = String::from_str("Failed to get data for user: \"");
        text.append(self.username.as_str());
        text.append("\".");
        text
    }
}

} // verus!
