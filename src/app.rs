//! The editing session and the state machine that key events drive.
use vstd::prelude::*;
use indexmap::IndexMap;
use serde_json::{Error, Value};
use crate::entries::{
    entries_of, insert_entry, insert_pair, json_document, keys_unique, lemma_insert_keeps_unique,
    map_to_json, new_map,
};
use crate::json::{classification, classify_value, error_text, json_error_text};
use crate::text::{pop_char, push_char};

verus! {

/// The screen that decides how a key event is read.
#[derive(Clone, Copy, Debug, PartialEq, Eq, Structural)]
pub enum CurrentScreen {
    Main,
    Editing,
    Exiting,
}

/// The field that has the focus on the editing screen.
#[derive(Clone, Copy, Debug, PartialEq, Eq, Structural)]
pub enum CurrentlyEditing {
    Key,
    Value,
}

/// The key that an event carries.
#[derive(Clone, Copy, Debug, PartialEq, Eq, Structural)]
pub enum KeyCode {
    Char(char),
    Enter,
    Backspace,
    Esc,
    Tab,
    Other,
}

/// Whether a key went down, repeated, or came up.
#[derive(Clone, Copy, Debug, PartialEq, Eq, Structural)]
pub enum KeyEventKind {
    Press,
    Repeat,
    Release,
}

/// One key event.
#[derive(Clone, Copy, Debug, PartialEq, Eq, Structural)]
pub struct KeyEvent {
    pub code: KeyCode,
    pub kind: KeyEventKind,
}

/// The state of an editing session.
pub struct App {
    pub key_input: String,
    pub value_input: String,
    pub pairs: IndexMap<String, Value>,
    pub current_screen: CurrentScreen,
    pub currently_editing: Option<CurrentlyEditing>,
    pub value_input_error: Option<String>,
    pub should_quit: bool,
    pub should_print: bool,
}

/// The mathematical model of a session.
pub struct Session {
    pub key: Seq<char>,
    pub value: Seq<char>,
    pub entries: Seq<(Seq<char>, Value)>,
    pub screen: CurrentScreen,
    pub editing: Option<CurrentlyEditing>,
    pub error: Option<Seq<char>>,
    pub quit: bool,
    pub print: bool,
}

impl View for App {
    type V = Session;

    open spec fn view(&self) -> Session {
        Session {
            key: self.key_input@,
            value: self.value_input@,
            entries: entries_of(self.pairs),
            screen: self.current_screen,
            editing: self.currently_editing,
            error: match self.value_input_error {
                Some(e) => Some(e@),
                None => None,
            },
            quit: self.should_quit,
            print: self.should_print,
        }
    }
}

impl Session {
    /// Keys are unique, and a field has the focus only on the editing
    /// screen.
    pub open spec fn wf(self) -> bool {
        &&& keys_unique(self.entries)
        &&& self.editing is Some ==> self.screen == CurrentScreen::Editing
    }
}

/// The message shown for a value that does not classify.
pub open spec fn invalid_json_message(e: Error) -> Seq<char> {
    "Invalid JSON: "@ + json_error_text(e)
}

/// Committing the pending entry: on a classified value the pair is stored,
/// the buffers and the error are cleared and the main screen comes back;
/// else the error message is set and all else stays.
pub open spec fn commit(s: Session) -> Session {
    match classification(s.value) {
        Ok(v) => Session {
            key: Seq::empty(),
            value: Seq::empty(),
            entries: insert_entry(s.entries, s.key, v),
            screen: CurrentScreen::Main,
            editing: None,
            error: None,
            ..s
        },
        Err(e) => Session { error: Some(invalid_json_message(e)), ..s },
    }
}

/// The focus after Tab: from none to the key, then back and forth.
pub open spec fn toggled(m: Option<CurrentlyEditing>) -> Option<CurrentlyEditing> {
    match m {
        Some(CurrentlyEditing::Key) => Some(CurrentlyEditing::Value),
        Some(CurrentlyEditing::Value) => Some(CurrentlyEditing::Key),
        None => Some(CurrentlyEditing::Key),
    }
}

/// `s` without its last character, if it has one.
pub open spec fn without_last(s: Seq<char>) -> Seq<char> {
    if s.len() > 0 {
        s.drop_last()
    } else {
        s
    }
}

/// A key read on the editing screen.
pub open spec fn editing_step(s: Session, code: KeyCode) -> Session {
    match code {
        KeyCode::Enter => match s.editing {
            Some(CurrentlyEditing::Key) => Session { editing: Some(CurrentlyEditing::Value), ..s },
            Some(CurrentlyEditing::Value) => commit(s),
            None => s,
        },
        KeyCode::Backspace => match s.editing {
            Some(CurrentlyEditing::Key) => Session { key: without_last(s.key), ..s },
            Some(CurrentlyEditing::Value) => Session { value: without_last(s.value), ..s },
            None => s,
        },
        KeyCode::Esc => Session { screen: CurrentScreen::Main, editing: None, ..s },
        KeyCode::Tab => Session { editing: toggled(s.editing), ..s },
        KeyCode::Char(c) => match s.editing {
            Some(CurrentlyEditing::Key) => Session { key: s.key.push(c), ..s },
            Some(CurrentlyEditing::Value) => Session { value: s.value.push(c), ..s },
            None => s,
        },
        KeyCode::Other => s,
    }
}

/// A key read on the main screen: `e` opens the editor on the key field,
/// `q` asks whether to quit.
pub open spec fn main_step(s: Session, code: KeyCode) -> Session {
    match code {
        KeyCode::Char('e') => Session {
            screen: CurrentScreen::Editing,
            editing: Some(CurrentlyEditing::Key),
            ..s
        },
        KeyCode::Char('q') => Session { screen: CurrentScreen::Exiting, ..s },
        _ => s,
    }
}

/// A key read on the exit question: `y` quits and prints, `n` quits
/// without printing.
pub open spec fn exiting_step(s: Session, code: KeyCode) -> Session {
    match code {
        KeyCode::Char('y') => Session { quit: true, print: true, ..s },
        KeyCode::Char('n') => Session { quit: true, print: false, ..s },
        _ => s,
    }
}

/// One key event: nothing once the session has quit or on a release; the
/// editing screen reads presses only.
pub open spec fn step(s: Session, ev: KeyEvent) -> Session {
    if s.quit || ev.kind == KeyEventKind::Release {
        s
    } else {
        match s.screen {
            CurrentScreen::Main => main_step(s, ev.code),
            CurrentScreen::Exiting => exiting_step(s, ev.code),
            CurrentScreen::Editing => if ev.kind == KeyEventKind::Press {
                editing_step(s, ev.code)
            } else {
                s
            },
        }
    }
}

/// The session after a sequence of key events.
pub open spec fn run(s: Session, evs: Seq<KeyEvent>) -> Session
    decreases evs.len(),
{
    if evs.len() == 0 {
        s
    } else {
        run(step(s, evs[0]), evs.drop_first())
    }
}

/// The session at its start: empty buffers and map, the main screen, no
/// focus, no error, no exit decision.
pub open spec fn initial_session() -> Session {
    Session {
        key: Seq::empty(),
        value: Seq::empty(),
        entries: Seq::empty(),
        screen: CurrentScreen::Main,
        editing: None,
        error: None,
        quit: false,
        print: false,
    }
}

/// Every key event keeps a session well formed.
pub proof fn lemma_step_keeps_wf(s: Session, ev: KeyEvent)
    requires
        s.wf(),
    ensures
        step(s, ev).wf(),
{
    if let Ok(v) = classification(s.value) {
        lemma_insert_keeps_unique(s.entries, s.key, v);
    }
}

impl App {
    pub fn new() -> (r: App)
        ensures
            r@ == initial_session(),
            r@.wf(),
    {
        App {
            key_input: String::new(),
            value_input: String::new(),
            pairs: new_map(),
            currently_editing: None,
            current_screen: CurrentScreen::Main,
            value_input_error: None,
            should_quit: false,
            should_print: false,
        }
    }

    /// Commits the pending entry when its value classifies; else records
    /// the error message.
    pub fn save_key_value(&mut self)
        ensures
            final(self)@ == commit(old(self)@),
    {
        match self.parse_value_input() {
            Ok(json_value) => {
                let key = self.key_input.clone();
                insert_pair(&mut self.pairs, key, json_value);
                self.key_input = String::new();
                self.value_input = String::new();
                self.currently_editing = None;
                self.value_input_error = None;
                self.current_screen = CurrentScreen::Main;
            },
            Err(error) => {
                let mut message = "Invalid JSON: ".to_owned();
                message.append(error_text(&error).as_str());
                self.value_input_error = Some(message);
            },
        }
    }

    /// Classifies the pending value text.
    pub fn parse_value_input(&self) -> (r: Result<Value, Error>)
        ensures
            r == classification(self@.value),
    {
        classify_value(self.value_input.as_str())
    }

    /// Moves the focus: from none to the key field, then between the two
    /// fields.
    pub fn toggle_editing(&mut self)
        ensures
            final(self)@ == (Session { editing: toggled(old(self)@.editing), ..old(self)@ }),
    {
        match self.currently_editing {
            Some(CurrentlyEditing::Key) => self.currently_editing = Some(CurrentlyEditing::Value),
            Some(CurrentlyEditing::Value) => self.currently_editing = Some(CurrentlyEditing::Key),
            None => self.currently_editing = Some(CurrentlyEditing::Key),
        }
    }

    /// The entries as one compact JSON object, in their order.
    pub fn to_json(&self) -> (r: Result<String, Error>)
        ensures
            match r {
                Ok(t) => json_document(self@.entries) == Ok::<Seq<char>, Error>(t@),
                Err(e) => json_document(self@.entries) == Err::<Seq<char>, Error>(e),
            },
    {
        map_to_json(&self.pairs)
    }

    /// Reads a key on the editing screen.
    pub fn handle_editing_screen_input(&mut self, key: KeyEvent)
        ensures
            final(self)@ == editing_step(old(self)@, key.code),
    {
        match key.code {
            KeyCode::Enter => match self.currently_editing {
                Some(CurrentlyEditing::Key) => {
                    self.currently_editing = Some(CurrentlyEditing::Value);
                },
                Some(CurrentlyEditing::Value) => {
                    self.save_key_value();
                },
                None => {},
            },
            KeyCode::Backspace => match self.currently_editing {
                Some(CurrentlyEditing::Key) => {
                    pop_char(&mut self.key_input);
                },
                Some(CurrentlyEditing::Value) => {
                    pop_char(&mut self.value_input);
                },
                None => {},
            },
            KeyCode::Esc => {
                self.current_screen = CurrentScreen::Main;
                self.currently_editing = None;
            },
            KeyCode::Tab => {
                self.toggle_editing();
            },
            KeyCode::Char(v) => match self.currently_editing {
                Some(CurrentlyEditing::Key) => {
                    push_char(&mut self.key_input, v);
                },
                Some(CurrentlyEditing::Value) => {
                    push_char(&mut self.value_input, v);
                },
                None => {},
            },
            KeyCode::Other => {},
        }
    }

    /// Reads the answer to the exit question.
    pub fn handle_exiting_screen_input(&mut self, key: KeyEvent)
        ensures
            final(self)@ == exiting_step(old(self)@, key.code),
    {
        match key.code {
            KeyCode::Char('y') => {
                self.should_quit = true;
                self.should_print = true;
            },
            KeyCode::Char('n') => {
                self.should_quit = true;
                self.should_print = false;
            },
            _ => {},
        }
    }

    /// Reads a key on the main screen.
    pub fn handle_main_screen_input(&mut self, key: KeyEvent)
        ensures
            final(self)@ == main_step(old(self)@, key.code),
    {
        match key.code {
            KeyCode::Char('e') => {
                self.current_screen = CurrentScreen::Editing;
                self.currently_editing = Some(CurrentlyEditing::Key);
            },
            KeyCode::Char('q') => {
                self.current_screen = CurrentScreen::Exiting;
            },
            _ => {},
        }
    }

    /// Feeds one key event to the session.
    pub fn handle_key_event(&mut self, key: KeyEvent)
        ensures
            final(self)@ == step(old(self)@, key),
            old(self)@.wf() ==> final(self)@.wf(),
    {
        proof {
            if old(self)@.wf() {
                lemma_step_keeps_wf(old(self)@, key);
            }
        }
        if self.should_quit || key.kind == KeyEventKind::Release {
            return;
        }
        match self.current_screen {
            CurrentScreen::Main => self.handle_main_screen_input(key),
            CurrentScreen::Exiting => self.handle_exiting_screen_input(key),
            CurrentScreen::Editing => {
                if key.kind == KeyEventKind::Press {
                    self.handle_editing_screen_input(key);
                }
            },
        }
    }
}

} // verus!
