//! The load procedure as a machine that is told what happened and answers
//! what to do next.
//!
//! The caller performs one operation at a time on the file system and on
//! text, and reports each outcome as an [`Event`]. The [`Loader`] answers
//! with the next [`Action`], until that action is `Finish` and carries
//! the result of the load.

use crate::config::{BotConfig, BotConfigView, PrettyLayout};
use crate::error::{ConfigError, ConfigErrorView};
use vstd::prelude::*;

verus! {

/// How far a load has come: the operation whose outcome is awaited.
#[derive(Clone, Copy, Debug, PartialEq, Eq, Structural)]
pub enum Phase {
    /// The file is being opened for reading.
    Opening,
    /// The opened file is being read and parsed.
    Parsing,
    /// No file could be opened; a new one is being created.
    Creating,
    /// The new file exists; the blank record is being put into text.
    Serializing,
    /// The text of the blank record is being written to the new file.
    Writing,
    /// The result has been handed out. Nothing more is awaited.
    Finished,
}

/// The outcome of an operation that the caller performed for the loader.
#[derive(Debug)]
pub enum Event {
    /// The file was opened for reading.
    Opened,
    /// The file is missing or could not be opened.
    OpenFailed,
    /// The text of the file was parsed into this record.
    Parsed(BotConfig),
    /// The file could not be read, or its text is no configuration. Holds
    /// the parser's account of it.
    ParseFailed(String),
    /// A new, empty file was created.
    Created,
    /// No file could be created. Holds the system's account of it.
    CreateFailed(String),
    /// The record was put into this text.
    Serialized(String),
    /// The record could not be put into text. Holds the serializer's
    /// account of it.
    SerializeFailed(String),
    /// The whole text was written to the new file.
    Written,
    /// The text could not be written. Holds the system's account of it.
    WriteFailed(String),
}

/// What the caller is to do next.
#[derive(Debug)]
pub enum Action {
    /// Open the file at this path for reading.
    Open(String),
    /// Read the opened file and parse its text into a record.
    Parse,
    /// Create a new file at this path.
    Create(String),
    /// Put this record into text, laid out as given.
    Serialize(BotConfig, PrettyLayout),
    /// Write the whole of this text to the file just created.
    Write(String),
    /// Stop: this is the result of the load.
    Finish(Result<BotConfig, ConfigError>),
}

/// The value of an [`Event`] in specifications.
pub enum EventView {
    Opened,
    OpenFailed,
    Parsed(BotConfigView),
    ParseFailed(Seq<char>),
    Created,
    CreateFailed(Seq<char>),
    Serialized(Seq<char>),
    SerializeFailed(Seq<char>),
    Written,
    WriteFailed(Seq<char>),
}

/// The value of an [`Action`] in specifications.
pub enum ActionView {
    Open(Seq<char>),
    Parse,
    Create(Seq<char>),
    Serialize(BotConfigView, PrettyLayout),
    Write(Seq<char>),
    Finish(Result<BotConfigView, ConfigErrorView>),
}

impl View for Event {
    type V = EventView;

    open spec fn view(&self) -> EventView {
        match self {
            Event::Opened => EventView::Opened,
            Event::OpenFailed => EventView::OpenFailed,
            Event::Parsed(config) => EventView::Parsed(config@),
            Event::ParseFailed(why) => EventView::ParseFailed(why@),
            Event::Created => EventView::Created,
            Event::CreateFailed(why) => EventView::CreateFailed(why@),
            Event::Serialized(text) => EventView::Serialized(text@),
            Event::SerializeFailed(why) => EventView::SerializeFailed(why@),
            Event::Written => EventView::Written,
            Event::WriteFailed(why) => EventView::WriteFailed(why@),
        }
    }
}

impl View for Action {
    type V = ActionView;

    open spec fn view(&self) -> ActionView {
        match self {
            Action::Open(path) => ActionView::Open(path@),
            Action::Parse => ActionView::Parse,
            Action::Create(path) => ActionView::Create(path@),
            Action::Serialize(config, layout) => ActionView::Serialize(config@, *layout),
            Action::Write(text) => ActionView::Write(text@),
            Action::Finish(Ok(config)) => ActionView::Finish(Ok(config@)),
            Action::Finish(Err(error)) => ActionView::Finish(Err(error@)),
        }
    }
}

impl ActionView {
    /// Whether the action makes or changes a file.
    pub open spec fn touches_file(self) -> bool {
        self is Create || self is Write
    }
}

/// One load of the configuration file at a given path.
#[derive(Debug)]
pub struct Loader {
    path: String,
    phase: Phase,
}

/// The value of a [`Loader`] in specifications.
pub struct LoaderView {
    /// The path of the configuration file.
    pub path: Seq<char>,
    /// The operation whose outcome is awaited.
    pub phase: Phase,
}

impl View for Loader {
    type V = LoaderView;

    closed spec fn view(&self) -> LoaderView {
        LoaderView { path: self.path@, phase: self.phase }
    }
}

impl LoaderView {
    /// A load of the file at `path` that has just begun.
    pub open spec fn begin(path: Seq<char>) -> LoaderView {
        LoaderView { path, phase: Phase::Opening }
    }

    /// What `event` leads to: the phase entered and the action answered,
    /// or `None` where `event` is not an outcome of the operation awaited.
    pub open spec fn react(self, event: EventView) -> Option<(Phase, ActionView)> {
        match (self.phase, event) {
            (Phase::Opening, EventView::Opened) => Some((Phase::Parsing, ActionView::Parse)),
            (Phase::Opening, EventView::OpenFailed) => Some(
                (Phase::Creating, ActionView::Create(self.path)),
            ),
            (Phase::Parsing, EventView::Parsed(config)) => Some(
                (Phase::Finished, ActionView::Finish(Ok(config))),
            ),
            (Phase::Parsing, EventView::ParseFailed(why)) => Some(
                (Phase::Finished, ActionView::Finish(Err(ConfigErrorView::ParseFailed { why }))),
            ),
            (Phase::Creating, EventView::Created) => Some(
                (
                    Phase::Serializing,
                    ActionView::Serialize(BotConfigView::blank(), PrettyLayout::config_file()),
                ),
            ),
            (Phase::Creating, EventView::CreateFailed(why)) => Some(
                (
                    Phase::Finished,
                    ActionView::Finish(
                        Err(ConfigErrorView::CreateFailed { path: self.path, why }),
                    ),
                ),
            ),
            (Phase::Serializing, EventView::Serialized(text)) => Some(
                (Phase::Writing, ActionView::Write(text)),
            ),
            (Phase::Serializing, EventView::SerializeFailed(why)) => Some(
                (
                    Phase::Finished,
                    ActionView::Finish(Err(ConfigErrorView::SerializeFailed { why })),
                ),
            ),
            (Phase::Writing, EventView::Written) => Some(
                (
                    Phase::Finished,
                    ActionView::Finish(Err(ConfigErrorView::Created { path: self.path })),
                ),
            ),
            (Phase::Writing, EventView::WriteFailed(why)) => Some(
                (
                    Phase::Finished,
                    ActionView::Finish(Err(ConfigErrorView::WriteFailed { path: self.path, why })),
                ),
            ),
            _ => None,
        }
    }

    /// Whether `event` is an outcome of the operation awaited.
    pub open spec fn awaits(self, event: EventView) -> bool {
        self.react(event) is Some
    }

    /// The loader after `event`. An event that is not awaited changes
    /// nothing.
    pub open spec fn next(self, event: EventView) -> LoaderView {
        match self.react(event) {
            Some((phase, _)) => LoaderView { path: self.path, phase },
            None => self,
        }
    }

    /// The action that answers `event`, if it is awaited.
    pub open spec fn answer(self, event: EventView) -> Option<ActionView> {
        match self.react(event) {
            Some((_, action)) => Some(action),
            None => None,
        }
    }
}

impl Loader {
    /// Begins a load of the file at `path`. The first thing to do is to
    /// open that file.
    pub fn begin(path: String) -> (start: (Loader, Action))
        ensures
            start.0@ == LoaderView::begin(path@),
            start.1@ == ActionView::Open(path@),
    {
        let first = Action::Open(path.clone());
        (Loader { path, phase: Phase::Opening }, first)
    }

    /// The path of the configuration file.
    pub fn path(&self) -> (path: &str)
        ensures
            path@ == self@.path,
    {
        self.path.as_str()
    }

    /// The operation whose outcome is awaited.
    pub fn phase(&self) -> (phase: Phase)
        ensures
            phase == self@.phase,
    {
        self.phase
    }

    /// Takes the outcome of the operation that was asked for last and
    /// answers with the next one, or with the result of the load.
    ///
    /// An event that is no outcome of the awaited operation is refused:
    /// the answer is `None` and the loader stays as it was. Once the
    /// result is handed out, every event is refused.
    pub fn step(&mut self, event: Event) -> (action: Option<Action>)
        ensures
            final(self)@ == old(self)@.next(event@),
            action is Some <==> old(self)@.awaits(event@),
            match action {
                Some(a) => old(self)@.answer(event@) == Some(a@),
                None => old(self)@.answer(event@) is None,
            },
    {
        match (self.phase, event) {
            (Phase::Opening, Event::Opened) => {
                self.phase = Phase::Parsing;
                Some(Action::Parse)
            },
            (Phase::Opening, Event::OpenFailed) => {
                self.phase = Phase::Creating;
                Some(Action::Create(self.path.clone()))
            },
            (Phase::Parsing, Event::Parsed(config)) => {
                self.phase = Phase::Finished;
                Some(Action::Finish(Ok(config)))
            },
            (Phase::Parsing, Event::ParseFailed(why)) => {
                self.phase = Phase::Finished;
                Some(Action::Finish(Err(ConfigError::ParseFailed { why })))
            },
            (Phase::Creating, Event::Created) => {
                self.phase = Phase::Serializing;
                Some(Action::Serialize(BotConfig::default(), PrettyLayout::config_file()))
            },
            (Phase::Creating, Event::CreateFailed(why)) => {
                self.phase = Phase::Finished;
                Some(Action::Finish(Err(ConfigError::CreateFailed { path: self.path.clone(), why })))
            },
            (Phase::Serializing, Event::Serialized(text)) => {
                self.phase = Phase::Writing;
                Some(Action::Write(text))
            },
            (Phase::Serializing, Event::SerializeFailed(why)) => {
                self.phase = Phase::Finished;
                Some(Action::Finish(Err(ConfigError::SerializeFailed { why })))
            },
            (Phase::Writing, Event::Written) => {
                self.phase = Phase::Finished;
                Some(Action::Finish(Err(ConfigError::Created { path: self.path.clone() })))
            },
            (Phase::Writing, Event::WriteFailed(why)) => {
                self.phase = Phase::Finished;
                Some(Action::Finish(Err(ConfigError::WriteFailed { path: self.path.clone(), why })))
            },
            _ => None,
        }
    }
}

} // verus!
