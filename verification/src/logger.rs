//! The logger's configuration and the decision it takes for each event.

use vstd::prelude::*;
use crate::clock::{is_timestamp, timestamp_now};
use crate::level::Level;
use crate::line::{console_text, file_text, make_console_text, make_file_text};

verus! {

/// Where a line is written.
#[derive(Debug, Clone, PartialEq, Eq)]
pub enum Sink {
    /// The standard output stream.
    Stdout,
    /// The standard error stream.
    Stderr,
    /// The end of the file at this path, which is created if it is missing.
    File(String),
}

/// The mathematical value of a [`Sink`].
pub enum SinkView {
    Stdout,
    Stderr,
    File(Seq<char>),
}

impl View for Sink {
    type V = SinkView;

    open spec fn view(&self) -> SinkView {
        match self {
            Sink::Stdout => SinkView::Stdout,
            Sink::Stderr => SinkView::Stderr,
            Sink::File(path) => SinkView::File(path@),
        }
    }
}

/// One line and the place it is to be written to, as a whole and once.
#[derive(Debug, Clone, PartialEq, Eq)]
pub struct Emission {
    pub sink: Sink,
    pub text: String,
}

/// The sink for an event of `level` under a given destination: the file where
/// one is set; else the console, with errors on the error stream.
pub open spec fn sink_for(file: Option<Seq<char>>, level: Level) -> SinkView {
    match file {
        Some(path) => SinkView::File(path),
        None => if level == Level::Error {
            SinkView::Stderr
        } else {
            SinkView::Stdout
        },
    }
}

/// The configuration of logging: the least level that is emitted, and the file
/// that lines go to, if they do not go to the console.
pub struct Logger {
    level: Level,
    file: Option<String>,
}

impl Logger {
    /// The least level that is emitted.
    pub closed spec fn threshold(&self) -> Level {
        self.level
    }

    /// The path of the file that lines go to; `None` for the console.
    pub closed spec fn destination(&self) -> Option<Seq<char>> {
        match self.file {
            Some(path) => Some(path@),
            None => None,
        }
    }

    /// Whether an event of `level` is emitted: its level is no less than the
    /// threshold.
    pub open spec fn emits(&self, level: Level) -> bool {
        level.rank() >= self.threshold().rank()
    }

    /// `r` is what the logger makes of an event stamped `timestamp`: nothing
    /// below the threshold, else one line for the sink of the current
    /// destination.
    pub open spec fn renders(
        &self,
        r: Option<Emission>,
        timestamp: Seq<char>,
        level: Level,
        owner: Seq<char>,
        message: Seq<char>,
    ) -> bool {
        if !self.emits(level) {
            r is None
        } else {
            &&& r matches Some(e)
            &&& e.sink@ == sink_for(self.destination(), level)
            &&& if self.destination() is Some {
                e.text@ == file_text(timestamp, level, owner, message)
            } else {
                console_text(e.text@, timestamp, level, owner, message)
            }
        }
    }

    /// A logger that emits from `Info` upwards, to the console.
    pub fn new() -> (logger: Logger)
        ensures
            logger.threshold() == Level::Info,
            logger.destination() is None,
    {
        Logger { level: Level::Info, file: None }
    }

    /// Sets the least level that is emitted.
    pub fn set_level(&mut self, level: Level)
        ensures
            final(self).threshold() == level,
            final(self).destination() == old(self).destination(),
    {
        self.level = level;
    }

    /// Sets the file that lines go to; `None` sends them to the console.
    pub fn set_file(&mut self, file: Option<String>)
        ensures
            final(self).threshold() == old(self).threshold(),
            final(self).destination() == match file {
                Some(path) => Some(path@),
                None => None,
            },
    {
        self.file = file;
    }

    /// The least level that is emitted.
    pub fn level(&self) -> (level: Level)
        ensures
            level == self.threshold(),
    {
        self.level
    }

    /// The path of the file that lines go to; `None` for the console.
    pub fn file(&self) -> (file: &Option<String>)
        ensures
            self.destination() == match *file {
                Some(path) => Some(path@),
                None => None,
            },
    {
        &self.file
    }

    /// Whether an event of `level` is emitted.
    pub fn should_emit(&self, level: Level) -> (r: bool)
        ensures
            r == self.emits(level),
    {
        level >= self.level
    }

    /// What the logger makes of an event stamped `timestamp`.
    pub fn render(&self, timestamp: &str, level: Level, owner: &str, message: &str) -> (r: Option<
        Emission,
    >)
        ensures
            self.renders(r, timestamp@, level, owner@, message@),
    {
        if !self.should_emit(level) {
            return None;
        }
        match &self.file {
            Some(path) => {
                let text: String = make_file_text(timestamp, level, owner, message);
                Some(Emission { sink: Sink::File(path.clone()), text })
            },
            None => {
                let text: String = make_console_text(timestamp, level, owner, message);
                let sink: Sink = if level == Level::Error {
                    Sink::Stderr
                } else {
                    Sink::Stdout
                };
                Some(Emission { sink, text })
            },
        }
    }

    /// What the logger makes of an event that happens now: the line is stamped
    /// with the local time of the call.
    pub fn log(&self, level: Level, owner: &str, message: &str) -> (r: Option<Emission>)
        ensures
            exists|timestamp: Seq<char>|
                is_timestamp(timestamp) && #[trigger] self.renders(
                    r,
                    timestamp,
                    level,
                    owner@,
                    message@,
                ),
    {
        let timestamp: String = timestamp_now();
        let r = self.render(timestamp.as_str(), level, owner, message);
        assert(is_timestamp(timestamp@) && self.renders(r, timestamp@, level, owner@, message@));
        r
    }
}

} // verus!
