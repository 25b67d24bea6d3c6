//! The logging service: severity filtering and message preparation.
//!
//! The service is an explicitly constructed instance rather than a
//! process-wide singleton. It decides which messages pass the verbosity
//! threshold and prepares, for each accepted message, the prefixed line
//! for the console and the log file, and the `LogMessage` to fan out to
//! listeners; the sinks themselves (file, console, listener channels) are
//! owned by the caller.

use vstd::prelude::*;

use crate::text::concat_str;

verus! {

/// A kind of message.
#[derive(Copy, Clone, PartialOrd, PartialEq, Eq, Ord, Hash, Structural, Debug)]
pub enum MessageKind {
    /// Some useful information.
    Information,
    /// A warning.
    Warning,
    /// An error of some kind.
    Error,
}

impl MessageKind {
    /// Numeric severity: information lowest, error highest.
    pub open spec fn severity_spec(self) -> u32 {
        match self {
            MessageKind::Information => 0,
            MessageKind::Warning => 1,
            MessageKind::Error => 2,
        }
    }

    /// Executable severity matching `severity_spec`.
    pub fn severity(&self) -> (r: u32)
        ensures
            r == self.severity_spec(),
    {
        match self {
            MessageKind::Information => 0,
            MessageKind::Warning => 1,
            MessageKind::Error => 2,
        }
    }

    /// The prefix written ahead of each message of this kind.
    pub open spec fn prefix_spec(self) -> Seq<char> {
        match self {
            MessageKind::Information => "[INFO]: "@,
            MessageKind::Warning => "[WARNING]: "@,
            MessageKind::Error => "[ERROR]: "@,
        }
    }

    /// Executable prefix matching `prefix_spec`.
    pub fn as_str(self) -> (r: &'static str)
        ensures
            r@ == self.prefix_spec(),
    {
        match self {
            MessageKind::Information => "[INFO]: ",
            MessageKind::Warning => "[WARNING]: ",
            MessageKind::Error => "[ERROR]: ",
        }
    }
}

/// A message the logger hands to every listener.
#[derive(Debug)]
pub struct LogMessage {
    /// Kind of the message: information, warning or error.
    pub kind: MessageKind,
    /// The source message without logger prefixes.
    pub content: String,
    /// Milliseconds since the logger was created at which the message was
    /// recorded.
    pub time: u64,
}

/// See module docs.
#[derive(Debug)]
pub struct Log {
    verbosity: MessageKind,
}

impl Log {
    /// A logger that accepts everything.
    pub fn new() -> (log: Log)
        ensures
            log.verbosity_spec() == MessageKind::Information,
    {
        Log { verbosity: MessageKind::Information }
    }

    /// The current verbosity threshold.
    pub closed spec fn verbosity_spec(self) -> MessageKind {
        self.verbosity
    }

    /// Reads the verbosity threshold.
    pub fn verbosity(&self) -> (k: MessageKind)
        ensures
            k == self.verbosity_spec(),
    {
        self.verbosity
    }

    /// Sets the verbosity threshold: messages below it are dropped.
    pub fn set_verbosity(&mut self, kind: MessageKind)
        ensures
            final(self).verbosity_spec() == kind,
    {
        self.verbosity = kind;
    }

    /// Prepares one message: `None` when it falls below the verbosity
    /// threshold, otherwise the prefixed sink line and the listener
    /// message, timestamped with the given milliseconds since start.
    pub fn write(&self, kind: MessageKind, msg: String, time: u64) -> (r: Option<
        (String, LogMessage),
    >)
        ensures
            r is Some <==> kind.severity_spec() >= self.verbosity_spec().severity_spec(),
            r matches Some(out) ==> ({
                &&& out.0@ == kind.prefix_spec() + msg@
                &&& out.1.kind == kind
                &&& out.1.content@ == msg@
                &&& out.1.time == time
            }),
    {
        if kind.severity() >= self.verbosity.severity() {
            let line = concat_str(kind.as_str(), msg.as_str());
            Some((line, LogMessage { kind, content: msg, time }))
        } else {
            None
        }
    }

    /// Like `write`, with a newline appended to the message first; the
    /// newline reaches the sinks and the listeners alike.
    pub fn writeln(&self, kind: MessageKind, msg: String, time: u64) -> (r: Option<
        (String, LogMessage),
    >)
        ensures
            r is Some <==> kind.severity_spec() >= self.verbosity_spec().severity_spec(),
            r matches Some(out) ==> ({
                &&& out.0@ == kind.prefix_spec() + msg@ + "\n"@
                &&& out.1.kind == kind
                &&& out.1.content@ == msg@ + "\n"@
                &&& out.1.time == time
            }),
    {
        let with_newline = concat_str(msg.as_str(), "\n");
        let r = self.write(kind, with_newline, time);
        proof {
            if kind.severity_spec() >= self.verbosity_spec().severity_spec() {
                let out = r->0;
                assert(out.0@ =~= kind.prefix_spec() + msg@ + "\n"@);
            }
        }
        r
    }

    /// Prepares an information message.
    pub fn info(&self, msg: String, time: u64) -> (r: Option<(String, LogMessage)>)
        ensures
            r is Some <==> MessageKind::Information.severity_spec()
                >= self.verbosity_spec().severity_spec(),
            r matches Some(out) ==> ({
                &&& out.0@ == MessageKind::Information.prefix_spec() + msg@ + "\n"@
                &&& out.1.kind == MessageKind::Information
                &&& out.1.content@ == msg@ + "\n"@
                &&& out.1.time == time
            }),
    {
        self.writeln(MessageKind::Information, msg, time)
    }

    /// Prepares a warning message.
    pub fn warn(&self, msg: String, time: u64) -> (r: Option<(String, LogMessage)>)
        ensures
            r is Some <==> MessageKind::Warning.severity_spec()
                >= self.verbosity_spec().severity_spec(),
            r matches Some(out) ==> ({
                &&& out.0@ == MessageKind::Warning.prefix_spec() + msg@ + "\n"@
                &&& out.1.kind == MessageKind::Warning
                &&& out.1.content@ == msg@ + "\n"@
                &&& out.1.time == time
            }),
    {
        self.writeln(MessageKind::Warning, msg, time)
    }

    /// Prepares an error message.
    pub fn err(&self, msg: String, time: u64) -> (r: Option<(String, LogMessage)>)
        ensures
            r is Some <==> MessageKind::Error.severity_spec()
                >= self.verbosity_spec().severity_spec(),
            r matches Some(out) ==> ({
                &&& out.0@ == MessageKind::Error.prefix_spec() + msg@ + "\n"@
                &&& out.1.kind == MessageKind::Error
                &&& out.1.content@ == msg@ + "\n"@
                &&& out.1.time == time
            }),
    {
        self.writeln(MessageKind::Error, msg, time)
    }
}

} // verus!
