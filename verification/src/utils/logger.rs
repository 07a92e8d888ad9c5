//! Logger definitions.

use vstd::prelude::*;

verus! {

/// Log message severity.
#[derive(Debug, Copy, Clone, Ord, PartialOrd, Eq, PartialEq, Structural)]
pub enum Severity {
    DEBUG,
    INFO,
    WARN,
    ERROR,
}

impl Severity {
    /// Position of the severity in the order from least to most severe.
    pub open spec fn rank(self) -> nat {
        match self {
            Severity::DEBUG => 0,
            Severity::INFO => 1,
            Severity::WARN => 2,
            Severity::ERROR => 3,
        }
    }
}

/// One message as handed to a logger: where it comes from, how severe it is,
/// and its text.
pub struct LogRecord {
    pub file: Seq<char>,
    pub line: u32,
    pub severity: Severity,
    pub message: Seq<char>,
}

/// The record that stands for one call of `log`.
pub open spec fn record(file: Seq<char>, line: u32, severity: Severity, message: Seq<char>)
    -> LogRecord {
    LogRecord { file, line, severity, message }
}

/// The records let through after a logger with minimum level `level` that
/// had let `before` through was handed `record`: a record below the minimum
/// level is discarded, any other joins the records exactly if the logger
/// `emits` it.
pub open spec fn logged(before: Seq<LogRecord>, level: Severity, emits: bool, record: LogRecord)
    -> Seq<LogRecord> {
    if emits && record.severity.rank() >= level.rank() {
        before.push(record)
    } else {
        before
    }
}

/// Common trait for application loggers.
///
/// A logger is described by its minimum level and by the records it has let
/// through so far. An implementation states the three descriptions below for
/// itself; where it leaves one out, nothing is known of it.
pub trait Logger {
    /// Minimum log level.
    open spec fn level(&self) -> Severity {
        arbitrary()
    }

    /// The records let through so far, oldest first.
    open spec fn emitted(&self) -> Seq<LogRecord> {
        arbitrary()
    }

    /// Whether the logger, as it is now, lets `record` through, provided that
    /// the record is not below the minimum level.
    open spec fn emits(&self, record: LogRecord) -> bool {
        arbitrary()
    }

    /// Log a given message with a given severity. A message below the
    /// minimum level is discarded.
    fn log(&mut self, file: &str, line: u32, s: Severity, msg: &str)
        ensures
            final(self).level() == old(self).level(),
            final(self).emitted() == logged(
                old(self).emitted(),
                old(self).level(),
                old(self).emits(record(file@, line, s, msg@)),
                record(file@, line, s, msg@),
            ),
    ;

    /// Set minimum log level.
    ///
    /// Messages with lower level will be discarded.
    fn set_level(&mut self, s: Severity)
        ensures
            final(self).level() == s,
            final(self).emitted() == old(self).emitted(),
    ;

    /// Get minimum log level.
    fn get_level(&self) -> (s: Severity)
        ensures
            s == self.level(),
    ;

    /// Log a given debug message.
    fn debug(&mut self, file: &str, line: u32, msg: &str)
        ensures
            final(self).level() == old(self).level(),
            final(self).emitted() == logged(
                old(self).emitted(),
                old(self).level(),
                old(self).emits(record(file@, line, Severity::DEBUG, msg@)),
                record(file@, line, Severity::DEBUG, msg@),
            ),
    {
        self.log(file, line, Severity::DEBUG, msg)
    }

    /// Log a given info message.
    fn info(&mut self, file: &str, line: u32, msg: &str)
        ensures
            final(self).level() == old(self).level(),
            final(self).emitted() == logged(
                old(self).emitted(),
                old(self).level(),
                old(self).emits(record(file@, line, Severity::INFO, msg@)),
                record(file@, line, Severity::INFO, msg@),
            ),
    {
        self.log(file, line, Severity::INFO, msg)
    }

    /// Log a given warning message.
    fn warn(&mut self, file: &str, line: u32, msg: &str)
        ensures
            final(self).level() == old(self).level(),
            final(self).emitted() == logged(
                old(self).emitted(),
                old(self).level(),
                old(self).emits(record(file@, line, Severity::WARN, msg@)),
                record(file@, line, Severity::WARN, msg@),
            ),
    {
        self.log(file, line, Severity::WARN, msg)
    }

    /// Log a given error message.
    fn error(&mut self, file: &str, line: u32, msg: &str)
        ensures
            final(self).level() == old(self).level(),
            final(self).emitted() == logged(
                old(self).emitted(),
                old(self).level(),
                old(self).emits(record(file@, line, Severity::ERROR, msg@)),
                record(file@, line, Severity::ERROR, msg@),
            ),
    {
        self.log(file, line, Severity::ERROR, msg)
    }
}

/// Loggers that can be duplicated, as the `LoggerWrapper` needs them.
pub trait CloneableLogger: Logger + Sized {
    /// Whether `other` is a possible duplicate of this logger.
    spec fn duplicates(&self, other: &Self) -> bool;

    /// Duplicate the logger.
    fn duplicate(&self) -> (res: Self)
        ensures
            self.duplicates(&res),
    ;
}

impl<T> CloneableLogger for T where T: 'static + Logger + Clone {
    open spec fn duplicates(&self, other: &Self) -> bool {
        cloned::<T>(*self, *other)
    }

    fn duplicate(&self) -> (res: Self) {
        <T as Clone>::clone(self)
    }
}

/// A logger handle: it forwards to the logger it wraps and is duplicated
/// together with it.
pub struct LoggerWrapper<L: CloneableLogger> {
    logger: L,
}

impl<L: 'static + CloneableLogger> LoggerWrapper<L> {
    /// The wrapped logger.
    pub closed spec fn inner(&self) -> L {
        self.logger
    }

    /// Create a new logger wrapper.
    pub fn new(logger: L) -> (res: LoggerWrapper<L>)
        ensures
            res.inner() == logger,
    {
        LoggerWrapper { logger: logger }
    }
}

impl<L: 'static + CloneableLogger> Clone for LoggerWrapper<L> {
    fn clone(&self) -> (res: LoggerWrapper<L>)
        ensures
            self.inner().duplicates(&res.inner()),
    {
        let logger = self.logger.duplicate();
        LoggerWrapper { logger: logger }
    }
}

impl<L: 'static + CloneableLogger> Logger for LoggerWrapper<L> {
    open spec fn level(&self) -> Severity {
        self.inner().level()
    }

    open spec fn emitted(&self) -> Seq<LogRecord> {
        self.inner().emitted()
    }

    open spec fn emits(&self, record: LogRecord) -> bool {
        self.inner().emits(record)
    }

    fn log(&mut self, file: &str, line: u32, s: Severity, msg: &str) {
        self.logger.log(file, line, s, msg)
    }

    fn set_level(&mut self, s: Severity) {
        self.logger.set_level(s);
    }

    fn get_level(&self) -> (s: Severity) {
        self.logger.get_level()
    }
}

/// This logger does nothing but holds the severity level.
#[derive(Debug, Copy, Clone)]
pub struct DummyLogger {
    level: Severity,
}

impl DummyLogger {
    /// Create a new dummy logger.
    pub fn new() -> (res: DummyLogger)
        ensures
            res.level() == Severity::INFO,
    {
        DummyLogger { level: Severity::INFO }
    }
}

impl Logger for DummyLogger {
    closed spec fn level(&self) -> Severity {
        self.level
    }

    open spec fn emitted(&self) -> Seq<LogRecord> {
        Seq::empty()
    }

    open spec fn emits(&self, record: LogRecord) -> bool {
        false
    }

    fn log(&mut self, file: &str, line: u32, s: Severity, msg: &str) {
    }

    fn set_level(&mut self, s: Severity) {
        self.level = s;
    }

    fn get_level(&self) -> (s: Severity) {
        self.level
    }
}

/// A message below the minimum level is discarded, whatever the logger does
/// with other messages.
pub proof fn lemma_below_level_is_discarded(
    before: Seq<LogRecord>,
    level: Severity,
    emits: bool,
    record: LogRecord,
)
    requires
        record.severity.rank() < level.rank(),
    ensures
        logged(before, level, emits, record) == before,
{
}

} // verus!
