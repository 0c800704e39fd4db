use vstd::prelude::*;

verus! {

/// How severe a log message is.
#[derive(PartialEq, Eq, Structural, Clone, Copy, Debug)]
pub enum Level {
    Info,
    Warning,
    Error,
}

/// One message for the log.
#[derive(Debug)]
pub struct LogEntry {
    pub level: Level,
    pub message: String,
}

/// A log handle that the caller owns: it keeps the messages, in order, until
/// the caller takes them and writes them wherever its log goes.
pub struct Logger {
    pub entries: Vec<LogEntry>,
}

/// What the log holds: each message's level and text, in order.
pub open spec fn entries_view(v: Seq<LogEntry>) -> Seq<(Level, Seq<char>)> {
    v.map_values(|e: LogEntry| (e.level, e.message@))
}

impl Logger {
    pub open spec fn view(&self) -> Seq<(Level, Seq<char>)> {
        entries_view(self.entries@)
    }

    pub fn new() -> (r: Logger)
        ensures
            r.view() == Seq::<(Level, Seq<char>)>::empty(),
    {
        let r = Logger { entries: Vec::new() };
        assert(r.view() =~= Seq::<(Level, Seq<char>)>::empty());
        r
    }

    /// Adds `message` at `level` after the messages already held.
    pub fn record(&mut self, level: Level, message: &str)
        ensures
            final(self).view() == old(self).view().push((level, message@)),
    {
        let ghost before = self.entries@;
        self.entries.push(LogEntry { level, message: String::from_str(message) });
        assert(self.view() =~= entries_view(before).push((level, message@)));
    }

    /// Hands out the messages held, in order, and leaves the log empty.
    pub fn take_entries(&mut self) -> (r: Vec<LogEntry>)
        ensures
            entries_view(r@) == old(self).view(),
            final(self).view() == Seq::<(Level, Seq<char>)>::empty(),
    {
        let mut r: Vec<LogEntry> = Vec::new();
        core::mem::swap(&mut self.entries, &mut r);
        assert(self.view() =~= Seq::<(Level, Seq<char>)>::empty());
        r
    }
}

/// Logs `message` as information.
pub fn log_info(logger: &mut Logger, message: &str)
    ensures
        final(logger).view() == old(logger).view().push((Level::Info, message@)),
{
    logger.record(Level::Info, message);
}

/// Logs `message` as a warning.
pub fn log_warning(logger: &mut Logger, message: &str)
    ensures
        final(logger).view() == old(logger).view().push((Level::Warning, message@)),
{
    logger.record(Level::Warning, message);
}

/// Logs `message` as an error.
pub fn log_error(logger: &mut Logger, message: &str)
    ensures
        final(logger).view() == old(logger).view().push((Level::Error, message@)),
{
    logger.record(Level::Error, message);
}

} // verus!
