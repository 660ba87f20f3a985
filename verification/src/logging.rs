//! The event log of the designer: newest entry first, bounded in length.

use vstd::prelude::*;
use crate::world::DesignerPanels;
use crate::world::DesignerWorld;

verus! {

#[derive(Clone, Copy, Debug, PartialEq, Eq, Structural)]
pub enum LogLevel {
    Debug,
    Info,
    Warn,
    Error,
}

/// One line of the event log.
#[derive(Debug, PartialEq, Eq)]
pub struct LogEntry {
    pub timestamp: String,
    pub level: LogLevel,
    pub message: String,
}

impl Clone for LogEntry {
    fn clone(&self) -> (c: LogEntry)
        ensures
            c == *self,
    {
        LogEntry {
            timestamp: self.timestamp.clone(),
            level: self.level,
            message: self.message.clone(),
        }
    }
}

/// The event log panel.
#[derive(Debug, PartialEq, Eq)]
pub struct EventLoggerPanel {
    pub entries: Vec<LogEntry>,
    pub max_entries: usize,
    pub auto_scroll: bool,
}

/// The entries of a log after `entry` was put in front and the log cut back
/// to `max_entries`.
pub open spec fn entries_after_push(entries: Seq<LogEntry>, max_entries: usize, entry: LogEntry) -> Seq<
    LogEntry,
> {
    let grown = seq![entry] + entries;
    if grown.len() > max_entries {
        grown.take(max_entries as int)
    } else {
        grown
    }
}

impl EventLoggerPanel {
    /// Puts `entry` in front of the log and drops what exceeds `max_entries`
    /// from its end.
    pub fn push_entry(&mut self, entry: LogEntry)
        ensures
            final(self).entries@ == entries_after_push(
                old(self).entries@,
                old(self).max_entries,
                entry,
            ),
            final(self).max_entries == old(self).max_entries,
            final(self).auto_scroll == old(self).auto_scroll,
    {
        self.entries.insert(0, entry);
        let max_entries = self.max_entries;
        if self.entries.len() > max_entries {
            self.entries.truncate(max_entries);
        }
        assert(self.entries@ =~= entries_after_push(
            old(self).entries@,
            old(self).max_entries,
            entry,
        ));
    }
}

/// The time of day on the local clock, as hours, minutes and seconds.
///
/// Calls `chrono::Local::now` and formats the reading with `%H:%M:%S`.
/// Nothing is claimed of the text: it depends on the clock.
#[verifier::external_body]
pub(crate) fn local_time_of_day() -> String {
    chrono::Local::now().format("%H:%M:%S").to_string()
}

/// `after` is the log `before` with one more entry in front, of level
/// `Info` and with the text `message`, cut back to its bound.
pub open spec fn has_new_entry(before: EventLoggerPanel, after: EventLoggerPanel, message: Seq<char>) -> bool {
    exists|entry: LogEntry|
        {
            &&& entry.level == LogLevel::Info
            &&& entry.message@ == message
            &&& #[trigger] entries_after_push(before.entries@, before.max_entries, entry)
                == after.entries@
            &&& after.max_entries == before.max_entries
            &&& after.auto_scroll == before.auto_scroll
        }
}

/// The panels `after` are the panels `before` with `message` written to the
/// event log. Where there is no event log, nothing is written.
pub open spec fn logged(before: DesignerPanels, after: DesignerPanels, message: Seq<char>) -> bool {
    match before.event_logger {
        None => after == before,
        Some(log) => after.event_logger is Some && has_new_entry(
            log,
            after.event_logger->0,
            message,
        ) && after == (DesignerPanels { event_logger: after.event_logger, ..before }),
    }
}

/// Writes `message` to the event log of the world, newest first, under the
/// time of day at which it is written.
pub fn add_designer_log(world: &mut DesignerWorld, message: &str)
    ensures
        final(world)@ == old(world)@,
        final(world).wf() == old(world).wf(),
        final(world).spec_next_id() == old(world).spec_next_id(),
        logged(old(world).spec_panels(), final(world).spec_panels(), message@),
{
    let taken = world.panels.event_logger.take();
    match taken {
        Some(mut logger) => {
            let entry = LogEntry {
                timestamp: local_time_of_day(),
                level: LogLevel::Info,
                message: String::from_str(message),
            };
            let ghost before = logger;
            logger.push_entry(entry);
            assert(has_new_entry(before, logger, message@)) by {
                assert(entries_after_push(before.entries@, before.max_entries, entry)
                    == logger.entries@);
            }
            world.panels.event_logger = Some(logger);
        },
        None => {},
    }
}

} // verus!
