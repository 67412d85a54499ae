//! The host's log: a list of at most two hundred entries, the oldest
//! leaving first, and its export as text.

use crate::text::{decimal, push_decimal};
use vstd::prelude::*;
use vstd::string::*;

verus! {

/// The largest number of entries that the log keeps.
pub const LOG_LIMIT: usize = 200;

/// One line of the log.
#[derive(Debug, Clone)]
pub struct HostLogEntry {
    pub timestamp: u64,
    pub message: String,
}

/// The last `LOG_LIMIT` entries of a log, or all of them where there are
/// no more.
pub open spec fn bounded(logs: Seq<HostLogEntry>) -> Seq<HostLogEntry> {
    if logs.len() > LOG_LIMIT {
        logs.subrange(logs.len() - LOG_LIMIT, logs.len() as int)
    } else {
        logs
    }
}

/// One entry as a line of the export: the timestamp, a tab, the message.
pub open spec fn export_line(entry: HostLogEntry) -> Seq<char> {
    decimal(entry.timestamp as nat) + "\t"@ + entry.message@
}

/// The export of a log: one line per entry, a line feed between two lines.
pub open spec fn exported(logs: Seq<HostLogEntry>) -> Seq<char>
    decreases logs.len(),
{
    if logs.len() == 0 {
        Seq::empty()
    } else if logs.len() == 1 {
        export_line(logs[0])
    } else {
        exported(logs.drop_last()) + "\n"@ + export_line(logs.last())
    }
}

/// The log as it was read: what the store held, or nothing where the
/// store was absent or could not be read.
pub fn load_logs(stored: Option<Vec<HostLogEntry>>) -> (logs: Vec<HostLogEntry>)
    ensures
        logs@ == (match stored {
            Some(entries) => entries@,
            None => Seq::empty(),
        }),
{
    match stored {
        Some(entries) => entries,
        None => Vec::new(),
    }
}

/// Adds an entry at the end of the log and lets the oldest entries go
/// until no more than `LOG_LIMIT` are left.
pub fn append_log(logs: &mut Vec<HostLogEntry>, timestamp: u64, message: String)
    ensures
        final(logs)@ == bounded(old(logs)@.push(HostLogEntry { timestamp, message })),
        final(logs)@.len() <= LOG_LIMIT,
        final(logs)@.len() > 0,
        final(logs)@.last() == (HostLogEntry { timestamp, message }),
{
    logs.push(HostLogEntry { timestamp, message });
    if logs.len() > LOG_LIMIT {
        let excess: usize = logs.len() - LOG_LIMIT;
        let kept = logs.split_off(excess);
        *logs = kept;
    }
}

/// Empties the log.
pub fn clear_logs(logs: &mut Vec<HostLogEntry>)
    ensures
        final(logs)@.len() == 0,
{
    logs.clear();
}

/// The log as text: one line per entry, the timestamp and the message
/// with a tab between them.
pub fn export_logs(logs: &Vec<HostLogEntry>) -> (text: String)
    ensures
        text@ == exported(logs@),
{
    let mut text = String::new();
    let mut index: usize = 0;
    while index < logs.len()
        invariant
            index <= logs.len(),
            text@ == exported(logs@.subrange(0, index as int)),
        decreases logs.len() - index,
    {
        let ghost before = logs@.subrange(0, index as int);
        let ghost after = logs@.subrange(0, index + 1);
        assert(after.drop_last() =~= before);
        if index > 0 {
            text.append("\n");
        }
        push_decimal(&mut text, logs[index].timestamp);
        text.append("\t");
        text.append(logs[index].message.as_str());
        proof {
            if index == 0 {
                assert(text@ =~= export_line(logs@[0]));
            } else {
                assert(text@ =~= exported(before) + "\n"@ + export_line(logs@[index as int]));
            }
        }
        index += 1;
    }
    assert(logs@.subrange(0, logs.len() as int) =~= logs@);
    text
}

} // verus!
