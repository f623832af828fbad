//! The container log adapter: which containers it follows, and what record it
//! makes of one piece of a container's output.

use vstd::prelude::*;
use vstd::utf8::{decode_utf8, valid_utf8};
use crate::models::{default_timestamp, is_utc_stamp, view_of, LogEntry, LogEntryView};
use crate::text::{contains, contains_text, same_text, texts, trim, trimmed, utf8_text};

verus! {

/// The filter on container names.
#[derive(Debug, Clone, PartialEq, Eq)]
pub struct DockerIngestionConfig {
    pub container_name: String,
}

/// What the daemon lists of one container.
#[derive(Debug, Clone, PartialEq, Eq)]
pub struct ContainerSummary {
    pub names: Option<Vec<String>>,
    pub id: Option<String>,
    /// The state that the daemon reports, such as `running` or `exited`.
    pub state: Option<String>,
}

/// One piece of a container's output, by the stream it came on.
#[derive(Debug, Clone, PartialEq, Eq)]
pub enum LogOutput {
    StdErr { message: Vec<u8> },
    StdOut { message: Vec<u8> },
    StdIn { message: Vec<u8> },
    Console { message: Vec<u8> },
}

/// Whether one of `names` holds `filter` as a part.
pub open spec fn any_name_contains(names: Seq<Seq<char>>, filter: Seq<char>) -> bool {
    exists|i: int| 0 <= i < names.len() && contains_text(#[trigger] names[i], filter)
}

/// Whether a container is running: the daemon reports the state `running`.
pub open spec fn is_running(container: ContainerSummary) -> bool {
    match container.state {
        Some(state) => state@ == "running"@,
        None => false,
    }
}

/// Whether the filter lets a container pass: one of its names holds the
/// filter as a part. A container that is listed without names does not pass.
pub open spec fn passes_filter(container: ContainerSummary, filter: Seq<char>) -> bool {
    match container.names {
        Some(names) => any_name_contains(texts(names@), filter),
        None => false,
    }
}

/// Whether a container is followed: it is running, it has an identifier, and
/// it passes the filter.
pub open spec fn is_followed(container: ContainerSummary, filter: Seq<char>) -> bool {
    is_running(container) && container.id is Some && passes_filter(container, filter)
}

/// The identifiers of the containers to follow, in the order of the listing.
pub open spec fn followed(containers: Seq<ContainerSummary>, filter: Seq<char>) -> Seq<Seq<char>>
    decreases containers.len(),
{
    if containers.len() == 0 {
        Seq::empty()
    } else {
        let front = followed(containers.drop_last(), filter);
        if is_followed(containers.last(), filter) {
            front.push(containers.last().id.unwrap()@)
        } else {
            front
        }
    }
}

/// The record for one piece of output of the container `container_id`, read at
/// the time `now`: for text on standard output or standard error, the trimmed
/// text at level `INFO`; nothing for the other streams and for bytes that are
/// not UTF-8.
pub open spec fn container_record(container_id: Seq<char>, output: LogOutput, now: Seq<char>)
    -> Option<LogEntryView> {
    match output {
        LogOutput::StdOut { message } | LogOutput::StdErr { message } => if valid_utf8(message@) {
            Some(
                LogEntryView {
                    source: container_id,
                    level: "INFO"@,
                    message: trimmed(decode_utf8(message@)),
                    timestamp: now,
                },
            )
        } else {
            None
        },
        _ => None,
    }
}

/// Whether one of `names` holds `filter` as a part.
pub fn name_matches(names: &Vec<String>, filter: &str) -> (r: bool)
    ensures
        r == any_name_contains(texts(names@), filter@),
{
    let mut i: usize = 0;
    while i < names.len()
        invariant
            i <= names.len(),
            forall|k: int| 0 <= k < i ==> !contains_text(#[trigger] texts(names@)[k], filter@),
        decreases names.len() - i,
    {
        if contains(names[i].as_str(), filter) {
            assert(contains_text(texts(names@)[i as int], filter@));
            return true;
        }
        i += 1;
    }
    false
}

/// Chooses the containers to follow among those that the daemon lists: each
/// that is running, has an identifier and has a name that holds the
/// configured filter as a part. Returns their identifiers in the order of the
/// listing.
pub fn select_containers(config: &DockerIngestionConfig, containers: &Vec<ContainerSummary>) -> (r:
    Vec<String>)
    ensures
        texts(r@) == followed(containers@, config.container_name@),
{
    let mut ids: Vec<String> = Vec::new();
    let mut i: usize = 0;
    while i < containers.len()
        invariant
            i <= containers.len(),
            texts(ids@) == followed(containers@.take(i as int), config.container_name@),
        decreases containers.len() - i,
    {
        let container = &containers[i];
        proof {
            assert(containers@.take(i + 1).drop_last() =~= containers@.take(i as int));
            assert(containers@.take(i + 1).last() == containers@[i as int]);
        }
        let running = match &container.state {
            Some(state) => same_text(state.as_str(), "running"),
            None => false,
        };
        let passes = match &container.names {
            Some(names) => name_matches(names, config.container_name.as_str()),
            None => false,
        };
        if running && passes {
            match &container.id {
                Some(id) => {
                    let ghost before = ids@;
                    ids.push(id.clone());
                    proof {
                        assert(texts(ids@) =~= texts(before).push(id@));
                    }
                },
                None => {},
            }
        }
        i += 1;
    }
    proof {
        assert(containers@.take(containers.len() as int) =~= containers@);
    }
    ids
}

/// Makes the record for one piece of output of a container, at the time `now`.
pub fn container_entry_at(container_id: &str, output: &LogOutput, now: &str) -> (r: Option<
    LogEntry,
>)
    ensures
        view_of(r) == container_record(container_id@, *output, now@),
{
    match output {
        LogOutput::StdOut { message } | LogOutput::StdErr { message } => {
            match utf8_text(message.as_slice()) {
                Some(text) => Some(
                    LogEntry {
                        source: container_id.to_owned(),
                        level: "INFO".to_owned(),
                        message: trim(text).to_owned(),
                        timestamp: now.to_owned(),
                    },
                ),
                None => None,
            }
        },
        _ => None,
    }
}

/// Makes the record for one piece of output of a container, stamped with the
/// time of this call. Whatever the clock says, the record is that of
/// [`container_entry_at`] at some time that the clock wrote.
pub fn container_entry(container_id: &str, output: &LogOutput) -> (r: Option<LogEntry>)
    ensures
        exists|now: Seq<char>|
            is_utc_stamp(now) && view_of(r)
                == #[trigger] container_record(container_id@, *output, now),
{
    let now = default_timestamp();
    container_entry_at(container_id, output, now.as_str())
}

} // verus!
