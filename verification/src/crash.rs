//! The text of a crash record.

use crate::text::decimal_text;
use crate::text::push_decimal;
use vstd::prelude::*;

verus! {

/// The line that opens a record: when it happened and in which version.
pub open spec fn crash_header_text(timestamp: Seq<char>, version: Seq<char>) -> Seq<char> {
    "\n=== crash at "@ + timestamp + " (version "@ + version + ") ===\n"@
}

/// The line that names the source file and line of the fault.
pub open spec fn crash_location_text(file: Seq<char>, line: nat) -> Seq<char> {
    "location: "@ + file + ":"@ + decimal_text(line) + "\n"@
}

/// The line that carries the fault's message.
pub open spec fn crash_message_text(message: Seq<char>) -> Seq<char> {
    "message: "@ + message + "\n"@
}

/// A whole record: the header, then the location and the message where they
/// are known.
pub open spec fn crash_record_text(
    timestamp: Seq<char>,
    version: Seq<char>,
    location: Option<(Seq<char>, nat)>,
    message: Option<Seq<char>>,
) -> Seq<char> {
    crash_header_text(timestamp, version) + (match location {
        Some((file, line)) => crash_location_text(file, line),
        None => Seq::<char>::empty(),
    }) + (match message {
        Some(text) => crash_message_text(text),
        None => Seq::<char>::empty(),
    })
}

/// Writes the record of one crash, ready to be appended to the log.
pub fn crash_record(
    timestamp: &str,
    version: &str,
    location: Option<(&str, u32)>,
    message: Option<&str>,
) -> (record: String)
    ensures
        record@ == crash_record_text(
            timestamp@,
            version@,
            match location {
                Some((file, line)) => Some((file@, line as nat)),
                None => None,
            },
            match message {
                Some(text) => Some(text@),
                None => None,
            },
        ),
{
    let mut record = String::from_str("\n=== crash at ");
    record.append(timestamp);
    record.append(" (version ");
    record.append(version);
    record.append(") ===\n");
    assert(record@ =~= crash_header_text(timestamp@, version@));
    if let Some((file, line)) = location {
        let ghost before = record@;
        record.append("location: ");
        record.append(file);
        record.append(":");
        push_decimal(&mut record, line);
        record.append("\n");
        assert(record@ =~= before + crash_location_text(file@, line as nat));
    } else {
        assert(record@ =~= crash_header_text(timestamp@, version@) + Seq::<char>::empty());
    }
    let ghost located = record@;
    if let Some(text) = message {
        record.append("message: ");
        record.append(text);
        record.append("\n");
        assert(record@ =~= located + crash_message_text(text@));
    } else {
        assert(record@ =~= located + Seq::<char>::empty());
    }
    record
}

} // verus!
