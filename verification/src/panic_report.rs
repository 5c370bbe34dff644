//! The panic report: what the kernel says on its way down.
//!
//! A panic is terminal — after reporting, the processor halts with
//! interrupts disabled. The report's exact framing is decided here from
//! the location and message the language runtime hands over; the halt and
//! the hook into the runtime stay with the platform shim.

use crate::logging::{dec_bytes, logger_appended, spec_dec_bytes, SerialLogger};
use vstd::prelude::*;
use vstd::string::StringSliceAdditionalSpecFns;
use vstd::utf8::encode_utf8;

verus! {

/// Where a panic happened in the source.
pub struct PanicLocation {
    /// The file's path, as the runtime reports it.
    pub file: String,
    /// Line number within the file.
    pub line: u32,
    /// Column number within the line.
    pub column: u32,
}

/// Everything the runtime hands the panic path.
pub struct PanicReport {
    /// The panic's source location, when the runtime knows it.
    pub location: Option<PanicLocation>,
    /// The panic message, when one can be rendered without allocating.
    pub message: Option<String>,
}

/// The location line of the report: file, line and column separated by
/// colons, or the unknown marker.
pub open spec fn spec_panic_location_line(location: Option<PanicLocation>) -> Seq<u8> {
    match location {
        Some(l) => ("Location: ").spec_bytes() + encode_utf8(l.file@) + (":").spec_bytes()
            + spec_dec_bytes(l.line as u64) + (":").spec_bytes() + spec_dec_bytes(l.column as u64)
            + ("\n").spec_bytes(),
        None => ("Location: <unknown>\n").spec_bytes(),
    }
}

/// The message line of the report, or the none marker.
pub open spec fn spec_panic_message_line(message: Option<String>) -> Seq<u8> {
    match message {
        Some(m) => ("Message: ").spec_bytes() + encode_utf8(m@) + ("\n").spec_bytes(),
        None => ("Message: <none>\n").spec_bytes(),
    }
}

/// The whole report: header, location line, message line, footer and a
/// blank separator.
pub open spec fn spec_panic_output(r: PanicReport) -> Seq<u8> {
    ("=== PANIC ===\n").spec_bytes() + spec_panic_location_line(r.location)
        + spec_panic_message_line(r.message) + ("=============\n").spec_bytes() + (
    "\n\n").spec_bytes()
}

/// Writes the panic report over the diagnostic channel: a header, the
/// panic's location and message — each with an explicit marker when
/// unknown — and a footer, every byte of the framing pinned down.
#[verifier::rlimit(100)]
pub fn print_panic_info_serial(info: &PanicReport, log: &mut SerialLogger)
    ensures
        logger_appended(*old(log), *final(log), spec_panic_output(*info)),
{
    log.serial_write_str("=== PANIC ===\n");
    match &info.location {
        Some(location) => {
            log.serial_write_str("Location: ");
            log.serial_write_str(location.file.as_str());
            log.serial_write_str(":");
            let line_digits = dec_bytes(location.line as u64);
            write_raw_bytes(log, &line_digits);
            log.serial_write_str(":");
            let col_digits = dec_bytes(location.column as u64);
            write_raw_bytes(log, &col_digits);
            log.serial_write_str("\n");
        },
        None => {
            log.serial_write_str("Location: <unknown>\n");
        },
    }
    match &info.message {
        Some(message) => {
            log.serial_write_str("Message: ");
            log.serial_write_str(message.as_str());
            log.serial_write_str("\n");
        },
        None => {
            log.serial_write_str("Message: <none>\n");
        },
    }
    log.serial_write_str("=============\n");
    log.serial_write_str("\n\n");
    proof {
        if old(log).enabled {
            assert(log.out@ =~= old(log).out@ + spec_panic_output(*info));
        } else {
            assert(log.out@ =~= old(log).out@ + Seq::<u8>::empty());
        }
    }
}

/// Emits a byte buffer through the logger, if it is enabled.
fn write_raw_bytes(log: &mut SerialLogger, bytes: &Vec<u8>)
    ensures
        logger_appended(*old(log), *final(log), bytes@),
{
    let n = bytes.len();
    let mut i: usize = 0;
    while i < n
        invariant
            i <= n,
            n == bytes.len(),
            log.enabled == old(log).enabled,
            log.out@ == old(log).out@ + if old(log).enabled {
                bytes@.take(i as int)
            } else {
                Seq::<u8>::empty()
            },
        decreases n - i,
    {
        log.serial_write_byte(bytes[i]);
        proof {
            if old(log).enabled {
                assert(bytes@.take(i + 1) =~= bytes@.take(i as int).push(bytes@[i as int]));
                assert(log.out@ =~= old(log).out@ + bytes@.take(i + 1));
            } else {
                assert(log.out@ =~= old(log).out@ + Seq::<u8>::empty());
            }
        }
        i += 1;
    }
    proof {
        assert(bytes@.take(n as int) =~= bytes@);
    }
}

} // verus!
