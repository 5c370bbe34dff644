//! PS/2 controller and keyboard bring-up as a decision machine.
//!
//! The initializer is a fixed conversation with two ports: remap the
//! interrupt controller, unmask the keyboard line, flush and disable the
//! devices, rewrite the controller configuration, then reset the keyboard
//! and enable scanning, branching on the keyboard's acknowledgement byte.
//! Every decision — which byte goes to which port next, and what the
//! responses mean — is made here, one state at a time; the port accesses
//! themselves are a driver loop outside the library that performs each
//! step's operations and hands back what the next read returned.

use crate::logging::{
    append_bytes, append_str, hex_lower_bytes, logger_appended, spec_hex_lower_bytes, SerialLogger,
};
use vstd::prelude::*;
use vstd::string::StringSliceAdditionalSpecFns;

verus! {

/// One port operation the driver performs for the machine.
#[derive(Clone, Copy, Debug, PartialEq, Eq, Structural)]
pub enum Ps2Op {
    /// Write the byte to the port.
    WritePort(u16, u8),
    /// Read a byte from the port and hand it to the next step.
    ReadPort(u16),
    /// Poll the status port until the input buffer is clear.
    WaitInputClear,
    /// Poll the status port until output data is available.
    WaitOutputSet,
}

/// Where the initialization conversation stands: each waiting state names
/// the byte the last issued read will hand back.
#[derive(Clone, Copy, Debug, PartialEq, Eq, Structural)]
pub enum Ps2State {
    /// Nothing done yet.
    Start,
    /// The interrupt controller is remapped; the master mask is due.
    AwaitMasterMask,
    /// The keyboard line is unmasked; a stale scancode is due, to be
    /// discarded.
    AwaitStaleScancode,
    /// The output buffer flush is due, to be discarded.
    AwaitFlushByte,
    /// Devices are disabled and the configuration byte was requested.
    AwaitConfig,
    /// The keyboard was reset; its acknowledgement byte is due.
    AwaitResetAck,
    /// The reset was acknowledged; the self-test result is due.
    AwaitBat,
    /// Scanning was enabled; its acknowledgement byte is due.
    AwaitScanAck,
    /// The final master-mask read is due.
    AwaitFinalMask,
    /// Initialization is complete.
    Done,
}

/// The interrupt-controller remap conversation: initialization words,
/// offsets 0x20 and 0x28, the cascade wiring, and 8086 mode, then a read
/// of the master mask.
pub open spec fn spec_remap_ops() -> Seq<Ps2Op> {
    seq![
        Ps2Op::WritePort(0x20, 0x11),
        Ps2Op::WritePort(0xa0, 0x11),
        Ps2Op::WritePort(0x21, 0x20),
        Ps2Op::WritePort(0xa1, 0x28),
        Ps2Op::WritePort(0x21, 0x04),
        Ps2Op::WritePort(0xa1, 0x02),
        Ps2Op::WritePort(0x21, 0x01),
        Ps2Op::WritePort(0xa1, 0x01),
        Ps2Op::ReadPort(0x21),
    ]
}

/// The operations each step issues, given the byte the last read
/// returned.
pub open spec fn spec_step_ops(state: Ps2State, input: u8) -> Seq<Ps2Op> {
    match state {
        Ps2State::Start => spec_remap_ops(),
        Ps2State::AwaitMasterMask => seq![
            Ps2Op::WritePort(0x21, (input & 0xf9) as u8),
            Ps2Op::WritePort(0xa1, 0xff),
            Ps2Op::ReadPort(0x60),
        ],
        Ps2State::AwaitStaleScancode => seq![Ps2Op::WaitOutputSet, Ps2Op::ReadPort(0x60)],
        Ps2State::AwaitFlushByte => seq![
            Ps2Op::WaitInputClear,
            Ps2Op::WritePort(0x64, 0xad),
            Ps2Op::WaitInputClear,
            Ps2Op::WritePort(0x64, 0xa7),
            Ps2Op::WaitInputClear,
            Ps2Op::WritePort(0x64, 0x20),
            Ps2Op::WaitOutputSet,
            Ps2Op::ReadPort(0x60),
        ],
        Ps2State::AwaitConfig => seq![
            Ps2Op::WaitInputClear,
            Ps2Op::WritePort(0x64, 0x60),
            Ps2Op::WaitInputClear,
            Ps2Op::WritePort(0x60, ((input | 0x41) & 0xfd) as u8),
            Ps2Op::WaitInputClear,
            Ps2Op::WritePort(0x64, 0xae),
            Ps2Op::WaitInputClear,
            Ps2Op::WritePort(0x60, 0xff),
            Ps2Op::WaitOutputSet,
            Ps2Op::ReadPort(0x60),
        ],
        Ps2State::AwaitResetAck => if input == 0xfa {
            seq![Ps2Op::WaitOutputSet, Ps2Op::ReadPort(0x60)]
        } else {
            spec_enable_scanning_ops()
        },
        Ps2State::AwaitBat => spec_enable_scanning_ops(),
        Ps2State::AwaitScanAck => seq![Ps2Op::ReadPort(0x21)],
        Ps2State::AwaitFinalMask => seq![Ps2Op::WritePort(0x21, (input & 0xfd) as u8)],
        Ps2State::Done => Seq::empty(),
    }
}

/// The enable-scanning conversation: the scan command and its
/// acknowledgement read.
pub open spec fn spec_enable_scanning_ops() -> Seq<Ps2Op> {
    seq![
        Ps2Op::WaitInputClear,
        Ps2Op::WritePort(0x60, 0xf4),
        Ps2Op::WaitOutputSet,
        Ps2Op::ReadPort(0x60),
    ]
}

/// Where each step leaves the conversation.
pub open spec fn spec_step_next(state: Ps2State, input: u8) -> Ps2State {
    match state {
        Ps2State::Start => Ps2State::AwaitMasterMask,
        Ps2State::AwaitMasterMask => Ps2State::AwaitStaleScancode,
        Ps2State::AwaitStaleScancode => Ps2State::AwaitFlushByte,
        Ps2State::AwaitFlushByte => Ps2State::AwaitConfig,
        Ps2State::AwaitConfig => Ps2State::AwaitResetAck,
        Ps2State::AwaitResetAck => if input == 0xfa {
            Ps2State::AwaitBat
        } else {
            Ps2State::AwaitScanAck
        },
        Ps2State::AwaitBat => Ps2State::AwaitScanAck,
        Ps2State::AwaitScanAck => Ps2State::AwaitFinalMask,
        Ps2State::AwaitFinalMask => Ps2State::Done,
        Ps2State::Done => Ps2State::Done,
    }
}

/// An info line whose text is a fixed prefix followed by a byte in the
/// `0x`-prefixed hexadecimal shape the initializer logs responses in.
pub open spec fn spec_hex_info_line(prefix: Seq<u8>, value: u8) -> Seq<u8> {
    ("[INFO] ").spec_bytes() + prefix + ("0x").spec_bytes() + spec_hex_lower_bytes(
        value as u64,
    ) + ("\r\n").spec_bytes()
}

/// What each step says over the diagnostic channel.
pub open spec fn spec_step_log(state: Ps2State, input: u8) -> Seq<u8> {
    match state {
        Ps2State::Start => ("[INFO] ").spec_bytes() + (
        "Initializing PS/2 controller...").spec_bytes() + ("\r\n").spec_bytes(),
        Ps2State::AwaitResetAck => spec_hex_info_line(("Keyboard RESET ACK: ").spec_bytes(), input)
            + if input == 0xfa {
            Seq::<u8>::empty()
        } else {
            spec_hex_info_line(("Keyboard did not ACK reset as expected: ").spec_bytes(), input)
        },
        Ps2State::AwaitBat => spec_hex_info_line(("Keyboard BAT response: ").spec_bytes(), input),
        Ps2State::AwaitScanAck => spec_hex_info_line(
            ("Keyboard scanning ACK: ").spec_bytes(),
            input,
        ),
        Ps2State::AwaitFinalMask => ("[INFO] ").spec_bytes() + (
        "PS/2 controller initialized").spec_bytes() + ("\r\n").spec_bytes(),
        _ => Seq::empty(),
    }
}

/// Logs one response line: the prefix, then the byte as hexadecimal.
fn log_hex_info_line(log: &mut SerialLogger, prefix: &str, value: u8)
    ensures
        logger_appended(*old(log), *final(log), spec_hex_info_line(prefix.spec_bytes(), value)),
{
    let mut line: Vec<u8> = Vec::new();
    append_str(&mut line, prefix);
    append_str(&mut line, "0x");
    let digits = hex_lower_bytes(value as u64);
    append_bytes(&mut line, &digits);
    log.info_bytes(&line);
    proof {
        if old(log).enabled {
            assert(log.out@ =~= old(log).out@ + spec_hex_info_line(prefix.spec_bytes(), value));
        } else {
            assert(log.out@ =~= old(log).out@ + Seq::<u8>::empty());
        }
    }
}

/// Advances the initialization conversation by one step.
///
/// `input` is the byte the last issued read returned, ignored by states
/// that discard it. The step narrates what the response meant and hands
/// back the exact operations the driver must perform next; once the
/// machine reports itself done it stays done and asks for nothing more.
pub fn ps2_init_step(state: Ps2State, input: u8, log: &mut SerialLogger) -> (r: (
    Ps2State,
    Vec<Ps2Op>,
))
    ensures
        r.0 == spec_step_next(state, input),
        r.1@ == spec_step_ops(state, input),
        logger_appended(*old(log), *final(log), spec_step_log(state, input)),
{
    match state {
        Ps2State::Start => {
            log.info("Initializing PS/2 controller...");
            let mut ops: Vec<Ps2Op> = Vec::new();
            ops.push(Ps2Op::WritePort(0x20, 0x11));
            ops.push(Ps2Op::WritePort(0xa0, 0x11));
            ops.push(Ps2Op::WritePort(0x21, 0x20));
            ops.push(Ps2Op::WritePort(0xa1, 0x28));
            ops.push(Ps2Op::WritePort(0x21, 0x04));
            ops.push(Ps2Op::WritePort(0xa1, 0x02));
            ops.push(Ps2Op::WritePort(0x21, 0x01));
            ops.push(Ps2Op::WritePort(0xa1, 0x01));
            ops.push(Ps2Op::ReadPort(0x21));
            proof {
                assert(ops@ =~= spec_remap_ops());
            }
            (Ps2State::AwaitMasterMask, ops)
        },
        Ps2State::AwaitMasterMask => {
            let mut ops: Vec<Ps2Op> = Vec::new();
            ops.push(Ps2Op::WritePort(0x21, input & 0xf9));
            ops.push(Ps2Op::WritePort(0xa1, 0xff));
            ops.push(Ps2Op::ReadPort(0x60));
            proof {
                assert(ops@ =~= spec_step_ops(state, input));
            }
            (Ps2State::AwaitStaleScancode, ops)
        },
        Ps2State::AwaitStaleScancode => {
            let mut ops: Vec<Ps2Op> = Vec::new();
            ops.push(Ps2Op::WaitOutputSet);
            ops.push(Ps2Op::ReadPort(0x60));
            proof {
                assert(ops@ =~= spec_step_ops(state, input));
            }
            (Ps2State::AwaitFlushByte, ops)
        },
        Ps2State::AwaitFlushByte => {
            let mut ops: Vec<Ps2Op> = Vec::new();
            ops.push(Ps2Op::WaitInputClear);
            ops.push(Ps2Op::WritePort(0x64, 0xad));
            ops.push(Ps2Op::WaitInputClear);
            ops.push(Ps2Op::WritePort(0x64, 0xa7));
            ops.push(Ps2Op::WaitInputClear);
            ops.push(Ps2Op::WritePort(0x64, 0x20));
            ops.push(Ps2Op::WaitOutputSet);
            ops.push(Ps2Op::ReadPort(0x60));
            proof {
                assert(ops@ =~= spec_step_ops(state, input));
            }
            (Ps2State::AwaitConfig, ops)
        },
        Ps2State::AwaitConfig => {
            let config = (input | 0x41) & 0xfd;
            let mut ops: Vec<Ps2Op> = Vec::new();
            ops.push(Ps2Op::WaitInputClear);
            ops.push(Ps2Op::WritePort(0x64, 0x60));
            ops.push(Ps2Op::WaitInputClear);
            ops.push(Ps2Op::WritePort(0x60, config));
            ops.push(Ps2Op::WaitInputClear);
            ops.push(Ps2Op::WritePort(0x64, 0xae));
            ops.push(Ps2Op::WaitInputClear);
            ops.push(Ps2Op::WritePort(0x60, 0xff));
            ops.push(Ps2Op::WaitOutputSet);
            ops.push(Ps2Op::ReadPort(0x60));
            proof {
                assert(ops@ =~= spec_step_ops(state, input));
            }
            (Ps2State::AwaitResetAck, ops)
        },
        Ps2State::AwaitResetAck => {
            log_hex_info_line(log, "Keyboard RESET ACK: ", input);
            if input == 0xfa {
                let mut ops: Vec<Ps2Op> = Vec::new();
                ops.push(Ps2Op::WaitOutputSet);
                ops.push(Ps2Op::ReadPort(0x60));
                proof {
                    assert(ops@ =~= spec_step_ops(state, input));
                    assert(log.out@ =~= old(log).out@ + if old(log).enabled {
                        spec_step_log(state, input)
                    } else {
                        Seq::<u8>::empty()
                    });
                }
                (Ps2State::AwaitBat, ops)
            } else {
                log_hex_info_line(log, "Keyboard did not ACK reset as expected: ", input);
                let ops = enable_scanning_ops();
                proof {
                    assert(log.out@ =~= old(log).out@ + if old(log).enabled {
                        spec_step_log(state, input)
                    } else {
                        Seq::<u8>::empty()
                    });
                }
                (Ps2State::AwaitScanAck, ops)
            }
        },
        Ps2State::AwaitBat => {
            log_hex_info_line(log, "Keyboard BAT response: ", input);
            let ops = enable_scanning_ops();
            (Ps2State::AwaitScanAck, ops)
        },
        Ps2State::AwaitScanAck => {
            log_hex_info_line(log, "Keyboard scanning ACK: ", input);
            let mut ops: Vec<Ps2Op> = Vec::new();
            ops.push(Ps2Op::ReadPort(0x21));
            proof {
                assert(ops@ =~= spec_step_ops(state, input));
            }
            (Ps2State::AwaitFinalMask, ops)
        },
        Ps2State::AwaitFinalMask => {
            let mut ops: Vec<Ps2Op> = Vec::new();
            ops.push(Ps2Op::WritePort(0x21, input & 0xfd));
            log.info("PS/2 controller initialized");
            proof {
                assert(ops@ =~= spec_step_ops(state, input));
            }
            (Ps2State::Done, ops)
        },
        Ps2State::Done => {
            let ops: Vec<Ps2Op> = Vec::new();
            proof {
                assert(ops@ =~= spec_step_ops(state, input));
                assert(log.out@ =~= old(log).out@ + Seq::<u8>::empty());
            }
            (Ps2State::Done, ops)
        },
    }
}

/// Builds the enable-scanning operations.
fn enable_scanning_ops() -> (ops: Vec<Ps2Op>)
    ensures
        ops@ == spec_enable_scanning_ops(),
{
    let mut ops: Vec<Ps2Op> = Vec::new();
    ops.push(Ps2Op::WaitInputClear);
    ops.push(Ps2Op::WritePort(0x60, 0xf4));
    ops.push(Ps2Op::WaitOutputSet);
    ops.push(Ps2Op::ReadPort(0x60));
    proof {
        assert(ops@ =~= spec_enable_scanning_ops());
    }
    ops
}

/// The machine never leaves its final state, and a finished conversation
/// asks the driver for nothing: initialization happens once.
pub proof fn lemma_ps2_done_stays_done(input: u8)
    ensures
        spec_step_next(Ps2State::Done, input) == Ps2State::Done,
        spec_step_ops(Ps2State::Done, input) == Seq::<Ps2Op>::empty(),
        spec_step_log(Ps2State::Done, input) == Seq::<u8>::empty(),
{
}

} // verus!
