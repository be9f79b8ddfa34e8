//! The protocol of a transfer, as a state machine.
//!
//! A transfer is a frame in progress, a cursor on its next word, the synchronisation flag of
//! a slave, and the accesses made to the register block so far. Each entry point of
//! [`I2sTransfer`](crate::transfer::I2sTransfer) is one step: a function of the transfer, of
//! what the caller hands in and of what the hardware answers, to the transfer after the step
//! and what the caller gets. The functions are written here, with what they imply.

use vstd::prelude::*;
use crate::driver::ReceiveError;
use crate::registers::{
    spec_has_bits, spec_modify_bits, spec_read, spec_reset_clocks, spec_write, spec_ws_look,
    Access, Register,
};
use crate::registers::{I2SCFGR_I2SE, SR_FRE, SR_OVR, SR_RXNE, SR_TXE, SR_UDR};

verus! {

/// What one step did for the transmission.
#[derive(Debug, Clone, Copy, PartialEq, Eq, Structural)]
pub enum WriteStep {
    /// Nothing: the hardware is not ready for a word, or a slave saw the WS line at the
    /// level where it may not start.
    Idle,
    /// A word of the frame in progress was written. The frame offered was not looked at.
    Continued,
    /// The frame offered was taken, and its first word was written.
    Accepted,
    /// Nothing: the hardware is ready for the first word of a frame, and none was offered.
    /// The last frame has been written in full.
    Finished,
}

/// What a transfer is made of, besides the peripheral: the frame in progress, the cursor on
/// its next word, the synchronisation flag of a slave, and everything that was asked of the
/// register block so far.
pub struct TransferView {
    pub frame: Seq<u16>,
    pub cursor: nat,
    pub sync: bool,
    pub accesses: Seq<Access>,
}

/// What a step of a slave transmission depends on, besides the transfer and the frame
/// offered: what the hardware answers.
pub struct SlaveTransmitInputs {
    /// Whether the WS line is at the level that starts a frame, before enabling.
    pub started_before: bool,
    /// Whether the WS line is at the level that starts a frame, after enabling.
    pub started_after: bool,
    /// The status register.
    pub status: u32,
    /// The configuration register, when enabling.
    pub i2scfgr_on: u32,
    /// The configuration register, when disabling.
    pub i2scfgr_off: u32,
}

/// What a step of a master reception depends on, besides the transfer: what the hardware
/// answers.
pub struct MasterReceiveInputs {
    /// The configuration register, when enabling.
    pub i2scfgr_on: u32,
    /// The status register.
    pub status: u32,
    /// The data register.
    pub data: u32,
    /// The data register, read when an overrun is found: the word that the error carries.
    pub overrun_data: u32,
    /// The configuration register, when disabling after an overrun.
    pub i2scfgr_off: u32,
    /// The settings read before the reset of the clocks: CR2, I2SCFGR and I2SPR.
    pub settings: (u32, u32, u32),
}

/// What a step of a slave reception depends on, besides the transfer: what the hardware
/// answers.
pub struct SlaveReceiveInputs {
    /// Whether the WS line is at the level that starts a frame, before enabling.
    pub started_before: bool,
    /// Whether the WS line is at the level that starts a frame, after enabling.
    pub started_after: bool,
    /// The status register.
    pub status: u32,
    /// The data register.
    pub data: u32,
    /// The configuration register, when a poll out of synchronisation begins by disabling.
    pub i2scfgr_idle: u32,
    /// The configuration register, when enabling.
    pub i2scfgr_on: u32,
    /// The data register and the status register, read after enabling to clear old flags.
    pub flushed: (u32, u32),
    /// The configuration register, when disabling.
    pub i2scfgr_off: u32,
}

/// What one step of a reception gives.
pub enum ReadStep {
    /// No frame yet.
    Pending,
    /// A frame is complete: these are its words.
    Ready(Seq<u16>),
    /// An overrun was found, and no frame. The word is what the data register held then.
    Overrun(u16),
}

/// The cursor after the word at `cursor`, in a frame of `len` words.
pub open spec fn spec_advance(cursor: nat, len: nat) -> nat {
    if cursor + 1 >= len {
        0
    } else {
        cursor + 1
    }
}

/// A frame of silence.
pub open spec fn spec_silence(len: nat) -> Seq<u16> {
    Seq::new(len, |i: int| 0u16)
}

/// Whether a transfer holds a frame of `len` words and a cursor inside it.
pub open spec fn spec_valid(state: TransferView, len: nat) -> bool {
    state.frame.len() == len && state.cursor < len
}

/// The transfer after more accesses.
pub open spec fn spec_after(state: TransferView, accesses: Seq<Access>) -> TransferView {
    TransferView { accesses: state.accesses + accesses, ..state }
}

/// The transfer back at its start: no frame in progress, out of synchronisation.
pub open spec fn spec_restart(state: TransferView) -> TransferView {
    TransferView { frame: spec_silence(state.frame.len()), cursor: 0, sync: false, ..state }
}

/// The transfer after the peripheral was disabled and the frame in progress dropped.
pub open spec fn spec_stop(state: TransferView, i2scfgr: u32) -> TransferView {
    spec_restart(
        spec_after(state, spec_modify_bits(Register::I2scfgr, i2scfgr, I2SCFGR_I2SE, false)),
    )
}

/// The transfer of a master after the peripheral was disabled, its clocks reset and the
/// frame in progress dropped.
pub open spec fn spec_stop_master(state: TransferView, i2scfgr: u32, settings: (u32, u32, u32)) -> TransferView {
    spec_restart(
        spec_after(
            spec_after(state, spec_modify_bits(Register::I2scfgr, i2scfgr, I2SCFGR_I2SE, false)),
            spec_reset_clocks(settings.0, settings.1, settings.2),
        ),
    )
}

/// The transfer of a master after an overrun was taken: the data register is read for the
/// word that the error carries, then the transfer is stopped.
pub open spec fn spec_take_overrun(state: TransferView, hw: MasterReceiveInputs) -> TransferView {
    spec_stop_master(
        spec_after(state, spec_read(Register::Dr, hw.overrun_data)),
        hw.i2scfgr_off,
        hw.settings,
    )
}

/// One step of emission, for a transfer that may emit. When the hardware is ready for a
/// word: at the start of a frame the frame offered is taken, if there is one, and its first
/// word is written; inside a frame the word under the cursor is written. The cursor moves on
/// and comes back to 0 after the last word.
pub open spec fn spec_emit(state: TransferView, next: Option<Seq<u16>>, txe: bool) -> (
    TransferView,
    WriteStep,
) {
    if !txe {
        (state, WriteStep::Idle)
    } else if state.cursor == 0 {
        match next {
            None => (state, WriteStep::Finished),
            Some(frame) => (
                TransferView {
                    frame,
                    cursor: spec_advance(0, state.frame.len()),
                    accesses: state.accesses + spec_write(Register::Dr, frame[0] as u32),
                    ..state
                },
                WriteStep::Accepted,
            ),
        }
    } else {
        (
            TransferView {
                cursor: spec_advance(state.cursor, state.frame.len()),
                accesses: state.accesses + spec_write(
                    Register::Dr,
                    state.frame[state.cursor as int] as u32,
                ),
                ..state
            },
            WriteStep::Continued,
        )
    }
}

/// One step of reception, for a transfer that may receive. When the hardware has a word,
/// the data register is read and the word put under the cursor; the frame is complete when
/// that was its last word.
pub open spec fn spec_receive(state: TransferView, rxne: bool, data: u32) -> (
    TransferView,
    Option<Seq<u16>>,
) {
    if !rxne {
        (state, None)
    } else {
        let frame = state.frame.update(state.cursor as int, data as u16);
        (
            TransferView {
                frame,
                cursor: spec_advance(state.cursor, state.frame.len()),
                accesses: state.accesses + spec_read(Register::Dr, data),
                ..state
            },
            if state.cursor + 1 >= state.frame.len() {
                Some(frame)
            } else {
                None
            },
        )
    }
}

/// One step of a master transmission: the status register is read, then the transfer emits.
pub open spec fn spec_master_write_step(state: TransferView, next: Option<Seq<u16>>, status: u32) -> (
    TransferView,
    WriteStep,
) {
    spec_emit(
        spec_after(state, spec_read(Register::Sr, status)),
        next,
        spec_has_bits(status, SR_TXE),
    )
}

/// One step of a slave transmission. `start_level` is the level of the WS line that starts a
/// frame with the standard.
///
/// In synchronisation the status register is read and the transfer emits; then a frame error
/// or an underrun stops it, whatever it emitted.
///
/// Out of synchronisation the WS pin is looked at. Nothing more happens while it is at the
/// level that starts a frame, or when no frame is offered. Otherwise the frame offered is
/// taken, its first word is loaded, the peripheral is enabled, and the WS pin is looked at
/// again. The transfer is synchronised if the pin is still not at the starting level; if it
/// is, the peripheral is disabled again, and the next step starts over.
pub open spec fn spec_slave_write_step(
    state: TransferView,
    next: Option<Seq<u16>>,
    hw: SlaveTransmitInputs,
    start_level: bool,
) -> (TransferView, WriteStep) {
    if state.sync {
        let (emitted, step) = spec_emit(
            spec_after(state, spec_read(Register::Sr, hw.status)),
            next,
            spec_has_bits(hw.status, SR_TXE),
        );
        if spec_has_bits(hw.status, SR_FRE) || spec_has_bits(hw.status, SR_UDR) {
            (spec_stop(emitted, hw.i2scfgr_off), step)
        } else {
            (emitted, step)
        }
    } else {
        let looked = spec_after(state, spec_ws_look(start_level, hw.started_before));
        if hw.started_before {
            (looked, WriteStep::Idle)
        } else {
            match next {
                None => (looked, WriteStep::Finished),
                Some(frame) => {
                    let loaded = TransferView {
                        frame,
                        cursor: spec_advance(0, state.frame.len()),
                        accesses: looked.accesses + spec_write(Register::Dr, frame[0] as u32)
                            + spec_modify_bits(
                            Register::I2scfgr,
                            hw.i2scfgr_on,
                            I2SCFGR_I2SE,
                            true,
                        ) + spec_ws_look(start_level, hw.started_after),
                        ..state
                    };
                    if hw.started_after {
                        (
                            spec_after(
                                loaded,
                                spec_modify_bits(
                                    Register::I2scfgr,
                                    hw.i2scfgr_off,
                                    I2SCFGR_I2SE,
                                    false,
                                ),
                            ),
                            WriteStep::Accepted,
                        )
                    } else {
                        (TransferView { sync: true, ..loaded }, WriteStep::Accepted)
                    }
                },
            }
        }
    }
}

/// One step of a master reception, with the peripheral enabled: the status register is
/// read, and the transfer receives. When that completes no frame and the status shows an
/// overrun, the overrun is taken: the data register is read, the transfer is stopped and its
/// clocks are reset.
pub open spec fn spec_master_receive_step(state: TransferView, hw: MasterReceiveInputs) -> (
    TransferView,
    ReadStep,
) {
    let polled = spec_after(state, spec_read(Register::Sr, hw.status));
    let (received, frame) = spec_receive(polled, spec_has_bits(hw.status, SR_RXNE), hw.data);
    match frame {
        Some(words) => (received, ReadStep::Ready(words)),
        None => if spec_has_bits(hw.status, SR_OVR) {
            (spec_take_overrun(received, hw), ReadStep::Overrun(hw.overrun_data as u16))
        } else {
            (received, ReadStep::Pending)
        },
    }
}

/// One step of a master reception: the peripheral is enabled, then the step is that of
/// `spec_master_receive_step`.
pub open spec fn spec_master_read_step(state: TransferView, hw: MasterReceiveInputs) -> (
    TransferView,
    ReadStep,
) {
    spec_master_receive_step(
        spec_after(
            state,
            spec_modify_bits(Register::I2scfgr, hw.i2scfgr_on, I2SCFGR_I2SE, true),
        ),
        hw,
    )
}

/// One step of a slave reception. `start_level` is the level of the WS line that starts a
/// frame with the standard.
///
/// In synchronisation the status register is read and the transfer receives; then a frame
/// error or an overrun stops it. A frame completed in that step is still given.
///
/// Out of synchronisation the peripheral is disabled, the cursor goes back to 0 and the WS
/// pin is looked at. Nothing more happens while it is at the level that starts a frame.
/// Otherwise the peripheral is enabled, the data and status registers are read once to clear
/// what an earlier error left, and the WS pin is looked at again. The transfer is
/// synchronised if the pin is still not at the starting level; if it is, the peripheral is
/// disabled again. No frame is given, and the frame in progress does not change.
pub open spec fn spec_slave_read_step(
    state: TransferView,
    hw: SlaveReceiveInputs,
    start_level: bool,
) -> (TransferView, Option<Seq<u16>>) {
    if state.sync {
        let (received, frame) = spec_receive(
            spec_after(state, spec_read(Register::Sr, hw.status)),
            spec_has_bits(hw.status, SR_RXNE),
            hw.data,
        );
        if spec_has_bits(hw.status, SR_FRE) || spec_has_bits(hw.status, SR_OVR) {
            (spec_stop(received, hw.i2scfgr_off), frame)
        } else {
            (received, frame)
        }
    } else {
        let idle = TransferView {
            cursor: 0,
            accesses: state.accesses + spec_modify_bits(
                Register::I2scfgr,
                hw.i2scfgr_idle,
                I2SCFGR_I2SE,
                false,
            ) + spec_ws_look(start_level, hw.started_before),
            ..state
        };
        if hw.started_before {
            (idle, None)
        } else {
            let armed = spec_after(
                idle,
                spec_modify_bits(Register::I2scfgr, hw.i2scfgr_on, I2SCFGR_I2SE, true)
                    + spec_read(Register::Dr, hw.flushed.0) + spec_read(
                    Register::Sr,
                    hw.flushed.1,
                ) + spec_ws_look(start_level, hw.started_after),
            );
            if hw.started_after {
                (
                    spec_after(
                        armed,
                        spec_modify_bits(Register::I2scfgr, hw.i2scfgr_off, I2SCFGR_I2SE, false),
                    ),
                    None,
                )
            } else {
                (TransferView { sync: true, ..armed }, None)
            }
        }
    }
}

/// The writes of the words of a frame to the data register, in order.
pub open spec fn spec_frame_writes(frame: Seq<u16>) -> Seq<Access> {
    Seq::new(frame.len(), |i: int| Access::Write(Register::Dr, frame[i] as u32))
}

/// The reads of the data register that were answered with these values, in order.
pub open spec fn spec_frame_reads(data: Seq<u32>) -> Seq<Access> {
    Seq::new(data.len(), |i: int| Access::Read(Register::Dr, data[i]))
}

/// The words that the answers of the data register carry: their low 16 bits.
pub open spec fn spec_frame_words(data: Seq<u32>) -> Seq<u16> {
    Seq::new(data.len(), |i: int| data[i] as u16)
}

/// The transfer after `steps` emissions in a row, each with the hardware ready for a word and
/// the same frame offered.
pub open spec fn spec_emit_run(state: TransferView, next: Option<Seq<u16>>, steps: nat) -> TransferView
    decreases steps,
{
    if steps == 0 {
        state
    } else {
        spec_emit(spec_emit_run(state, next, (steps - 1) as nat), next, true).0
    }
}

/// The transfer after receptions in a row, one for each answer of the data register, and the
/// frame that the last of them completed.
pub open spec fn spec_receive_run(state: TransferView, data: Seq<u32>) -> (
    TransferView,
    Option<Seq<u16>>,
)
    decreases data.len(),
{
    if data.len() == 0 {
        (state, None)
    } else {
        spec_receive(spec_receive_run(state, data.drop_last()).0, true, data.last())
    }
}

/// An emission keeps the frame at its length and the cursor inside it.
pub proof fn lemma_emit_keeps_valid(state: TransferView, next: Option<Seq<u16>>, txe: bool, len: nat)
    requires
        spec_valid(state, len),
        next matches Some(frame) ==> frame.len() == len,
    ensures
        spec_valid(spec_emit(state, next, txe).0, len),
        spec_emit(state, next, txe).0.sync == state.sync,
{
}

/// A reception keeps the frame at its length and the cursor inside it, and the frame that
/// it completes has that length.
pub proof fn lemma_receive_keeps_valid(state: TransferView, rxne: bool, data: u32, len: nat)
    requires
        spec_valid(state, len),
    ensures
        spec_valid(spec_receive(state, rxne, data).0, len),
        spec_receive(state, rxne, data).0.sync == state.sync,
        spec_receive(state, rxne, data).1 matches Some(frame) ==> frame.len() == len,
{
}

/// Every step of a transfer keeps the frame at its length and the cursor inside it.
pub proof fn lemma_steps_keep_valid(
    state: TransferView,
    next: Option<Seq<u16>>,
    len: nat,
    status: u32,
    transmit: SlaveTransmitInputs,
    master_receive: MasterReceiveInputs,
    slave_receive: SlaveReceiveInputs,
    start_level: bool,
)
    requires
        spec_valid(state, len),
        next matches Some(frame) ==> frame.len() == len,
    ensures
        spec_valid(spec_master_write_step(state, next, status).0, len),
        spec_valid(spec_slave_write_step(state, next, transmit, start_level).0, len),
        spec_valid(spec_master_read_step(state, master_receive).0, len),
        spec_valid(spec_slave_read_step(state, slave_receive, start_level).0, len),
{
}

/// A step only adds to the accesses made so far.
pub proof fn lemma_steps_extend_accesses(
    state: TransferView,
    next: Option<Seq<u16>>,
    status: u32,
    transmit: SlaveTransmitInputs,
    master_receive: MasterReceiveInputs,
    slave_receive: SlaveReceiveInputs,
    start_level: bool,
)
    ensures
        state.accesses.is_prefix_of(spec_master_write_step(state, next, status).0.accesses),
        state.accesses.is_prefix_of(
            spec_slave_write_step(state, next, transmit, start_level).0.accesses,
        ),
        state.accesses.is_prefix_of(spec_master_read_step(state, master_receive).0.accesses),
        state.accesses.is_prefix_of(
            spec_slave_read_step(state, slave_receive, start_level).0.accesses,
        ),
{
}

/// After `steps` emissions from the start of a frame, `steps` being at most the length of
/// the frame, the frame offered at the first of them is the frame in progress, its first
/// `steps` words were written in order, and nothing else was; the cursor is on the next word,
/// or back on the first after the last.
proof fn lemma_emit_run_prefix(state: TransferView, frame: Seq<u16>, steps: nat)
    requires
        spec_valid(state, frame.len()),
        state.cursor == 0,
        1 <= steps <= frame.len(),
    ensures
        spec_emit_run(state, Some(frame), steps) == (TransferView {
            frame,
            cursor: if steps == frame.len() {
                0
            } else {
                steps
            },
            sync: state.sync,
            accesses: state.accesses + spec_frame_writes(frame).take(steps as int),
        }),
    decreases steps,
{
    let writes = spec_frame_writes(frame);
    if steps == 1 {
        assert(spec_emit_run(state, Some(frame), 0) == state);
        assert(state.accesses + spec_write(Register::Dr, frame[0] as u32) =~= state.accesses
            + writes.take(1));
    } else {
        lemma_emit_run_prefix(state, frame, (steps - 1) as nat);
        let earlier = spec_emit_run(state, Some(frame), (steps - 1) as nat);
        assert(earlier.accesses + spec_write(Register::Dr, frame[steps - 1] as u32)
            =~= state.accesses + writes.take(steps as int));
    }
}

/// A frame goes out in exactly as many emissions as it has words. From the start of a frame,
/// with a frame offered and the hardware ready each time, that many steps write the words of
/// the frame in order and bring the cursor back to the start. The next frame offered is then
/// taken whole: nothing of the frame before it stays.
pub proof fn lemma_frame_is_emitted_whole(state: TransferView, frame: Seq<u16>, after: Seq<u16>)
    requires
        spec_valid(state, frame.len()),
        state.cursor == 0,
        after.len() == frame.len(),
    ensures
        spec_emit_run(state, Some(frame), frame.len()) == (TransferView {
            frame,
            cursor: 0,
            sync: state.sync,
            accesses: state.accesses + spec_frame_writes(frame),
        }),
        spec_emit(state, Some(frame), true).1 == WriteStep::Accepted,
        forall|steps: nat|
            1 <= steps < frame.len() ==> (#[trigger] spec_emit(
                spec_emit_run(state, Some(frame), steps),
                Some(after),
                true,
            )).1 == WriteStep::Continued,
        spec_emit(spec_emit_run(state, Some(frame), frame.len()), Some(after), true).1
            == WriteStep::Accepted,
        spec_emit(spec_emit_run(state, Some(frame), frame.len()), Some(after), true).0.frame
            == after,
{
    lemma_emit_run_prefix(state, frame, frame.len());
    assert(spec_frame_writes(frame).take(frame.len() as int) =~= spec_frame_writes(frame));
    assert forall|steps: nat| 1 <= steps < frame.len() implies (#[trigger] spec_emit(
        spec_emit_run(state, Some(frame), steps),
        Some(after),
        true,
    )).1 == WriteStep::Continued by {
        lemma_emit_run_prefix(state, frame, steps);
    }
}

/// After receptions from the start of a frame, fewer than the frame has words, the first
/// words of the frame in progress are those received, no frame is complete, and the cursor
/// is on the next word.
proof fn lemma_receive_run_prefix(state: TransferView, data: Seq<u32>)
    requires
        spec_valid(state, state.frame.len()),
        state.cursor == 0,
        data.len() < state.frame.len(),
    ensures
        ({
            let (end, frame) = spec_receive_run(state, data);
            &&& frame is None
            &&& end.cursor == data.len()
            &&& end.sync == state.sync
            &&& end.frame.len() == state.frame.len()
            &&& end.frame.take(data.len() as int) == spec_frame_words(data)
            &&& end.accesses == state.accesses + spec_frame_reads(data)
        }),
    decreases data.len(),
{
    let (end, frame) = spec_receive_run(state, data);
    if data.len() == 0 {
        assert(end.frame.take(0) =~= spec_frame_words(data));
        assert(end.accesses =~= state.accesses + spec_frame_reads(data));
    } else {
        lemma_receive_run_prefix(state, data.drop_last());
        let earlier = spec_receive_run(state, data.drop_last()).0;
        assert(end.frame.take(data.len() as int) =~= spec_frame_words(data)) by {
            assert forall|i: int| 0 <= i < data.len() implies end.frame.take(
                data.len() as int,
            )[i] == spec_frame_words(data)[i] by {
                if i < data.len() - 1 {
                    assert(earlier.frame.take(data.len() - 1)[i] == spec_frame_words(
                        data.drop_last(),
                    )[i]);
                }
            }
        }
        assert(end.accesses =~= state.accesses + spec_frame_reads(data)) by {
            assert(spec_frame_reads(data) =~= spec_frame_reads(data.drop_last()) + spec_read(
                Register::Dr,
                data.last(),
            ));
        }
    }
}

/// A frame comes in in exactly as many receptions as it has words. From the start of a
/// frame, with the hardware holding a word each time, that many steps read the data register
/// once each, bring the cursor back to the start, and complete a frame made of the words
/// received and of nothing else: nothing of the frame before it stays.
pub proof fn lemma_frame_is_received_whole(state: TransferView, data: Seq<u32>)
    requires
        spec_valid(state, data.len()),
        state.cursor == 0,
    ensures
        spec_receive_run(state, data) == (
            TransferView {
                frame: spec_frame_words(data),
                cursor: 0,
                sync: state.sync,
                accesses: state.accesses + spec_frame_reads(data),
            },
            Some(spec_frame_words(data)),
        ),
        forall|received: int|
            0 <= received < data.len() ==> (#[trigger] spec_receive_run(
                state,
                data.take(received),
            )).1 is None,
{
    let len = data.len();
    lemma_receive_run_prefix(state, data.drop_last());
    let earlier = spec_receive_run(state, data.drop_last()).0;
    let (end, frame) = spec_receive_run(state, data);
    assert(end.frame =~= spec_frame_words(data)) by {
        assert forall|i: int| 0 <= i < len implies end.frame[i] == spec_frame_words(data)[i] by {
            if i < len - 1 {
                assert(earlier.frame.take(len - 1)[i] == spec_frame_words(data.drop_last())[i]);
            }
        }
    }
    assert(end.accesses =~= state.accesses + spec_frame_reads(data)) by {
        assert(spec_frame_reads(data) =~= spec_frame_reads(data.drop_last()) + spec_read(
            Register::Dr,
            data.last(),
        ));
    }
    assert forall|received: int| 0 <= received < data.len() implies (
    #[trigger] spec_receive_run(state, data.take(received))).1 is None by {
        lemma_receive_run_prefix(state, data.take(received));
    }
}

/// Out of synchronisation, a slave that transmits first looks at the WS pin, and writes no
/// word of a frame in progress. While the pin is at the level that starts a frame, or when
/// no frame is offered, it does nothing more. Otherwise it loads the first word of the frame
/// offered, enables the peripheral and looks at the pin again, in that order. It becomes
/// synchronised in a step if and only if a frame is offered and the pin answers that it is
/// away from the starting level both before and after the peripheral is enabled; if the
/// second answer is that it is at the starting level, the peripheral is disabled again.
pub proof fn lemma_slave_transmit_synchronises(
    state: TransferView,
    next: Option<Seq<u16>>,
    hw: SlaveTransmitInputs,
    start_level: bool,
)
    requires
        !state.sync,
        spec_valid(state, state.frame.len()),
        next matches Some(frame) ==> frame.len() == state.frame.len(),
    ensures
        ({
            let (end, step) = spec_slave_write_step(state, next, hw, start_level);
            let first = spec_ws_look(start_level, hw.started_before);
            let loading = spec_write(Register::Dr, next->0[0] as u32) + spec_modify_bits(
                Register::I2scfgr,
                hw.i2scfgr_on,
                I2SCFGR_I2SE,
                true,
            ) + spec_ws_look(start_level, hw.started_after);
            &&& step != WriteStep::Continued
            &&& end.sync <==> next is Some && !hw.started_before && !hw.started_after
            &&& hw.started_before || next is None ==> end == spec_after(state, first)
            &&& !hw.started_before && next is Some ==> {
                &&& step == WriteStep::Accepted
                &&& end.frame == next->0
                &&& end.cursor == spec_advance(0, state.frame.len())
                &&& end.accesses == state.accesses + first + loading + if hw.started_after {
                    spec_modify_bits(Register::I2scfgr, hw.i2scfgr_off, I2SCFGR_I2SE, false)
                } else {
                    Seq::<Access>::empty()
                }
            }
        }),
{
    let (end, step) = spec_slave_write_step(state, next, hw, start_level);
    if !hw.started_before && next is Some {
        let first = spec_ws_look(start_level, hw.started_before);
        let loading = spec_write(Register::Dr, next->0[0] as u32) + spec_modify_bits(
            Register::I2scfgr,
            hw.i2scfgr_on,
            I2SCFGR_I2SE,
            true,
        ) + spec_ws_look(start_level, hw.started_after);
        assert(end.accesses =~= state.accesses + first + loading + if hw.started_after {
            spec_modify_bits(Register::I2scfgr, hw.i2scfgr_off, I2SCFGR_I2SE, false)
        } else {
            Seq::<Access>::empty()
        });
    }
}

/// Out of synchronisation, a slave that receives gives no frame and takes no word: the frame
/// in progress does not change and the cursor is at the start. It disables the peripheral
/// and looks at the WS pin; where the pin is away from the level that starts a frame it
/// enables the peripheral and looks again. It becomes synchronised in a step if and only if
/// the pin answers that it is away from the starting level both times.
pub proof fn lemma_slave_receive_synchronises(
    state: TransferView,
    hw: SlaveReceiveInputs,
    start_level: bool,
)
    requires
        !state.sync,
    ensures
        ({
            let (end, frame) = spec_slave_read_step(state, hw, start_level);
            &&& frame is None
            &&& end.frame == state.frame
            &&& end.cursor == 0
            &&& end.sync <==> !hw.started_before && !hw.started_after
            &&& (state.accesses + spec_modify_bits(
                Register::I2scfgr,
                hw.i2scfgr_idle,
                I2SCFGR_I2SE,
                false,
            ) + spec_ws_look(start_level, hw.started_before)).is_prefix_of(end.accesses)
            &&& end.sync ==> spec_ws_look(start_level, hw.started_after).is_suffix_of(
                end.accesses,
            )
        }),
{
    let end = spec_slave_read_step(state, hw, start_level).0;
    let idle = state.accesses + spec_modify_bits(
        Register::I2scfgr,
        hw.i2scfgr_idle,
        I2SCFGR_I2SE,
        false,
    ) + spec_ws_look(start_level, hw.started_before);
    if end.sync {
        let before = idle + (spec_modify_bits(
            Register::I2scfgr,
            hw.i2scfgr_on,
            I2SCFGR_I2SE,
            true,
        ) + spec_read(Register::Dr, hw.flushed.0) + spec_read(Register::Sr, hw.flushed.1));
        lemma_suffix(before, spec_ws_look(start_level, hw.started_after));
        assert(end.accesses =~= before + spec_ws_look(start_level, hw.started_after));
    }
}

/// In synchronisation, a frame error stops a slave, and so does an underrun when it
/// transmits and an overrun when it receives: the peripheral is disabled last, the transfer
/// is out of synchronisation and no frame is in progress. Without those flags the slave stays
/// synchronised. In synchronisation the WS pin is not looked at.
pub proof fn lemma_slave_errors_resynchronise(
    state: TransferView,
    next: Option<Seq<u16>>,
    transmit: SlaveTransmitInputs,
    receive: SlaveReceiveInputs,
    start_level: bool,
)
    requires
        state.sync,
        spec_valid(state, state.frame.len()),
        next matches Some(frame) ==> frame.len() == state.frame.len(),
    ensures
        ({
            let end = spec_slave_write_step(state, next, transmit, start_level).0;
            let failed = spec_has_bits(transmit.status, SR_FRE) || spec_has_bits(
                transmit.status,
                SR_UDR,
            );
            &&& end.sync == !failed
            &&& failed ==> end.cursor == 0 && end.frame == spec_silence(state.frame.len())
                && (spec_modify_bits(
                Register::I2scfgr,
                transmit.i2scfgr_off,
                I2SCFGR_I2SE,
                false,
            )).is_suffix_of(end.accesses)
        }),
        ({
            let end = spec_slave_read_step(state, receive, start_level).0;
            let failed = spec_has_bits(receive.status, SR_FRE) || spec_has_bits(
                receive.status,
                SR_OVR,
            );
            &&& end.sync == !failed
            &&& failed ==> end.cursor == 0 && end.frame == spec_silence(state.frame.len())
                && (spec_modify_bits(
                Register::I2scfgr,
                receive.i2scfgr_off,
                I2SCFGR_I2SE,
                false,
            )).is_suffix_of(end.accesses)
        }),
{
    let disabling = spec_modify_bits(
        Register::I2scfgr,
        transmit.i2scfgr_off,
        I2SCFGR_I2SE,
        false,
    );
    let emitted = spec_emit(
        spec_after(state, spec_read(Register::Sr, transmit.status)),
        next,
        spec_has_bits(transmit.status, SR_TXE),
    ).0;
    lemma_suffix(emitted.accesses, disabling);
    let disabling_rx = spec_modify_bits(
        Register::I2scfgr,
        receive.i2scfgr_off,
        I2SCFGR_I2SE,
        false,
    );
    let received = spec_receive(
        spec_after(state, spec_read(Register::Sr, receive.status)),
        spec_has_bits(receive.status, SR_RXNE),
        receive.data,
    ).0;
    lemma_suffix(received.accesses, disabling_rx);
}

proof fn lemma_suffix(before: Seq<Access>, more: Seq<Access>)
    ensures
        more.is_suffix_of(before + more),
{
    assert((before + more).skip((before + more).len() - more.len()) =~= more);
}

/// The accesses that take an overrun: the data register is read, the peripheral is
/// disabled, and the clocks are reset.
pub open spec fn spec_overrun_accesses(hw: MasterReceiveInputs) -> Seq<Access> {
    spec_read(Register::Dr, hw.overrun_data) + spec_modify_bits(
        Register::I2scfgr,
        hw.i2scfgr_off,
        I2SCFGR_I2SE,
        false,
    ) + spec_reset_clocks(hw.settings.0, hw.settings.1, hw.settings.2)
}

/// A master that receives answers with an overrun exactly when the status register shows
/// one in a step that completes no frame. The error carries the word that the data register
/// held. The transfer is then disabled, its clocks are reset, those being its last accesses,
/// and it is back at its start: out of synchronisation, no frame in progress, the cursor on
/// the first word.
pub proof fn lemma_master_overrun_is_fatal(state: TransferView, hw: MasterReceiveInputs)
    requires
        spec_valid(state, state.frame.len()),
    ensures
        ({
            let (end, step) = spec_master_read_step(state, hw);
            let completes = spec_has_bits(hw.status, SR_RXNE) && state.cursor + 1
                == state.frame.len();
            &&& step is Overrun <==> spec_has_bits(hw.status, SR_OVR) && !completes
            &&& step is Ready <==> completes
            &&& step is Overrun ==> {
                &&& step == ReadStep::Overrun(hw.overrun_data as u16)
                &&& end.cursor == 0
                &&& !end.sync
                &&& end.frame == spec_silence(state.frame.len())
                &&& spec_overrun_accesses(hw).is_suffix_of(end.accesses)
            }
        }),
{
    let polled = spec_after(
        spec_after(
            state,
            spec_modify_bits(Register::I2scfgr, hw.i2scfgr_on, I2SCFGR_I2SE, true),
        ),
        spec_read(Register::Sr, hw.status),
    );
    let received = spec_receive(polled, spec_has_bits(hw.status, SR_RXNE), hw.data).0;
    lemma_suffix(received.accesses, spec_overrun_accesses(hw));
    assert(spec_take_overrun(received, hw).accesses =~= received.accesses
        + spec_overrun_accesses(hw));
}

/// The frame that a transmission offers after `taken` of its frames were taken.
pub open spec fn spec_next_frame(frames: Seq<Seq<u16>>, taken: nat) -> Option<Seq<u16>> {
    if taken < frames.len() {
        Some(frames[taken as int])
    } else {
        None
    }
}

/// Steps of a master transmission in a row, one for each answer of the status register,
/// each offering the first frame that was not taken yet. Gives the transfer after the last
/// step, the number of frames taken, and what the last step did.
pub open spec fn spec_master_write_run(
    state: TransferView,
    frames: Seq<Seq<u16>>,
    statuses: Seq<u32>,
) -> (TransferView, nat, WriteStep)
    decreases statuses.len(),
{
    if statuses.len() == 0 {
        (state, 0, WriteStep::Idle)
    } else {
        let (before, taken, _) = spec_master_write_run(state, frames, statuses.drop_last());
        let (after, step) = spec_master_write_step(
            before,
            spec_next_frame(frames, taken),
            statuses.last(),
        );
        (
            after,
            if step == WriteStep::Accepted {
                taken + 1
            } else {
                taken
            },
            step,
        )
    }
}

/// What a blocking transmission of a master comes to: the steps that it took are those of
/// `spec_master_write_run`, one for each of `statuses` and `max_polls` of them at most. It
/// went on while there was something left to do, and stopped before that only when it had
/// used all its polls. The result is the number of frames taken, and whether nothing is
/// left to do.
pub open spec fn spec_master_write_stops(
    start: TransferView,
    frames: Seq<Seq<u16>>,
    statuses: Seq<u32>,
    max_polls: u32,
    end: TransferView,
    result: (usize, bool),
) -> bool {
    let run = spec_master_write_run(start, frames, statuses);
    &&& statuses.len() <= max_polls
    &&& forall|steps: int|
        0 <= steps < statuses.len() ==> (#[trigger] spec_master_write_run(
            start,
            frames,
            statuses.take(steps),
        )).2 != WriteStep::Finished
    &&& end == run.0
    &&& result.0 == run.1
    &&& result.1 == (run.2 == WriteStep::Finished)
    &&& !result.1 ==> statuses.len() == max_polls
}


/// Steps of a slave transmission in a row, one for each of `inputs`, each offering the first
/// frame that was not taken yet. Gives the transfer after the last step, the number of
/// frames taken, and what the last step did.
pub open spec fn spec_slave_write_run(
    state: TransferView,
    frames: Seq<Seq<u16>>,
    inputs: Seq<SlaveTransmitInputs>,
    start_level: bool,
) -> (TransferView, nat, WriteStep)
    decreases inputs.len(),
{
    if inputs.len() == 0 {
        (state, 0, WriteStep::Idle)
    } else {
        let (before, taken, _) = spec_slave_write_run(
            state,
            frames,
            inputs.drop_last(),
            start_level,
        );
        let (after, step) = spec_slave_write_step(
            before,
            spec_next_frame(frames, taken),
            inputs.last(),
            start_level,
        );
        (
            after,
            if step == WriteStep::Accepted {
                taken + 1
            } else {
                taken
            },
            step,
        )
    }
}

/// What a blocking transmission of a slave comes to: the steps that it took are those of
/// `spec_slave_write_run`, one for each of `inputs` and `max_polls` of them at most. It went
/// on while there was something left to do, and stopped before that only when it had used
/// all its polls. The result is the number of frames taken, and whether nothing is left to
/// do.
pub open spec fn spec_slave_write_stops(
    start: TransferView,
    frames: Seq<Seq<u16>>,
    inputs: Seq<SlaveTransmitInputs>,
    start_level: bool,
    max_polls: u32,
    end: TransferView,
    result: (usize, bool),
) -> bool {
    let run = spec_slave_write_run(start, frames, inputs, start_level);
    &&& inputs.len() <= max_polls
    &&& forall|steps: int|
        0 <= steps < inputs.len() ==> (#[trigger] spec_slave_write_run(
            start,
            frames,
            inputs.take(steps),
            start_level,
        )).2 != WriteStep::Finished
    &&& end == run.0
    &&& result.0 == run.1
    &&& result.1 == (run.2 == WriteStep::Finished)
    &&& !result.1 ==> inputs.len() == max_polls
}

/// Why a blocking reception ended.
pub enum ReadEnd {
    /// The predicate answered `false` to a frame.
    Stopped,
    /// A master found an overrun. The word is what the data register held then.
    Overrun(u16),
}

/// One step of a blocking reception of a master, with the peripheral enabled: the step of
/// `spec_master_receive_step`, with `answer` the answer of the predicate to the frame that
/// the step gives, if it gives one. Gives the transfer after the step, what the step gave,
/// and why the reception ends with it, if it does.
///
/// A frame goes to the predicate first. Where the predicate says to go on and the status
/// that came with the last word of the frame shows an overrun, the overrun is taken then,
/// as on any other poll: the reception ends with it.
pub open spec fn spec_master_read_while_step(
    state: TransferView,
    hw: MasterReceiveInputs,
    answer: bool,
) -> (TransferView, ReadStep, Option<ReadEnd>) {
    let (received, step) = spec_master_receive_step(state, hw);
    match step {
        ReadStep::Pending => (received, step, None),
        ReadStep::Overrun(word) => (received, step, Some(ReadEnd::Overrun(word))),
        ReadStep::Ready(_) => if !answer {
            (received, step, Some(ReadEnd::Stopped))
        } else if spec_has_bits(hw.status, SR_OVR) {
            (
                spec_take_overrun(received, hw),
                step,
                Some(ReadEnd::Overrun(hw.overrun_data as u16)),
            )
        } else {
            (received, step, None)
        },
    }
}

/// Steps of a blocking reception of a master in a row, one for each of `inputs`, with the
/// answers of the predicate.
pub open spec fn spec_master_read_run(
    state: TransferView,
    inputs: Seq<MasterReceiveInputs>,
    answers: Seq<bool>,
) -> (TransferView, ReadStep, Option<ReadEnd>)
    recommends
        answers.len() == inputs.len(),
    decreases inputs.len(),
{
    if inputs.len() == 0 {
        (state, ReadStep::Pending, None)
    } else {
        spec_master_read_while_step(
            spec_master_read_run(state, inputs.drop_last(), answers.drop_last()).0,
            inputs.last(),
            answers.last(),
        )
    }
}

/// Steps of a slave reception in a row, one for each of `inputs`. Gives the transfer after
/// the last step and the frame that the last step gave.
pub open spec fn spec_slave_read_run(
    state: TransferView,
    inputs: Seq<SlaveReceiveInputs>,
    start_level: bool,
) -> (TransferView, Option<Seq<u16>>)
    decreases inputs.len(),
{
    if inputs.len() == 0 {
        (state, None)
    } else {
        spec_slave_read_step(
            spec_slave_read_run(state, inputs.drop_last(), start_level).0,
            inputs.last(),
            start_level,
        )
    }
}

/// What a blocking reception of a master comes to: the steps that it took are those of
/// `spec_master_read_run`, one for each of `inputs` and `max_polls` of them at most.
/// `answers` holds what the predicate answered to the frame of each step that gave one. No
/// step but the last ended the reception. The result is the overrun, if the last step found
/// one; otherwise whether the predicate ended the reception, which not having done it used
/// all its polls.
pub open spec fn spec_master_read_stops(
    start: TransferView,
    inputs: Seq<MasterReceiveInputs>,
    answers: Seq<bool>,
    max_polls: u32,
    end: TransferView,
    result: Result<bool, ReceiveError>,
) -> bool {
    &&& inputs.len() <= max_polls
    &&& answers.len() == inputs.len()
    &&& end == spec_master_read_run(start, inputs, answers).0
    &&& forall|steps: int|
        0 <= steps < inputs.len() ==> (#[trigger] spec_master_read_run(
            start,
            inputs.take(steps),
            answers.take(steps),
        )).2 is None
    &&& match spec_master_read_run(start, inputs, answers).2 {
        Some(ReadEnd::Stopped) => result == Ok::<bool, ReceiveError>(true),
        Some(ReadEnd::Overrun(word)) => result == Err::<bool, ReceiveError>(
            ReceiveError::Overrun(word),
        ),
        None => result == Ok::<bool, ReceiveError>(false) && inputs.len() == max_polls,
    }
}

/// What a blocking reception of a slave comes to: the steps that it took are those of
/// `spec_slave_read_run`, one for each of `inputs` and `max_polls` of them at most. `answers`
/// holds what the predicate answered to the frame of each step that gave one. The reception
/// went on while the predicate answered `true`, and stopped before that only when it had
/// used all its polls. The result is whether the predicate ended the reception.
pub open spec fn spec_slave_read_stops(
    start: TransferView,
    inputs: Seq<SlaveReceiveInputs>,
    answers: Seq<bool>,
    start_level: bool,
    max_polls: u32,
    end: TransferView,
    stopped: bool,
) -> bool {
    let last = spec_slave_read_run(start, inputs, start_level).1;
    &&& inputs.len() <= max_polls
    &&& answers.len() == inputs.len()
    &&& end == spec_slave_read_run(start, inputs, start_level).0
    &&& forall|steps: int|
        0 <= steps < inputs.len() ==> ((#[trigger] spec_slave_read_run(
            start,
            inputs.take(steps),
            start_level,
        )).1 is Some ==> answers[steps - 1])
    &&& if stopped {
        inputs.len() > 0 && last is Some && !answers.last()
    } else {
        inputs.len() == max_polls && (last is Some ==> inputs.len() > 0 && answers.last())
    }
}

/// A blocking reception of a master never passes an overrun by: whenever the status
/// register shows one, the reception ends in that step, with the overrun unless the
/// predicate stops it on the frame that the step gives. After an overrun the transfer is
/// disabled, its clocks are reset, those being its last accesses, and it is back at its
/// start.
pub proof fn lemma_blocking_overrun_is_fatal(
    state: TransferView,
    hw: MasterReceiveInputs,
    answer: bool,
)
    requires
        spec_valid(state, state.frame.len()),
    ensures
        ({
            let (end, step, ends) = spec_master_read_while_step(state, hw, answer);
            &&& spec_has_bits(hw.status, SR_OVR) ==> ends is Some
            &&& spec_has_bits(hw.status, SR_OVR) && (step is Ready ==> answer) ==> ends == Some(
                ReadEnd::Overrun(hw.overrun_data as u16),
            )
            &&& ends matches Some(ReadEnd::Overrun(_)) ==> {
                &&& spec_has_bits(hw.status, SR_OVR)
                &&& end.cursor == 0
                &&& !end.sync
                &&& end.frame == spec_silence(state.frame.len())
                &&& spec_overrun_accesses(hw).is_suffix_of(end.accesses)
            }
        }),
{
    let polled = spec_after(state, spec_read(Register::Sr, hw.status));
    let received = spec_receive(polled, spec_has_bits(hw.status, SR_RXNE), hw.data).0;
    lemma_suffix(received.accesses, spec_overrun_accesses(hw));
    assert(spec_take_overrun(received, hw).accesses =~= received.accesses
        + spec_overrun_accesses(hw));
}

/// Steps of a transmission in a row take the frames in order, one per step at most and none
/// past the last, and keep the frame at its length and the cursor inside it.
pub proof fn lemma_write_runs_take_frames_in_order(
    state: TransferView,
    frames: Seq<Seq<u16>>,
    len: nat,
    statuses: Seq<u32>,
    inputs: Seq<SlaveTransmitInputs>,
    start_level: bool,
)
    requires
        spec_valid(state, len),
        forall|i: int| 0 <= i < frames.len() ==> (#[trigger] frames[i]).len() == len,
    ensures
        spec_master_write_run(state, frames, statuses).1 <= frames.len(),
        spec_master_write_run(state, frames, statuses).1 <= statuses.len(),
        spec_valid(spec_master_write_run(state, frames, statuses).0, len),
        spec_slave_write_run(state, frames, inputs, start_level).1 <= frames.len(),
        spec_slave_write_run(state, frames, inputs, start_level).1 <= inputs.len(),
        spec_valid(spec_slave_write_run(state, frames, inputs, start_level).0, len),
    decreases statuses.len() + inputs.len(),
{
    if statuses.len() > 0 {
        lemma_write_runs_take_frames_in_order(
            state,
            frames,
            len,
            statuses.drop_last(),
            Seq::empty(),
            start_level,
        );
    }
    if inputs.len() > 0 {
        lemma_write_runs_take_frames_in_order(
            state,
            frames,
            len,
            Seq::empty(),
            inputs.drop_last(),
            start_level,
        );
    }
}

/// Steps of a reception in a row keep the frame at its length and the cursor inside it, and
/// every frame that they give has that length.
pub proof fn lemma_read_runs_keep_valid(
    state: TransferView,
    len: nat,
    master: Seq<MasterReceiveInputs>,
    answers: Seq<bool>,
    slave: Seq<SlaveReceiveInputs>,
    start_level: bool,
)
    requires
        spec_valid(state, len),
        answers.len() == master.len(),
    ensures
        spec_valid(spec_master_read_run(state, master, answers).0, len),
        spec_master_read_run(state, master, answers).1 matches ReadStep::Ready(frame)
            ==> frame.len() == len,
        spec_valid(spec_slave_read_run(state, slave, start_level).0, len),
        spec_slave_read_run(state, slave, start_level).1 matches Some(frame) ==> frame.len()
            == len,
    decreases master.len() + slave.len(),
{
    if master.len() > 0 {
        lemma_read_runs_keep_valid(
            state,
            len,
            master.drop_last(),
            answers.drop_last(),
            Seq::empty(),
            start_level,
        );
    }
    if slave.len() > 0 {
        lemma_read_runs_keep_valid(
            state,
            len,
            Seq::empty(),
            Seq::empty(),
            slave.drop_last(),
            start_level,
        );
    }
}


/// Calls of `write` of a master in a row, one for each of `hw`, which holds what the
/// configuration register and the status register answered in each call; `offered` holds the
/// frame handed to each call. Gives the transfer after the last call and what it did.
pub open spec fn spec_master_write_calls(
    state: TransferView,
    offered: Seq<Seq<u16>>,
    hw: Seq<(u32, u32)>,
) -> (TransferView, WriteStep)
    recommends
        offered.len() == hw.len(),
    decreases hw.len(),
{
    if hw.len() == 0 {
        (state, WriteStep::Idle)
    } else {
        spec_master_write_step(
            spec_after(
                spec_master_write_calls(state, offered.drop_last(), hw.drop_last()).0,
                spec_modify_bits(Register::I2scfgr, hw.last().0, I2SCFGR_I2SE, true),
            ),
            Some(offered.last()),
            hw.last().1,
        )
    }
}

/// The accesses of calls of `write` of a master that each write a word of `frame`: in each
/// call the peripheral is enabled, the status register is read and the next word is written.
pub open spec fn spec_frame_write_calls(frame: Seq<u16>, hw: Seq<(u32, u32)>) -> Seq<Access>
    decreases hw.len(),
{
    if hw.len() == 0 {
        Seq::<Access>::empty()
    } else {
        spec_frame_write_calls(frame, hw.drop_last()) + spec_modify_bits(
            Register::I2scfgr,
            hw.last().0,
            I2SCFGR_I2SE,
            true,
        ) + spec_read(Register::Sr, hw.last().1) + spec_write(
            Register::Dr,
            frame[hw.len() - 1] as u32,
        )
    }
}

/// A frame goes out in exactly as many calls of `write` of a master as it has words, when
/// the status register shows room in each call. From the start of a frame, the first call
/// takes the frame handed to it; the calls after it write its other words in order and take
/// no frame, whatever is handed to them; and after as many calls as the frame has words the
/// cursor is back at the start, so that the next call takes a new frame whole.
pub proof fn lemma_frame_takes_its_length_in_writes(
    state: TransferView,
    offered: Seq<Seq<u16>>,
    hw: Seq<(u32, u32)>,
)
    requires
        spec_valid(state, state.frame.len()),
        state.cursor == 0,
        1 <= hw.len() <= state.frame.len(),
        offered.len() == hw.len(),
        forall|k: int| 0 <= k < offered.len() ==> (#[trigger] offered[k]).len() == state.frame.len(),
        forall|k: int| 0 <= k < hw.len() ==> spec_has_bits((#[trigger] hw[k]).1, SR_TXE),
    ensures
        spec_master_write_calls(state, offered, hw) == (
            TransferView {
                frame: offered[0],
                cursor: if hw.len() == state.frame.len() {
                    0
                } else {
                    hw.len()
                },
                sync: state.sync,
                accesses: state.accesses + spec_frame_write_calls(offered[0], hw),
            },
            if hw.len() == 1 {
                WriteStep::Accepted
            } else {
                WriteStep::Continued
            },
        ),
    decreases hw.len(),
{
    let enabling = spec_modify_bits(Register::I2scfgr, hw.last().0, I2SCFGR_I2SE, true);
    let polling = spec_read(Register::Sr, hw.last().1);
    if hw.len() == 1 {
        assert(offered.drop_last().len() == 0 && hw.drop_last().len() == 0);
        assert(spec_master_write_calls(state, offered.drop_last(), hw.drop_last()).0 == state);
        assert(offered.last() == offered[0]);
        assert(spec_frame_write_calls(offered[0], hw.drop_last()) =~= Seq::<Access>::empty());
        assert(state.accesses + enabling + polling + spec_write(
            Register::Dr,
            offered[0][0] as u32,
        ) =~= state.accesses + spec_frame_write_calls(offered[0], hw));
    } else {
        let fewer = hw.drop_last();
        let earlier = offered.drop_last();
        assert(earlier[0] == offered[0]);
        assert forall|k: int| 0 <= k < earlier.len() implies (#[trigger] earlier[k]).len()
            == state.frame.len() by {
            assert(earlier[k] == offered[k]);
        }
        assert forall|k: int| 0 <= k < fewer.len() implies spec_has_bits(
            (#[trigger] fewer[k]).1,
            SR_TXE,
        ) by {
            assert(fewer[k] == hw[k]);
        }
        lemma_frame_takes_its_length_in_writes(state, earlier, fewer);
        let before = spec_master_write_calls(state, earlier, fewer).0;
        assert(before.accesses + enabling + polling + spec_write(
            Register::Dr,
            offered[0][hw.len() - 1] as u32,
        ) =~= state.accesses + spec_frame_write_calls(offered[0], hw));
    }
}

/// Calls of `read` of a master in a row, one for each of `hw`. Gives the transfer after the
/// last call and what it gave.
pub open spec fn spec_master_read_calls(state: TransferView, hw: Seq<MasterReceiveInputs>) -> (
    TransferView,
    ReadStep,
)
    decreases hw.len(),
{
    if hw.len() == 0 {
        (state, ReadStep::Pending)
    } else {
        spec_master_read_step(spec_master_read_calls(state, hw.drop_last()).0, hw.last())
    }
}

/// The accesses of calls of `read` of a master that each read a word: in each call the
/// peripheral is enabled, the status register is read and the data register is read.
pub open spec fn spec_frame_read_calls(hw: Seq<MasterReceiveInputs>) -> Seq<Access>
    decreases hw.len(),
{
    if hw.len() == 0 {
        Seq::<Access>::empty()
    } else {
        spec_frame_read_calls(hw.drop_last()) + spec_modify_bits(
            Register::I2scfgr,
            hw.last().i2scfgr_on,
            I2SCFGR_I2SE,
            true,
        ) + spec_read(Register::Sr, hw.last().status) + spec_read(Register::Dr, hw.last().data)
    }
}

/// The words that calls of `read` of a master took from the data register: the low 16 bits
/// of what it answered in each call.
pub open spec fn spec_words_read(hw: Seq<MasterReceiveInputs>) -> Seq<u16> {
    Seq::new(hw.len(), |k: int| hw[k].data as u16)
}

/// A frame comes in in exactly as many calls of `read` of a master as it has words, when the
/// status register shows a word and no overrun in each call. From the start of a frame, the
/// calls before the last give nothing; the last gives a frame made of the words read in
/// these calls, in order, and of nothing else; and the cursor is back at the start, so that
/// the same holds of the calls that follow: the next frame holds no word of this one.
pub proof fn lemma_frame_takes_its_length_in_reads(state: TransferView, hw: Seq<MasterReceiveInputs>)
    requires
        spec_valid(state, state.frame.len()),
        state.cursor == 0,
        1 <= hw.len() <= state.frame.len(),
        forall|k: int|
            0 <= k < hw.len() ==> spec_has_bits((#[trigger] hw[k]).status, SR_RXNE)
                && !spec_has_bits(hw[k].status, SR_OVR),
    ensures
        ({
            let (end, step) = spec_master_read_calls(state, hw);
            &&& end.cursor == if hw.len() == state.frame.len() {
                0
            } else {
                hw.len()
            }
            &&& end.sync == state.sync
            &&& end.frame.len() == state.frame.len()
            &&& end.frame.take(hw.len() as int) == spec_words_read(hw)
            &&& end.accesses == state.accesses + spec_frame_read_calls(hw)
            &&& step == if hw.len() == state.frame.len() {
                ReadStep::Ready(spec_words_read(hw))
            } else {
                ReadStep::Pending
            }
        }),
    decreases hw.len(),
{
    let (end, step) = spec_master_read_calls(state, hw);
    let fewer = hw.drop_last();
    let last = hw.last();
    let enabling = spec_modify_bits(Register::I2scfgr, last.i2scfgr_on, I2SCFGR_I2SE, true);
    let before = spec_master_read_calls(state, fewer).0;
    if hw.len() == 1 {
        assert(fewer.len() == 0);
        assert(before == state);
        assert(spec_frame_read_calls(fewer) =~= Seq::<Access>::empty());
    } else {
        assert forall|k: int| 0 <= k < fewer.len() implies spec_has_bits(
            (#[trigger] fewer[k]).status,
            SR_RXNE,
        ) && !spec_has_bits(fewer[k].status, SR_OVR) by {
            assert(fewer[k] == hw[k]);
        }
        lemma_frame_takes_its_length_in_reads(state, fewer);
    }
    assert(before.cursor == hw.len() - 1);
    assert(before.frame.take(hw.len() - 1) == spec_words_read(fewer));
    assert(end.frame.take(hw.len() as int) =~= spec_words_read(hw)) by {
        assert forall|k: int| 0 <= k < hw.len() implies end.frame.take(hw.len() as int)[k]
            == spec_words_read(hw)[k] by {
            if k < hw.len() - 1 {
                assert(before.frame.take(hw.len() - 1)[k] == spec_words_read(fewer)[k]);
                assert(fewer[k] == hw[k]);
            }
        }
    }
    assert(end.accesses =~= state.accesses + spec_frame_read_calls(hw));
    if hw.len() == state.frame.len() {
        assert(end.frame.take(hw.len() as int) =~= end.frame);
    }
}

} // verus!
