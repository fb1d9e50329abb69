//! The in-memory mirror of the driver's RS485 control block: flag bitmask,
//! the two delays, and the reserved words, with typed accessors.

use vstd::prelude::*;

verus! {

/// The flag bitmask of the control block.
///
/// Only the four recognized bits can be named through the setters on
/// [`SerialRs485`]; bits the driver reported that this crate does not know
/// are kept in `bits` untouched, so a later store hands them back unchanged.
#[derive(Copy, Clone, Debug)]
pub struct Rs485Flags {
    pub bits: u32,
}

impl Rs485Flags {
    /// Line-driver control is active; while clear the driver ignores the rest.
    pub const SER_RS485_ENABLED: u32 = 0x01;

    /// The drive-enable signal is asserted while transmitting.
    pub const SER_RS485_RTS_ON_SEND: u32 = 0x02;

    /// The drive-enable signal stays asserted after a transmission ends.
    pub const SER_RS485_RTS_AFTER_SEND: u32 = 0x04;

    /// Reception stays enabled while transmitting.
    pub const SER_RS485_RX_DURING_TX: u32 = 0x10;
}

/// A bitmask with `mask` forced on (`on == true`) or off (`on == false`) and
/// every other bit as it was.
pub open spec fn flag_set(bits: u32, mask: u32, on: bool) -> u32 {
    if on {
        bits | mask
    } else {
        bits & !mask
    }
}

/// RS485 serial configuration: one value of the driver's 32-byte control
/// block, held field by field.
#[derive(Copy, Clone, Debug)]
#[verifier::ext_equal]
pub struct SerialRs485 {
    /// The flag bitmask, at offset 0 of the block.
    pub flags: Rs485Flags,
    /// Milliseconds the drive-enable signal is held before a transmission.
    pub delay_rts_before_send: u32,
    /// Milliseconds the drive-enable signal is held after a transmission.
    pub delay_rts_after_send: u32,
    /// The reserved words at the end of the block. Never interpreted here:
    /// zeroed on fresh construction and carried through otherwise, so that a
    /// loaded block round-trips byte for byte.
    pub padding: [u32; 5],
}

impl SerialRs485 {
    /// Whether the flag bit(s) in `mask` are set.
    pub open spec fn spec_flag(self, mask: u32) -> bool {
        self.flags.bits & mask != 0
    }

    /// This configuration with the flag bit(s) in `mask` forced to `on` and
    /// everything else unchanged.
    pub open spec fn spec_with_flag(self, mask: u32, on: bool) -> SerialRs485 {
        SerialRs485 {
            flags: Rs485Flags { bits: flag_set(self.flags.bits, mask, on) },
            delay_rts_before_send: self.delay_rts_before_send,
            delay_rts_after_send: self.delay_rts_after_send,
            padding: self.padding,
        }
    }

    /// Create a new, empty set of serial settings.
    ///
    /// All flags default to "off", both delays to 0 ms, and the reserved
    /// words are zero-filled.
    pub fn new() -> (r: SerialRs485)
        ensures
            r.flags.bits == 0,
            r.delay_rts_before_send == 0,
            r.delay_rts_after_send == 0,
            forall|i: int| 0 <= i < 5 ==> r.padding@[i] == 0,
    {
        SerialRs485 {
            flags: Rs485Flags { bits: 0 },
            delay_rts_before_send: 0,
            delay_rts_after_send: 0,
            padding: [0u32; 5],
        }
    }

    /// The minimal usable half-duplex profile: ENABLED set, every other
    /// flag clear, both delays 0 ms.
    pub fn default() -> (r: SerialRs485)
        ensures
            r.flags.bits == Rs485Flags::SER_RS485_ENABLED,
            r.delay_rts_before_send == 0,
            r.delay_rts_after_send == 0,
            forall|i: int| 0 <= i < 5 ==> r.padding@[i] == 0,
    {
        SerialRs485 {
            flags: Rs485Flags { bits: Rs485Flags::SER_RS485_ENABLED },
            delay_rts_before_send: 0,
            delay_rts_after_send: 0,
            padding: [0u32; 5],
        }
    }

    /// Enable RS485 support.
    ///
    /// Unless enabled, none of the other settings take effect.
    pub fn set_enabled(self, enabled: bool) -> (r: SerialRs485)
        ensures
            r == self.spec_with_flag(Rs485Flags::SER_RS485_ENABLED, enabled),
    {
        self.with_flag(Rs485Flags::SER_RS485_ENABLED, enabled)
    }

    /// Set the drive-enable signal high (`true`) or low (`false`) before
    /// sending.
    pub fn set_rts_on_send(self, rts_on_send: bool) -> (r: SerialRs485)
        ensures
            r == self.spec_with_flag(Rs485Flags::SER_RS485_RTS_ON_SEND, rts_on_send),
    {
        self.with_flag(Rs485Flags::SER_RS485_RTS_ON_SEND, rts_on_send)
    }

    /// Set the drive-enable signal high (`true`) or low (`false`) after
    /// sending.
    pub fn set_rts_after_send(self, rts_after_send: bool) -> (r: SerialRs485)
        ensures
            r == self.spec_with_flag(Rs485Flags::SER_RS485_RTS_AFTER_SEND, rts_after_send),
    {
        self.with_flag(Rs485Flags::SER_RS485_RTS_AFTER_SEND, rts_after_send)
    }

    /// Allow receiving whilst transmitting (full local echo).
    pub fn set_rx_during_tx(self, rx_during_tx: bool) -> (r: SerialRs485)
        ensures
            r == self.spec_with_flag(Rs485Flags::SER_RS485_RX_DURING_TX, rx_during_tx),
    {
        self.with_flag(Rs485Flags::SER_RS485_RX_DURING_TX, rx_during_tx)
    }

    /// Delay before sending, in ms.
    ///
    /// If non-zero, transmission starts only that many milliseconds after
    /// the drive-enable signal was asserted.
    pub fn delay_rts_before_send_ms(self, delay_rts_before_send: u32) -> (r: SerialRs485)
        ensures
            r.flags == self.flags,
            r.delay_rts_before_send == delay_rts_before_send,
            r.delay_rts_after_send == self.delay_rts_after_send,
            r.padding == self.padding,
    {
        SerialRs485 { delay_rts_before_send, ..self }
    }

    /// Hold the drive-enable signal after sending, in ms.
    ///
    /// If non-zero, the signal keeps its level that many milliseconds after
    /// the transmission is complete.
    pub fn delay_rts_after_send_ms(self, delay_rts_after_send: u32) -> (r: SerialRs485)
        ensures
            r.flags == self.flags,
            r.delay_rts_before_send == self.delay_rts_before_send,
            r.delay_rts_after_send == delay_rts_after_send,
            r.padding == self.padding,
    {
        SerialRs485 { delay_rts_after_send, ..self }
    }

    /// Whether RS485 support is enabled.
    pub fn is_enabled(&self) -> (r: bool)
        ensures
            r == self.spec_flag(Rs485Flags::SER_RS485_ENABLED),
    {
        self.flags.bits & Rs485Flags::SER_RS485_ENABLED != 0
    }

    /// Whether the drive-enable signal is asserted while sending.
    pub fn is_rts_on_send(&self) -> (r: bool)
        ensures
            r == self.spec_flag(Rs485Flags::SER_RS485_RTS_ON_SEND),
    {
        self.flags.bits & Rs485Flags::SER_RS485_RTS_ON_SEND != 0
    }

    /// Whether the drive-enable signal stays asserted after sending.
    pub fn is_rts_after_send(&self) -> (r: bool)
        ensures
            r == self.spec_flag(Rs485Flags::SER_RS485_RTS_AFTER_SEND),
    {
        self.flags.bits & Rs485Flags::SER_RS485_RTS_AFTER_SEND != 0
    }

    /// Whether reception stays enabled while transmitting.
    pub fn is_rx_during_tx(&self) -> (r: bool)
        ensures
            r == self.spec_flag(Rs485Flags::SER_RS485_RX_DURING_TX),
    {
        self.flags.bits & Rs485Flags::SER_RS485_RX_DURING_TX != 0
    }

    /// Force the flag bit(s) in `mask` to `on`, leaving all other bits and
    /// both delays untouched.
    fn with_flag(self, mask: u32, on: bool) -> (r: SerialRs485)
        ensures
            r == self.spec_with_flag(mask, on),
    {
        let bits: u32 = if on {
            self.flags.bits | mask
        } else {
            self.flags.bits & !mask
        };
        SerialRs485 { flags: Rs485Flags { bits }, ..self }
    }
}

} // verus!
