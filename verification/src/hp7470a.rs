//! HP-7470A-style device-control extension: configuration frames that ride
//! on the same serial stream as the drawing commands.
//!
//! Every frame begins with the escape prefix `ESC .` (bytes 0x1B, 0x2E) and
//! ends with a literal `:`; its parameters are rendered in minimal decimal.

use vstd::prelude::*;

use crate::decimal::{decimal, joined_decimals, write_joined, write_u64, SEMICOLON};
use crate::PlotterWriteable;

verus! {

/// The escape byte that opens every device-control frame.
pub const ESC: u8 = 27;

/// ASCII full stop, the second byte of the frame prefix.
pub const DOT: u8 = 46;

/// ASCII `@`, the frame letter of a plotter-configuration frame.
pub const AT: u8 = 64;

/// ASCII `:`, the terminator of every device-control frame.
pub const COLON: u8 = 58;

/// ASCII `H`, the frame letter that selects handshake mode 1.
pub const CH_H: u8 = 72;

/// ASCII `I`, the frame letter that selects handshake mode 2.
pub const CH_I: u8 = 73;

/// ASCII `N`, the frame letter of the extended handshake options frame.
pub const CH_N: u8 = 78;

/// Named device options packed into a single 8-bit value with bit weights
/// 1 (hardwire handshake), 4 (monitor mode select) and 8 (monitor mode
/// enable); the remaining bits are never set.
#[derive(Clone, Copy, Debug, PartialEq, Eq, Structural)]
pub struct PlotterConfig {
    /// Bit 0 (weight 1): hardwire handshake.
    pub hw_handshake: bool,
    /// Bit 2 (weight 4): monitor mode 1 if set, monitor mode 0 if cleared.
    pub mon_mode_ctl: bool,
    /// Bit 3 (weight 8): monitor mode enabled.
    pub mon_mode_ena: bool,
}

impl PlotterConfig {
    /// The packed value: the arithmetic sum of the set bits' weights.
    pub open spec fn bits_spec(self) -> u8 {
        ((if self.hw_handshake {
            1int
        } else {
            0int
        }) + (if self.mon_mode_ctl {
            4int
        } else {
            0int
        }) + (if self.mon_mode_ena {
            8int
        } else {
            0int
        })) as u8
    }

    /// Pack the flags into their 8-bit value by summing the set bits'
    /// weights; the empty set packs to 0, the full set to 13.
    pub fn bits(&self) -> (r: u8)
        ensures
            r == self.bits_spec(),
    {
        let mut r: u8 = 0;
        if self.hw_handshake {
            r += 1;
        }
        if self.mon_mode_ctl {
            r += 4;
        }
        if self.mon_mode_ena {
            r += 8;
        }
        r
    }
}

impl Default for PlotterConfig {
    /// All options off: the packed value is 0.
    fn default() -> (r: Self)
        ensures
            r == (PlotterConfig { hw_handshake: false, mon_mode_ctl: false, mon_mode_ena: false }),
    {
        PlotterConfig { hw_handshake: false, mon_mode_ctl: false, mon_mode_ena: false }
    }
}

/// Which of the two supported handshake protocols a frame selects; purely a
/// tag that picks the frame letter (`H` for mode 1, `I` for mode 2).
pub enum HandshakeMode {
    Mode1,
    Mode2,
}

impl HandshakeMode {
    /// The frame letter this mode selects.
    pub open spec fn letter(self) -> u8 {
        match self {
            HandshakeMode::Mode1 => CH_H,
            HandshakeMode::Mode2 => CH_I,
        }
    }
}

/// Parameters of the two handshake protocols: block-acknowledge, or
/// threshold-based XON/XOFF flow control.
pub enum HandshakeConfig {
    EnqAck {
        block_size: u8,
        enq_char: u8,
        ack_string: Vec<u8>,
    },
    XonXoff {
        xoff_threshold: u8,
        xon_trigger_chars: Vec<u8>,
    },
}

impl HandshakeConfig {
    /// The parameter bytes that follow the frame letter: numeric fields in
    /// decimal, byte sequences decimal-joined by `;`. The XON/XOFF variant
    /// leaves its second positional parameter empty, hence the doubled `;`.
    pub open spec fn params_encoding(&self) -> Seq<u8> {
        match self {
            HandshakeConfig::EnqAck { block_size, enq_char, ack_string } => decimal(
                *block_size as nat,
            ) + seq![SEMICOLON] + decimal(*enq_char as nat) + seq![SEMICOLON] + joined_decimals(
                ack_string@,
            ),
            HandshakeConfig::XonXoff { xoff_threshold, xon_trigger_chars } => decimal(
                *xoff_threshold as nat,
            ) + seq![SEMICOLON, SEMICOLON] + joined_decimals(xon_trigger_chars@),
        }
    }
}

/// A device-control frame: plotter configuration, handshake mode selection,
/// or extended handshake options.
pub enum DeviceControlInstruction {
    SetPlotterConfig(PlotterConfig),
    SetHandshakeMode(HandshakeMode, HandshakeConfig),
    SetExtHandshakeOptions {
        interchar_delay: Option<u16>,
        xoff_trigger_chars: Vec<u8>,
    },
}

impl PlotterWriteable for DeviceControlInstruction {
    open spec fn encoding(&self) -> Seq<u8> {
        match self {
            DeviceControlInstruction::SetPlotterConfig(config) => seq![ESC, DOT, AT, SEMICOLON]
                + decimal(config.bits_spec() as nat) + seq![COLON],
            DeviceControlInstruction::SetHandshakeMode(mode, config) => seq![ESC, DOT]
                + seq![mode.letter()] + config.params_encoding() + seq![COLON],
            DeviceControlInstruction::SetExtHandshakeOptions {
                interchar_delay,
                xoff_trigger_chars,
            } => seq![ESC, DOT, CH_N] + (match interchar_delay {
                Some(delay) => decimal(*delay as nat),
                None => Seq::empty(),
            }) + seq![SEMICOLON] + joined_decimals(xoff_trigger_chars@) + seq![COLON],
        }
    }

    fn write(&self, sink: &mut Vec<u8>)
        ensures
            final(sink)@ == old(sink)@ + self.encoding(),
    {
        match self {
            DeviceControlInstruction::SetPlotterConfig(config) => {
                sink.push(ESC);
                sink.push(DOT);
                sink.push(AT);
                sink.push(SEMICOLON);
                write_u64(config.bits() as u64, sink);
                sink.push(COLON);
                assert(sink@ =~= old(sink)@ + self.encoding());
            },
            DeviceControlInstruction::SetHandshakeMode(mode, config) => {
                sink.push(ESC);
                sink.push(DOT);
                match mode {
                    HandshakeMode::Mode1 => sink.push(CH_H),
                    HandshakeMode::Mode2 => sink.push(CH_I),
                }
                match config {
                    HandshakeConfig::EnqAck { block_size, enq_char, ack_string } => {
                        write_u64(*block_size as u64, sink);
                        sink.push(SEMICOLON);
                        write_u64(*enq_char as u64, sink);
                        sink.push(SEMICOLON);
                        write_joined(ack_string, sink);
                    },
                    HandshakeConfig::XonXoff { xoff_threshold, xon_trigger_chars } => {
                        write_u64(*xoff_threshold as u64, sink);
                        sink.push(SEMICOLON);
                        sink.push(SEMICOLON);
                        write_joined(xon_trigger_chars, sink);
                    },
                }
                sink.push(COLON);
                assert(sink@ =~= old(sink)@ + self.encoding());
            },
            DeviceControlInstruction::SetExtHandshakeOptions {
                interchar_delay,
                xoff_trigger_chars,
            } => {
                sink.push(ESC);
                sink.push(DOT);
                sink.push(CH_N);
                if let Some(delay) = interchar_delay {
                    write_u64(*delay as u64, sink);
                }
                sink.push(SEMICOLON);
                write_joined(xoff_trigger_chars, sink);
                sink.push(COLON);
                assert(sink@ =~= old(sink)@ + self.encoding());
            },
        }
    }
}

/// The plotter-configuration frame carries exactly the arithmetic sum of the
/// set bits' weights {1, 4, 8}, rendered in decimal between the fixed frame
/// prefix `ESC . @ ;` and the `:` terminator — for every combination of the
/// three flags.
pub proof fn lemma_plotter_config_encoding(config: PlotterConfig)
    ensures
        DeviceControlInstruction::SetPlotterConfig(config).encoding() == seq![
            ESC,
            DOT,
            AT,
            SEMICOLON,
        ] + decimal(
            ((if config.hw_handshake {
                1int
            } else {
                0int
            }) + (if config.mon_mode_ctl {
                4int
            } else {
                0int
            }) + (if config.mon_mode_ena {
                8int
            } else {
                0int
            })) as nat,
        ) + seq![COLON],
{
}

} // verus!
