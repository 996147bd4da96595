//! Encoder for HP-GL pen-plotter jobs: typed drawing commands and
//! HP-7470A-style device-control frames, rendered to their exact wire bytes.
//!
//! The encoder is write-only and stateless: each value encodes to one fixed
//! byte sequence, appended to a caller-owned sink, and nothing is tracked
//! between calls. Transport of the bytes to a device is the caller's
//! business; the encoder's whole contract is the byte sequence itself.

use vstd::prelude::*;

pub mod decimal;
pub mod hp7470a;
pub mod lsystem;

use crate::decimal::{decimal, signed_decimal, write_i32, write_u64, SEMICOLON};

verus! {

/// ASCII comma, the separator inside and between coordinate pairs.
pub const COMMA: u8 = 44;

/// ASCII `A`.
pub const CH_A: u8 = 65;

/// ASCII `D`.
pub const CH_D: u8 = 68;

/// ASCII `F`.
pub const CH_F: u8 = 70;

/// ASCII `I`.
pub const CH_I: u8 = 73;

/// ASCII `N`.
pub const CH_N: u8 = 78;

/// ASCII `P`.
pub const CH_P: u8 = 80;

/// ASCII `S`.
pub const CH_S: u8 = 83;

/// ASCII `U`.
pub const CH_U: u8 = 85;

/// ASCII `V`.
pub const CH_V: u8 = 86;

/// A value with a fixed wire encoding that can be appended to a byte sink.
pub trait PlotterWriteable {
    /// The exact bytes this value encodes to.
    spec fn encoding(&self) -> Seq<u8>;

    /// Append the encoding of `self` to `sink`.
    fn write(&self, sink: &mut Vec<u8>)
        ensures
            final(sink)@ == old(sink)@ + self.encoding(),
    ;
}

/// Raw coordinate (can represent either absolute or relative, non-/plotter).
///
/// When plotting in _plotter coordinates_, x is in [0, 10900] and y in
/// [0, 7650]; the encoder does not enforce these bounds.
#[derive(Clone, Copy, Debug)]
pub struct Coordinate {
    pub x: i32,
    pub y: i32,
}

impl Coordinate {
    /// Largest x of the device's addressable area, in plotter coordinates.
    pub const MAX_X: i32 = 10900;

    /// Largest y of the device's addressable area, in plotter coordinates.
    pub const MAX_Y: i32 = 7650;

    /// A coordinate encodes as `<x>,<y>` in minimal decimal.
    pub open spec fn encoding(self) -> Seq<u8> {
        signed_decimal(self.x as int) + seq![COMMA] + signed_decimal(self.y as int)
    }
}

/// The encoding of a whole chain: the point encodings joined by `,`, with no
/// trailing separator.
pub open spec fn chain_encoding(pts: Seq<Coordinate>) -> Seq<u8>
    decreases pts.len(),
{
    if pts.len() == 0 {
        Seq::empty()
    } else if pts.len() == 1 {
        pts[0].encoding()
    } else {
        chain_encoding(pts.drop_last()) + seq![COMMA] + pts.last().encoding()
    }
}

/// An ordered run of coordinates, encoded as `x1,y1,x2,y2,...` with commas
/// both inside and between pairs and none at the end.
#[derive(Debug)]
pub struct CoordinateChain(pub Vec<Coordinate>);

impl CoordinateChain {
    /// The exact bytes this chain encodes to.
    pub open spec fn encoding(&self) -> Seq<u8> {
        chain_encoding(self.0@)
    }

    /// Append the encoding of the chain to `sink`.
    pub fn write(&self, sink: &mut Vec<u8>)
        ensures
            final(sink)@ == old(sink)@ + self.encoding(),
    {
        let n = self.0.len();
        let mut i: usize = 0;
        while i < n
            invariant
                i <= n,
                n == self.0@.len(),
                sink@ == old(sink)@ + chain_encoding(self.0@.take(i as int)),
            decreases n - i,
        {
            if i > 0 {
                sink.push(COMMA);
            }
            let pt = self.0[i];
            write_i32(pt.x, sink);
            sink.push(COMMA);
            write_i32(pt.y, sink);
            proof {
                let pts = self.0@;
                assert(pts.take(i + 1).drop_last() =~= pts.take(i as int));
                assert(pts.take(i + 1).last() == pts[i as int]);
                assert(sink@ =~= old(sink)@ + chain_encoding(pts.take(i + 1)));
            }
            i += 1;
        }
        assert(self.0@.take(n as int) =~= self.0@);
    }
}

impl From<Vec<Coordinate>> for CoordinateChain {
    fn from(inner: Vec<Coordinate>) -> (r: Self) {
        CoordinateChain(inner)
    }
}

impl vstd::std_specs::convert::FromSpecImpl<Vec<Coordinate>> for CoordinateChain {
    open spec fn obeys_from_spec() -> bool {
        true
    }

    open spec fn from_spec(inner: Vec<Coordinate>) -> Self {
        CoordinateChain(inner)
    }
}

/// A single plotter drawing or setup command.
///
/// Each variant has a fixed two-letter mnemonic, decimal parameters, and a
/// `;` terminator.
#[derive(Debug)]
pub enum HpglCommand {
    DefaultSettings,
    InitializePlotter,
    SelectPen {
        pen: u64,
    },
    VelocitySelect {
        velocity: i32,
    },
    /// Raises the pen. _Note_: **deliberately** does not support moving the
    /// pen as part of the same command.
    PenUp,
    /// Lowers the pen. _Note_: **deliberately** does not support moving the
    /// pen as part of the same command.
    PenDown,
    PlotAbsolute(CoordinateChain),
}

impl PlotterWriteable for HpglCommand {
    open spec fn encoding(&self) -> Seq<u8> {
        match self {
            HpglCommand::DefaultSettings => seq![CH_D, CH_F, SEMICOLON],
            HpglCommand::InitializePlotter => seq![CH_I, CH_N, SEMICOLON],
            HpglCommand::SelectPen { pen } => seq![CH_I, CH_N] + decimal(*pen as nat)
                + seq![SEMICOLON],
            HpglCommand::VelocitySelect { velocity } => seq![CH_V, CH_S] + signed_decimal(
                *velocity as int,
            ) + seq![SEMICOLON],
            HpglCommand::PenUp => seq![CH_P, CH_U, SEMICOLON],
            HpglCommand::PenDown => seq![CH_P, CH_D, SEMICOLON],
            HpglCommand::PlotAbsolute(chain) => seq![CH_P, CH_A] + chain.encoding()
                + seq![SEMICOLON],
        }
    }

    fn write(&self, sink: &mut Vec<u8>)
        ensures
            final(sink)@ == old(sink)@ + self.encoding(),
    {
        match self {
            HpglCommand::DefaultSettings => {
                sink.push(CH_D);
                sink.push(CH_F);
                sink.push(SEMICOLON);
                assert(sink@ =~= old(sink)@ + self.encoding());
            },
            HpglCommand::InitializePlotter => {
                sink.push(CH_I);
                sink.push(CH_N);
                sink.push(SEMICOLON);
                assert(sink@ =~= old(sink)@ + self.encoding());
            },
            HpglCommand::SelectPen { pen } => {
                sink.push(CH_I);
                sink.push(CH_N);
                write_u64(*pen, sink);
                sink.push(SEMICOLON);
                assert(sink@ =~= old(sink)@ + self.encoding());
            },
            HpglCommand::VelocitySelect { velocity } => {
                sink.push(CH_V);
                sink.push(CH_S);
                write_i32(*velocity, sink);
                sink.push(SEMICOLON);
                assert(sink@ =~= old(sink)@ + self.encoding());
            },
            HpglCommand::PenUp => {
                sink.push(CH_P);
                sink.push(CH_U);
                sink.push(SEMICOLON);
                assert(sink@ =~= old(sink)@ + self.encoding());
            },
            HpglCommand::PenDown => {
                sink.push(CH_P);
                sink.push(CH_D);
                sink.push(SEMICOLON);
                assert(sink@ =~= old(sink)@ + self.encoding());
            },
            HpglCommand::PlotAbsolute(chain) => {
                sink.push(CH_P);
                sink.push(CH_A);
                chain.write(sink);
                sink.push(SEMICOLON);
                assert(sink@ =~= old(sink)@ + self.encoding());
            },
        }
    }
}

/// The encoding of a command list: the strict concatenation of each
/// command's encoding, in list order, with nothing added around them.
pub open spec fn program_encoding(cmds: Seq<HpglCommand>) -> Seq<u8>
    decreases cmds.len(),
{
    if cmds.len() == 0 {
        Seq::empty()
    } else {
        program_encoding(cmds.drop_last()) + cmds.last().encoding()
    }
}

/// An ordered plotter job: a sequence of commands encoded back to back.
#[derive(Debug)]
pub struct HpglProgram(pub Vec<HpglCommand>);

impl HpglProgram {
    /// Wrap a command list as a program.
    pub fn new(commands: Vec<HpglCommand>) -> (r: Self)
        ensures
            r.0 == commands,
    {
        HpglProgram(commands)
    }
}

impl PlotterWriteable for HpglProgram {
    open spec fn encoding(&self) -> Seq<u8> {
        program_encoding(self.0@)
    }

    fn write(&self, sink: &mut Vec<u8>)
        ensures
            final(sink)@ == old(sink)@ + self.encoding(),
    {
        let n = self.0.len();
        let mut i: usize = 0;
        while i < n
            invariant
                i <= n,
                n == self.0@.len(),
                sink@ == old(sink)@ + program_encoding(self.0@.take(i as int)),
            decreases n - i,
        {
            self.0[i].write(sink);
            proof {
                let cmds = self.0@;
                assert(cmds.take(i + 1).drop_last() =~= cmds.take(i as int));
                assert(cmds.take(i + 1).last() == cmds[i as int]);
                assert(sink@ =~= old(sink)@ + program_encoding(cmds.take(i + 1)));
            }
            i += 1;
        }
        assert(self.0@.take(n as int) =~= self.0@);
    }
}

impl From<Vec<HpglCommand>> for HpglProgram {
    fn from(inner: Vec<HpglCommand>) -> (r: Self) {
        HpglProgram(inner)
    }
}

impl vstd::std_specs::convert::FromSpecImpl<Vec<HpglCommand>> for HpglProgram {
    open spec fn obeys_from_spec() -> bool {
        true
    }

    open spec fn from_spec(inner: Vec<HpglCommand>) -> Self {
        HpglProgram(inner)
    }
}

/// Appending one command to a program extends the program's encoding by
/// exactly that command's encoding: encoding a program and then the encoding
/// of a further command is the same bytes as encoding the extended program.
pub proof fn lemma_program_encoding_append(cmds: Seq<HpglCommand>, c: HpglCommand)
    ensures
        program_encoding(cmds.push(c)) == program_encoding(cmds) + c.encoding(),
{
    assert(cmds.push(c).drop_last() =~= cmds);
    assert(cmds.push(c).last() == c);
}

/// Encoding is associative over command lists: the encoding of two lists
/// run back to back is the concatenation of their encodings.
pub proof fn lemma_program_encoding_concat(first: Seq<HpglCommand>, second: Seq<HpglCommand>)
    ensures
        program_encoding(first + second) == program_encoding(first) + program_encoding(second),
    decreases second.len(),
{
    if second.len() == 0 {
        assert(first + second =~= first);
        assert(program_encoding(first) + program_encoding(second) =~= program_encoding(first));
    } else {
        lemma_program_encoding_concat(first, second.drop_last());
        assert((first + second).drop_last() =~= first + second.drop_last());
        assert((first + second).last() == second.last());
        assert(program_encoding(first + second) =~= program_encoding(first) + program_encoding(
            second,
        ));
    }
}

/// Encoding is a pure function of the value: writing the same immutable
/// command or frame into two sinks, whatever each already holds, appends
/// byte-identical output to both.
pub proof fn lemma_encoding_deterministic<T: PlotterWriteable>(
    item: &T,
    sink1: Seq<u8>,
    sink2: Seq<u8>,
)
    ensures
        (sink1 + item.encoding()).skip(sink1.len() as int) == (sink2 + item.encoding()).skip(
            sink2.len() as int,
        ),
{
    assert((sink1 + item.encoding()).skip(sink1.len() as int) =~= item.encoding());
    assert((sink2 + item.encoding()).skip(sink2.len() as int) =~= item.encoding());
}

} // verus!
