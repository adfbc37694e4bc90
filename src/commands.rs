//! The command protocol: opcodes, register access frames and the decoding
//! of conversion results.
use vstd::prelude::*;

verus! {

/// The converter's commands.
#[derive(Debug, Copy, Clone, PartialEq, Eq, Structural)]
pub enum Command {
    /// Resets the configuration registers to their power-up values.
    RESET,
    /// Starts a single conversion, or continuous conversions.
    START,
    /// Enters power-down mode.
    POWERDOWN,
    /// Reads the most recent conversion result.
    RDATA,
    /// Reads registers: `0010 rrnn`, address `rr`, `nn` bytes minus one.
    RREG,
    /// Writes registers: `0100 rrnn`, address `rr`, `nn` bytes minus one.
    WREG,
}

impl Command {
    /// The command's opcode byte.
    pub open spec fn spec_bits(self) -> u8 {
        match self {
            Command::RESET => 0b0000_0110,
            Command::START => 0b0000_1000,
            Command::POWERDOWN => 0b0000_0010,
            Command::RDATA => 0b0001_0000,
            Command::RREG => 0b0010_0000,
            Command::WREG => 0b0100_0000,
        }
    }

    /// The command's opcode byte.
    pub fn bits(self) -> (r: u8)
        ensures
            r == self.spec_bits(),
    {
        match self {
            Command::RESET => 0b0000_0110,
            Command::START => 0b0000_1000,
            Command::POWERDOWN => 0b0000_0010,
            Command::RDATA => 0b0001_0000,
            Command::RREG => 0b0010_0000,
            Command::WREG => 0b0100_0000,
        }
    }

    /// Whether the command addresses registers.
    pub open spec fn is_register_access(self) -> bool {
        self == Command::RREG || self == Command::WREG
    }
}

/// A register access request that cannot be encoded.
#[derive(Debug, Copy, Clone, PartialEq, Eq, Structural)]
pub enum InvalidArgument {
    /// The command is neither RREG nor WREG.
    NotRegisterAccess,
    /// The register address is above 3.
    Address,
    /// The byte count is not between 1 and 4.
    Count,
}

/// The opcode byte of a register access: opcode nibble, then the address in
/// bits 3-2, then the byte count minus one in bits 1-0.
pub open spec fn register_opcode(cmd: Command, addr: u8, count: u8) -> int {
    cmd.spec_bits() + 4 * addr + (count - 1)
}

/// Encodes the opcode of a register read or write of `count` bytes starting at
/// register `addr`.
pub fn encode_register_command(cmd: Command, addr: u8, count: u8) -> (r: Result<
    u8,
    InvalidArgument,
>)
    ensures
        r == (if !cmd.is_register_access() {
            Err(InvalidArgument::NotRegisterAccess)
        } else if addr > 3 {
            Err(InvalidArgument::Address)
        } else if count < 1 || count > 4 {
            Err(InvalidArgument::Count)
        } else {
            Ok(register_opcode(cmd, addr, count) as u8)
        }),
        r matches Ok(b) ==> b as int == register_opcode(cmd, addr, count),
{
    match cmd {
        Command::RREG | Command::WREG => {},
        _ => {
            return Err(InvalidArgument::NotRegisterAccess);
        },
    }
    if addr > 3 {
        return Err(InvalidArgument::Address);
    }
    if count < 1 || count > 4 {
        return Err(InvalidArgument::Count);
    }
    Ok(single_register_opcode(cmd, addr, count))
}

/// The opcode of a register access whose arguments are in range.
pub(crate) fn single_register_opcode(cmd: Command, addr: u8, count: u8) -> (r: u8)
    requires
        cmd.is_register_access(),
        addr <= 3,
        1 <= count <= 4,
    ensures
        r as int == register_opcode(cmd, addr, count),
{
    cmd.bits() + 4 * addr + (count - 1)
}

/// The value of a 24-bit two's-complement sample sent most significant byte
/// first.
pub open spec fn sample_value(b0: u8, b1: u8, b2: u8) -> int {
    let raw = b0 * 65536 + b1 * 256 + b2;
    if b0 >= 0x80 {
        raw - 0x100_0000
    } else {
        raw
    }
}

/// Sign-extends a 24-bit conversion result, sent most significant byte first,
/// to 32 bits.
pub fn sample_from_bytes(b0: u8, b1: u8, b2: u8) -> (r: i32)
    ensures
        r as int == sample_value(b0, b1, b2),
        -0x80_0000 <= r < 0x80_0000,
{
    let raw: i32 = (b0 as i32) * 65536 + (b1 as i32) * 256 + (b2 as i32);
    if b0 >= 0x80 {
        raw - 0x100_0000
    } else {
        raw
    }
}

} // verus!
