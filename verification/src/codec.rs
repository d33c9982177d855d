//! The command codec: how a command, a channel address and a 16-bit code
//! are packed into the four bytes that are shifted into the device.
//!
//! The device reads a frame as one 32-bit word, most significant bit first:
//! four unused bits, four command bits, four address bits, sixteen data
//! bits, four unused bits.

use vstd::prelude::*;

verus! {

/// Selects one of the eight DAC channels, or all of them at once.
#[derive(Debug, Copy, Clone, PartialEq, Eq, Structural)]
pub enum Address {
    DacA,
    DacB,
    DacC,
    DacD,
    DacE,
    DacF,
    DacG,
    DacH,
    AllDacs,
}

impl Address {
    /// The four address bits of the channel.
    pub open spec fn spec_bits(self) -> u8 {
        match self {
            Address::DacA => 0b0000,
            Address::DacB => 0b0001,
            Address::DacC => 0b0010,
            Address::DacD => 0b0011,
            Address::DacE => 0b0100,
            Address::DacF => 0b0101,
            Address::DacG => 0b0110,
            Address::DacH => 0b0111,
            Address::AllDacs => 0b1111,
        }
    }

    /// The four address bits of the channel.
    #[verifier::when_used_as_spec(spec_bits)]
    pub fn bits(self) -> (r: u8)
        ensures
            r == self.spec_bits(),
            r <= 0b1111,
    {
        match self {
            Address::DacA => 0b0000,
            Address::DacB => 0b0001,
            Address::DacC => 0b0010,
            Address::DacD => 0b0011,
            Address::DacE => 0b0100,
            Address::DacF => 0b0101,
            Address::DacG => 0b0110,
            Address::DacH => 0b0111,
            Address::AllDacs => 0b1111,
        }
    }
}

/// Setting of the internal voltage reference.
#[derive(Debug, Copy, Clone, PartialEq, Eq, Structural)]
pub enum InternalRef {
    Disabled,
    Enabled,
}

impl InternalRef {
    /// The payload byte that selects this setting.
    pub open spec fn spec_bits(self) -> u8 {
        match self {
            InternalRef::Disabled => 0x00,
            InternalRef::Enabled => 0x01,
        }
    }

    /// The payload byte that selects this setting.
    #[verifier::when_used_as_spec(spec_bits)]
    pub fn bits(self) -> (r: u8)
        ensures
            r == self.spec_bits(),
    {
        match self {
            InternalRef::Disabled => 0x00,
            InternalRef::Enabled => 0x01,
        }
    }
}

/// The commands of the device.
#[derive(Debug, Copy, Clone, PartialEq, Eq, Structural)]
pub enum Command {
    /// Stage a code in a channel's input register; the output keeps its value.
    WriteInputRegister,
    /// Move a channel's staged code to its output.
    UpdateDacRegister,
    /// Stage a code in one channel, then update the outputs of all channels.
    WriteInputUpdateAll,
    /// Stage a code in one channel and update that channel's output.
    WriteUpdateDacChannel,
    /// Power channels up or down.
    PowerDACUpDown,
    /// Load the clear-code register.
    LoadClearCodeRegister,
    /// Load the LDAC register.
    LoadLDACRegister,
    /// Reset the device to its power-on state.
    Reset,
    /// Switch the internal reference on or off.
    SetInternalRefRegister,
}

impl Command {
    /// The four command bits.
    pub open spec fn spec_opcode(self) -> u8 {
        match self {
            Command::WriteInputRegister => 0b0000,
            Command::UpdateDacRegister => 0b0001,
            Command::WriteInputUpdateAll => 0b0010,
            Command::WriteUpdateDacChannel => 0b0011,
            Command::PowerDACUpDown => 0b0100,
            Command::LoadClearCodeRegister => 0b0101,
            Command::LoadLDACRegister => 0b0110,
            Command::Reset => 0b0111,
            Command::SetInternalRefRegister => 0b1000,
        }
    }

    /// The four command bits.
    #[verifier::when_used_as_spec(spec_opcode)]
    pub fn opcode(self) -> (r: u8)
        ensures
            r == self.spec_opcode(),
            r <= 0b1111,
    {
        match self {
            Command::WriteInputRegister => 0b0000,
            Command::UpdateDacRegister => 0b0001,
            Command::WriteInputUpdateAll => 0b0010,
            Command::WriteUpdateDacChannel => 0b0011,
            Command::PowerDACUpDown => 0b0100,
            Command::LoadClearCodeRegister => 0b0101,
            Command::LoadLDACRegister => 0b0110,
            Command::Reset => 0b0111,
            Command::SetInternalRefRegister => 0b1000,
        }
    }
}

/// The frame of a command that carries a channel address and a 16-bit code.
///
/// Byte 0 is the command. Byte 1 holds the address in its high nibble and
/// the top four bits of the code in its low nibble. Byte 2 is the middle
/// eight bits of the code. Byte 3 holds the low four bits of the code in its
/// high nibble; its low nibble is zero.
pub open spec fn update_frame(command: Command, address: Address, value: u16) -> Seq<u8> {
    seq![
        command.spec_opcode(),
        (address.spec_bits() * 16 + value / 4096) as u8,
        (value / 16 % 256) as u8,
        (value % 16 * 16) as u8,
    ]
}

/// The frame of a command that carries one payload byte and no channel.
pub open spec fn control_frame(command: Command, payload: u8) -> Seq<u8> {
    seq![command.spec_opcode(), 0u8, 0u8, payload]
}

/// The 32-bit word that the device shifts in for a command with an address
/// and a code: the command from bit 24, the address from bit 20, the code
/// from bit 4.
pub open spec fn update_word(command: Command, address: Address, value: u16) -> int {
    command.spec_opcode() * 0x100_0000 + address.spec_bits() * 0x10_0000 + value * 0x10
}

/// Encodes a command that carries a channel address and a 16-bit code.
pub fn encode_update_command(command: Command, address: Address, value: u16) -> (frame: [u8; 4])
    ensures
        frame@ == update_frame(command, address, value),
{
    let opcode: u8 = command.opcode();
    let channel: u8 = address.bits();
    let top: u8 = (value >> 12) as u8;
    let middle: u8 = (value >> 4) as u8;
    let low: u8 = (value << 4) as u8;
    assert(((channel << 4) | top) == (channel * 16 + value / 4096) as u8) by (bit_vector)
        requires
            channel <= 15,
            top == (value >> 12) as u8,
    ;
    assert(middle == (value / 16 % 256) as u8) by (bit_vector)
        requires
            middle == (value >> 4) as u8,
    ;
    assert(low == (value % 16 * 16) as u8) by (bit_vector)
        requires
            low == (value << 4) as u8,
    ;
    [opcode, (channel << 4) | top, middle, low]
}

/// Encoding is a function of its inputs: equal inputs give equal frames.
pub proof fn encode_deterministic(
    command: Command,
    address: Address,
    value: u16,
    command2: Command,
    address2: Address,
    value2: u16,
)
    requires
        command == command2,
        address == address2,
        value == value2,
    ensures
        update_frame(command, address, value) == update_frame(command2, address2, value2),
{
}

/// Every field can be read back from its place in the frame: the command
/// from byte 0, the address from the high nibble of byte 1, the code from
/// the twenty bits that follow. The last nibble is zero.
pub proof fn frame_fields(command: Command, address: Address, value: u16)
    ensures
        update_frame(command, address, value).len() == 4,
        update_frame(command, address, value)[0] == command.spec_opcode(),
        update_frame(command, address, value)[1] / 16 == address.spec_bits(),
        (update_frame(command, address, value)[1] % 16) * 4096 + update_frame(
            command,
            address,
            value,
        )[2] * 16 + update_frame(command, address, value)[3] / 16 == value,
        update_frame(command, address, value)[3] % 16 == 0,
{
}

/// The four bytes of a frame are the big-endian form of the command word.
pub proof fn frame_is_big_endian_word(command: Command, address: Address, value: u16)
    ensures
        update_frame(command, address, value)[0] * 0x100_0000 + update_frame(
            command,
            address,
            value,
        )[1] * 0x1_0000 + update_frame(command, address, value)[2] * 0x100 + update_frame(
            command,
            address,
            value,
        )[3] == update_word(command, address, value),
{
}

/// Frames tell their inputs apart: two update commands with the same frame
/// have the same command, address and code.
pub proof fn encode_injective(
    command: Command,
    address: Address,
    value: u16,
    command2: Command,
    address2: Address,
    value2: u16,
)
    requires
        update_frame(command, address, value) == update_frame(command2, address2, value2),
    ensures
        command == command2,
        address == address2,
        value == value2,
{
    frame_fields(command, address, value);
    frame_fields(command2, address2, value2);
}

} // verus!
