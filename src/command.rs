//! The controller's command bytes.
use vstd::prelude::*;

verus! {

/// Different addressing modes available for the display.
/// They affect how the controller's pointers advance after data is written.
#[derive(Clone, Copy, Debug, PartialEq, Eq, Structural)]
pub enum AddressingMode {
    /// Each byte (column) written advances the column pointer by one.
    /// At the end of the page, the page pointer advances by one and the
    /// column pointer returns to zero.
    Horizontal,
    /// Each byte (column) written advances the page pointer by one.
    /// At the last page, the column pointer advances by one and the page
    /// pointer returns to zero.
    Vertical,
    /// Each byte (column) written advances the column pointer by one.
    /// At the end of the page, the column pointer returns to zero; the page
    /// pointer does not change.
    Page,
}

/// The byte that selects an addressing mode.
pub open spec fn mode_byte(mode: AddressingMode) -> u8 {
    match mode {
        AddressingMode::Horizontal => 0x00,
        AddressingMode::Vertical => 0x01,
        AddressingMode::Page => 0x02,
    }
}

impl AddressingMode {
    /// The byte that selects this mode after a `SetAddressingMode` command.
    pub fn to_byte(self) -> (r: u8)
        ensures
            r == mode_byte(self),
    {
        match self {
            AddressingMode::Horizontal => 0x00,
            AddressingMode::Vertical => 0x01,
            AddressingMode::Page => 0x02,
        }
    }
}

impl From<AddressingMode> for u8 {
    fn from(mode: AddressingMode) -> (r: u8)
        ensures
            r == mode_byte(mode),
    {
        mode.to_byte()
    }
}

impl vstd::std_specs::convert::FromSpecImpl<AddressingMode> for u8 {
    open spec fn obeys_from_spec() -> bool {
        true
    }

    open spec fn from_spec(mode: AddressingMode) -> u8 {
        mode_byte(mode)
    }
}

/// A command that can be sent to the display.
#[derive(Clone, Copy, Debug, PartialEq, Eq, Structural)]
pub enum Command {
    /// Sets the contrast level; the level follows as the next command byte.
    SetContrast,
    /// The display shows the contents of its graphics RAM.
    ContentFollowsRam,
    /// Every pixel is on, whatever the RAM holds.
    EntireDisplayOn,
    /// Sets the addressing mode; the mode byte follows as the next command byte.
    SetAddressingMode,
    /// Turns the display off (sleep mode).
    DisplayOff,
    /// Turns the display on.
    DisplayOn,
    /// A 1 bit is a lit pixel.
    NormalDisplay,
    /// A 0 bit is a lit pixel.
    InverseDisplay,
}

/// The byte of each command.
pub open spec fn command_byte(command: Command) -> u8 {
    match command {
        Command::ContentFollowsRam => 0xa4,
        Command::EntireDisplayOn => 0xa5,
        Command::SetAddressingMode => 0x20,
        Command::DisplayOff => 0xae,
        Command::DisplayOn => 0xaf,
        Command::NormalDisplay => 0xa6,
        Command::InverseDisplay => 0xa7,
        Command::SetContrast => 0x81,
    }
}

impl Command {
    /// The byte that the controller's command parser reads for this command.
    pub fn to_byte(self) -> (r: u8)
        ensures
            r == command_byte(self),
    {
        match self {
            Command::ContentFollowsRam => 0xa4,
            Command::EntireDisplayOn => 0xa5,
            Command::SetAddressingMode => 0x20,
            Command::DisplayOff => 0xae,
            Command::DisplayOn => 0xaf,
            Command::NormalDisplay => 0xa6,
            Command::InverseDisplay => 0xa7,
            Command::SetContrast => 0x81,
        }
    }
}

impl From<Command> for u8 {
    fn from(command: Command) -> (r: u8)
        ensures
            r == command_byte(command),
    {
        command.to_byte()
    }
}

impl vstd::std_specs::convert::FromSpecImpl<Command> for u8 {
    open spec fn obeys_from_spec() -> bool {
        true
    }

    open spec fn from_spec(command: Command) -> u8 {
        command_byte(command)
    }
}

} // verus!
