//! The driver: the owner of the bus and of the chip-select line, with one
//! operation for each command of the device.
//!
//! An operation does not touch the hardware. It returns the
//! [`FramedWrite`] that sends its command; the caller carries that out on
//! the handles lent by [`AD5668::parts`].

use vstd::prelude::*;
use crate::codec::{
    control_frame,
    encode_update_command,
    update_frame,
    Address,
    Command,
    InternalRef,
};
use crate::framing::{framed_write_order, run, Action, Event, FramedWrite, Level};

verus! {

/// AD5668 DAC driver. Owns the SPI bus and the chip-select line that the
/// device is connected to.
pub struct AD5668<SPI, CS> {
    spi: SPI,
    chip_select: CS,
}

/// A driver under construction: it holds the hardware, and the chip-select
/// line has not been driven high yet.
///
/// No command can be sent from here. The only way on is [`Startup::ready`],
/// which takes the report of driving the line to [`Startup::level`].
pub struct Startup<SPI, CS> {
    driver: AD5668<SPI, CS>,
}

impl<SPI, CS> View for AD5668<SPI, CS> {
    type V = (SPI, CS);

    /// The bus and the chip-select line that the driver owns.
    closed spec fn view(&self) -> (SPI, CS) {
        (self.spi, self.chip_select)
    }
}

impl<SPI, CS> View for Startup<SPI, CS> {
    type V = (SPI, CS);

    /// The bus and the chip-select line that the driver will own.
    closed spec fn view(&self) -> (SPI, CS) {
        self.driver@
    }
}

impl<SPI, CS> Startup<SPI, CS> {
    /// The level that construction waits for the chip-select line to be
    /// driven to: high, so that the device is released before the first
    /// command.
    pub open spec fn spec_level(&self) -> Level {
        Level::High
    }

    /// The level to drive the chip-select line to before the driver is
    /// ready.
    #[verifier::when_used_as_spec(spec_level)]
    pub fn level(&self) -> (level: Level)
        ensures
            level == self.spec_level(),
    {
        Level::High
    }

    /// Lends out the chip-select line, to be driven.
    pub fn chip_select(&mut self) -> (line: &mut CS)
        ensures
            *line == old(self)@.1,
            final(self)@ == (old(self)@.0, *final(line)),
    {
        &mut self.driver.chip_select
    }

    /// Takes the report of the chip-select line and hands out the driver.
    /// The driver is ready whether the line succeeded or failed: the report
    /// is taken and dropped.
    pub fn ready<P>(self, report: Result<(), P>) -> (driver: AD5668<SPI, CS>)
        ensures
            driver@ == self@,
    {
        let _ = report;
        self.driver
    }
}

impl<SPI, CS> AD5668<SPI, CS> {
    /// Takes ownership of the bus and of the chip-select line. The driver
    /// is handed out by [`Startup::ready`], once the chip-select line has
    /// been driven high.
    pub fn new(spi: SPI, chip_select: CS) -> (startup: Startup<SPI, CS>)
        ensures
            startup@ == (spi, chip_select),
    {
        Startup { driver: AD5668 { spi, chip_select } }
    }

    /// Lends out the bus and the chip-select line, to carry out an
    /// operation on them.
    pub fn parts(&mut self) -> (handles: (&mut SPI, &mut CS))
        ensures
            (*handles.0, *handles.1) == old(self)@,
            final(self)@ == (*final(handles.0), *final(handles.1)),
    {
        (&mut self.spi, &mut self.chip_select)
    }

    /// Frames a write of `data` to the bus by the chip-select line.
    pub fn write_spi<E>(&mut self, data: [u8; 4]) -> (tx: FramedWrite<E>)
        ensures
            tx == FramedWrite::<E>::spec_begin(data),
            *final(self) == *old(self),
    {
        FramedWrite::begin(data)
    }

    /// Write input register for the dac at address with the value, does not
    /// update dac register yet.
    pub fn write_input_register<E>(&mut self, address: Address, value: u16) -> (tx: FramedWrite<E>)
        ensures
            tx.sends(update_frame(Command::WriteInputRegister, address, value)),
            *final(self) == *old(self),
    {
        self.write_spi(encode_update_command(Command::WriteInputRegister, address, value))
    }

    /// Update dac register for the dac at address.
    pub fn update_dac_register<E>(&mut self, address: Address, value: u16) -> (tx: FramedWrite<E>)
        ensures
            tx.sends(update_frame(Command::UpdateDacRegister, address, value)),
            *final(self) == *old(self),
    {
        self.write_spi(encode_update_command(Command::UpdateDacRegister, address, value))
    }

    /// Write to a single input register, then update all dac channels. This
    /// can be used as the last command when updating multiple DACs: first
    /// stage values for all DACs, then update them simultaneously by
    /// performing the last write using this command.
    pub fn write_input_register_update_all<E>(&mut self, address: Address, value: u16) -> (tx:
        FramedWrite<E>)
        ensures
            tx.sends(update_frame(Command::WriteInputUpdateAll, address, value)),
            *final(self) == *old(self),
    {
        self.write_spi(encode_update_command(Command::WriteInputUpdateAll, address, value))
    }

    /// Write to input register and then update the dac register in one
    /// command.
    pub fn write_and_update_dac_channel<E>(&mut self, address: Address, value: u16) -> (tx:
        FramedWrite<E>)
        ensures
            tx.sends(update_frame(Command::WriteUpdateDacChannel, address, value)),
            *final(self) == *old(self),
    {
        self.write_spi(encode_update_command(Command::WriteUpdateDacChannel, address, value))
    }

    /// Enable the internal reference.
    pub fn enable_internal_ref<E>(&mut self) -> (tx: FramedWrite<E>)
        ensures
            tx.sends(
                control_frame(Command::SetInternalRefRegister, InternalRef::Enabled.spec_bits()),
            ),
            *final(self) == *old(self),
    {
        self.write_spi(
            [Command::SetInternalRefRegister.opcode(), 0x00u8, 0x00u8, InternalRef::Enabled.bits()],
        )
    }

    /// Disable the internal reference.
    pub fn disable_internal_ref<E>(&mut self) -> (tx: FramedWrite<E>)
        ensures
            tx.sends(
                control_frame(Command::SetInternalRefRegister, InternalRef::Disabled.spec_bits()),
            ),
            *final(self) == *old(self),
    {
        self.write_spi(
            [
                Command::SetInternalRefRegister.opcode(),
                0x00u8,
                0x00u8,
                InternalRef::Disabled.bits(),
            ],
        )
    }

    /// Reset the DAC.
    pub fn reset<E>(&mut self) -> (tx: FramedWrite<E>)
        ensures
            tx.sends(control_frame(Command::Reset, 0x00u8)),
            *final(self) == *old(self),
    {
        self.write_spi([Command::Reset.opcode(), 0x00u8, 0x00u8, 0x00u8])
    }

    /// Destroy the driver and return the bus and the chip-select line, to
    /// be used for something else.
    pub fn destroy(self) -> (handles: (SPI, CS))
        ensures
            handles == self@,
    {
        (self.spi, self.chip_select)
    }
}

/// The operations asked of the hardware over the life of a driver: the one
/// of construction, then those of a framed write of each of `frames`, each
/// carried out to its end before the next begins. The hardware reports
/// `responds[k](action)` of each operation of the write of `frames[k]`.
pub open spec fn lifetime<SPI, CS, E, P>(
    startup: Startup<SPI, CS>,
    frames: Seq<[u8; 4]>,
    responds: Seq<spec_fn(Action) -> Event<E, P>>,
) -> Seq<Action>
    decreases frames.len(),
{
    if frames.len() == 0 {
        seq![Action::Drive(startup.spec_level())]
    } else {
        lifetime(startup, frames.drop_last(), responds.drop_last()) + run(
            FramedWrite::<E>::spec_begin(frames.last()),
            responds.last(),
            3,
        ).actions
    }
}

/// Construction drives the chip-select line high once, and does so before
/// any bus write: without a command, that one operation is all that is
/// asked of the hardware.
pub proof fn construction_drives_high_once<SPI, CS, E, P>(startup: Startup<SPI, CS>)
    ensures
        lifetime::<SPI, CS, E, P>(startup, Seq::empty(), Seq::empty()) == seq![
            Action::Drive(Level::High),
        ],
{
}

/// Over the life of a driver the chip-select line is driven high first;
/// after that each command drives it low, writes its frame to the bus once,
/// and drives it high again, whatever the hardware reports.
pub proof fn lifetime_order<SPI, CS, E, P>(
    startup: Startup<SPI, CS>,
    frames: Seq<[u8; 4]>,
    responds: Seq<spec_fn(Action) -> Event<E, P>>,
)
    requires
        responds.len() == frames.len(),
        forall|k: int, action: Action|
            0 <= k < responds.len() ==> (#[trigger] responds[k](action)).answers(action),
    ensures
        lifetime(startup, frames, responds).len() == 1 + 3 * frames.len(),
        lifetime(startup, frames, responds)[0] == Action::Drive(Level::High),
        forall|k: int|
            0 <= k < frames.len() ==> lifetime(startup, frames, responds).subrange(
                1 + 3 * k,
                4 + 3 * k,
            ) == seq![
                Action::Drive(Level::Low),
                Action::Write(#[trigger] frames[k]),
                Action::Drive(Level::High),
            ],
    decreases frames.len(),
{
    if frames.len() > 0 {
        let earlier = frames.drop_last();
        let last = run(FramedWrite::<E>::spec_begin(frames.last()), responds.last(), 3).actions;
        lifetime_order(startup, earlier, responds.drop_last());
        framed_write_order(FramedWrite::<E>::spec_begin(frames.last()), responds.last(), 3);
        let head = lifetime(startup, earlier, responds.drop_last());
        let all = lifetime(startup, frames, responds);
        assert forall|k: int| 0 <= k < frames.len() implies all.subrange(1 + 3 * k, 4 + 3 * k)
            == seq![
            Action::Drive(Level::Low),
            Action::Write(#[trigger] frames[k]),
            Action::Drive(Level::High),
        ] by {
            if k < earlier.len() {
                assert(frames[k] == earlier[k]);
                assert(all.subrange(1 + 3 * k, 4 + 3 * k) =~= head.subrange(1 + 3 * k, 4 + 3 * k));
            } else {
                assert(all.subrange(1 + 3 * k, 4 + 3 * k) =~= last);
            }
        }
    }
}

} // verus!
