use std::cell::RefCell;
use std::rc::Rc;

use ad5668::{Action, Address, Event, FramedWrite, Level, Progress, Startup, AD5668};
use embedded_hal::blocking::spi::Write;
use embedded_hal::digital::v2::OutputPin;
use embedded_hal_mock::{pin, spi, MockError};

fn drive<CS: OutputPin>(chip_select: &mut CS, level: Level) -> Result<(), CS::Error> {
    match level {
        Level::High => chip_select.set_high(),
        Level::Low => chip_select.set_low(),
    }
}

fn bring_up<SPI, CS: OutputPin>(mut startup: Startup<SPI, CS>) -> AD5668<SPI, CS> {
    let level = startup.level();
    let report = drive(startup.chip_select(), level);
    startup.ready(report)
}

fn send<SPI, CS, E>(dac: &mut AD5668<SPI, CS>, tx: FramedWrite<E>) -> Result<(), E>
where
    SPI: Write<u8, Error = E>,
    CS: OutputPin,
{
    let mut tx = tx;
    loop {
        let action = tx.action();
        let (spi, chip_select) = dac.parts();
        let event = match action {
            Action::Drive(level) => Event::Line(drive(chip_select, level)),
            Action::Write(frame) => Event::Bus(spi.write(&frame)),
        };
        match tx.advance(event) {
            Progress::Pending(next) => tx = next,
            Progress::Complete(result) => return result,
        }
    }
}

fn setup_mocks() -> (spi::Mock, pin::Mock) {
    let spi = spi::Mock::new(&[]);

    // Default cs expectations, new sets high, sending command toggles low, then high
    let chip_select = pin::Mock::new(&[
        pin::Transaction::set(pin::State::High),
        pin::Transaction::set(pin::State::Low),
        pin::Transaction::set(pin::State::High),
    ]);

    (spi, chip_select)
}

#[test]
pub fn should_init_chip_select_high() {
    let (spi, mut chip_select) = setup_mocks();

    chip_select.expect(&[pin::Transaction::set(pin::State::High)]);

    let _dac = bring_up(AD5668::new(spi, chip_select));
}

#[test]
pub fn should_enable_internal_ref() {
    let (mut spi, chip_select) = setup_mocks();

    spi.expect(&[spi::Transaction::write(vec![
        0x08u8, 0x00u8, 0x00u8, 0x01u8,
    ])]);

    let mut dac = bring_up(AD5668::new(spi, chip_select));

    let tx = dac.enable_internal_ref();
    send(&mut dac, tx).unwrap();
}

#[test]
pub fn should_disable_internal_ref() {
    let (mut spi, chip_select) = setup_mocks();

    spi.expect(&[spi::Transaction::write(vec![
        0x08u8, 0x00u8, 0x00u8, 0x00u8,
    ])]);

    let mut dac = bring_up(AD5668::new(spi, chip_select));

    let tx = dac.disable_internal_ref();
    send(&mut dac, tx).unwrap();
}

#[test]
pub fn should_send_reset_command() {
    let (mut spi, chip_select) = setup_mocks();

    spi.expect(&[spi::Transaction::write(vec![
        0x07u8, 0x00u8, 0x00u8, 0x00u8,
    ])]);

    let mut dac = bring_up(AD5668::new(spi, chip_select));

    let tx = dac.reset();
    send(&mut dac, tx).unwrap();
}

#[test]
fn construction_drives_chip_select_high_once_and_writes_nothing() {
    let (spi, mut chip_select) = setup_mocks();
    chip_select.expect(&[pin::Transaction::set(pin::State::High)]);
    let mut spi_seen = spi.clone();
    let mut chip_select_seen = chip_select.clone();

    let startup = AD5668::new(spi, chip_select);
    assert_eq!(startup.level(), Level::High);
    let _dac = bring_up(startup);

    chip_select_seen.done();
    spi_seen.done();
}

#[test]
fn construction_succeeds_when_chip_select_fails() {
    let spi = spi::Mock::new(&[]);
    let chip_select = pin::Mock::new(&[pin::Transaction::set(pin::State::High)
        .with_error(MockError::Io(std::io::ErrorKind::NotConnected))]);
    let mut chip_select_seen = chip_select.clone();

    let dac = bring_up(AD5668::new(spi, chip_select));

    chip_select_seen.done();
    let (_spi, _chip_select) = dac.destroy();
}

fn expect_frame(frame: Vec<u8>) -> (AD5668<spi::Mock, pin::Mock>, spi::Mock, pin::Mock) {
    let (mut spi, chip_select) = setup_mocks();
    spi.expect(&[spi::Transaction::write(frame)]);
    let spi_seen = spi.clone();
    let chip_select_seen = chip_select.clone();
    (bring_up(AD5668::new(spi, chip_select)), spi_seen, chip_select_seen)
}

#[test]
fn write_input_register_sends_its_frame() {
    let (mut dac, mut spi, mut chip_select) = expect_frame(vec![0x00, 0x2a, 0xbc, 0xd0]);
    let tx = dac.write_input_register(Address::DacC, 0xabcd);
    send(&mut dac, tx).unwrap();
    spi.done();
    chip_select.done();
}

#[test]
fn update_dac_register_sends_its_frame() {
    let (mut dac, mut spi, mut chip_select) = expect_frame(vec![0x01, 0x70, 0x00, 0x10]);
    let tx = dac.update_dac_register(Address::DacH, 0x0001);
    send(&mut dac, tx).unwrap();
    spi.done();
    chip_select.done();
}

#[test]
fn write_input_register_update_all_sends_its_frame() {
    let (mut dac, mut spi, mut chip_select) = expect_frame(vec![0x02, 0xff, 0xff, 0xf0]);
    let tx = dac.write_input_register_update_all(Address::AllDacs, 0xffff);
    send(&mut dac, tx).unwrap();
    spi.done();
    chip_select.done();
}

#[test]
fn write_and_update_dac_channel_sends_its_frame() {
    let (mut dac, mut spi, mut chip_select) = expect_frame(vec![0x03, 0x08, 0x00, 0x00]);
    let tx = dac.write_and_update_dac_channel(Address::DacA, 0x8000);
    send(&mut dac, tx).unwrap();
    spi.done();
    chip_select.done();
}

#[test]
fn write_spi_frames_the_bytes_it_is_given() {
    let (mut dac, mut spi, mut chip_select) = expect_frame(vec![0x04, 0x00, 0x00, 0xff]);
    let tx = dac.write_spi([0x04, 0x00, 0x00, 0xff]);
    assert_eq!(tx, FramedWrite::begin([0x04, 0x00, 0x00, 0xff]));
    send(&mut dac, tx).unwrap();
    spi.done();
    chip_select.done();
}

#[test]
fn commands_return_fresh_framed_writes() {
    let mut dac = bring_up(AD5668::new(
        spi::Mock::new(&[]),
        pin::Mock::new(&[pin::Transaction::set(pin::State::High)]),
    ));
    let tx: FramedWrite<MockError> = dac.enable_internal_ref();
    assert_eq!(tx, FramedWrite::begin([0x08, 0x00, 0x00, 0x01]));
    let tx: FramedWrite<MockError> = dac.disable_internal_ref();
    assert_eq!(tx, FramedWrite::begin([0x08, 0x00, 0x00, 0x00]));
    let tx: FramedWrite<MockError> = dac.reset();
    assert_eq!(tx, FramedWrite::begin([0x07, 0x00, 0x00, 0x00]));
    let tx: FramedWrite<MockError> = dac.write_input_register(Address::DacE, 0x1234);
    assert_eq!(tx, FramedWrite::begin([0x00, 0x41, 0x23, 0x40]));
}

#[test]
fn chip_select_errors_inside_a_command_are_dropped() {
    let failure = MockError::Io(std::io::ErrorKind::BrokenPipe);
    let spi = spi::Mock::new(&[spi::Transaction::write(vec![0x07, 0x00, 0x00, 0x00])]);
    let chip_select = pin::Mock::new(&[
        pin::Transaction::set(pin::State::High),
        pin::Transaction::set(pin::State::Low).with_error(failure.clone()),
        pin::Transaction::set(pin::State::High).with_error(failure),
    ]);
    let mut spi_seen = spi.clone();
    let mut chip_select_seen = chip_select.clone();

    let mut dac = bring_up(AD5668::new(spi, chip_select));
    let tx = dac.reset();
    assert_eq!(send(&mut dac, tx), Ok(()));

    spi_seen.done();
    chip_select_seen.done();
}

#[derive(Debug, Clone, PartialEq)]
enum Seen {
    High,
    Low,
    Write(Vec<u8>),
}

struct LoggedLine {
    log: Rc<RefCell<Vec<Seen>>>,
}

impl OutputPin for LoggedLine {
    type Error = ();

    fn set_low(&mut self) -> Result<(), ()> {
        self.log.borrow_mut().push(Seen::Low);
        Ok(())
    }

    fn set_high(&mut self) -> Result<(), ()> {
        self.log.borrow_mut().push(Seen::High);
        Ok(())
    }
}

struct LoggedBus {
    log: Rc<RefCell<Vec<Seen>>>,
    fault: Option<u32>,
}

impl Write<u8> for LoggedBus {
    type Error = u32;

    fn write(&mut self, words: &[u8]) -> Result<(), u32> {
        self.log.borrow_mut().push(Seen::Write(words.to_vec()));
        match self.fault {
            Some(code) => Err(code),
            None => Ok(()),
        }
    }
}

fn logged(fault: Option<u32>) -> (AD5668<LoggedBus, LoggedLine>, Rc<RefCell<Vec<Seen>>>) {
    let log = Rc::new(RefCell::new(Vec::new()));
    let bus = LoggedBus { log: log.clone(), fault };
    let line = LoggedLine { log: log.clone() };
    (bring_up(AD5668::new(bus, line)), log)
}

#[test]
fn a_command_selects_writes_once_and_releases_in_that_order() {
    let (mut dac, log) = logged(None);
    let tx = dac.write_and_update_dac_channel(Address::DacB, 0x0ff0);
    assert_eq!(send(&mut dac, tx), Ok(()));
    assert_eq!(
        *log.borrow(),
        vec![Seen::High, Seen::Low, Seen::Write(vec![0x03, 0x10, 0xff, 0x00]), Seen::High],
    );
}

#[test]
fn a_failed_write_returns_its_error_and_chip_select_is_released() {
    let (mut dac, log) = logged(Some(0xbad));
    let tx = dac.reset();
    assert_eq!(send(&mut dac, tx), Err(0xbad));
    assert_eq!(
        *log.borrow(),
        vec![Seen::High, Seen::Low, Seen::Write(vec![0x07, 0x00, 0x00, 0x00]), Seen::High],
    );
}

#[test]
fn commands_follow_each_other_with_chip_select_high_in_between() {
    let (mut dac, log) = logged(None);
    let tx = dac.write_input_register(Address::DacA, 0x1111);
    send(&mut dac, tx).unwrap();
    let tx = dac.write_input_register_update_all(Address::DacB, 0x2222);
    send(&mut dac, tx).unwrap();
    assert_eq!(
        *log.borrow(),
        vec![
            Seen::High,
            Seen::Low,
            Seen::Write(vec![0x00, 0x01, 0x11, 0x10]),
            Seen::High,
            Seen::Low,
            Seen::Write(vec![0x02, 0x12, 0x22, 0x20]),
            Seen::High,
        ],
    );
}

#[test]
fn a_failed_write_is_not_tried_again() {
    let (mut dac, log) = logged(Some(1));
    let tx = dac.enable_internal_ref();
    assert_eq!(send(&mut dac, tx), Err(1));
    let writes = log.borrow().iter().filter(|seen| matches!(seen, Seen::Write(_))).count();
    assert_eq!(writes, 1);
}

#[test]
fn destroy_returns_the_handles_that_were_given() {
    let startup = AD5668::new(17u8, "line");
    let mut dac = startup.ready(Ok::<(), ()>(()));
    let _tx: FramedWrite<()> = dac.reset();
    assert_eq!(dac.destroy(), (17u8, "line"));
}

#[test]
fn parts_lend_out_the_handles() {
    let mut startup = AD5668::new(1u8, 2u16);
    *startup.chip_select() = 3;
    let mut dac = startup.ready(Err("ignored"));
    {
        let (spi, chip_select) = dac.parts();
        assert_eq!((*spi, *chip_select), (1, 3));
        *spi = 4;
    }
    assert_eq!(dac.destroy(), (4, 3));
}
