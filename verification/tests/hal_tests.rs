use ibex_demo_system_hal::gpio::dyn_pin::DynPin;
use ibex_demo_system_hal::gpio::pin::{DisabledState, PinState};
use ibex_demo_system_hal::gpio::static_pin::GpioA;
use ibex_demo_system_hal::gpio::{GpioRegisters, PortPins};
use ibex_demo_system_hal::pwm::{Pwm, PwmRegisters};
use ibex_demo_system_hal::serial::{Serial, UartRegisters};
use ibex_demo_system_hal::spi::{Delay, Spi, SpiEvent, SpiOperation, SpiRegisters};
use ibex_demo_system_hal::timer::{combine_halves, Cancel, Timer, TimerRegisters, WouldBlock};
use ibex_demo_system_hal::utils::Error;
use ibex_demo_system_hal::{ErasePin, GpioExt};

#[test]
fn it_works() {}

#[test]
fn static_pin_identity_reads_back() {
    let pins: PortPins<b'A'> = PortPins::new();
    assert_eq!(pins.pin0.id(), 0);
    assert_eq!(pins.pin0.port(), b'A');
    assert_eq!(pins.pin7.id(), 7);
    assert_eq!(pins.pin15.id(), 15);
    assert_eq!(pins.pin15.port(), b'A');
}

#[test]
fn dyn_pin_identity_reads_back_for_all_indices() {
    let mut index: u8 = 0;
    while index < 16 {
        let pin: DynPin<DisabledState> = DynPin::new(b'A', index);
        assert_eq!(pin.port(), b'A');
        assert_eq!(pin.id(), index);
        index += 1;
    }
}

#[test]
fn split_port_yields_disabled_pins() {
    let pins = GpioA.pins();
    assert_eq!(pins.pin4.id(), 4);
    let pins2 = GpioA.split();
    assert_eq!(pins2.pin11.id(), 11);
    assert_eq!(pins2.pin11.port(), b'A');
}

#[test]
fn output_pin_round_trip_in_output_register() {
    let mut regs = GpioRegisters::new();
    let pins: PortPins<b'A'> = PortPins::new();
    let pin = pins.pin3.into_output();
    pin.set_high(&mut regs).unwrap();
    assert_eq!(regs.output & (1 << 3), 1 << 3);
    pin.set_low(&mut regs).unwrap();
    assert_eq!(regs.output & (1 << 3), 0);
    pin.set_state(&mut regs, PinState::High).unwrap();
    assert_eq!(regs.output & (1 << 3), 1 << 3);
}

#[test]
fn erased_pin_keeps_identity_and_drives_register() {
    let pins: PortPins<b'A'> = PortPins::new();
    let erased = pins.pin5.into_output().erase();
    assert_eq!(erased.port(), b'A');
    assert_eq!(erased.id(), 5);
    let other = pins.pin9.into_dynamic();
    assert_eq!(other.id(), 9);

    let mut regs = GpioRegisters::new();
    erased.set_high(&mut regs).unwrap();
    assert_eq!(regs.output, 1 << 5);
}

#[test]
fn setting_pin_three_leaves_every_other_bit() {
    let mut regs = GpioRegisters::new();
    regs.output = 0b1010_0101_1100_0011;
    let before = regs.output;
    let pin: DynPin<DisabledState> = DynPin::new(b'A', 3);
    let pin = pin.into_output();
    pin.set_high(&mut regs).unwrap();
    assert_eq!(regs.output & (1 << 3), 1 << 3);
    let mut j: u8 = 0;
    while j < 16 {
        if j != 3 {
            assert_eq!(regs.output & (1u32 << j), before & (1u32 << j));
        }
        j += 1;
    }
    pin.set_low(&mut regs).unwrap();
    assert_eq!(regs.output, before & !(1 << 3));
}

#[test]
fn input_pin_reads_input_register() {
    let mut regs = GpioRegisters::new();
    regs.input = 1 << 6;
    let pins: PortPins<b'A'> = PortPins::new();
    let pin = pins.pin6.into_input();
    assert_eq!(pin.is_high(&regs), Ok(true));
    assert_eq!(pin.is_low(&regs), Ok(false));
    let other = pins.pin2.into_input();
    assert_eq!(other.is_high(&regs), Ok(false));
    regs.input = 0;
    assert_eq!(pin.is_high(&regs), Ok(false));
}

#[test]
fn pin_direction_transitions_keep_identity() {
    let pin: DynPin<DisabledState> = DynPin::new(b'A', 12);
    let pin = pin.into_input();
    assert_eq!(pin.id(), 12);
    let pin = pin.into_output();
    assert_eq!(pin.id(), 12);
    let pin = pin.into_input();
    assert_eq!(pin.port(), b'A');
}

#[test]
fn double_read_rejects_torn_pair() {
    let h: u32 = 7;
    // Low half about to roll over: a torn observation must be discarded,
    // never combined into (h + 1, pre-rollover low).
    assert_eq!(combine_halves(h, 0xFFFF_FFFF, h + 1), None);
    // The retry then sees a consistent pair.
    assert_eq!(combine_halves(h + 1, 0x0000_0000, h + 1), Some(8u64 << 32));
    // A stable pair combines exactly.
    assert_eq!(
        combine_halves(h, 0xFFFF_FFFF, h),
        Some((7u64 << 32) | 0xFFFF_FFFF)
    );
}

#[test]
fn counter_reconstruction_is_exact() {
    let mut timer = Timer::new(TimerRegisters::new(), 50_000_000);
    assert_eq!(timer.get_counter(), 0);
    assert_eq!(timer.get_cmp(), u64::MAX);
    timer.device.mtimeh = 7;
    timer.device.mtimel = 0xFFFF_FFFF;
    assert_eq!(timer.get_counter(), (7u64 << 32) | 0xFFFF_FFFF);
    timer.set_counter(0x0123_4567_89AB_CDEF);
    assert_eq!(timer.get_counter(), 0x0123_4567_89AB_CDEF);
    timer.set_cmp(0xFEDC_BA98_7654_3210);
    assert_eq!(timer.get_cmp(), 0xFEDC_BA98_7654_3210);
    // The counter halves were not disturbed by the compare write.
    assert_eq!(timer.get_counter(), 0x0123_4567_89AB_CDEF);
}

#[test]
fn countdown_round_trip_at_one_megahertz() {
    // 1 MHz: one tick is 1000 ns, so 5000 ns is 5 ticks.
    let mut timer = Timer::new(TimerRegisters::new(), 1_000_000);
    let mut cd = timer.new_count_down();
    cd.start(&timer, 5000);
    assert_eq!(cd.wait(&timer), Err(WouldBlock));
    timer.set_counter(4);
    assert_eq!(cd.wait(&timer), Err(WouldBlock));
    timer.set_counter(5);
    assert_eq!(cd.wait(&timer), Ok(()));
    // The deadline stays armed: later polls still answer ready.
    timer.set_counter(9);
    assert_eq!(cd.wait(&timer), Ok(()));
    assert_eq!(cd.cancel(), Ok(()));
}

#[test]
fn countdown_subtick_duration_rounds_down() {
    let mut timer = Timer::new(TimerRegisters::new(), 1_000_000);
    timer.set_counter(10);
    let mut cd = timer.new_count_down();
    // 999 ns is less than one 1000 ns tick: the deadline is now.
    cd.start(&timer, 999);
    assert_eq!(cd.wait(&timer), Ok(()));
}

#[test]
fn spi_write_bursts_between_chip_select_edges() {
    let mut spi = Spi::new(SpiRegisters::new(4));
    spi.write(&vec![1, 2, 3]).unwrap();
    assert_eq!(
        spi.device.wire,
        vec![
            SpiEvent::CsLow,
            SpiEvent::Data(1),
            SpiEvent::Data(2),
            SpiEvent::Data(3),
            SpiEvent::CsHigh,
        ]
    );
    assert!(spi.is_tx_fifo_empty());
}

#[test]
fn spi_write_longer_than_fifo_pushes_every_byte() {
    // A FIFO of depth 2 forces the busy-wait path: all five bytes must
    // still reach the bus, in order, inside one chip-select window.
    let mut spi = Spi::new(SpiRegisters::new(2));
    spi.write(&vec![10, 20, 30, 40, 50]).unwrap();
    assert_eq!(
        spi.device.wire,
        vec![
            SpiEvent::CsLow,
            SpiEvent::Data(10),
            SpiEvent::Data(20),
            SpiEvent::Data(30),
            SpiEvent::Data(40),
            SpiEvent::Data(50),
            SpiEvent::CsHigh,
        ]
    );
    assert!(spi.is_tx_fifo_empty());
}

#[test]
fn spi_tx_write_fills_fifo_and_reports_status() {
    let mut spi = Spi::new(SpiRegisters::new(2));
    assert!(spi.is_tx_fifo_empty());
    assert!(!spi.is_tx_fifo_full());
    spi.tx_write(0xA1);
    spi.tx_write(0xA2);
    assert!(spi.is_tx_fifo_full());
    // A third push busy-waits: the transmitter first shifts 0xA1 out.
    spi.tx_write(0xA3);
    assert_eq!(spi.device.wire, vec![SpiEvent::Data(0xA1)]);
    assert_eq!(spi.device.tx_fifo, vec![0xA2, 0xA3]);
}

#[test]
fn spi_read_is_not_supported_and_touches_nothing() {
    let mut spi = Spi::new(SpiRegisters::new(4));
    let mut buf = vec![5, 6, 7];
    assert_eq!(spi.read(&mut buf), Err(Error::NotSupported));
    assert_eq!(buf, vec![5, 6, 7]);
    assert_eq!(spi.device.wire, Vec::<SpiEvent>::new());
}

#[test]
fn spi_transfer_fills_sentinel_prefix() {
    let mut spi = Spi::new(SpiRegisters::new(4));
    let mut read = vec![1, 2, 3, 4, 5];
    spi.transfer(&mut read, &vec![9, 8, 7]).unwrap();
    assert_eq!(read, vec![0xFF, 0xFF, 0xFF, 4, 5]);
    assert_eq!(
        spi.device.wire,
        vec![
            SpiEvent::CsLow,
            SpiEvent::Data(9),
            SpiEvent::Data(8),
            SpiEvent::Data(7),
            SpiEvent::CsHigh,
        ]
    );
}

#[test]
fn spi_transfer_in_place_overwrites_whole_buffer() {
    let mut spi = Spi::new(SpiRegisters::new(4));
    let mut words = vec![11, 22];
    spi.transfer_in_place(&mut words).unwrap();
    assert_eq!(words, vec![0xFF, 0xFF]);
    assert_eq!(
        spi.device.wire,
        vec![
            SpiEvent::CsLow,
            SpiEvent::Data(11),
            SpiEvent::Data(22),
            SpiEvent::CsHigh,
        ]
    );
}

#[test]
fn spi_transaction_runs_steps_in_order() {
    let mut spi = Spi::new_with_delay(SpiRegisters::new(4), Delay);
    let mut ops = vec![
        SpiOperation::Write(vec![1, 2]),
        SpiOperation::DelayNs(50),
        SpiOperation::TransferInPlace(vec![7, 8, 9]),
    ];
    assert_eq!(spi.transaction(&mut ops), Ok(()));
    assert_eq!(
        spi.device.wire,
        vec![
            SpiEvent::CsLow,
            SpiEvent::Data(1),
            SpiEvent::Data(2),
            SpiEvent::CsHigh,
            SpiEvent::CsLow,
            SpiEvent::Data(7),
            SpiEvent::Data(8),
            SpiEvent::Data(9),
            SpiEvent::CsHigh,
        ]
    );
    match &ops[2] {
        SpiOperation::TransferInPlace(words) => assert_eq!(words, &vec![0xFF, 0xFF, 0xFF]),
        _ => panic!("transaction changed the step's kind"),
    }
}

#[test]
fn spi_transaction_delay_without_provider_fails() {
    let mut spi = Spi::new(SpiRegisters::new(4));
    let mut ops = vec![
        SpiOperation::Write(vec![9]),
        SpiOperation::DelayNs(100),
        SpiOperation::Write(vec![8]),
    ];
    assert_eq!(spi.transaction(&mut ops), Err(Error::NotSupported));
    // The first step ran; the failing delay stopped everything after it.
    assert_eq!(
        spi.device.wire,
        vec![SpiEvent::CsLow, SpiEvent::Data(9), SpiEvent::CsHigh]
    );
    match &ops[2] {
        SpiOperation::Write(words) => assert_eq!(words, &vec![8]),
        _ => panic!("unexecuted step must come back unchanged"),
    }
}

#[test]
fn spi_transaction_read_step_fails() {
    let mut spi = Spi::new_with_delay(SpiRegisters::new(4), Delay);
    let mut ops = vec![SpiOperation::Read(vec![0, 0])];
    assert_eq!(spi.transaction(&mut ops), Err(Error::NotSupported));
    assert_eq!(spi.device.wire, Vec::<SpiEvent>::new());
    match &ops[0] {
        SpiOperation::Read(words) => assert_eq!(words, &vec![0, 0]),
        _ => panic!("failing read must come back unchanged"),
    }
}

#[test]
fn uart_read_with_nothing_available_returns_zero() {
    let mut serial = Serial::new(UartRegisters::new(8));
    let mut buf = vec![0u8; 10];
    assert_eq!(serial.read(&mut buf), 0);
    assert_eq!(buf, vec![0u8; 10]);
    assert_eq!(serial.read_ready(), Ok(false));
}

#[test]
fn uart_read_three_of_ten_fills_only_first_slots() {
    let mut serial = Serial::new(UartRegisters::new(8));
    serial.device.receive_byte(0xAA);
    serial.device.receive_byte(0xBB);
    serial.device.receive_byte(0xCC);
    assert_eq!(serial.read_ready(), Ok(true));
    let mut buf = vec![0u8; 10];
    let n = serial.read(&mut buf);
    assert_eq!(n, 3);
    assert_eq!(&buf[..3], &[0xAA, 0xBB, 0xCC][..]);
    assert_eq!(&buf[3..], &[0u8; 7][..]);
    // The bytes were consumed: a second read finds nothing.
    assert_eq!(serial.read(&mut buf), 0);
}

#[test]
fn uart_read_stops_at_buffer_length() {
    let mut serial = Serial::new(UartRegisters::new(8));
    serial.device.receive_byte(1);
    serial.device.receive_byte(2);
    serial.device.receive_byte(3);
    let mut buf = vec![0u8; 2];
    assert_eq!(serial.read(&mut buf), 2);
    assert_eq!(buf, vec![1, 2]);
    let mut rest = vec![0u8; 2];
    assert_eq!(serial.read(&mut rest), 1);
    assert_eq!(rest, vec![3, 0]);
}

#[test]
fn uart_write_pushes_to_transmit_path_in_order() {
    let mut serial = Serial::new(UartRegisters::new(2));
    serial.write(b'h');
    serial.write(b'i');
    assert_eq!(serial.write_ready(), Ok(false));
    // The FIFO is full: the next write busy-waits while the transmitter
    // shifts the oldest byte onto the line.
    serial.write(b'!');
    assert_eq!(serial.device.tx_wire, vec![b'h']);
    assert_eq!(serial.device.tx_fifo, vec![b'i', b'!']);
    assert_eq!(serial.flush(), Ok(()));
}

#[test]
fn uart_write_all_keeps_order() {
    let mut serial = Serial::new(UartRegisters::new(4));
    serial.write_all(&vec![10, 20, 30, 40, 50, 60]);
    let mut path = serial.device.tx_wire.clone();
    path.extend_from_slice(&serial.device.tx_fifo);
    assert_eq!(path, vec![10, 20, 30, 40, 50, 60]);
}

#[test]
fn pwm_period_and_duty_round_trip() {
    let mut pwm = Pwm::new(PwmRegisters::new());
    // The constructor programs the default period of 255 ticks.
    assert_eq!(pwm.get_period(), 255);
    assert_eq!(pwm.device.counter, 255);
    pwm.set_period(255);
    pwm.set_duty_cycle(128).unwrap();
    assert_eq!(pwm.device.width, 128);
    assert_eq!(pwm.get_period(), 255);
    assert_eq!(pwm.get_duty(), 128);
    assert_eq!(pwm.max_duty_cycle(), 255);
}

#[test]
fn pwm_duty_above_period_is_not_rejected() {
    let mut pwm = Pwm::new(PwmRegisters::new());
    pwm.set_period(100);
    assert_eq!(pwm.set_duty_cycle(60000), Ok(()));
    assert_eq!(pwm.get_duty(), 60000);
    // The period cache is read back, not the register.
    assert_eq!(pwm.get_period(), 100);
    assert_eq!(pwm.max_duty_cycle(), 100);
}

#[test]
fn uart_write_nonblocking_stops_at_full_fifo() {
    let mut serial = Serial::new(UartRegisters::new(2));
    let n = serial.write_nonblocking(&vec![1, 2, 3, 4, 5]);
    assert_eq!(n, 2);
    assert_eq!(serial.device.tx_fifo, vec![1, 2]);
    assert_eq!(serial.device.tx_wire, Vec::<u8>::new());
    // No room left: a second attempt queues nothing and does not block.
    assert_eq!(serial.write_nonblocking(&vec![9]), 0);
}
