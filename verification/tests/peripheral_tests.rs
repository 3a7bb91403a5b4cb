use lc3_tm4c::flash::{
    erase_address, erase_outcome, keep_filling_buffer, page_word_address, program_outcome,
    write_buffer_block, write_buffer_slot, FLASH_ERROR,
};
use lc3_tm4c::lc3_peripherals::{AdcPin, AdcReadError, AdcState, PwmPin, PwmState, TimerId, TimerMode, TimerState};
use lc3_tm4c::peripherals::pwm::{compare_value, enable_bits, PwmShim};
use lc3_tm4c::peripherals_generic::adc::{converter_for, generic_adc_res, read_result, NO_SAMPLE};
use lc3_tm4c::peripherals_generic::dma::{ChannelRegisters, DmaChannel, Serial};
use lc3_tm4c::peripherals_generic::pwm::{Lc3Pwm, PwmCall};
use lc3_tm4c::peripherals_tm4c::adc::{mux_select, sample_to_reading, AdcShim, SetError, State as AdcPinState};
use lc3_tm4c::peripherals_tm4c::clock::Tm4cClock;
use lc3_tm4c::peripherals_tm4c::dma_impl::{
    tm4c_uart_dma_ctrl, DMAStatus, UART0_DATA_ADDRESS, UART0_RX_CONTROL_WORD,
};
use lc3_tm4c::peripherals_tm4c::flash::{
    command_word, erase_sector_op, flash_key, program_data_ops, write_word_op, EraseAddrValid,
    FlashOp, WriteAddrValid, FLASH_FMC_ERASE, FLASH_FMC_WRITE, FLASH_FMC_WRKEY, FLASH_FMC_WRKEY2,
    MAX_WRITABLE_WORDS,
};
use lc3_tm4c::peripherals_tm4c::pwm as tm4c_pwm;
use lc3_tm4c::peripherals_tm4c::timers::{reload_value, tamr_value, TimersShim, BUS_CLOCK_HZ};

#[test]
fn pwm_compare_value_scales_duty() {
    assert_eq!(compare_value(128, 256), 128);
    assert_eq!(compare_value(255, 1000), 996);
    assert_eq!(compare_value(0, 1000), 0);
    assert_eq!(compare_value(64, 0x00FF_FFFF), 0x003F_FFFF);
}

#[test]
fn pwm_enable_bits() {
    assert_eq!(enable_bits(0b100, 1, true), 0b101);
    assert_eq!(enable_bits(0b111, 2, false), 0b101);
}

#[test]
fn pwm_shim_records_state_and_duty() {
    let mut p = PwmShim::new();
    assert_eq!(p.get_state(PwmPin::P0), PwmState::Disabled);
    assert_eq!(p.get_duty_cycle(PwmPin::P1), 0);
    assert_eq!(p.set_state(PwmPin::P1, PwmState::Enabled(20)), Ok(()));
    assert_eq!(p.get_pin_state(PwmPin::P1), PwmState::Enabled(20));
    assert_eq!(p.get_state(PwmPin::P0), PwmState::Disabled);
    assert_eq!(p.set_duty_cycle(PwmPin::P0, 77), Ok(()));
    assert_eq!(p.get_duty_cycle(PwmPin::P0), 77);
    assert_eq!(p.get_duty_cycle(PwmPin::P1), 0);
    assert!(!p.get_pin(PwmPin::P0));
}

#[test]
fn tm4c_pwm_records_state_and_duty() {
    let mut p = tm4c_pwm::PwmShim::new();
    p.set_state(PwmPin::P0, PwmState::Enabled(3));
    p.set_duty_cycle(PwmPin::P1, 200);
    assert_eq!(p.get_state(PwmPin::P0), PwmState::Enabled(3));
    assert_eq!(p.get_pin_state(PwmPin::P1), PwmState::Disabled);
    assert_eq!(p.get_duty_cycle(PwmPin::P1), 200);
    assert_eq!(tm4c_pwm::enable_mask(PwmPin::P0), 1);
    assert_eq!(tm4c_pwm::enable_mask(PwmPin::P1), 2);
}

#[test]
fn generic_pwm_calls() {
    let mut p = Lc3Pwm { pwm: (), pins: [(), ()], pin_states: [PwmState::Disabled; 2], pwm_duties: [0; 2] };
    assert_eq!(p.set_state(PwmPin::P0, PwmState::Enabled(9)), PwmCall::Enable(0));
    assert_eq!(p.set_state(PwmPin::P0, PwmState::Disabled), PwmCall::Disable(0));
    assert_eq!(p.set_state(PwmPin::P1, PwmState::Enabled(9)), PwmCall::Enable(1));
    assert_eq!(p.set_state(PwmPin::P1, PwmState::Disabled), PwmCall::Enable(1));
    assert_eq!(p.get_state(PwmPin::P1), PwmState::Disabled);
    assert_eq!(p.set_duty_cycle(PwmPin::P1, 40), 1);
    assert_eq!(p.get_duty_cycle(PwmPin::P1), 40);
    p.pwm_duties[0] = 0x1FF;
    assert_eq!(p.get_duty_cycle(PwmPin::P0), 0xFF);
}

#[test]
fn adc_mux_selects_the_analog_input() {
    assert_eq!(mux_select(0xFFFF_FFFF, AdcPin::A0), 0xFFFF_FFF0);
    assert_eq!(mux_select(0x1234_5679, AdcPin::A4), 0x1234_5678);
    assert_eq!(mux_select(0, AdcPin::A5), 9);
    assert_eq!(mux_select(0xA, AdcPin::A3), 3);
}

#[test]
fn adc_reading_is_the_top_byte_of_the_sample() {
    assert_eq!(sample_to_reading(0xFFF), 0xFF);
    assert_eq!(sample_to_reading(0xF0F), 0xF0);
    assert_eq!(sample_to_reading(0xFFFF_F010), 0x01);
    assert_eq!(sample_to_reading(0), 0);
}

#[test]
fn adc_shim_states_values_and_reads() {
    let mut a = AdcShim::new();
    assert_eq!(a.get_state(AdcPin::A2), AdcState::Disabled);
    assert_eq!(a.set_value(AdcPin::A2, 5), Err(SetError((AdcPin::A2, AdcState::Disabled))));
    assert_eq!(a.read(AdcPin::A2, 0x800), Err(AdcReadError((AdcPin::A2, AdcState::Disabled))));
    assert_eq!(a.read_request(AdcPin::A2), Err(AdcReadError((AdcPin::A2, AdcState::Disabled))));
    assert_eq!(a.set_state(AdcPin::A2, AdcState::Enabled), Ok(()));
    assert_eq!(a.states[2], AdcPinState::Enabled(0));
    assert_eq!(a.set_value(AdcPin::A2, 5), Ok(()));
    assert_eq!(a.states[2], AdcPinState::Enabled(5));
    assert_eq!(a.read_request(AdcPin::A2), Ok(2));
    assert_eq!(a.read(AdcPin::A2, 0x800), Ok(0x80));
    a.set_state(AdcPin::A5, AdcState::Enabled).unwrap();
    assert_eq!(a.read_request(AdcPin::A5), Ok(9));
    a.set_state(AdcPin::A2, AdcState::Disabled).unwrap();
    assert_eq!(a.get_state(AdcPin::A2), AdcState::Disabled);
}

#[test]
fn generic_adc_results() {
    let r = generic_adc_res::from(0x1234u32);
    let wide: u32 = generic_adc_res::from(0x1234u32).into();
    let narrow: u8 = r.into();
    assert_eq!(wide, 0x1234);
    assert_eq!(narrow, 0x34);
    assert_eq!(converter_for(AdcPin::A3), Some(3));
    assert_eq!(converter_for(AdcPin::A4), None);
    assert_eq!(read_result(AdcPin::A1, Some(42)), Ok(42));
    assert_eq!(read_result(AdcPin::A1, None), Ok(NO_SAMPLE));
    assert_eq!(read_result(AdcPin::A5, Some(42)), Ok(8));
}

#[test]
fn timer_register_values() {
    assert_eq!(reload_value(1), 80_000);
    assert_eq!(reload_value(1000), 80_000_000);
    assert_eq!(reload_value(53_687), 4_294_960_000);
    assert_eq!(tamr_value(TimerMode::SingleShot), 1);
    assert_eq!(tamr_value(TimerMode::Repeated), 2);
}

#[test]
fn timers_shim_states_and_timeouts() {
    let mut t = TimersShim::new();
    assert_eq!(t.clock_freq, BUS_CLOCK_HZ);
    assert_eq!(t.get_state(TimerId::T0), TimerState::Disabled);
    assert_eq!(t.get_mode(TimerId::T1), TimerMode::SingleShot);
    t.set_mode(TimerId::T1, TimerMode::Repeated);
    assert_eq!(t.get_mode(TimerId::T1), TimerMode::SingleShot);
    t.set_state(TimerId::T0, TimerState::WithPeriod(250));
    assert_eq!(t.get_state(TimerId::T0), TimerState::WithPeriod(250));
    assert!(!t.interrupt_occurred(TimerId::T0));
    t.record_timeout(TimerId::T0);
    assert!(t.interrupt_occurred(TimerId::T0));
    assert!(!t.interrupt_occurred(TimerId::T1));
    t.reset_interrupt_flag(TimerId::T0);
    assert!(t.interrupt_occurred(TimerId::T0));
    t.register_interrupt_flags([false; 2]);
    assert!(!t.interrupt_occurred(TimerId::T0));
    assert!(t.interrupts_enabled(TimerId::T1));
    assert_eq!(TimersShim::default(16_000_000).clock_freq, 16_000_000);
}

#[test]
fn clock_counts_milliseconds_and_wraps() {
    let mut c = Tm4cClock::new();
    assert_eq!(c.get_milliseconds(), 0);
    c.tick();
    c.tick();
    assert_eq!(c.get_milliseconds(), 2);
    c.set_milliseconds(0xFFFF);
    c.tick();
    assert_eq!(c.get_milliseconds(), 0);
}

#[test]
fn dma_status_flags() {
    let mut s = DMAStatus { status: 7 };
    s.set_in_progress();
    assert_eq!(s.read_status(), 0);
    s.set_complete();
    assert_eq!(s.read_status(), 1);
}

#[test]
fn dma_receive_channel_control_words() {
    let mut d = tm4c_uart_dma_ctrl::new(());
    assert!(d.channel_control.0.iter().all(|w| *w == 0));
    d.dma_device_init();
    assert_eq!(d.channel_control.0[32], UART0_DATA_ADDRESS);
    assert_eq!(d.channel_control.0[34], UART0_RX_CONTROL_WORD);
    assert_eq!(UART0_RX_CONTROL_WORD, 0x0C00_0311);
    d.dma_set_destination_address(0x2000_0100);
    d.dma_set_transfer_length(16);
    assert_eq!(d.channel_control.0[33], 0x2000_010F);
    d.dma_start();
    assert!(d.dma_in_progress());
    d.dma_complete();
    assert!(!d.dma_in_progress());
    d.dma_start();
    assert!(d.dma_in_progress());
}

#[test]
fn serial_reads_oldest_byte_first() {
    let mut s = Serial { received: vec![1, 2], sent: vec![], channel: ChannelRegisters {
        initialized: false, source: 0, source_inc: false, destination: 0,
        destination_inc: false, transfer_length: 0, running: false } };
    assert_eq!(s.read(), Ok(1));
    assert_eq!(s.read(), Ok(2));
    assert!(s.received.is_empty());
    assert_eq!(s.write(9), Ok(()));
    assert_eq!(s.sent, vec![9]);
}

#[test]
fn serial_dma_transfers() {
    let regs = ChannelRegisters {
        initialized: false, source: 0, source_inc: false, destination: 0,
        destination_inc: false, transfer_length: 0, running: false };
    let mut s = Serial { received: vec![], sent: vec![], channel: regs };
    let mut s2 = Serial { received: vec![], sent: vec![], channel: regs };
    let mut buf2 = [0u8; 2];
    s.dma_set_destination_address(0x100, true);
    s.dma_set_source_address(0x200, false);
    let mut buf = [0u8; 5];
    let t = s.read_exact(&mut buf);
    assert!(!t.is_done());
    assert_eq!(s.channel.transfer_length, 5);
    assert!(s.dma_in_progress());
    assert_eq!(s.channel.destination, 0x100);
    s.dma_stop();
    assert!(!s.dma_in_progress());
    let data = [1u8, 2, 3];
    let w = s.dma_write_all(&data);
    assert!(!w.is_done());
    assert_eq!(w.channel.transfer_length, 3);
    assert!(w.channel.initialized && w.channel.running);
    assert_eq!(w.channel.destination, 0x100);
    let mut w = w;
    w.finish();
    assert!(w.is_done());
    assert_eq!(w.wait(), &[1u8, 2, 3][..]);
    let mut r = s2.read_exact(&mut buf2);
    r.finish();
    assert!(r.is_done());
    assert_eq!(r.wait().len(), 2);
}

#[test]
fn flash_storage_erase_address() {
    assert_eq!(erase_address(0), 0x2_0000);
    assert_eq!(erase_address(0x7FF), 0x2_0400);
    assert_eq!(erase_address(0x1_0400), 0x3_0400);
}

#[test]
fn flash_outcomes_from_raw_status() {
    assert_eq!(erase_outcome(0), Ok(()));
    assert_eq!(erase_outcome(0x800), Err(FLASH_ERROR));
    assert_eq!(erase_outcome(0x400), Ok(()));
    assert_eq!(program_outcome(0x400), Err(1));
    assert_eq!(program_outcome(0x2000), Err(1));
    assert_eq!(program_outcome(0x800), Ok(()));
}

#[test]
fn flash_page_and_buffer_addresses() {
    assert_eq!(page_word_address(0x5FF, 0), 0x2_0400);
    assert_eq!(page_word_address(0x400, 255), 0x2_07FC);
    assert_eq!(write_buffer_block(0x2_00C4), 0x2_0080);
    assert_eq!(write_buffer_slot(0x2_00C4), 17);
    assert!(keep_filling_buffer(3, 0, 0x2_0080));
    assert!(!keep_filling_buffer(3, 1, 0x2_0080));
    assert!(keep_filling_buffer(3, 1, 0x2_0084));
    assert!(!keep_filling_buffer(0, 0, 0x2_0084));
}

#[test]
fn tm4c_flash_address_rules() {
    assert!(WriteAddrValid(0x3_FFFC));
    assert!(!WriteAddrValid(0x4_0000));
    assert!(!WriteAddrValid(0x102));
    assert!(EraseAddrValid(0x3_FC00));
    assert!(!EraseAddrValid(0x3_FE00));
    assert_eq!(write_word_op(8, 5), Some(FlashOp::Write { addr: 8, data: 5 }));
    assert_eq!(write_word_op(9, 5), None);
    assert_eq!(erase_sector_op(0x800), Some(FlashOp::Erase { addr: 0x800 }));
    assert_eq!(erase_sector_op(0x801), None);
}

#[test]
fn tm4c_flash_keys_and_commands() {
    assert_eq!(flash_key(0x10), FLASH_FMC_WRKEY);
    assert_eq!(flash_key(0x0F), FLASH_FMC_WRKEY2);
    assert_eq!(command_word(0x10, FLASH_FMC_WRITE), 0xA442_0001);
    assert_eq!(command_word(0, FLASH_FMC_ERASE), 0x71D5_0002);
}

#[test]
fn tm4c_flash_program_data_writes_each_valid_word() {
    let mut data = [0u32; MAX_WRITABLE_WORDS];
    for (i, d) in data.iter_mut().enumerate() {
        *d = i as u32;
    }
    let ops = program_data_ops(0x100, &data);
    assert_eq!(ops.len(), MAX_WRITABLE_WORDS);
    assert_eq!(ops[0], FlashOp::Write { addr: 0x100, data: 0 });
    assert_eq!(ops[511], FlashOp::Write { addr: 0x100 + 4 * 511, data: 511 });
    let near_end = program_data_ops(0x3_FFF0, &data);
    assert_eq!(near_end.len(), 4);
    assert_eq!(near_end[3], FlashOp::Write { addr: 0x3_FFFC, data: 3 });
    assert!(program_data_ops(2, &data).is_empty());
}
