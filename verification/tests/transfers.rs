use stm32f103xx_usb::bus::{ForceReset, UsbBus};
use stm32f103xx_usb::endpoint::{pack_words, unpack_bytes, Endpoint};
use stm32f103xx_usb::registers::{
    clear_ctr_tx_word, configure_word, ctr_rx, ctr_tx, rearm_rx_word, set_stat_rx_word,
    set_stat_tx_word, setup, stat_rx, stat_tx, status_from_code, status_to_code, type_to_code,
    written, EP_CTR_RX, EP_CTR_TX, EP_DTOG_RX, EP_DTOG_TX, EP_SETUP,
};
use stm32f103xx_usb::types::{
    EndpointAddress, EndpointDirection, EndpointStatus, EndpointType, UsbError,
};

const STATUSES: [EndpointStatus; 4] = [
    EndpointStatus::Disabled,
    EndpointStatus::Stall,
    EndpointStatus::Nak,
    EndpointStatus::Valid,
];

fn bus_with_bulk_pair() -> UsbBus {
    let mut bus = UsbBus::usb();
    bus.alloc_ep(EndpointDirection::In, None, EndpointType::Bulk, 4, 0).unwrap();
    bus.alloc_ep(EndpointDirection::Out, None, EndpointType::Bulk, 64, 0).unwrap();
    bus.enable(0x0003);
    bus
}

fn ep_in(i: usize) -> EndpointAddress {
    EndpointAddress::from_parts(i, EndpointDirection::In)
}

fn ep_out(i: usize) -> EndpointAddress {
    EndpointAddress::from_parts(i, EndpointDirection::Out)
}

#[test]
fn status_codes() {
    assert_eq!(status_to_code(EndpointStatus::Disabled), 0);
    assert_eq!(status_to_code(EndpointStatus::Stall), 1);
    assert_eq!(status_to_code(EndpointStatus::Nak), 2);
    assert_eq!(status_to_code(EndpointStatus::Valid), 3);
    for s in STATUSES.iter() {
        assert_eq!(status_from_code(status_to_code(*s)), *s);
    }
    assert_eq!(type_to_code(EndpointType::Bulk), 0);
    assert_eq!(type_to_code(EndpointType::Control), 1);
    assert_eq!(type_to_code(EndpointType::Isochronous), 2);
    assert_eq!(type_to_code(EndpointType::Interrupt), 3);
}

#[test]
fn register_fields_are_read() {
    let reg: u16 = 0x9a21;
    assert!(ctr_rx(reg));
    assert!(!ctr_tx(reg));
    assert!(setup(reg));
    assert_eq!(stat_rx(reg), EndpointStatus::Stall);
    assert_eq!(stat_tx(reg), EndpointStatus::Nak);
    assert!(ctr_tx(0x0080));
    assert!(!ctr_rx(0x0080));
    assert!(!setup(0x0080));
}

#[test]
fn register_write_semantics() {
    assert_eq!(written(0x0000, 0x070f), 0x070f);
    assert_eq!(written(0x8080, 0x8080), 0x8080);
    assert_eq!(written(0x8080, 0x0000), 0x0000);
    assert_eq!(written(0x0000, 0x8080), 0x0000);
    assert_eq!(written(0x7070, 0x7070), 0x0000);
    assert_eq!(written(0x0000, 0x7070), 0x7070);
    assert_eq!(written(0x0800, 0x0000), 0x0800);
    assert_eq!(written(0x0000, 0x0800), 0x0000);
}

#[test]
fn status_words_change_one_field_only() {
    for reg in [0x0000u16, 0xffff, 0x9a21, 0x3030, 0x4040, 0x1234, 0xc0c0] {
        for s in STATUSES.iter() {
            let after = written(reg, set_stat_tx_word(reg, *s));
            assert_eq!(stat_tx(after), *s);
            assert_eq!(after & !0x0030, reg & !0x0030);
            let after = written(reg, set_stat_rx_word(reg, *s));
            assert_eq!(stat_rx(after), *s);
            assert_eq!(after & !0x3000, reg & !0x3000);
            let after = written(reg, rearm_rx_word(reg, *s));
            assert_eq!(stat_rx(after), *s);
            assert_eq!(after & !0xb000, reg & !0xb000);
            assert!(!ctr_rx(after));
        }
        let after = written(reg, clear_ctr_tx_word(reg));
        assert_eq!(after, reg & !EP_CTR_TX);
    }
    assert_eq!(set_stat_tx_word(0x0020, EndpointStatus::Valid), 0x8090);
    assert_eq!(clear_ctr_tx_word(0x0681), 0x8601);
}

#[test]
fn configure_word_sets_the_whole_register() {
    for reg in [0x0000u16, 0xffff, 0x7070, 0x8880] {
        let w = configure_word(reg, EndpointType::Interrupt, 5, EndpointStatus::Valid, EndpointStatus::Nak);
        assert_eq!(written(reg, w), (reg & EP_SETUP) | 0x3625);
    }
}

#[test]
fn reset_configures_every_typed_slot_and_is_idempotent() {
    let mut bus = UsbBus::usb();
    bus.alloc_ep(EndpointDirection::Out, Some(ep_out(0)), EndpointType::Control, 8, 0).unwrap();
    bus.alloc_ep(EndpointDirection::In, Some(ep_in(0)), EndpointType::Control, 8, 0).unwrap();
    bus.alloc_ep(EndpointDirection::In, None, EndpointType::Interrupt, 8, 0).unwrap();
    bus.enable(0x0003);

    let mut regs: [u16; 8] = [0xf0f0, EP_DTOG_RX | EP_DTOG_TX | EP_CTR_RX, 0x1234, 0, 0, 0, 0, 0];
    let plan = bus.reset(&regs);
    assert_eq!(plan.istr_write, 0);
    assert_eq!(plan.daddr_write, 0x0080);
    assert_eq!(plan.endpoints.len(), 8);
    for i in 0..8 {
        match plan.endpoints[i] {
            Some(s) => regs[i] = written(regs[i], s.reg_write),
            None => assert!(i >= 2),
        }
    }
    assert_eq!(regs, [0x3220, 0x0621, 0x1234, 0, 0, 0, 0, 0]);
    let s0 = plan.endpoints[0].unwrap();
    assert_eq!(s0.rx, Some((64, 0x1000)));
    assert_eq!(s0.tx, Some((72, 0)));
    let s1 = plan.endpoints[1].unwrap();
    assert_eq!(s1.rx, None);
    assert_eq!(s1.tx, Some((80, 0)));

    let once = regs;
    let again = bus.reset(&regs);
    for i in 0..8 {
        if let Some(s) = again.endpoints[i] {
            regs[i] = written(regs[i], s.reg_write);
            assert_eq!(s.rx, plan.endpoints[i].unwrap().rx);
            assert_eq!(s.tx, plan.endpoints[i].unwrap().tx);
        } else {
            assert!(plan.endpoints[i].is_none());
        }
    }
    assert_eq!(regs, once);
}

#[test]
fn slot_without_type_is_not_configured() {
    let ep = Endpoint::new(4);
    assert!(ep.configure(0xffff).is_none());
}

#[test]
fn packing_puts_first_byte_low() {
    assert_eq!(pack_words(&[1, 2, 3], 3), vec![0x0201, 0x0003]);
    assert_eq!(pack_words(&[1, 2, 3], 2), vec![0x0201]);
    assert_eq!(pack_words(&[0xff, 0xee], 2), vec![0xeeff]);
    assert_eq!(pack_words(&[], 0), Vec::<u16>::new());
    assert_eq!(unpack_bytes(&[0x0201, 0x0403], 3), vec![1, 2, 3]);
    assert_eq!(unpack_bytes(&[0x0201, 0x0403], 4), vec![1, 2, 3, 4]);
    assert_eq!(unpack_bytes(&[0x0201], 0), Vec::<u8>::new());
}

#[test]
fn pack_then_unpack_gives_the_bytes_back() {
    let data: Vec<u8> = (0..=254u8).collect();
    for n in [0usize, 1, 2, 7, 64, 255] {
        let words = pack_words(&data, n);
        assert_eq!(words.len(), (n + 1) / 2);
        assert_eq!(unpack_bytes(&words, n), data[..n].to_vec());
    }
}

#[test]
fn write_needs_an_in_address_with_a_buffer() {
    let bus = bus_with_bulk_pair();
    assert_eq!(bus.write(ep_out(1), 0x0020, &[1]).unwrap_err(), UsbError::InvalidEndpoint);
    assert_eq!(bus.write(ep_in(8), 0x0020, &[1]).unwrap_err(), UsbError::InvalidEndpoint);
    assert_eq!(bus.write(ep_in(2), 0x0020, &[1]).unwrap_err(), UsbError::InvalidEndpoint);
    assert_eq!(bus.write(ep_in(0), 0x0020, &[1]).unwrap_err(), UsbError::InvalidEndpoint);
}

#[test]
fn write_on_busy_endpoint_is_zero_not_error() {
    let bus = bus_with_bulk_pair();
    let t = bus.write(ep_in(1), 0x0030, &[1, 2, 3]).unwrap();
    assert_eq!(t.written, 0);
    assert!(t.words.is_empty());
    assert_eq!(t.reg_write, None);
    let t = bus.write(ep_in(1), 0x0000, &[1, 2, 3]).unwrap();
    assert_eq!(t.written, 0);
    assert_eq!(t.reg_write, None);
}

#[test]
fn write_packs_data_and_arms_transmission() {
    let bus = bus_with_bulk_pair();
    let reg: u16 = 0x0021;
    let t = bus.write(ep_in(1), reg, &[0x11, 0x22, 0x33]).unwrap();
    assert_eq!(t.written, 3);
    assert_eq!(t.offset, 64);
    assert_eq!(t.words, vec![0x2211, 0x0033]);
    let after = written(reg, t.reg_write.unwrap());
    assert_eq!(stat_tx(after), EndpointStatus::Valid);
    assert_eq!(after, 0x0031);
    let t = bus.write(ep_in(1), 0x0010, &[]).unwrap();
    assert_eq!(t.written, 0);
    assert!(t.words.is_empty());
    assert!(t.reg_write.is_some());
}

#[test]
fn write_takes_no_more_than_the_buffer_holds() {
    let bus = bus_with_bulk_pair();
    let t = bus.write(ep_in(1), 0x0020, &[1, 2, 3, 4, 5, 6]).unwrap();
    assert_eq!(t.written, 4);
    assert_eq!(t.words, vec![0x0201, 0x0403]);
    assert!(t.reg_write.is_some());
}

#[test]
fn read_needs_an_out_address_with_a_buffer() {
    let bus = bus_with_bulk_pair();
    let reg = EP_CTR_RX | 0x2000;
    assert_eq!(bus.read(ep_in(1), reg, 2, &[0], 8).unwrap_err(), UsbError::InvalidEndpoint);
    assert_eq!(bus.read(ep_out(9), reg, 2, &[0], 8).unwrap_err(), UsbError::InvalidEndpoint);
    assert_eq!(bus.read(ep_out(2), reg, 2, &[0], 8).unwrap_err(), UsbError::InvalidEndpoint);
}

#[test]
fn read_with_nothing_pending_is_zero_not_error() {
    let bus = bus_with_bulk_pair();
    let r = bus.read(ep_out(1), 0x3000, 0x8403, &[0x0201, 0x0003], 8).unwrap();
    assert!(r.data.is_empty());
    assert_eq!(r.reg_write, None);
    let r = bus.read(ep_out(1), EP_CTR_RX, 0x8403, &[0x0201, 0x0003], 8).unwrap();
    assert!(r.data.is_empty());
    assert_eq!(r.reg_write, None);
}

#[test]
fn read_unpacks_data_and_rearms_reception() {
    let bus = bus_with_bulk_pair();
    let reg: u16 = EP_CTR_RX | 0x2000 | 0x0001;
    let r = bus.read(ep_out(1), reg, 0x8403, &[0x0201, 0x0003, 0xffff], 8).unwrap();
    assert_eq!(r.data, vec![1, 2, 3]);
    let after = written(reg, r.reg_write.unwrap());
    assert_eq!(after, 0x3001);
    assert_eq!(stat_rx(after), EndpointStatus::Valid);
    assert!(!ctr_rx(after));
}

#[test]
fn read_hands_out_no_more_than_capacity() {
    let bus = bus_with_bulk_pair();
    let reg: u16 = EP_CTR_RX | 0x2000;
    let r = bus.read(ep_out(1), reg, 0x8404, &[0x0201, 0x0403], 3).unwrap();
    assert_eq!(r.data, vec![1, 2, 3]);
    let r = bus.read(ep_out(1), reg, 0x8404, &[0x0201], 8).unwrap();
    assert_eq!(r.data, vec![1, 2]);
    let r = bus.read(ep_out(1), reg, 0x8404, &[0x0201, 0x0403], 0).unwrap();
    assert!(r.data.is_empty());
    assert!(r.reg_write.is_some());
}

#[test]
fn stall_then_query() {
    let bus = bus_with_bulk_pair();
    for a in [ep_in(1), ep_out(1)] {
        for start in [0x0000u16, 0x3030, 0x2020, 0x1010, 0xffff, 0x4a5b] {
            let mut reg = start;
            if let Some(w) = bus.set_stalled(a, reg, true) {
                reg = written(reg, w);
            }
            assert!(bus.is_stalled(a, reg));
            assert_eq!(bus.set_stalled(a, reg, true), None);
            if let Some(w) = bus.set_stalled(a, reg, false) {
                reg = written(reg, w);
            }
            assert!(!bus.is_stalled(a, reg));
            assert_eq!(bus.set_stalled(a, reg, false), None);
        }
    }
}

#[test]
fn lifting_a_stall_leaves_the_endpoint_at_nak() {
    let bus = bus_with_bulk_pair();
    let reg: u16 = 0x1010;
    let w = bus.set_stalled(ep_in(1), reg, false).unwrap();
    let after = written(reg, w);
    assert_eq!(stat_tx(after), EndpointStatus::Nak);
    assert_eq!(stat_rx(after), EndpointStatus::Stall);
    let w = bus.set_stalled(ep_out(1), reg, false).unwrap();
    let after = written(reg, w);
    assert_eq!(stat_rx(after), EndpointStatus::Nak);
    assert_eq!(stat_tx(after), EndpointStatus::Stall);
    assert_eq!(bus.set_stalled(ep_in(1), 0x0030, false), None);
}

#[test]
fn is_stalled_looks_at_the_direction_of_the_address() {
    let bus = bus_with_bulk_pair();
    assert!(bus.is_stalled(ep_in(1), 0x0010));
    assert!(!bus.is_stalled(ep_out(1), 0x0010));
    assert!(bus.is_stalled(ep_out(1), 0x1000));
    assert!(!bus.is_stalled(ep_in(1), 0x1000));
}

#[test]
fn force_reset_without_capability_is_unsupported() {
    let bus = UsbBus::usb();
    assert_eq!(bus.force_reset(0x0000).unwrap_err(), UsbError::Unsupported);
    assert_eq!(bus.force_reset(0xffff).unwrap_err(), UsbError::Unsupported);
}

#[test]
fn force_reset_powers_down_waits_and_restores() {
    let mut bus = UsbBus::usb();
    bus.enable_reset(72_000_000);
    assert_eq!(bus.reset_delay, Some(72_000_000));
    let f: ForceReset = bus.force_reset(0x8400).unwrap();
    assert_eq!(f.power_down, 0x8402);
    assert_eq!(f.delay_cycles, 72_000_000);
    assert_eq!(f.restore, 0x8400);
    let f = bus.force_reset(0x0003).unwrap();
    assert_eq!((f.power_down, f.restore), (0x0003, 0x0003));
}

#[test]
fn control_register_words() {
    let bus = UsbBus::usb();
    assert_eq!(bus.suspend(0x8401), 0x840d);
    assert_eq!(bus.resume(0x840d), 0x8401);
    assert_eq!(bus.resume(0xffff), 0xfff3);
    assert_eq!(bus.set_device_address(0x0080, 5), 0x0085);
    assert_eq!(bus.set_device_address(0x007f, 0), 0x0000);
    assert_eq!(bus.set_device_address(0x0080, 0xff), 0x00ff);
}

#[test]
fn enable_says_how_to_start_the_peripheral() {
    let mut bus = UsbBus::usb();
    assert!(!bus.frozen);
    let plan = bus.enable(0x8403);
    assert!(bus.frozen);
    assert_eq!(plan.power_up, 0x8401);
    assert_eq!(plan.startup_delay_cycles, 72);
    assert_eq!(plan.btable_write, 0);
    assert_eq!(plan.release_reset, 0x8400);
    assert_eq!(plan.istr_write, 0);
}

#[test]
fn endpoint_setters_record_what_they_are_given() {
    let mut ep = Endpoint::new(3);
    assert_eq!(ep.index, 3);
    ep.set_ep_type(EndpointType::Bulk);
    assert_eq!(ep.ep_type(), Some(EndpointType::Bulk));
    ep.set_in_buf(64, 16);
    assert!(ep.is_in_buf_set());
    assert!(!ep.is_out_buf_set());
    ep.set_out_buf(80, (32, 0x4000));
    assert!(ep.is_out_buf_set());
    let i = ep.in_buf.unwrap();
    assert_eq!((i.offset, i.size), (64, 16));
    let o = ep.out_buf.unwrap();
    assert_eq!((o.offset, o.size, o.count_bits), (80, 32, 0x4000));
    let s = ep.configure(0).unwrap();
    assert_eq!(written(0, s.reg_write), 0x3023);
    assert_eq!(s.rx, Some((80, 0x4000)));
    assert_eq!(s.tx, Some((64, 0)));
}
