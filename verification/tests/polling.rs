use stm32f103xx_usb::bus::{BusStatus, UsbBus};
use stm32f103xx_usb::registers::{
    EP_CTR_RX, EP_CTR_TX, EP_SETUP, FNR_RXDM, FNR_RXDP, ISTR_CTR, ISTR_RESET, ISTR_SUSP,
    ISTR_WKUP,
};
use stm32f103xx_usb::types::{EndpointAddress, EndpointDirection, EndpointType, PollResult};

fn enabled_bus() -> UsbBus {
    let mut bus = UsbBus::usb();
    bus.alloc_ep(
        EndpointDirection::Out,
        Some(EndpointAddress::from_parts(0, EndpointDirection::Out)),
        EndpointType::Control,
        8,
        0,
    ).unwrap();
    bus.alloc_ep(
        EndpointDirection::In,
        Some(EndpointAddress::from_parts(0, EndpointDirection::In)),
        EndpointType::Control,
        8,
        0,
    ).unwrap();
    bus.alloc_ep(EndpointDirection::In, None, EndpointType::Interrupt, 8, 0).unwrap();
    bus.alloc_ep(EndpointDirection::In, None, EndpointType::Bulk, 64, 0).unwrap();
    bus.alloc_ep(EndpointDirection::Out, None, EndpointType::Bulk, 64, 0).unwrap();
    bus.enable(0x0003);
    bus
}

fn status(istr: u16, fnr: u16, ep_regs: [u16; 8]) -> Option<BusStatus> {
    Some(BusStatus { istr, fnr, ep_regs })
}

#[test]
fn idle_when_nothing_pending() {
    let bus = enabled_bus();
    let out = bus.poll(status(0, 0, [0; 8]));
    assert_eq!(out.result, PollResult::Idle);
    assert_eq!(out.istr_write, None);
    assert!(out.ep_writes.is_empty());
    let out = bus.poll(status(0x0200, 0xffff, [0xffff; 8]));
    assert_eq!(out.result, PollResult::Idle);
    assert_eq!(out.istr_write, None);
    assert!(out.ep_writes.is_empty());
}

#[test]
fn reentrant_poll_is_idle_and_writes_nothing() {
    let bus = enabled_bus();
    let before = (bus.next_ep_mem, bus.max_endpoint);
    let out = bus.poll(None);
    assert_eq!(out.result, PollResult::Idle);
    assert_eq!(out.istr_write, None);
    assert!(out.ep_writes.is_empty());
    assert_eq!((bus.next_ep_mem, bus.max_endpoint), before);
}

#[test]
fn wakeup_with_lines_low_is_resume() {
    let bus = enabled_bus();
    let out = bus.poll(status(ISTR_WKUP, 0, [0; 8]));
    assert_eq!(out.result, PollResult::Resume);
    assert_eq!(out.istr_write, Some(0xefff));
    let out = bus.poll(status(ISTR_WKUP, FNR_RXDM, [0; 8]));
    assert_eq!(out.result, PollResult::Resume);
}

#[test]
fn wakeup_with_d_plus_high_is_noise() {
    let bus = enabled_bus();
    let out = bus.poll(status(ISTR_WKUP, FNR_RXDP, [0; 8]));
    assert_eq!(out.result, PollResult::Suspend);
    assert_eq!(out.istr_write, Some(0xefff));
    let out = bus.poll(status(ISTR_WKUP, FNR_RXDP | FNR_RXDM, [0; 8]));
    assert_eq!(out.result, PollResult::Suspend);
    assert!(out.ep_writes.is_empty());
}

#[test]
fn one_condition_per_poll_in_priority_order() {
    let bus = enabled_bus();
    let mut regs = [0u16; 8];
    regs[0] = EP_CTR_RX;
    let mut istr: u16 = ISTR_WKUP | ISTR_RESET | ISTR_SUSP | ISTR_CTR;

    let out = bus.poll(status(istr, 0, regs));
    assert_eq!(out.result, PollResult::Resume);
    assert!(out.ep_writes.is_empty());
    istr &= out.istr_write.unwrap();
    assert_eq!(istr, ISTR_RESET | ISTR_SUSP | ISTR_CTR);

    let out = bus.poll(status(istr, 0, regs));
    assert_eq!(out.result, PollResult::Reset);
    assert_eq!(out.istr_write, Some(0xfbff));
    istr &= out.istr_write.unwrap();
    assert_eq!(istr, ISTR_SUSP | ISTR_CTR);

    let out = bus.poll(status(istr, 0, regs));
    assert_eq!(out.result, PollResult::Suspend);
    assert_eq!(out.istr_write, Some(0xf7ff));
    istr &= out.istr_write.unwrap();
    assert_eq!(istr, ISTR_CTR);

    let out = bus.poll(status(istr, 0, regs));
    assert_eq!(out.result, PollResult::Data { ep_out: 1, ep_in_complete: 0, ep_setup: 0 });
    assert_eq!(out.istr_write, None);
}

#[test]
fn transfer_masks_and_transmit_clears() {
    let bus = enabled_bus();
    assert_eq!(bus.max_endpoint, 2);
    let mut regs = [0u16; 8];
    regs[0] = EP_CTR_RX | EP_SETUP | 0x0200;
    regs[1] = EP_CTR_TX | 0x0601;
    regs[2] = EP_CTR_RX | EP_CTR_TX | 0x3032;
    regs[3] = EP_CTR_RX | EP_CTR_TX;
    let out = bus.poll(status(ISTR_CTR, 0, regs));
    assert_eq!(out.result, PollResult::Data { ep_out: 0b101, ep_in_complete: 0b110, ep_setup: 0b001 });
    assert_eq!(out.istr_write, None);
    assert_eq!(out.ep_writes, vec![(1usize, 0x8601u16), (2, 0x8002)]);
}

#[test]
fn setup_flag_without_reception_is_ignored() {
    let bus = enabled_bus();
    let mut regs = [0u16; 8];
    regs[0] = EP_SETUP;
    let out = bus.poll(status(ISTR_CTR, 0, regs));
    assert_eq!(out.result, PollResult::Data { ep_out: 0, ep_in_complete: 0, ep_setup: 0 });
    assert!(out.ep_writes.is_empty());
}

#[test]
fn scan_is_bounded_by_max_endpoint() {
    let mut bus = UsbBus::usb();
    bus.enable(0x0003);
    let out = bus.poll(status(ISTR_CTR, 0, [EP_CTR_RX | EP_CTR_TX; 8]));
    assert_eq!(out.result, PollResult::Data { ep_out: 1, ep_in_complete: 1, ep_setup: 0 });
    assert_eq!(out.ep_writes.len(), 1);
    assert_eq!(out.ep_writes[0].0, 0);
}
