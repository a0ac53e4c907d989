//! The bus driver: endpoint allocation, lifecycle, interrupt-status decoding,
//! transfers and stall control.

use vstd::prelude::*;
use crate::types::{
    EndpointAddress, EndpointDirection, EndpointStatus, EndpointType, PollResult, UsbError,
};
use crate::endpoint::{
    calculate_count_rx, rx_encoding, rx_rounded, rx_size_accepted, Endpoint, EndpointSetup,
    InBuffer, OutBuffer, Receive, Transmit, MEM_SIZE, MEM_START, NUM_ENDPOINTS,
};
use crate::registers::{
    clear_ctr_tx_word, clear_ctr_tx_word_of, ctr_rx, ctr_rx_of, ctr_tx, ctr_tx_of,
    reg_after_write, set_stat_rx_word, set_stat_tx_word, setup, setup_of, stat_rx, stat_rx_of,
    stat_tx, stat_tx_of, with_stat_rx, with_stat_tx, FNR_RXDP, ISTR_CTR, ISTR_RESET, ISTR_SUSP,
    ISTR_WKUP,
};

verus! {

/// The byte range `(offset, length)` of packet memory that a slot holds for
/// a direction, if any.
pub open spec fn range_of(slots: Seq<Endpoint>, i: int, dir: EndpointDirection) -> Option<
    (int, int),
> {
    match dir {
        EndpointDirection::In => match slots[i].in_buf {
            Some(b) => Some((b.offset as int, b.size as int)),
            None => None,
        },
        EndpointDirection::Out => match slots[i].out_buf {
            Some(b) => Some((b.offset as int, b.size as int)),
            None => None,
        },
    }
}

/// Two byte ranges share no byte.
pub open spec fn disjoint(a: (int, int), b: (int, int)) -> bool {
    a.0 + a.1 <= b.0 || b.0 + b.1 <= a.0
}

/// A slot is consistent with an allocator that has handed out everything
/// below `next`.
pub open spec fn slot_wf(ep: Endpoint, next: int) -> bool {
    &&& ep.in_buf matches Some(b) ==> {
        &&& ep.ep_type is Some
        &&& MEM_START <= b.offset
        &&& b.offset + b.size <= next
        &&& b.offset % 2 == 0
        &&& b.size % 2 == 0
    }
    &&& ep.out_buf matches Some(b) ==> {
        &&& ep.ep_type is Some
        &&& MEM_START <= b.offset
        &&& b.offset + b.size <= next
        &&& b.offset % 2 == 0
        &&& b.size % 2 == 0
        &&& b.count_bits == rx_encoding(b.size as int)
    }
}

/// Whether a slot can serve a request: its type is unset or the one asked
/// for, and it has no buffer yet for the direction.
pub open spec fn can_serve(ep: Endpoint, dir: EndpointDirection, ty: EndpointType) -> bool {
    &&& ep.ep_type is None || ep.ep_type == Some(ty)
    &&& match dir {
        EndpointDirection::In => ep.in_buf is None,
        EndpointDirection::Out => ep.out_buf is None,
    }
}

/// The lowest slot in `lo..hi` that can serve a request.
pub open spec fn first_fit(
    slots: Seq<Endpoint>,
    dir: EndpointDirection,
    ty: EndpointType,
    lo: int,
    hi: int,
) -> Option<int>
    decreases hi - lo,
{
    if lo >= hi {
        None
    } else if can_serve(slots[lo], dir, ty) {
        Some(lo)
    } else {
        first_fit(slots, dir, ty, lo + 1, hi)
    }
}

/// The slots a request looks at: the one it names, or all but slot 0.
pub open spec fn candidates(addr: Option<EndpointAddress>) -> (int, int) {
    match addr {
        Some(a) => if a.index < NUM_ENDPOINTS {
            (a.index as int, a.index + 1)
        } else {
            (0, 0)
        },
        None => (1, NUM_ENDPOINTS as int),
    }
}

/// The number of bytes a request reserves, if its size can be expressed.
pub open spec fn buffer_size(dir: EndpointDirection, max_packet_size: u16) -> Option<int> {
    match dir {
        EndpointDirection::In => Some(max_packet_size as int),
        EndpointDirection::Out => if rx_size_accepted(max_packet_size as int) {
            Some(rx_rounded(max_packet_size as int))
        } else {
            None
        },
    }
}

/// A slot after it was given type `ty` and, for `dir`, the buffer of `size`
/// bytes at `offset`.
pub open spec fn with_buffer(
    ep: Endpoint,
    dir: EndpointDirection,
    ty: EndpointType,
    offset: int,
    size: int,
) -> Endpoint {
    match dir {
        EndpointDirection::In => Endpoint {
            ep_type: Some(ty),
            in_buf: Some(InBuffer { offset: offset as usize, size: size as usize }),
            ..ep
        },
        EndpointDirection::Out => Endpoint {
            ep_type: Some(ty),
            out_buf: Some(
                OutBuffer {
                    offset: offset as usize,
                    size: size as usize,
                    count_bits: rx_encoding(size) as u16,
                },
            ),
            ..ep
        },
    }
}

/// What an allocation request makes of the slots and the allocator cursor,
/// and what it answers.
pub open spec fn alloc_outcome(
    slots: Seq<Endpoint>,
    next: int,
    dir: EndpointDirection,
    addr: Option<EndpointAddress>,
    ty: EndpointType,
    max_packet_size: u16,
) -> (Seq<Endpoint>, int, Result<EndpointAddress, UsbError>) {
    let (lo, hi) = candidates(addr);
    match first_fit(slots, dir, ty, lo, hi) {
        None => (slots, next, Err(UsbError::EndpointOverflow)),
        Some(i) => match buffer_size(dir, max_packet_size) {
            Some(size) if next + size <= MEM_SIZE => (
                slots.update(i, with_buffer(slots[i], dir, ty, next, size)),
                next + size,
                Ok(EndpointAddress { index: i as usize, direction: dir }),
            ),
            _ => (
                slots.update(i, Endpoint { ep_type: Some(ty), ..slots[i] }),
                next,
                Err(UsbError::SizeOverflow),
            ),
        },
    }
}

/// The highest of the first `n` slots that has a buffer; 0 if none has.
pub open spec fn highest_used(slots: Seq<Endpoint>, n: int) -> int
    decreases n,
{
    if n <= 0 {
        0
    } else if slots[n - 1].in_buf is Some || slots[n - 1].out_buf is Some {
        n - 1
    } else {
        highest_used(slots, n - 1)
    }
}

/// Driver state for the USB peripheral.
pub struct UsbBus {
    pub endpoints: Vec<Endpoint>,
    pub next_ep_mem: usize,
    pub max_endpoint: usize,
    /// Cycles to hold the bus in reset, once forced reset is enabled.
    pub reset_delay: Option<u32>,
    /// Set by `enable`; from then on forced reset can no longer be
    /// configured.
    pub frozen: bool,
}

impl UsbBus {
    /// The driver's invariant: every slot knows its own index, the cursor
    /// lies within packet memory, and the buffers handed out lie below it,
    /// above the descriptor table, and share no byte.
    pub open spec fn wf(&self) -> bool {
        &&& self.endpoints@.len() == NUM_ENDPOINTS
        &&& self.max_endpoint < NUM_ENDPOINTS
        &&& MEM_START <= self.next_ep_mem <= MEM_SIZE
        &&& self.next_ep_mem % 2 == 0
        &&& forall|i: int|
            0 <= i < NUM_ENDPOINTS ==> (#[trigger] self.endpoints@[i]).index == i && slot_wf(
                self.endpoints@[i],
                self.next_ep_mem as int,
            )
        &&& buffers_disjoint(self.endpoints@)
    }

    /// Constructs the driver with all slots empty.
    pub fn usb() -> (bus: UsbBus)
        ensures
            bus.wf(),
            bus.next_ep_mem == MEM_START,
            bus.max_endpoint == 0,
            bus.reset_delay is None,
            !bus.frozen,
            forall|i: int|
                0 <= i < NUM_ENDPOINTS ==> {
                    &&& (#[trigger] bus.endpoints@[i]).ep_type is None
                    &&& bus.endpoints@[i].in_buf is None
                    &&& bus.endpoints@[i].out_buf is None
                },
    {
        let mut endpoints: Vec<Endpoint> = Vec::new();
        let mut i: u8 = 0;
        while i < 8
            invariant
                i <= 8,
                endpoints@.len() == i,
                forall|k: int|
                    0 <= k < i ==> {
                        &&& (#[trigger] endpoints@[k]).index == k
                        &&& endpoints@[k].ep_type is None
                        &&& endpoints@[k].in_buf is None
                        &&& endpoints@[k].out_buf is None
                    },
            decreases 8 - i,
        {
            endpoints.push(Endpoint::new(i));
            i = i + 1;
        }
        UsbBus {
            endpoints,
            next_ep_mem: MEM_START,
            max_endpoint: 0,
            reset_delay: None,
            frozen: false,
        }
    }

    /// Enables forced reset; `sysclk_hz` is the core clock frequency, which
    /// becomes the number of cycles the reset is held.
    pub fn enable_reset(&mut self, sysclk_hz: u32)
        requires
            !old(self).frozen,
        ensures
            *final(self) == (UsbBus { reset_delay: Some(sysclk_hz), ..*old(self) }),
    {
        self.reset_delay = Some(sysclk_hz);
    }

    /// Hands out `size` bytes of packet memory at the cursor and advances
    /// it; fails, leaving the cursor alone, when they do not fit.
    pub fn alloc_ep_mem(next_ep_mem: &mut usize, size: usize) -> (r: Result<usize, UsbError>)
        requires
            size % 2 == 0,
        ensures
            *old(next_ep_mem) + size <= MEM_SIZE ==> r == Ok::<usize, UsbError>(*old(next_ep_mem))
                && *final(next_ep_mem) == *old(next_ep_mem) + size,
            *old(next_ep_mem) + size > MEM_SIZE ==> r == Err::<usize, UsbError>(
                UsbError::SizeOverflow,
            ) && *final(next_ep_mem) == *old(next_ep_mem),
    {
        let addr: usize = *next_ep_mem;
        if size > MEM_SIZE || addr > MEM_SIZE - size {
            return Err(UsbError::SizeOverflow);
        }
        *next_ep_mem = addr + size;
        Ok(addr)
    }

    /// Reserves a buffer for one direction of an endpoint. The request goes
    /// to the lowest candidate slot whose type is unset or equal and which
    /// has no buffer yet for the direction; that slot takes the type, and,
    /// if the size can be expressed and fits, the buffer.
    pub fn alloc_ep(
        &mut self,
        ep_dir: EndpointDirection,
        ep_addr: Option<EndpointAddress>,
        ep_type: EndpointType,
        max_packet_size: u16,
        _interval: u8,
    ) -> (r: Result<EndpointAddress, UsbError>)
        requires
            old(self).wf(),
            ep_dir == EndpointDirection::In ==> max_packet_size % 2 == 0,
        ensures
            final(self).wf(),
            final(self).max_endpoint == old(self).max_endpoint,
            final(self).reset_delay == old(self).reset_delay,
            final(self).frozen == old(self).frozen,
            (final(self).endpoints@, final(self).next_ep_mem as int, r) == alloc_outcome(
                old(self).endpoints@,
                old(self).next_ep_mem as int,
                ep_dir,
                ep_addr,
                ep_type,
                max_packet_size,
            ),
    {
        let (lo, hi): (usize, usize) = match ep_addr {
            Some(a) => if a.index < NUM_ENDPOINTS {
                (a.index, a.index + 1)
            } else {
                (0, 0)
            },
            None => (1, NUM_ENDPOINTS),
        };
        let mut index: usize = lo;
        while index < hi
            invariant
                lo <= index <= hi <= NUM_ENDPOINTS,
                (lo as int, hi as int) == candidates(ep_addr),
                *self == *old(self),
                self.wf(),
                ep_dir == EndpointDirection::In ==> max_packet_size % 2 == 0,
                first_fit(self.endpoints@, ep_dir, ep_type, lo as int, hi as int) == first_fit(
                    self.endpoints@,
                    ep_dir,
                    ep_type,
                    index as int,
                    hi as int,
                ),
            decreases hi - index,
        {
            let mut ep: Endpoint = self.endpoints[index];
            let type_ok: bool = match ep.ep_type() {
                None => true,
                Some(t) => t == ep_type,
            };
            let free: bool = match ep_dir {
                EndpointDirection::Out => !ep.is_out_buf_set(),
                EndpointDirection::In => !ep.is_in_buf_set(),
            };
            if type_ok && free {
                assert(can_serve(self.endpoints@[index as int], ep_dir, ep_type));
                ep.set_ep_type(ep_type);
                let mut next: usize = self.next_ep_mem;
                let sized: Result<(usize, u16), UsbError> = match ep_dir {
                    EndpointDirection::Out => calculate_count_rx(max_packet_size as usize),
                    EndpointDirection::In => Ok((max_packet_size as usize, 0u16)),
                };
                let reserved: Result<(usize, usize, u16), UsbError> = match sized {
                    Ok((size, bits)) => match Self::alloc_ep_mem(&mut next, size) {
                        Ok(addr) => Ok((addr, size, bits)),
                        Err(e) => Err(e),
                    },
                    Err(e) => Err(e),
                };
                match reserved {
                    Ok((addr, size, bits)) => {
                        match ep_dir {
                            EndpointDirection::Out => ep.set_out_buf(addr, (size, bits)),
                            EndpointDirection::In => ep.set_in_buf(addr, size),
                        }
                        self.endpoints.set(index, ep);
                        self.next_ep_mem = next;
                        proof {
                            let old_slots = old(self).endpoints@;
                            let new_slots = self.endpoints@;
                            assert(new_slots =~= old_slots.update(
                                index as int,
                                with_buffer(
                                    old_slots[index as int],
                                    ep_dir,
                                    ep_type,
                                    addr as int,
                                    size as int,
                                ),
                            ));
                            lemma_alloc_keeps_disjoint(
                                old_slots,
                                old(self).next_ep_mem as int,
                                index as int,
                                ep_dir,
                                ep_type,
                                size as int,
                            );
                        }
                        return Ok(EndpointAddress::from_parts(index, ep_dir));
                    },
                    Err(e) => {
                        self.endpoints.set(index, ep);
                        proof {
                            let old_slots = old(self).endpoints@;
                            assert(self.endpoints@ =~= old_slots.update(
                                index as int,
                                Endpoint { ep_type: Some(ep_type), ..old_slots[index as int] },
                            ));
                            lemma_type_keeps_disjoint(old_slots, index as int, ep_type);
                        }
                        return Err(e);
                    },
                }
            }
            assert(!can_serve(self.endpoints@[index as int], ep_dir, ep_type));
            index = index + 1;
        }
        Err(UsbError::EndpointOverflow)
    }

    /// Fixes the highest slot in use, which bounds the scan of every later
    /// poll, freezes the forced-reset configuration, and says what to write
    /// to start the peripheral, given the control register value `cntr`.
    pub fn enable(&mut self, cntr: u16) -> (plan: EnablePlan)
        requires
            old(self).wf(),
        ensures
            final(self).wf(),
            *final(self) == (UsbBus {
                max_endpoint: highest_used(old(self).endpoints@, NUM_ENDPOINTS as int) as usize,
                frozen: true,
                ..*old(self)
            }),
            plan == (EnablePlan {
                power_up: cntr & !0x0002u16,
                startup_delay_cycles: 72,
                btable_write: 0,
                release_reset: cntr & !0x0003u16,
                istr_write: 0,
            }),
    {
        let mut max: usize = 0;
        let mut index: usize = 0;
        while index < NUM_ENDPOINTS
            invariant
                index <= NUM_ENDPOINTS,
                self.endpoints@.len() == NUM_ENDPOINTS,
                max == highest_used(self.endpoints@, index as int),
                max < NUM_ENDPOINTS,
            decreases NUM_ENDPOINTS - index,
        {
            let ep: &Endpoint = &self.endpoints[index];
            if ep.is_out_buf_set() || ep.is_in_buf_set() {
                max = index;
            }
            index = index + 1;
        }
        self.max_endpoint = max;
        self.frozen = true;
        EnablePlan {
            power_up: cntr & !0x0002u16,
            startup_delay_cycles: 72,
            btable_write: 0,
            release_reset: cntr & !0x0003u16,
            istr_write: 0,
        }
    }
}

/// No two buffers recorded in the slots share a byte.
pub open spec fn buffers_disjoint(slots: Seq<Endpoint>) -> bool {
    forall|i: int, d: EndpointDirection, j: int, e: EndpointDirection|
        0 <= i < slots.len() && 0 <= j < slots.len() && (i != j || d != e) && (#[trigger] range_of(
            slots,
            i,
            d,
        )) is Some && (#[trigger] range_of(slots, j, e)) is Some ==> disjoint(
            range_of(slots, i, d)->0,
            range_of(slots, j, e)->0,
        )
}

/// A buffer placed at the cursor shares no byte with those handed out
/// before.
pub proof fn lemma_alloc_keeps_disjoint(
    slots: Seq<Endpoint>,
    next: int,
    index: int,
    dir: EndpointDirection,
    ty: EndpointType,
    size: int,
)
    requires
        0 <= index < slots.len(),
        0 <= size,
        0 <= next,
        next + size <= MEM_SIZE,
        buffers_disjoint(slots),
        forall|i: int| 0 <= i < slots.len() ==> slot_wf(#[trigger] slots[i], next),
        range_of(slots, index, dir) is None,
    ensures
        buffers_disjoint(slots.update(index, with_buffer(slots[index], dir, ty, next, size))),
{
    let after = slots.update(index, with_buffer(slots[index], dir, ty, next, size));
    assert forall|i: int, d: EndpointDirection, j: int, e: EndpointDirection|
        0 <= i < after.len() && 0 <= j < after.len() && (i != j || d != e) && (#[trigger] range_of(
            after,
            i,
            d,
        )) is Some && (#[trigger] range_of(after, j, e)) is Some implies disjoint(
        range_of(after, i, d)->0,
        range_of(after, j, e)->0,
    ) by {
        let fresh_i = i == index && d == dir;
        let fresh_j = j == index && e == dir;
        if !fresh_i {
            assert(range_of(after, i, d) == range_of(slots, i, d));
            assert(slot_wf(slots[i], next));
        }
        if !fresh_j {
            assert(range_of(after, j, e) == range_of(slots, j, e));
            assert(slot_wf(slots[j], next));
        }
    }
}

/// Giving a slot a type moves no buffer.
pub proof fn lemma_type_keeps_disjoint(slots: Seq<Endpoint>, index: int, ty: EndpointType)
    requires
        0 <= index < slots.len(),
        buffers_disjoint(slots),
    ensures
        buffers_disjoint(slots.update(index, Endpoint { ep_type: Some(ty), ..slots[index] })),
{
    let after = slots.update(index, Endpoint { ep_type: Some(ty), ..slots[index] });
    assert forall|i: int, d: EndpointDirection, j: int, e: EndpointDirection|
        0 <= i < after.len() && 0 <= j < after.len() && (i != j || d != e) && (#[trigger] range_of(
            after,
            i,
            d,
        )) is Some && (#[trigger] range_of(after, j, e)) is Some implies disjoint(
        range_of(after, i, d)->0,
        range_of(after, j, e)->0,
    ) by {
        assert(range_of(after, i, d) == range_of(slots, i, d));
        assert(range_of(after, j, e) == range_of(slots, j, e));
    }
}

/// A snapshot of the registers that a poll looks at.
#[derive(Clone, Copy, Debug)]
pub struct BusStatus {
    /// Interrupt status register.
    pub istr: u16,
    /// Frame number register, which also carries the data-line levels.
    pub fnr: u16,
    /// The endpoint registers, by slot.
    pub ep_regs: [u16; 8],
}

/// What a poll reports and what it asks to be written.
#[derive(Debug)]
pub struct PollOutcome {
    pub result: PollResult,
    /// Word to write to the interrupt status register, if a flag is to be
    /// cleared.
    pub istr_write: Option<u16>,
    /// Words to write to endpoint registers, by slot, in ascending order.
    pub ep_writes: Vec<(usize, u16)>,
}

/// What enabling the bus asks of the hardware, in this order: write
/// `power_up` to the control register, wait `startup_delay_cycles`, write
/// `btable_write` to the buffer table address register, `release_reset` to
/// the control register and `istr_write` to the interrupt status register.
#[derive(Clone, Copy, Debug)]
pub struct EnablePlan {
    /// Control register word with the power-down flag cleared.
    pub power_up: u16,
    /// Cycles the analog part needs to start up.
    pub startup_delay_cycles: u32,
    /// The descriptor table lies at the start of packet memory.
    pub btable_write: u16,
    /// Control register word with power-down and force-reset cleared.
    pub release_reset: u16,
    /// Clears every interrupt flag.
    pub istr_write: u16,
}

/// What a bus reset asks to be written.
#[derive(Debug)]
pub struct ResetPlan {
    /// Word for the interrupt status register: clears every flag.
    pub istr_write: u16,
    /// Word for the device address register: address 0, function enabled.
    pub daddr_write: u16,
    /// Per slot, what to write for it; nothing for a slot without a type.
    pub endpoints: Vec<Option<EndpointSetup>>,
}

/// The endpoint registers after each slot's setup, where it has one, was
/// written to the slot's register.
pub open spec fn regs_after_setup(regs: Seq<u16>, setups: Seq<Option<EndpointSetup>>) -> Seq<u16> {
    Seq::new(
        regs.len(),
        |i: int|
            match setups[i] {
                Some(s) => reg_after_write(regs[i], s.reg_write),
                None => regs[i],
            },
    )
}

/// What a forced reset asks of the hardware, in this order: write
/// `power_down` to the control register, drive the reset line low, wait
/// `delay_cycles`, write `restore` to the control register.
#[derive(Clone, Copy, Debug)]
pub struct ForceReset {
    pub power_down: u16,
    pub delay_cycles: u32,
    pub restore: u16,
}

/// The flags of an endpoint register that a poll gathers into masks.
pub enum EndpointFlag {
    Received,
    Transmitted,
    SetupReceived,
}

/// Whether a register value shows a flag.
pub open spec fn shows(flag: EndpointFlag, reg: u16) -> bool {
    match flag {
        EndpointFlag::Received => ctr_rx_of(reg),
        EndpointFlag::Transmitted => ctr_tx_of(reg),
        EndpointFlag::SetupReceived => ctr_rx_of(reg) && setup_of(reg),
    }
}

/// The value of bit `i` of a mask.
pub open spec fn bit_value(i: int) -> int
    decreases i,
{
    if i <= 0 {
        1
    } else {
        2 * bit_value(i - 1)
    }
}

/// The mask with bit `i` set for each of the first `n` registers that shows
/// the flag.
pub open spec fn flag_mask(regs: Seq<u16>, n: int, flag: EndpointFlag) -> int
    decreases n,
{
    if n <= 0 {
        0
    } else {
        flag_mask(regs, n - 1, flag) + if shows(flag, regs[n - 1]) {
            bit_value(n - 1)
        } else {
            0
        }
    }
}

/// For each of the first `n` registers that shows a completed transmission,
/// in ascending order, its slot and the word that clears the flag.
pub open spec fn tx_clears(regs: Seq<u16>, n: int) -> Seq<(usize, u16)>
    decreases n,
{
    if n <= 0 {
        Seq::empty()
    } else if ctr_tx_of(regs[n - 1]) {
        tx_clears(regs, n - 1).push(((n - 1) as usize, clear_ctr_tx_word_of(regs[n - 1])))
    } else {
        tx_clears(regs, n - 1)
    }
}

/// What a poll reports and asks to be written: the result, the word for the
/// interrupt status register, and the words for endpoint registers. Without
/// a snapshot, because another poll holds the registers, nothing is reported
/// and nothing written. Otherwise the first of wakeup, reset, suspend and
/// transfer that is pending decides alone.
pub open spec fn poll_outcome(max_endpoint: int, status: Option<BusStatus>) -> (
    PollResult,
    Option<u16>,
    Seq<(usize, u16)>,
) {
    match status {
        None => (PollResult::Idle, None, Seq::empty()),
        Some(s) => if s.istr & ISTR_WKUP != 0 {
            (
                if s.fnr & FNR_RXDP == 0 {
                    PollResult::Resume
                } else {
                    PollResult::Suspend
                },
                Some(!ISTR_WKUP),
                Seq::empty(),
            )
        } else if s.istr & ISTR_RESET != 0 {
            (PollResult::Reset, Some(!ISTR_RESET), Seq::empty())
        } else if s.istr & ISTR_SUSP != 0 {
            (PollResult::Suspend, Some(!ISTR_SUSP), Seq::empty())
        } else if s.istr & ISTR_CTR != 0 {
            (
                PollResult::Data {
                    ep_out: flag_mask(s.ep_regs@, max_endpoint + 1, EndpointFlag::Received) as u16,
                    ep_in_complete: flag_mask(
                        s.ep_regs@,
                        max_endpoint + 1,
                        EndpointFlag::Transmitted,
                    ) as u16,
                    ep_setup: flag_mask(
                        s.ep_regs@,
                        max_endpoint + 1,
                        EndpointFlag::SetupReceived,
                    ) as u16,
                },
                None,
                tx_clears(s.ep_regs@, max_endpoint + 1),
            )
        } else {
            (PollResult::Idle, None, Seq::empty())
        },
    }
}

/// Whether a register value shows the endpoint stalled in a direction.
pub open spec fn stalled_of(dir: EndpointDirection, reg: u16) -> bool {
    match dir {
        EndpointDirection::In => stat_tx_of(reg) == EndpointStatus::Stall,
        EndpointDirection::Out => stat_rx_of(reg) == EndpointStatus::Stall,
    }
}

/// The register value that a stall request aims at: unchanged if the
/// endpoint is already as asked; else the direction's status set to Stall,
/// or, to lift a stall, to Nak.
pub open spec fn after_set_stalled(dir: EndpointDirection, reg: u16, stalled: bool) -> u16 {
    let target = if stalled {
        EndpointStatus::Stall
    } else {
        EndpointStatus::Nak
    };
    if stalled_of(dir, reg) == stalled {
        reg
    } else {
        match dir {
            EndpointDirection::In => with_stat_tx(reg, target),
            EndpointDirection::Out => with_stat_rx(reg, target),
        }
    }
}

impl UsbBus {
    /// What to write after a bus reset, given the endpoint registers as last
    /// read: all interrupt flags cleared, device address 0 with the function
    /// enabled, and every slot configured from its recorded state.
    pub fn reset(&self, ep_regs: &[u16; 8]) -> (plan: ResetPlan)
        requires
            self.wf(),
        ensures
            plan.istr_write == 0,
            plan.daddr_write == 0x0080,
            plan.endpoints@.len() == NUM_ENDPOINTS,
            forall|i: int|
                0 <= i < NUM_ENDPOINTS ==> self.endpoints@[i].configures(
                    ep_regs@[i],
                    #[trigger] plan.endpoints@[i],
                ),
    {
        let mut setups: Vec<Option<EndpointSetup>> = Vec::new();
        let mut i: usize = 0;
        while i < NUM_ENDPOINTS
            invariant
                i <= NUM_ENDPOINTS,
                self.endpoints@.len() == NUM_ENDPOINTS,
                setups@.len() == i,
                forall|k: int|
                    0 <= k < i ==> self.endpoints@[k].configures(
                        ep_regs@[k],
                        #[trigger] setups@[k],
                    ),
            decreases NUM_ENDPOINTS - i,
        {
            setups.push(self.endpoints[i].configure(ep_regs[i]));
            i = i + 1;
        }
        ResetPlan { istr_write: 0, daddr_write: 0x0080, endpoints: setups }
    }

    /// The word for the device address register that sets the address to the
    /// low seven bits of `addr` and keeps the enable flag as `daddr` has it.
    pub fn set_device_address(&self, daddr: u16, addr: u8) -> (word: u16)
        ensures
            word == (daddr & 0x0080) | (addr as u16 & 0x007f),
    {
        (daddr & 0x0080) | (addr as u16 & 0x007f)
    }

    /// Decodes the interrupt status into one result. `status` is the
    /// register snapshot, or nothing when another poll holds the registers.
    pub fn poll(&self, status: Option<BusStatus>) -> (out: PollOutcome)
        requires
            self.wf(),
        ensures
            (out.result, out.istr_write, out.ep_writes@) == poll_outcome(
                self.max_endpoint as int,
                status,
            ),
    {
        let s: BusStatus = match status {
            Some(s) => s,
            None => {
                return PollOutcome {
                    result: PollResult::Idle,
                    istr_write: None,
                    ep_writes: Vec::new(),
                };
            },
        };
        if s.istr & ISTR_WKUP != 0 {
            let result = if s.fnr & FNR_RXDP == 0 {
                PollResult::Resume
            } else {
                PollResult::Suspend
            };
            PollOutcome { result, istr_write: Some(!ISTR_WKUP), ep_writes: Vec::new() }
        } else if s.istr & ISTR_RESET != 0 {
            PollOutcome {
                result: PollResult::Reset,
                istr_write: Some(!ISTR_RESET),
                ep_writes: Vec::new(),
            }
        } else if s.istr & ISTR_SUSP != 0 {
            PollOutcome {
                result: PollResult::Suspend,
                istr_write: Some(!ISTR_SUSP),
                ep_writes: Vec::new(),
            }
        } else if s.istr & ISTR_CTR != 0 {
            let mut ep_out: u16 = 0;
            let mut ep_in_complete: u16 = 0;
            let mut ep_setup: u16 = 0;
            let mut bit: u16 = 1;
            let mut writes: Vec<(usize, u16)> = Vec::new();
            let mut i: usize = 0;
            while i <= self.max_endpoint
                invariant
                    self.max_endpoint < NUM_ENDPOINTS,
                    i <= self.max_endpoint + 1,
                    bit == bit_value(i as int),
                    0 < bit <= 256,
                    i < NUM_ENDPOINTS ==> bit <= 128,
                    ep_out < bit,
                    ep_in_complete < bit,
                    ep_setup < bit,
                    ep_out == flag_mask(s.ep_regs@, i as int, EndpointFlag::Received),
                    ep_in_complete == flag_mask(s.ep_regs@, i as int, EndpointFlag::Transmitted),
                    ep_setup == flag_mask(s.ep_regs@, i as int, EndpointFlag::SetupReceived),
                    writes@ == tx_clears(s.ep_regs@, i as int),
                decreases self.max_endpoint + 1 - i,
            {
                let v: u16 = s.ep_regs[i];
                if ctr_rx(v) {
                    ep_out = ep_out + bit;
                    if setup(v) {
                        ep_setup = ep_setup + bit;
                    }
                }
                if ctr_tx(v) {
                    ep_in_complete = ep_in_complete + bit;
                    writes.push((i, clear_ctr_tx_word(v)));
                }
                proof {
                    lemma_bit_values();
                }
                bit = bit * 2;
                i = i + 1;
            }
            PollOutcome {
                result: PollResult::Data { ep_out, ep_in_complete, ep_setup },
                istr_write: None,
                ep_writes: writes,
            }
        } else {
            PollOutcome { result: PollResult::Idle, istr_write: None, ep_writes: Vec::new() }
        }
    }

    /// Frames `data` for the endpoint at `ep_addr`, whose register holds
    /// `reg`. The address must name the transmit side of a slot that has a
    /// transmit buffer.
    pub fn write(&self, ep_addr: EndpointAddress, reg: u16, data: &[u8]) -> (r: Result<
        Transmit,
        UsbError,
    >)
        requires
            self.wf(),
        ensures
            ep_addr.direction != EndpointDirection::In || ep_addr.index >= NUM_ENDPOINTS ==> r
                == Err::<Transmit, UsbError>(UsbError::InvalidEndpoint),
            ep_addr.direction == EndpointDirection::In && ep_addr.index < NUM_ENDPOINTS
                ==> self.endpoints@[ep_addr.index as int].transmits(reg, data@, r),
    {
        if !ep_addr.is_in() || ep_addr.index() >= NUM_ENDPOINTS {
            return Err(UsbError::InvalidEndpoint);
        }
        self.endpoints[ep_addr.index()].write(reg, data)
    }

    /// Takes a received packet for the endpoint at `ep_addr`, whose
    /// register holds `reg`, whose descriptor's count word is `count_rx` and
    /// whose buffer holds the words `mem`. The address must name the receive
    /// side of a slot that has a receive buffer.
    pub fn read(
        &self,
        ep_addr: EndpointAddress,
        reg: u16,
        count_rx: u16,
        mem: &[u16],
        capacity: usize,
    ) -> (r: Result<Receive, UsbError>)
        requires
            self.wf(),
        ensures
            ep_addr.direction != EndpointDirection::Out || ep_addr.index >= NUM_ENDPOINTS ==> r
                == Err::<Receive, UsbError>(UsbError::InvalidEndpoint),
            ep_addr.direction == EndpointDirection::Out && ep_addr.index < NUM_ENDPOINTS
                ==> self.endpoints@[ep_addr.index as int].receives(
                reg,
                count_rx,
                mem@,
                capacity as int,
                r,
            ),
    {
        if !ep_addr.is_out() || ep_addr.index() >= NUM_ENDPOINTS {
            return Err(UsbError::InvalidEndpoint);
        }
        self.endpoints[ep_addr.index()].read(reg, count_rx, mem, capacity)
    }

    /// The word to write to the register of the endpoint at `ep_addr`,
    /// which holds `reg`, to stall it or to lift the stall; none if it is
    /// already as asked.
    pub fn set_stalled(&self, ep_addr: EndpointAddress, reg: u16, stalled: bool) -> (w: Option<
        u16,
    >)
        ensures
            w is None <==> stalled_of(ep_addr.direction, reg) == stalled,
            match w {
                None => after_set_stalled(ep_addr.direction, reg, stalled) == reg,
                Some(word) => reg_after_write(reg, word) == after_set_stalled(
                    ep_addr.direction,
                    reg,
                    stalled,
                ),
            },
    {
        if self.is_stalled(ep_addr, reg) == stalled {
            return None;
        }
        let target = if stalled {
            EndpointStatus::Stall
        } else {
            EndpointStatus::Nak
        };
        match ep_addr.direction() {
            EndpointDirection::In => Some(set_stat_tx_word(reg, target)),
            EndpointDirection::Out => Some(set_stat_rx_word(reg, target)),
        }
    }

    /// Whether the register value `reg` of the endpoint at `ep_addr` shows
    /// it stalled in the address's direction.
    pub fn is_stalled(&self, ep_addr: EndpointAddress, reg: u16) -> (b: bool)
        ensures
            b == stalled_of(ep_addr.direction, reg),
    {
        match ep_addr.direction() {
            EndpointDirection::In => stat_tx(reg) == EndpointStatus::Stall,
            EndpointDirection::Out => stat_rx(reg) == EndpointStatus::Stall,
        }
    }

    /// The control register word that forces suspend and low-power mode.
    pub fn suspend(&self, cntr: u16) -> (word: u16)
        ensures
            word == cntr | 0x000c,
    {
        cntr | 0x000c
    }

    /// The control register word that leaves suspend and low-power mode.
    pub fn resume(&self, cntr: u16) -> (word: u16)
        ensures
            word == cntr & !0x000cu16,
    {
        cntr & !0x000cu16
    }

    /// The steps of a forced reset, given the control register value `cntr`;
    /// unsupported unless forced reset was enabled.
    pub fn force_reset(&self, cntr: u16) -> (r: Result<ForceReset, UsbError>)
        ensures
            r == match self.reset_delay {
                Some(delay) => Ok::<ForceReset, UsbError>(
                    ForceReset { power_down: cntr | 0x0002, delay_cycles: delay, restore: cntr },
                ),
                None => Err::<ForceReset, UsbError>(UsbError::Unsupported),
            },
    {
        match self.reset_delay {
            Some(delay) => Ok(
                ForceReset { power_down: cntr | 0x0002, delay_cycles: delay, restore: cntr },
            ),
            None => Err(UsbError::Unsupported),
        }
    }
}

/// The values of the first nine mask bits.
pub proof fn lemma_bit_values()
    ensures
        bit_value(0) == 1,
        bit_value(1) == 2,
        bit_value(2) == 4,
        bit_value(3) == 8,
        bit_value(4) == 16,
        bit_value(5) == 32,
        bit_value(6) == 64,
        bit_value(7) == 128,
        bit_value(8) == 256,
{
    reveal_with_fuel(bit_value, 10);
}

} // verus!
