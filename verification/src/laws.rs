//! Laws that relate the driver's operations to one another.

use vstd::prelude::*;
use crate::bus::{
    after_set_stalled, alloc_outcome, bit_value, can_serve, candidates, disjoint, first_fit,
    flag_mask, highest_used, poll_outcome, range_of, regs_after_setup, shows,
    slot_wf, stalled_of, BusStatus, EndpointFlag, UsbBus,
};
use crate::endpoint::{
    packed, packed_word, unpacked, unpacked_byte, Endpoint, EndpointSetup, Receive, Transmit,
    MEM_SIZE, MEM_START, NUM_ENDPOINTS,
};
use crate::registers::{
    istr_after_write, reg_after_write, stat_rx_of, stat_tx_of, status_code, type_code, ISTR_CTR,
    ISTR_RESET, ISTR_SUSP, ISTR_WKUP,
};
use crate::types::{
    EndpointAddress, EndpointDirection, EndpointStatus, EndpointType, PollResult, UsbError,
};

verus! {

/// In a consistent driver every buffer lies between the descriptor table and
/// the end of packet memory, and no two buffers share a byte.
pub proof fn law_buffers_apart_and_within_memory(
    bus: UsbBus,
    i: int,
    d: EndpointDirection,
    j: int,
    e: EndpointDirection,
)
    requires
        bus.wf(),
        0 <= i < NUM_ENDPOINTS,
        0 <= j < NUM_ENDPOINTS,
        range_of(bus.endpoints@, i, d) is Some,
        range_of(bus.endpoints@, j, e) is Some,
    ensures
        ({
            let a = range_of(bus.endpoints@, i, d)->0;
            let b = range_of(bus.endpoints@, j, e)->0;
            &&& MEM_START <= a.0
            &&& a.0 + a.1 <= MEM_SIZE
            &&& i != j || d != e ==> disjoint(a, b)
        }),
{
    assert(slot_wf(bus.endpoints@[i], bus.next_ep_mem as int));
}

/// The slot that `first_fit` picks lies in the range searched and can serve
/// the request, and no lower slot of the range can.
pub proof fn law_first_fit_is_lowest(
    slots: Seq<Endpoint>,
    dir: EndpointDirection,
    ty: EndpointType,
    lo: int,
    hi: int,
)
    ensures
        match first_fit(slots, dir, ty, lo, hi) {
            Some(i) => lo <= i < hi && can_serve(slots[i], dir, ty) && forall|k: int|
                lo <= k < i ==> !can_serve(#[trigger] slots[k], dir, ty),
            None => forall|k: int| lo <= k < hi ==> !can_serve(#[trigger] slots[k], dir, ty),
        },
    decreases hi - lo,
{
    if lo < hi && !can_serve(slots[lo], dir, ty) {
        law_first_fit_is_lowest(slots, dir, ty, lo + 1, hi);
    }
}

/// An allocation never moves the cursor back; it leaves every slot's type
/// and every buffer that was already recorded as they were; and when it
/// succeeds, the buffer it hands out starts at the old cursor, ends at the
/// new one, and belongs to the slot and direction of the address returned.
pub proof fn law_alloc_monotonic(
    bus: UsbBus,
    dir: EndpointDirection,
    addr: Option<EndpointAddress>,
    ty: EndpointType,
    max_packet_size: u16,
)
    requires
        bus.wf(),
    ensures
        ({
            let (slots, next, r) = alloc_outcome(
                bus.endpoints@,
                bus.next_ep_mem as int,
                dir,
                addr,
                ty,
                max_packet_size,
            );
            &&& next >= bus.next_ep_mem
            &&& next <= MEM_SIZE
            &&& slots.len() == NUM_ENDPOINTS
            &&& forall|k: int|
                0 <= k < NUM_ENDPOINTS && (#[trigger] bus.endpoints@[k]).ep_type is Some
                    ==> slots[k].ep_type == bus.endpoints@[k].ep_type
            &&& forall|k: int, e: EndpointDirection|
                0 <= k < NUM_ENDPOINTS && (#[trigger] range_of(bus.endpoints@, k, e)) is Some
                    ==> range_of(slots, k, e) == range_of(bus.endpoints@, k, e)
            &&& r matches Ok(a) ==> {
                &&& a.direction == dir
                &&& a.index < NUM_ENDPOINTS
                &&& range_of(bus.endpoints@, a.index as int, dir) is None
                &&& range_of(slots, a.index as int, dir) == Some(
                    (bus.next_ep_mem as int, next - bus.next_ep_mem),
                )
                &&& slots[a.index as int].ep_type == Some(ty)
            }
            &&& r is Err ==> next == bus.next_ep_mem
        }),
{
    let (lo, hi) = candidates(addr);
    law_first_fit_is_lowest(bus.endpoints@, dir, ty, lo, hi);
}

/// The outcome of an allocation depends on nothing but the slots, the
/// cursor and the request: two drivers that agree on slots and cursor give
/// the same address, the same offset and the same state.
pub proof fn law_alloc_deterministic(
    a: UsbBus,
    b: UsbBus,
    dir: EndpointDirection,
    addr: Option<EndpointAddress>,
    ty: EndpointType,
    max_packet_size: u16,
)
    requires
        a.endpoints@ == b.endpoints@,
        a.next_ep_mem == b.next_ep_mem,
    ensures
        alloc_outcome(a.endpoints@, a.next_ep_mem as int, dir, addr, ty, max_packet_size)
            == alloc_outcome(b.endpoints@, b.next_ep_mem as int, dir, addr, ty, max_packet_size),
{
}

/// A request that names a slot whose type is set to another type, or whose
/// buffer for the direction is already set, is refused and changes nothing.
pub proof fn law_conflicting_alloc_refused(
    bus: UsbBus,
    index: usize,
    dir: EndpointDirection,
    ty: EndpointType,
    max_packet_size: u16,
)
    requires
        bus.wf(),
        index < NUM_ENDPOINTS,
        (bus.endpoints@[index as int].ep_type is Some && bus.endpoints@[index as int].ep_type
            != Some(ty)) || range_of(bus.endpoints@, index as int, dir) is Some,
    ensures
        alloc_outcome(
            bus.endpoints@,
            bus.next_ep_mem as int,
            dir,
            Some(EndpointAddress { index, direction: dir }),
            ty,
            max_packet_size,
        ) == (
            bus.endpoints@,
            bus.next_ep_mem as int,
            Err::<EndpointAddress, UsbError>(UsbError::EndpointOverflow),
        ),
{
    reveal_with_fuel(first_fit, 2);
}

/// The highest slot in use has a buffer unless it is slot 0, and no slot
/// above it has one.
pub proof fn law_highest_used(slots: Seq<Endpoint>, n: int)
    requires
        0 <= n <= slots.len(),
    ensures
        0 <= highest_used(slots, n),
        n > 0 ==> highest_used(slots, n) < n,
        highest_used(slots, n) > 0 ==> slots[highest_used(slots, n)].in_buf is Some
            || slots[highest_used(slots, n)].out_buf is Some,
        forall|k: int|
            highest_used(slots, n) < k < n ==> (#[trigger] slots[k]).in_buf is None
                && slots[k].out_buf is None,
    decreases n,
{
    if n > 0 && !(slots[n - 1].in_buf is Some || slots[n - 1].out_buf is Some) {
        law_highest_used(slots, n - 1);
    }
}

/// Configuring a slot twice leaves its register as configuring it once
/// does, and asks for the same descriptor-table entries.
pub proof fn law_configure_idempotent(
    ep: Endpoint,
    reg: u16,
    first: EndpointSetup,
    second: EndpointSetup,
)
    requires
        ep.configures(reg, Some(first)),
        ep.configures(reg_after_write(reg, first.reg_write), Some(second)),
    ensures
        reg_after_write(reg_after_write(reg, first.reg_write), second.reg_write)
            == reg_after_write(reg, first.reg_write),
        second.rx == first.rx,
        second.tx == first.tx,
{
    let t = type_code(ep.ep_type->0);
    let i = ep.index as u16;
    let rx = status_code(ep.initial_rx());
    let tx = status_code(ep.initial_tx());
    assert(t <= 3 && rx <= 3 && tx <= 3);
    let once = (reg & 0x0800) | (t << 9) | (i & 0x000f) | (rx << 12) | (tx << 4);
    assert(t <= 3 && rx <= 3 && tx <= 3 && once == (reg & 0x0800) | (t << 9) | (i & 0x000f) | (rx
        << 12) | (tx << 4) ==> (once & 0x0800) | (t << 9) | (i & 0x000f) | (rx << 12) | (tx << 4)
        == once) by (bit_vector);
}

/// Resetting the bus twice in a row leaves every endpoint register as
/// resetting it once does, and asks for the same descriptor-table entries.
pub proof fn law_reset_idempotent(
    bus: UsbBus,
    regs: Seq<u16>,
    first: Seq<Option<EndpointSetup>>,
    second: Seq<Option<EndpointSetup>>,
)
    requires
        bus.endpoints@.len() == NUM_ENDPOINTS,
        regs.len() == NUM_ENDPOINTS,
        first.len() == NUM_ENDPOINTS,
        second.len() == NUM_ENDPOINTS,
        forall|i: int|
            0 <= i < NUM_ENDPOINTS ==> bus.endpoints@[i].configures(regs[i], #[trigger] first[i]),
        forall|i: int|
            0 <= i < NUM_ENDPOINTS ==> bus.endpoints@[i].configures(
                regs_after_setup(regs, first)[i],
                #[trigger] second[i],
            ),
    ensures
        regs_after_setup(regs_after_setup(regs, first), second) == regs_after_setup(regs, first),
        forall|i: int|
            0 <= i < NUM_ENDPOINTS ==> ((#[trigger] second[i]) is Some <==> first[i] is Some),
        forall|i: int|
            0 <= i < NUM_ENDPOINTS && (#[trigger] second[i]) is Some ==> second[i]->0.rx
                == first[i]->0.rx && second[i]->0.tx == first[i]->0.tx,
{
    let once = regs_after_setup(regs, first);
    let twice = regs_after_setup(once, second);
    assert forall|i: int| 0 <= i < NUM_ENDPOINTS implies twice[i] == once[i] && (second[i] is Some
        <==> first[i] is Some) && (second[i] is Some ==> second[i]->0.rx == first[i]->0.rx
        && second[i]->0.tx == first[i]->0.tx) by {
        assert(bus.endpoints@[i].configures(regs[i], first[i]));
        assert(bus.endpoints@[i].configures(once[i], second[i]));
        if first[i] is Some {
            law_configure_idempotent(bus.endpoints@[i], regs[i], first[i]->0, second[i]->0);
        }
    }
    assert(twice =~= once);
}

/// A wakeup, reset or suspend that a poll reports is the only flag its
/// write clears: every other flag of the interrupt status is as before.
pub proof fn law_poll_clears_one_flag(max_endpoint: int, s: BusStatus)
    ensures
        match poll_outcome(max_endpoint, Some(s)).1 {
            Some(word) => {
                let after = istr_after_write(s.istr, word);
                let flag = if s.istr & ISTR_WKUP != 0 {
                    ISTR_WKUP
                } else if s.istr & ISTR_RESET != 0 {
                    ISTR_RESET
                } else {
                    ISTR_SUSP
                };
                &&& s.istr & flag != 0
                &&& after == s.istr & !flag
                &&& after & flag == 0
            },
            None => s.istr & ISTR_WKUP == 0 && s.istr & ISTR_RESET == 0 && s.istr & ISTR_SUSP == 0,
        },
{
    let istr = s.istr;
    assert((istr & !0x1000u16) & 0x1000 == 0 && (istr & !0x0400u16) & 0x0400 == 0 && (istr
        & !0x0800u16) & 0x0800 == 0) by (bit_vector);
}

/// A condition that is pending beside the one a poll reports surfaces on
/// the next poll: after a wakeup is reported and cleared, a pending reset is
/// reported; after a reset, a pending suspend; after a suspend, pending
/// transfers.
pub proof fn law_poll_surfaces_next(max_endpoint: int, s: BusStatus, word: u16)
    requires
        poll_outcome(max_endpoint, Some(s)).1 == Some(word),
    ensures
        ({
            let after = BusStatus { istr: istr_after_write(s.istr, word), ..s };
            let next = poll_outcome(max_endpoint, Some(after)).0;
            let first = poll_outcome(max_endpoint, Some(s)).0;
            &&& s.istr & ISTR_WKUP != 0 && s.istr & ISTR_RESET != 0 ==> next == PollResult::Reset
            &&& s.istr & ISTR_WKUP == 0 && s.istr & ISTR_RESET != 0 && s.istr & ISTR_SUSP != 0
                ==> first == PollResult::Reset && next == PollResult::Suspend
            &&& s.istr & ISTR_WKUP == 0 && s.istr & ISTR_RESET == 0 && s.istr & ISTR_SUSP != 0
                && s.istr & ISTR_CTR != 0 ==> first == PollResult::Suspend && next
                is Data
        }),
{
    let istr = s.istr;
    assert({
        &&& (istr & !0x1000u16) & 0x1000 == 0
        &&& (istr & !0x1000u16) & 0x0400 == istr & 0x0400
        &&& (istr & !0x0400u16) & 0x0400 == 0
        &&& (istr & !0x0400u16) & 0x1000 == istr & 0x1000
        &&& (istr & !0x0400u16) & 0x0800 == istr & 0x0800
        &&& (istr & !0x0800u16) & 0x0800 == 0
        &&& (istr & !0x0800u16) & 0x1000 == istr & 0x1000
        &&& (istr & !0x0800u16) & 0x0400 == istr & 0x0400
        &&& (istr & !0x0800u16) & 0x8000 == istr & 0x8000
    }) by (bit_vector);
}

/// A mask of the first `n` registers is below bit `n`, and its bit `i`
/// is set exactly if register `i` shows the flag.
pub proof fn law_mask_bits(regs: Seq<u16>, n: int, flag: EndpointFlag, i: int)
    requires
        0 <= i < n <= NUM_ENDPOINTS,
        n <= regs.len(),
    ensures
        0 <= flag_mask(regs, n, flag) < bit_value(n),
        (flag_mask(regs, n, flag) / bit_value(i)) % 2 == 1 <==> shows(flag, regs[i]),
    decreases n,
{
    lemma_mask_below_bit(regs, n - 1, flag);
    let rest = flag_mask(regs, n - 1, flag);
    let top = bit_value(n - 1);
    if i < n - 1 {
        law_mask_bits(regs, n - 1, flag, i);
        let unit = bit_value(i);
        let k = bit_value(n - 1 - i);
        lemma_bit_product(i, n - 1 - i);
        assert(top == unit * k);
        assert(k % 2 == 0) by {
            reveal_with_fuel(bit_value, 2);
        }
        if shows(flag, regs[n - 1]) {
            assert((rest + unit * k) / unit == rest / unit + k) by (nonlinear_arith)
                requires
                    unit > 0,
                    rest >= 0,
            ;
        }
    } else {
        if shows(flag, regs[n - 1]) {
            assert((rest + top) / top == 1) by (nonlinear_arith)
                requires
                    0 <= rest < top,
            ;
        } else {
            assert(rest / top == 0) by (nonlinear_arith)
                requires
                    0 <= rest < top,
            ;
        }
    }
}

/// A mask of the first `n` registers is below bit `n`.
pub proof fn lemma_mask_below_bit(regs: Seq<u16>, n: int, flag: EndpointFlag)
    requires
        0 <= n,
    ensures
        0 <= flag_mask(regs, n, flag) < bit_value(n),
    decreases n,
{
    if n > 0 {
        lemma_mask_below_bit(regs, n - 1, flag);
    }
}

/// Bit values multiply as powers of two do.
pub proof fn lemma_bit_product(a: int, b: int)
    requires
        0 <= a,
        0 <= b,
    ensures
        bit_value(a + b) == bit_value(a) * bit_value(b),
        bit_value(a) > 0,
    decreases b,
{
    if b > 0 {
        lemma_bit_product(a, b - 1);
        assert(2 * (bit_value(a) * bit_value(b - 1)) == bit_value(a) * (2 * bit_value(b - 1)))
            by (nonlinear_arith);
    } else {
        lemma_bit_positive(a);
    }
}

/// Every bit value is positive.
pub proof fn lemma_bit_positive(a: int)
    ensures
        bit_value(a) > 0,
    decreases a,
{
    if a > 0 {
        lemma_bit_positive(a - 1);
    }
}

/// A poll that finds the registers held by another poll reports nothing and
/// asks for no write.
pub proof fn law_reentrant_poll_is_idle(max_endpoint: int)
    ensures
        poll_outcome(max_endpoint, None) == (
            PollResult::Idle,
            None::<u16>,
            Seq::<(usize, u16)>::empty(),
        ),
{
}

/// A write to an endpoint that is still busy succeeds with zero bytes and
/// asks for no register write.
pub proof fn law_busy_write_is_zero(
    ep: Endpoint,
    reg: u16,
    data: Seq<u8>,
    r: Result<Transmit, UsbError>,
)
    requires
        ep.in_buf is Some,
        stat_tx_of(reg) == EndpointStatus::Valid,
        ep.transmits(reg, data, r),
    ensures
        r is Ok,
        r->Ok_0.written == 0,
        r->Ok_0.words@.len() == 0,
        r->Ok_0.reg_write is None,
{
}

/// A read from an endpoint with nothing pending succeeds with zero bytes
/// and asks for no register write.
pub proof fn law_empty_read_is_zero(
    ep: Endpoint,
    reg: u16,
    count_rx: u16,
    mem: Seq<u16>,
    capacity: int,
    r: Result<Receive, UsbError>,
)
    requires
        ep.out_buf is Some,
        !Endpoint::rx_pending(reg),
        ep.receives(reg, count_rx, mem, capacity, r),
    ensures
        r is Ok,
        r->Ok_0.data@.len() == 0,
        r->Ok_0.reg_write is None,
{
}

/// After a stall request the endpoint reads as stalled exactly if the stall
/// was asked for, and the other direction's status is untouched.
pub proof fn law_stall_then_query(dir: EndpointDirection, reg: u16, stalled: bool)
    ensures
        stalled_of(dir, after_set_stalled(dir, reg, stalled)) == stalled,
        dir == EndpointDirection::In ==> stat_rx_of(after_set_stalled(dir, reg, stalled))
            == stat_rx_of(reg),
        dir == EndpointDirection::Out ==> stat_tx_of(after_set_stalled(dir, reg, stalled))
            == stat_tx_of(reg),
{
    let target = if stalled {
        EndpointStatus::Stall
    } else {
        EndpointStatus::Nak
    };
    let code = status_code(target);
    assert(code == 1 || code == 2);
    assert(code <= 3 ==> {
        &&& (((reg & !0x0030u16) | (code << 4)) >> 4) & 3 == code
        &&& (((reg & !0x0030u16) | (code << 4)) >> 12) & 3 == (reg >> 12) & 3
        &&& (((reg & !0x3000u16) | (code << 12)) >> 12) & 3 == code
        &&& (((reg & !0x3000u16) | (code << 12)) >> 4) & 3 == (reg >> 4) & 3
    }) by (bit_vector);
}

/// Bytes packed into packet-memory words come out again unchanged.
pub proof fn law_pack_then_unpack(data: Seq<u8>)
    ensures
        unpacked(packed(data), data.len() as int) == data,
{
    let words = packed(data);
    assert forall|j: int| 0 <= j < data.len() implies unpacked_byte(words, j) == data[j] by {
        let k = j / 2;
        assert(0 <= k < words.len());
        assert(words[k] == packed_word(data, k) as u16);
    }
    assert(unpacked(words, data.len() as int) =~= data);
}

} // verus!
