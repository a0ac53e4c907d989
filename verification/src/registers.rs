//! Bit-level model of the peripheral's registers.
//!
//! An endpoint register mixes four kinds of bits: plain read/write fields,
//! a read-only flag, flags that a written 0 clears, and fields that a written
//! 1 toggles. The functions here compute, from the value last read, the word
//! to write so that exactly the intended field changes.

use vstd::prelude::*;
use crate::types::{EndpointStatus, EndpointType};

verus! {

/// Receive-complete flag (a written 0 clears it, a written 1 keeps it).
pub const EP_CTR_RX: u16 = 0x8000;
/// Receive data toggle (a written 1 flips it).
pub const EP_DTOG_RX: u16 = 0x4000;
/// Receive status field (a written 1 flips a bit).
pub const EP_STAT_RX: u16 = 0x3000;
/// Setup-packet flag (read-only).
pub const EP_SETUP: u16 = 0x0800;
/// Endpoint type field (read/write).
pub const EP_TYPE: u16 = 0x0600;
/// Endpoint kind flag (read/write).
pub const EP_KIND: u16 = 0x0100;
/// Transmit-complete flag (a written 0 clears it, a written 1 keeps it).
pub const EP_CTR_TX: u16 = 0x0080;
/// Transmit data toggle (a written 1 flips it).
pub const EP_DTOG_TX: u16 = 0x0040;
/// Transmit status field (a written 1 flips a bit).
pub const EP_STAT_TX: u16 = 0x0030;
/// Endpoint address field (read/write).
pub const EP_EA: u16 = 0x000f;

/// Interrupt status: correct transfer.
pub const ISTR_CTR: u16 = 0x8000;
/// Interrupt status: wakeup.
pub const ISTR_WKUP: u16 = 0x1000;
/// Interrupt status: suspend.
pub const ISTR_SUSP: u16 = 0x0800;
/// Interrupt status: bus reset.
pub const ISTR_RESET: u16 = 0x0400;

/// Frame number register: level of the D+ line.
pub const FNR_RXDP: u16 = 0x8000;
/// Frame number register: level of the D- line.
pub const FNR_RXDM: u16 = 0x4000;

/// The value an endpoint register holds after `word` is written to it while
/// it holds `cur`.
pub open spec fn reg_after_write(cur: u16, word: u16) -> u16 {
    (word & 0x070f) | (cur & 0x0800) | (cur & word & 0x8080) | ((cur ^ word) & 0x7070)
}

/// The value the interrupt status register holds after `word` is written to
/// it while it holds `cur`: a written 0 clears a flag, a written 1 keeps it.
pub open spec fn istr_after_write(cur: u16, word: u16) -> u16 {
    cur & word
}

/// The two-bit encoding of a status.
pub open spec fn status_code(s: EndpointStatus) -> u16 {
    match s {
        EndpointStatus::Disabled => 0,
        EndpointStatus::Stall => 1,
        EndpointStatus::Nak => 2,
        EndpointStatus::Valid => 3,
    }
}

/// The status that a two-bit field encodes.
pub open spec fn status_of_code(code: u16) -> EndpointStatus {
    if code == 0 {
        EndpointStatus::Disabled
    } else if code == 1 {
        EndpointStatus::Stall
    } else if code == 2 {
        EndpointStatus::Nak
    } else {
        EndpointStatus::Valid
    }
}

/// The two-bit encoding of an endpoint type.
pub open spec fn type_code(t: EndpointType) -> u16 {
    match t {
        EndpointType::Bulk => 0,
        EndpointType::Control => 1,
        EndpointType::Isochronous => 2,
        EndpointType::Interrupt => 3,
    }
}

pub open spec fn stat_tx_of(reg: u16) -> EndpointStatus {
    status_of_code((reg >> 4) & 3)
}

pub open spec fn stat_rx_of(reg: u16) -> EndpointStatus {
    status_of_code((reg >> 12) & 3)
}

pub open spec fn ctr_rx_of(reg: u16) -> bool {
    reg & 0x8000 != 0
}

pub open spec fn ctr_tx_of(reg: u16) -> bool {
    reg & 0x0080 != 0
}

pub open spec fn setup_of(reg: u16) -> bool {
    reg & 0x0800 != 0
}

/// The register value with the transmit status field replaced.
pub open spec fn with_stat_tx(reg: u16, s: EndpointStatus) -> u16 {
    (reg & !0x0030u16) | (status_code(s) << 4)
}

/// The register value with the receive status field replaced.
pub open spec fn with_stat_rx(reg: u16, s: EndpointStatus) -> u16 {
    (reg & !0x3000u16) | (status_code(s) << 12)
}

/// The register value of a freshly configured slot: type and address as
/// given, both completion flags and both data toggles clear, the two status
/// fields as given; only the read-only setup flag is carried over.
pub open spec fn configured_reg(
    reg: u16,
    t: EndpointType,
    index: u16,
    rx: EndpointStatus,
    tx: EndpointStatus,
) -> u16 {
    (reg & 0x0800) | (type_code(t) << 9) | (index & 0x000f) | (status_code(rx) << 12) | (
    status_code(tx) << 4)
}

/// Computes what an endpoint register holds after `word` is written to it
/// while it holds `cur`, as the peripheral would.
pub fn written(cur: u16, word: u16) -> (after: u16)
    ensures
        after == reg_after_write(cur, word),
{
    (word & 0x070f) | (cur & 0x0800) | (cur & word & 0x8080) | ((cur ^ word) & 0x7070)
}

pub fn status_to_code(s: EndpointStatus) -> (code: u16)
    ensures
        code == status_code(s),
        code <= 3,
{
    match s {
        EndpointStatus::Disabled => 0,
        EndpointStatus::Stall => 1,
        EndpointStatus::Nak => 2,
        EndpointStatus::Valid => 3,
    }
}

pub fn status_from_code(code: u16) -> (s: EndpointStatus)
    ensures
        s == status_of_code(code),
{
    if code == 0 {
        EndpointStatus::Disabled
    } else if code == 1 {
        EndpointStatus::Stall
    } else if code == 2 {
        EndpointStatus::Nak
    } else {
        EndpointStatus::Valid
    }
}

pub fn type_to_code(t: EndpointType) -> (code: u16)
    ensures
        code == type_code(t),
        code <= 3,
{
    match t {
        EndpointType::Bulk => 0,
        EndpointType::Control => 1,
        EndpointType::Isochronous => 2,
        EndpointType::Interrupt => 3,
    }
}

/// Transmit status held by a register value.
pub fn stat_tx(reg: u16) -> (s: EndpointStatus)
    ensures
        s == stat_tx_of(reg),
{
    status_from_code((reg >> 4) & 3)
}

/// Receive status held by a register value.
pub fn stat_rx(reg: u16) -> (s: EndpointStatus)
    ensures
        s == stat_rx_of(reg),
{
    status_from_code((reg >> 12) & 3)
}

pub fn ctr_rx(reg: u16) -> (b: bool)
    ensures
        b == ctr_rx_of(reg),
{
    reg & 0x8000 != 0
}

pub fn ctr_tx(reg: u16) -> (b: bool)
    ensures
        b == ctr_tx_of(reg),
{
    reg & 0x0080 != 0
}

pub fn setup(reg: u16) -> (b: bool)
    ensures
        b == setup_of(reg),
{
    reg & 0x0800 != 0
}

/// The word that, written over `reg`, sets the transmit status to `s` and
/// changes nothing else.
pub fn set_stat_tx_word(reg: u16, s: EndpointStatus) -> (word: u16)
    ensures
        reg_after_write(reg, word) == with_stat_tx(reg, s),
        stat_tx_of(reg_after_write(reg, word)) == s,
        stat_rx_of(reg_after_write(reg, word)) == stat_rx_of(reg),
{
    let code: u16 = status_to_code(s);
    let word: u16 = (reg & 0x070f) | 0x8080 | ((reg & 0x0030) ^ (code << 4));
    proof {
        assert(code <= 3 && word == (reg & 0x070f) | 0x8080 | ((reg & 0x0030) ^ (code << 4)) ==> {
            &&& reg_after_write(reg, word) == (reg & !0x0030u16) | (code << 4)
            &&& (reg_after_write(reg, word) >> 4) & 3 == code
            &&& (reg_after_write(reg, word) >> 12) & 3 == (reg >> 12) & 3
        }) by (bit_vector);
    }
    word
}

/// The word that, written over `reg`, sets the receive status to `s` and
/// changes nothing else.
pub fn set_stat_rx_word(reg: u16, s: EndpointStatus) -> (word: u16)
    ensures
        reg_after_write(reg, word) == with_stat_rx(reg, s),
        stat_rx_of(reg_after_write(reg, word)) == s,
        stat_tx_of(reg_after_write(reg, word)) == stat_tx_of(reg),
{
    let code: u16 = status_to_code(s);
    let word: u16 = (reg & 0x070f) | 0x8080 | ((reg & 0x3000) ^ (code << 12));
    proof {
        assert(code <= 3 && word == (reg & 0x070f) | 0x8080 | ((reg & 0x3000) ^ (code << 12)) ==> {
            &&& reg_after_write(reg, word) == (reg & !0x3000u16) | (code << 12)
            &&& (reg_after_write(reg, word) >> 12) & 3 == code
            &&& (reg_after_write(reg, word) >> 4) & 3 == (reg >> 4) & 3
        }) by (bit_vector);
    }
    word
}

/// The word that, written over `reg`, clears the transmit-complete flag and
/// changes nothing else.
pub fn clear_ctr_tx_word(reg: u16) -> (word: u16)
    ensures
        word == clear_ctr_tx_word_of(reg),
        reg_after_write(reg, word) == reg & !0x0080u16,
        !ctr_tx_of(reg_after_write(reg, word)),
{
    let word: u16 = (reg & 0x070f) | 0x8000;
    proof {
        assert(word == (reg & 0x070f) | 0x8000 ==> {
            &&& reg_after_write(reg, word) == reg & !0x0080u16
            &&& reg_after_write(reg, word) & 0x0080 == 0
        }) by (bit_vector);
    }
    word
}

pub open spec fn clear_ctr_tx_word_of(reg: u16) -> u16 {
    (reg & 0x070f) | 0x8000
}

/// The word that, written over `reg`, clears the receive-complete flag, sets
/// the receive status to `s` and changes nothing else.
pub fn rearm_rx_word(reg: u16, s: EndpointStatus) -> (word: u16)
    ensures
        reg_after_write(reg, word) == with_stat_rx(reg & !0x8000u16, s),
        stat_rx_of(reg_after_write(reg, word)) == s,
        !ctr_rx_of(reg_after_write(reg, word)),
{
    let code: u16 = status_to_code(s);
    let word: u16 = (reg & 0x070f) | 0x0080 | ((reg & 0x3000) ^ (code << 12));
    proof {
        assert(code <= 3 && word == (reg & 0x070f) | 0x0080 | ((reg & 0x3000) ^ (code << 12)) ==> {
            &&& reg_after_write(reg, word) == ((reg & !0x8000u16) & !0x3000u16) | (code << 12)
            &&& (reg_after_write(reg, word) >> 12) & 3 == code
            &&& reg_after_write(reg, word) & 0x8000 == 0
        }) by (bit_vector);
    }
    word
}

/// The word that, written over `reg`, leaves the register configured for a
/// slot of type `t` at address `index` with the given status fields.
pub fn configure_word(
    reg: u16,
    t: EndpointType,
    index: u16,
    rx: EndpointStatus,
    tx: EndpointStatus,
) -> (word: u16)
    ensures
        reg_after_write(reg, word) == configured_reg(reg, t, index, rx, tx),
        stat_rx_of(reg_after_write(reg, word)) == rx,
        stat_tx_of(reg_after_write(reg, word)) == tx,
{
    let tc: u16 = type_to_code(t);
    let rc: u16 = status_to_code(rx);
    let xc: u16 = status_to_code(tx);
    let word: u16 = (tc << 9) | (index & 0x000f) | (reg & 0x4040) | ((reg & 0x3000) ^ (rc << 12))
        | ((reg & 0x0030) ^ (xc << 4));
    proof {
        assert(tc <= 3 && rc <= 3 && xc <= 3 && word == (tc << 9) | (index & 0x000f) | (reg
            & 0x4040) | ((reg & 0x3000) ^ (rc << 12)) | ((reg & 0x0030) ^ (xc << 4)) ==> {
            &&& reg_after_write(reg, word) == (reg & 0x0800) | (tc << 9) | (index & 0x000f) | (rc
                << 12) | (xc << 4)
            &&& (reg_after_write(reg, word) >> 12) & 3 == rc
            &&& (reg_after_write(reg, word) >> 4) & 3 == xc
        }) by (bit_vector);
    }
    word
}

} // verus!
