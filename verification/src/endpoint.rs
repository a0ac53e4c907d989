//! One endpoint slot: its type, its two buffer descriptors, and the framing
//! of transfers between byte strings and packet memory.

use vstd::prelude::*;
use crate::types::{EndpointStatus, EndpointType, UsbError};
use crate::registers::{
    configure_word, configured_reg, ctr_rx, ctr_rx_of, rearm_rx_word, reg_after_write,
    set_stat_tx_word, stat_rx, stat_rx_of, stat_tx, stat_tx_of, with_stat_rx, with_stat_tx,
};

verus! {

/// Number of endpoint slots of the peripheral.
pub const NUM_ENDPOINTS: usize = 8;

/// First byte of packet memory that is free for buffers; the buffer
/// descriptor table lies below it.
pub const MEM_START: usize = 64;

/// Size of packet memory in bytes.
pub const MEM_SIZE: usize = 512;

/// Whether a receive buffer of `size` bytes can be asked for.
pub open spec fn rx_size_accepted(size: int) -> bool {
    size % 2 == 0 && 0 <= size <= 1024
}

/// The size a receive buffer really gets: small buffers are made of 2-byte
/// blocks, larger ones of 32-byte blocks.
pub open spec fn rx_rounded(size: int) -> int {
    if size <= 62 {
        size
    } else {
        ((size + 31) / 32) * 32
    }
}

/// The count word that announces a receive buffer of `size` bytes: the
/// block-size flag in the top bit, the block count in the five bits below.
pub open spec fn rx_encoding(size: int) -> int {
    if size <= 62 {
        (size / 2) * 1024
    } else {
        0x8000 + (size / 32 - 1) * 1024
    }
}

/// The buffer size that a count word announces.
pub open spec fn rx_capacity(bits: int) -> int {
    if bits < 0x8000 {
        (bits / 1024) * 2
    } else {
        ((bits - 0x8000) / 1024 + 1) * 32
    }
}

/// Rounds a receive buffer size and encodes it; odd sizes and sizes above
/// 1024 bytes cannot be expressed.
pub fn calculate_count_rx(size: usize) -> (r: Result<(usize, u16), UsbError>)
    ensures
        match r {
            Ok((rounded, bits)) => {
                &&& rx_size_accepted(size as int)
                &&& rounded == rx_rounded(size as int)
                &&& bits == rx_encoding(rounded as int)
                &&& rx_capacity(bits as int) == rounded
                &&& rounded % 2 == 0
                &&& size <= rounded < size + 32
            },
            Err(e) => e == UsbError::SizeOverflow && !rx_size_accepted(size as int),
        },
{
    if size % 2 != 0 || size > 1024 {
        Err(UsbError::SizeOverflow)
    } else if size <= 62 {
        let blocks: usize = size / 2;
        let bits: usize = blocks * 1024;
        Ok((size, bits as u16))
    } else {
        let blocks: usize = (size + 31) / 32;
        let rounded: usize = blocks * 32;
        let bits: usize = 0x8000 + (blocks - 1) * 1024;
        Ok((rounded, bits as u16))
    }
}

/// The 16-bit word at position `k` of the packet-memory image of `data`:
/// two bytes per word, the first in the low half.
pub open spec fn packed_word(data: Seq<u8>, k: int) -> int {
    if 2 * k + 1 < data.len() {
        data[2 * k] + 256 * data[2 * k + 1]
    } else {
        data[2 * k] as int
    }
}

/// The packet-memory image of `data`.
pub open spec fn packed(data: Seq<u8>) -> Seq<u16> {
    Seq::new(((data.len() + 1) / 2) as nat, |k: int| packed_word(data, k) as u16)
}

/// The byte at position `j` of the string that the words `mem` hold.
pub open spec fn unpacked_byte(mem: Seq<u16>, j: int) -> int {
    if j % 2 == 0 {
        (mem[j / 2] % 256) as int
    } else {
        (mem[j / 2] / 256) as int
    }
}

/// The first `n` bytes that the words `mem` hold.
pub open spec fn unpacked(mem: Seq<u16>, n: int) -> Seq<u8> {
    Seq::new(n as nat, |j: int| unpacked_byte(mem, j) as u8)
}

/// Packs the first `n` bytes of `data` into 16-bit words.
pub fn pack_words(data: &[u8], n: usize) -> (words: Vec<u16>)
    requires
        n <= data@.len(),
    ensures
        words@ == packed(data@.take(n as int)),
{
    let mut words: Vec<u16> = Vec::new();
    let count: usize = n / 2 + n % 2;
    let mut k: usize = 0;
    while k < count
        invariant
            n <= data@.len(),
            count == n / 2 + n % 2,
            k <= count,
            words@.len() == k,
            forall|j: int| 0 <= j < k ==> words@[j] == packed_word(data@.take(n as int), j),
        decreases count - k,
    {
        let i: usize = 2 * k;
        let lo: u16 = data[i] as u16;
        let word: u16 = if i + 1 < n {
            let hi: u16 = data[i + 1] as u16;
            lo + 256 * hi
        } else {
            lo
        };
        words.push(word);
        k = k + 1;
    }
    proof {
        assert(words@ =~= packed(data@.take(n as int)));
    }
    words
}

/// Unpacks the first `n` bytes held by the words `mem`.
pub fn unpack_bytes(mem: &[u16], n: usize) -> (data: Vec<u8>)
    requires
        n <= 2 * mem@.len(),
    ensures
        data@ == unpacked(mem@, n as int),
{
    let mut data: Vec<u8> = Vec::new();
    let mut j: usize = 0;
    while j < n
        invariant
            n <= 2 * mem@.len(),
            j <= n,
            data@.len() == j,
            forall|k: int| 0 <= k < j ==> data@[k] == unpacked_byte(mem@, k),
        decreases n - j,
    {
        let word: u16 = mem[j / 2];
        let byte: u16 = if j % 2 == 0 {
            word % 256
        } else {
            word / 256
        };
        data.push(byte as u8);
        j = j + 1;
    }
    proof {
        assert(data@ =~= unpacked(mem@, n as int));
    }
    data
}

/// Descriptor of a transmit buffer: where it lies and how long it is.
#[derive(Clone, Copy, Debug)]
pub struct InBuffer {
    pub offset: usize,
    pub size: usize,
}

/// Descriptor of a receive buffer: where it lies, how long it is, and the
/// count word that announces its size to the peripheral.
#[derive(Clone, Copy, Debug)]
pub struct OutBuffer {
    pub offset: usize,
    pub size: usize,
    pub count_bits: u16,
}

/// What has to be written to bring a slot's hardware in line with its
/// recorded state.
#[derive(Clone, Copy, Debug)]
pub struct EndpointSetup {
    /// Word to write to the endpoint register.
    pub reg_write: u16,
    /// Receive entries of the descriptor table: buffer offset and count word.
    pub rx: Option<(usize, u16)>,
    /// Transmit entries of the descriptor table: buffer offset and count.
    pub tx: Option<(usize, u16)>,
}

/// What a write asks of the hardware.
#[derive(Debug)]
pub struct Transmit {
    /// Number of bytes accepted.
    pub written: usize,
    /// Offset in packet memory at which `words` are to be stored.
    pub offset: usize,
    /// Packet-memory image of the accepted bytes.
    pub words: Vec<u16>,
    /// Word to write to the endpoint register; none if nothing was accepted
    /// because the endpoint is not ready.
    pub reg_write: Option<u16>,
}

/// What a read hands back and asks of the hardware.
#[derive(Debug)]
pub struct Receive {
    /// The bytes received.
    pub data: Vec<u8>,
    /// Word to write to the endpoint register; none if nothing was pending.
    pub reg_write: Option<u16>,
}

/// State of one endpoint slot.
#[derive(Clone, Copy, Debug)]
pub struct Endpoint {
    pub index: u8,
    pub ep_type: Option<EndpointType>,
    pub in_buf: Option<InBuffer>,
    pub out_buf: Option<OutBuffer>,
}

/// Smaller of two lengths.
pub open spec fn min_len(a: int, b: int) -> int {
    if a <= b {
        a
    } else {
        b
    }
}

impl Endpoint {
    /// The receive status a configured slot starts with.
    pub open spec fn initial_rx(&self) -> EndpointStatus {
        if self.out_buf is Some {
            EndpointStatus::Valid
        } else {
            EndpointStatus::Disabled
        }
    }

    /// The transmit status a configured slot starts with.
    pub open spec fn initial_tx(&self) -> EndpointStatus {
        if self.in_buf is Some {
            EndpointStatus::Nak
        } else {
            EndpointStatus::Disabled
        }
    }

    /// Whether a write finds the endpoint unable to take data.
    pub open spec fn tx_busy(reg: u16) -> bool {
        stat_tx_of(reg) == EndpointStatus::Valid || stat_tx_of(reg) == EndpointStatus::Disabled
    }

    /// Whether a read finds a received packet waiting.
    pub open spec fn rx_pending(reg: u16) -> bool {
        ctr_rx_of(reg) && stat_rx_of(reg) != EndpointStatus::Disabled
    }

    /// Number of bytes a read hands out.
    pub open spec fn rx_len(count_rx: u16, mem_len: int, capacity: int) -> int {
        min_len(min_len(count_rx as int % 1024, capacity), 2 * mem_len)
    }

    /// Whether `setup` is what brings the slot's hardware in line with its
    /// recorded state when its register holds `reg`: nothing for a slot
    /// without a type; else a register word that leaves the register
    /// configured with the slot's type, index and initial status fields, and
    /// the descriptor-table entries of the buffers it has.
    pub open spec fn configures(&self, reg: u16, setup: Option<EndpointSetup>) -> bool {
        &&& self.ep_type is None <==> setup is None
        &&& setup matches Some(s) ==> {
            &&& reg_after_write(reg, s.reg_write) == configured_reg(
                reg,
                self.ep_type->0,
                self.index as u16,
                self.initial_rx(),
                self.initial_tx(),
            )
            &&& stat_rx_of(reg_after_write(reg, s.reg_write)) == self.initial_rx()
            &&& stat_tx_of(reg_after_write(reg, s.reg_write)) == self.initial_tx()
            &&& s.rx == match self.out_buf {
                Some(b) => Some((b.offset, b.count_bits)),
                None => None,
            }
            &&& s.tx == match self.in_buf {
                Some(b) => Some((b.offset, 0u16)),
                None => None,
            }
        }
    }

    /// Whether `r` is the answer to a write of `data` when the slot's
    /// register holds `reg`.
    pub open spec fn transmits(&self, reg: u16, data: Seq<u8>, r: Result<Transmit, UsbError>) -> bool {
        &&& self.in_buf is None ==> r == Err::<Transmit, UsbError>(UsbError::InvalidEndpoint)
        &&& self.in_buf matches Some(b) ==> r is Ok && {
            let t = r->Ok_0;
            &&& t.offset == b.offset
            &&& Self::tx_busy(reg) ==> t.written == 0 && t.words@.len() == 0 && t.reg_write is None
            &&& !Self::tx_busy(reg) ==> {
                &&& t.written == min_len(data.len() as int, b.size as int)
                &&& t.words@ == packed(data.take(t.written as int))
                &&& t.reg_write matches Some(w)
                &&& reg_after_write(reg, w) == with_stat_tx(reg, EndpointStatus::Valid)
                &&& stat_tx_of(reg_after_write(reg, w)) == EndpointStatus::Valid
            }
        }
    }

    /// Whether `r` is the answer to a read of at most `capacity` bytes when
    /// the slot's register holds `reg`, its descriptor's count word is
    /// `count_rx` and its buffer holds the words `mem`.
    pub open spec fn receives(
        &self,
        reg: u16,
        count_rx: u16,
        mem: Seq<u16>,
        capacity: int,
        r: Result<Receive, UsbError>,
    ) -> bool {
        &&& self.out_buf is None ==> r == Err::<Receive, UsbError>(UsbError::InvalidEndpoint)
        &&& self.out_buf is Some ==> r is Ok && {
            let rcv = r->Ok_0;
            &&& !Self::rx_pending(reg) ==> rcv.data@.len() == 0 && rcv.reg_write is None
            &&& Self::rx_pending(reg) ==> {
                &&& rcv.data@ == unpacked(mem, Self::rx_len(count_rx, mem.len() as int, capacity))
                &&& rcv.reg_write matches Some(w)
                &&& reg_after_write(reg, w) == with_stat_rx(reg & !0x8000u16, EndpointStatus::Valid)
                &&& stat_rx_of(reg_after_write(reg, w)) == EndpointStatus::Valid
                &&& !ctr_rx_of(reg_after_write(reg, w))
            }
        }
    }

    pub fn new(index: u8) -> (ep: Endpoint)
        ensures
            ep.index == index,
            ep.ep_type is None,
            ep.in_buf is None,
            ep.out_buf is None,
    {
        Endpoint { index, ep_type: None, in_buf: None, out_buf: None }
    }

    pub fn ep_type(&self) -> (t: Option<EndpointType>)
        ensures
            t == self.ep_type,
    {
        self.ep_type
    }

    /// Records the slot's type, which never changes once it is set.
    pub fn set_ep_type(&mut self, t: EndpointType)
        requires
            old(self).ep_type is None || old(self).ep_type == Some(t),
        ensures
            *final(self) == (Endpoint { ep_type: Some(t), ..*old(self) }),
    {
        self.ep_type = Some(t);
    }

    pub fn is_out_buf_set(&self) -> (b: bool)
        ensures
            b == (self.out_buf is Some),
    {
        self.out_buf.is_some()
    }

    pub fn is_in_buf_set(&self) -> (b: bool)
        ensures
            b == (self.in_buf is Some),
    {
        self.in_buf.is_some()
    }

    /// Records the receive buffer, which never changes once it is set.
    pub fn set_out_buf(&mut self, addr: usize, size_and_bits: (usize, u16))
        requires
            old(self).out_buf is None,
        ensures
            *final(self) == (Endpoint {
                out_buf: Some(
                    OutBuffer { offset: addr, size: size_and_bits.0, count_bits: size_and_bits.1 },
                ),
                ..*old(self)
            }),
    {
        self.out_buf = Some(
            OutBuffer { offset: addr, size: size_and_bits.0, count_bits: size_and_bits.1 },
        );
    }

    /// Records the transmit buffer, which never changes once it is set.
    pub fn set_in_buf(&mut self, addr: usize, max_packet_size: usize)
        requires
            old(self).in_buf is None,
        ensures
            *final(self) == (Endpoint {
                in_buf: Some(InBuffer { offset: addr, size: max_packet_size }),
                ..*old(self)
            }),
    {
        self.in_buf = Some(InBuffer { offset: addr, size: max_packet_size });
    }

    /// What to write so that the slot's hardware matches its recorded state,
    /// given the value `reg` last read from its register. A slot without a
    /// type is left alone.
    pub fn configure(&self, reg: u16) -> (setup: Option<EndpointSetup>)
        ensures
            self.configures(reg, setup),
    {
        match self.ep_type {
            None => None,
            Some(t) => {
                let rx_status = if self.out_buf.is_some() {
                    EndpointStatus::Valid
                } else {
                    EndpointStatus::Disabled
                };
                let tx_status = if self.in_buf.is_some() {
                    EndpointStatus::Nak
                } else {
                    EndpointStatus::Disabled
                };
                let rx = match self.out_buf {
                    Some(b) => Some((b.offset, b.count_bits)),
                    None => None,
                };
                let tx = match self.in_buf {
                    Some(b) => Some((b.offset, 0u16)),
                    None => None,
                };
                Some(
                    EndpointSetup {
                        reg_write: configure_word(reg, t, self.index as u16, rx_status, tx_status),
                        rx,
                        tx,
                    },
                )
            },
        }
    }

    /// Frames `data` for transmission, given the value `reg` last read from
    /// the slot's register. Without a transmit buffer the endpoint is
    /// invalid; while the previous packet is still waiting nothing is
    /// accepted; otherwise as much of `data` as the buffer holds is packed
    /// and the transmit status is armed.
    pub fn write(&self, reg: u16, data: &[u8]) -> (r: Result<Transmit, UsbError>)
        ensures
            self.transmits(reg, data@, r),
    {
        match self.in_buf {
            None => Err(UsbError::InvalidEndpoint),
            Some(b) => {
                let status = stat_tx(reg);
                if status == EndpointStatus::Valid || status == EndpointStatus::Disabled {
                    Ok(Transmit { written: 0, offset: b.offset, words: Vec::new(), reg_write: None })
                } else {
                    let n: usize = if data.len() <= b.size {
                        data.len()
                    } else {
                        b.size
                    };
                    let words = pack_words(data, n);
                    let word: u16 = set_stat_tx_word(reg, EndpointStatus::Valid);
                    Ok(Transmit { written: n, offset: b.offset, words, reg_write: Some(word) })
                }
            },
        }
    }

    /// Takes a received packet out of the words `mem` read from the slot's
    /// receive buffer, given the value `reg` last read from its register and
    /// the count word `count_rx` of its descriptor. Without a receive buffer
    /// the endpoint is invalid; with nothing pending nothing is handed out;
    /// otherwise at most `capacity` bytes are unpacked and the receive
    /// side is armed again.
    pub fn read(&self, reg: u16, count_rx: u16, mem: &[u16], capacity: usize) -> (r: Result<
        Receive,
        UsbError,
    >)
        ensures
            self.receives(reg, count_rx, mem@, capacity as int, r),
    {
        match self.out_buf {
            None => Err(UsbError::InvalidEndpoint),
            Some(_b) => {
                let status = stat_rx(reg);
                if !ctr_rx(reg) || status == EndpointStatus::Disabled {
                    Ok(Receive { data: Vec::new(), reg_write: None })
                } else {
                    let count: usize = (count_rx % 1024) as usize;
                    let mut n: usize = if count <= capacity {
                        count
                    } else {
                        capacity
                    };
                    // A count is below 1024, so 512 words or more always hold it.
                    if mem.len() < 512 && n > 2 * mem.len() {
                        n = 2 * mem.len();
                    }
                    let data = unpack_bytes(mem, n);
                    let word: u16 = rearm_rx_word(reg, EndpointStatus::Valid);
                    Ok(Receive { data, reg_write: Some(word) })
                }
            },
        }
    }
}

} // verus!
