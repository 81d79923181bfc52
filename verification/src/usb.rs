//! Packetized USB transport over the cartridge bridge.
//!
//! The protocol moves byte buffers between RAM and the bridge in packets
//! of at most 512 bytes. A partial packet sits at the *high* end of its
//! 512-byte window: its base offset is 512 minus its length. Each packet
//! is a handshake: a command written to the bridge's command/status
//! register names the direction and the base offset, a bounded busy-wait
//! polls the ACTIVE status bit, and a DMA transfer moves the bytes between
//! RAM and the data window with the matching cache maintenance.
//!
//! Every operation takes the peripheral bus capability (`bus::Bus`)
//! explicitly, so the whole protocol is verified against the simulated
//! bridge and tests can drive it deterministically.

use vstd::prelude::*;

use crate::bus::{
    Bus, CacheRecord, DmaRecord, cfg_base, evd_reg_read, evd_reg_write, in_data_window,
    is_activate, is_read_cmd, lemma_addr_values, lemma_status_bits_decode, pi_read, pi_write,
    same_config_regs, status_bits, status_read_rel, window_offset, ed_regs, PACKET_LEN, REG_BASE,
    REG_KEY, REG_RAM_CFG, REG_SYS_CFG, REG_USB_CFG, REG_USB_DAT, TIMEOUT_POLLS, USB_CMD_RD,
    USB_CMD_RD_NOP, USB_CMD_WR, USB_CMD_WR_NOP, USB_STA_ACT, USB_STA_PWR, USB_STA_RXF,
};

verus! {

/// Transport failure: the only modeled kind is the bridge staying busy
/// past the poll budget.
#[derive(Clone, Copy, PartialEq, Eq, Structural, Debug)]
pub enum BiError {
    /// The bridge's ACTIVE bit did not clear within the poll budget.
    BiErrUbsTout,
}

/// Save-emulation mode: none.
pub const SAVE_OFF: u32 = 0;

/// Domain-1 latency the bridge requires.
pub const DOM1_LATENCY: u32 = 0x04;

/// Domain-1 pulse width the bridge requires.
pub const DOM1_PULSE_WIDTH: u32 = 0x0C;

/// Bit facts about the four protocol commands with a base offset below
/// the packet length.
pub proof fn lemma_cmd_bits(b: u32)
    requires
        b < 512,
    ensures
        cfg_base(USB_CMD_RD | b) == b,
        is_activate(USB_CMD_RD | b),
        is_read_cmd(USB_CMD_RD | b),
        cfg_base(USB_CMD_WR | b) == b,
        is_activate(USB_CMD_WR | b),
        !is_read_cmd(USB_CMD_WR | b),
        !is_activate(USB_CMD_RD_NOP),
        !is_activate(USB_CMD_WR_NOP),
{
    lemma_addr_values();
    assert(b < 512 ==> ((0xC600u32 | b) & 0x1FFu32 == b && (0xC600u32 | b) & 0x200u32 != 0 && (
    0xC600u32 | b) & 0x400u32 != 0)) by (bit_vector);
    assert(b < 512 ==> ((0xC200u32 | b) & 0x1FFu32 == b && (0xC200u32 | b) & 0x200u32 != 0 && (
    0xC200u32 | b) & 0x400u32 == 0)) by (bit_vector);
    assert(0xC400u32 & 0x200u32 == 0) by (bit_vector);
    assert(0xC000u32 & 0x200u32 == 0) by (bit_vector);
}

/// The bus address of the data window at a given base offset, masked into
/// the physical window, is the window's physical base plus the offset.
pub proof fn lemma_dat_address(b: u32)
    requires
        b < 512,
    ensures
        in_data_window((0xA000_0000u32 | 0x1F80_0000 | (0x0400 + b) as u32) as u32, (512 - b) as nat),
        window_offset((0xA000_0000u32 | 0x1F80_0000 | (0x0400 + b) as u32) as u32) == b,
        ((0xA000_0000u32 | 0x1F80_0000 | (0x0400 + b) as u32) as u32) & 0x1FFF_FFFF == 0x1F80_0400
            + b,
{
    assert(b < 512 ==> ((0xA000_0000u32 | 0x1F80_0000 | (0x0400 + b) as u32) & 0x1FFF_FFFF) == (
    0x1F80_0400 + b) as u32) by (bit_vector);
}

/// Busy-wait on the bridge's ACTIVE bit, bounded at `TIMEOUT_POLLS`
/// status polls. Returns as soon as a poll shows the bit clear. If every
/// poll in the budget shows it set, writes the read-no-op recovery command
/// so the bridge register is left in a defined idle state, and reports a
/// timeout.
pub fn evd_usb_busy(bus: &mut Bus) -> (r: Result<(), BiError>)
    requires
        old(bus).wf(),
    ensures
        final(bus).wf(),
        r is Ok <==> old(bus).countdown < TIMEOUT_POLLS,
        old(bus).countdown < TIMEOUT_POLLS ==> {
            &&& final(bus).countdown == 0
            &&& final(bus).cmd_log@ == old(bus).cmd_log@
            &&& final(bus).status_log@ == old(bus).status_log@ + Seq::new(
                (old(bus).countdown + 1) as nat,
                |i: int| status_bits(old(bus).powered, i < old(bus).countdown, old(bus).fifo@.len() > 0),
            )
        },
        old(bus).countdown >= TIMEOUT_POLLS ==> {
            &&& final(bus).countdown == old(bus).countdown - TIMEOUT_POLLS
            &&& final(bus).cmd_log@ == old(bus).cmd_log@.push(USB_CMD_RD_NOP)
            &&& final(bus).status_log@ == old(bus).status_log@ + Seq::new(
                TIMEOUT_POLLS as nat,
                |i: int| status_bits(old(bus).powered, true, old(bus).fifo@.len() > 0),
            )
        },
        final(bus).window@ == old(bus).window@,
        final(bus).fifo@ == old(bus).fifo@,
        final(bus).dma == old(bus).dma,
        final(bus).dma_log@ == old(bus).dma_log@,
        final(bus).cache_log@ == old(bus).cache_log@,
        same_config_regs(*old(bus), *final(bus)),
{
    let ghost busy_poll = status_bits(old(bus).powered, true, old(bus).fifo@.len() > 0);
    let mut tout: u64 = 0;
    loop
        invariant
            bus.wf(),
            tout < TIMEOUT_POLLS,
            tout <= old(bus).countdown,
            bus.countdown == old(bus).countdown - tout,
            bus.status_log@ == old(bus).status_log@ + Seq::new(
                tout as nat,
                |i: int| busy_poll,
            ),
            bus.window@ == old(bus).window@,
            bus.fifo@ == old(bus).fifo@,
            bus.cmd_log@ == old(bus).cmd_log@,
            bus.dma == old(bus).dma,
            bus.dma_log@ == old(bus).dma_log@,
            bus.cache_log@ == old(bus).cache_log@,
            same_config_regs(*old(bus), *bus),
        decreases TIMEOUT_POLLS - tout,
    {
        let ghost pre = *bus;
        let status = evd_reg_read(bus, REG_USB_CFG);
        proof {
            lemma_status_bits_decode(pre.powered, pre.countdown > 0, pre.fifo@.len() > 0);
        }
        if status & USB_STA_ACT == 0 {
            proof {
                assert(bus.status_log@ =~= old(bus).status_log@ + Seq::new(
                    (old(bus).countdown + 1) as nat,
                    |i: int| status_bits(
                        old(bus).powered,
                        i < old(bus).countdown,
                        old(bus).fifo@.len() > 0,
                    ),
                ));
            }
            return Ok(());
        }
        tout = tout + 1;
        proof {
            assert(bus.status_log@ =~= old(bus).status_log@ + Seq::new(
                tout as nat,
                |i: int| busy_poll,
            ));
        }
        if tout == TIMEOUT_POLLS {
            proof {
                lemma_cmd_bits(0);
            }
            evd_reg_write(bus, REG_USB_CFG, USB_CMD_RD_NOP);
            return Err(BiError::BiErrUbsTout);
        }
    }
}

/// Whether the bridge is powered with nothing queued in its receive FIFO:
/// the condition under which initialization attempts a drain read. Note
/// that this is the bit check the protocol defines for both directions;
/// whether the transmit FIFO bit was intended here is an open hardware
/// question. One call consumes one status poll.
pub fn evd_usb_can_read(bus: &mut Bus) -> (r: bool)
    requires
        old(bus).wf(),
    ensures
        final(bus).wf(),
        r == (old(bus).powered && old(bus).fifo@.len() == 0),
        status_read_rel(*old(bus), *final(bus)),
{
    let ghost pre = *bus;
    let status = evd_reg_read(bus, REG_USB_CFG);
    proof {
        lemma_status_bits_decode(pre.powered, pre.countdown > 0, pre.fifo@.len() > 0);
    }
    status & (USB_STA_PWR | USB_STA_RXF) == USB_STA_PWR
}

/// Whether the bridge can accept a write. The protocol computes this with
/// the same receive-FIFO bit check as `evd_usb_can_read`; it is kept as
/// the hardware protocol defines it. One call consumes one status poll.
pub fn evd_usb_can_write(bus: &mut Bus) -> (r: bool)
    requires
        old(bus).wf(),
    ensures
        final(bus).wf(),
        r == (old(bus).powered && old(bus).fifo@.len() == 0),
        status_read_rel(*old(bus), *final(bus)),
{
    let ghost pre = *bus;
    let status = evd_reg_read(bus, REG_USB_CFG);
    proof {
        lemma_status_bits_decode(pre.powered, pre.countdown > 0, pre.fifo@.len() > 0);
    }
    status & (USB_STA_PWR | USB_STA_RXF) == USB_STA_PWR
}

/// Length of the next packet: a full packet, or what remains.
pub open spec fn spec_chunk(remaining: nat) -> nat {
    if remaining >= PACKET_LEN {
        PACKET_LEN as nat
    } else {
        remaining
    }
}

/// Base offset of the next packet within its 512-byte window: a partial
/// packet sits at the high end.
pub open spec fn spec_base(remaining: nat) -> nat {
    (PACKET_LEN - spec_chunk(remaining)) as nat
}

/// Number of packets a transfer of `len` bytes takes.
pub open spec fn num_chunks(len: nat) -> nat
    decreases len,
{
    if len == 0 {
        0
    } else {
        1 + num_chunks((len - spec_chunk(len)) as nat)
    }
}

/// Masked bus address of the data window at a given base offset.
pub open spec fn dat_address(base: nat) -> u32 {
    (REG_BASE + REG_USB_DAT + base) as u32
}

/// The DMA record of the next packet of a transfer with `len` bytes left.
pub open spec fn chunk_dma(len: nat, to_ram: bool) -> DmaRecord {
    DmaRecord {
        to_ram,
        peripheral_addr: dat_address(spec_base(len)),
        len: spec_chunk(len) as usize,
    }
}

/// The activate commands a fault-free read of `len` bytes writes: one per
/// packet, each carrying the packet's base offset.
pub open spec fn read_cmds(len: nat) -> Seq<u32>
    decreases len,
{
    if len == 0 {
        Seq::empty()
    } else {
        seq![USB_CMD_RD | spec_base(len) as u32] + read_cmds((len - spec_chunk(len)) as nat)
    }
}

/// The activate commands a fault-free write of `len` bytes writes.
pub open spec fn write_cmds(len: nat) -> Seq<u32>
    decreases len,
{
    if len == 0 {
        Seq::empty()
    } else {
        seq![USB_CMD_WR | spec_base(len) as u32] + write_cmds((len - spec_chunk(len)) as nat)
    }
}

/// Status polls a fault-free transfer of `len` bytes performs when every
/// busy-wait sees `b` busy polls before the ACTIVE bit clears.
pub open spec fn spec_polls(b: nat, len: nat) -> nat
    decreases len,
{
    if len == 0 {
        0
    } else {
        b + 1 + spec_polls(b, (len - spec_chunk(len)) as nat)
    }
}

/// Whether a read of `len` bytes completes: the bridge clears ACTIVE
/// within the poll budget and has the bytes queued.
pub open spec fn read_ok(f: nat, b: nat, len: nat) -> bool {
    len == 0 || (b < TIMEOUT_POLLS && f >= len)
}

/// Commands a read of `len` bytes writes when `f` bytes are queued: one
/// activate command per packet up to and including the packet where it
/// stalls, then the recovery no-op.
pub open spec fn read_cmds_out(f: nat, b: nat, len: nat) -> Seq<u32>
    decreases len,
{
    if len == 0 {
        Seq::empty()
    } else {
        let c = spec_chunk(len);
        let cmd = USB_CMD_RD | spec_base(len) as u32;
        if f >= c && b < TIMEOUT_POLLS {
            seq![cmd] + read_cmds_out((f - c) as nat, b, (len - c) as nat)
        } else {
            seq![cmd, USB_CMD_RD_NOP]
        }
    }
}

/// DMA transfers a read of `len` bytes issues: one per packet whose
/// busy-wait succeeded.
pub open spec fn read_dmas_out(f: nat, b: nat, len: nat) -> Seq<DmaRecord>
    decreases len,
{
    if len == 0 {
        Seq::empty()
    } else {
        let c = spec_chunk(len);
        if f >= c && b < TIMEOUT_POLLS {
            seq![chunk_dma(len, true)] + read_dmas_out((f - c) as nat, b, (len - c) as nat)
        } else {
            Seq::empty()
        }
    }
}

/// Cache-maintenance calls a read of `len` bytes issues: one eviction per
/// packet whose busy-wait succeeded.
pub open spec fn read_caches_out(f: nat, b: nat, len: nat) -> Seq<CacheRecord>
    decreases len,
{
    if len == 0 {
        Seq::empty()
    } else {
        let c = spec_chunk(len);
        if f >= c && b < TIMEOUT_POLLS {
            seq![CacheRecord { invalidate: true, len: c as usize }] + read_caches_out(
                (f - c) as nat,
                b,
                (len - c) as nat,
            )
        } else {
            Seq::empty()
        }
    }
}

/// The bridge FIFO a read leaves behind: each packet's activate command
/// consumes its span if the bytes are queued, even when the busy-wait
/// after it times out.
pub open spec fn read_fifo_out(f: Seq<u8>, b: nat, len: nat) -> Seq<u8>
    decreases len,
{
    if len == 0 {
        f
    } else {
        let c = spec_chunk(len) as int;
        if f.len() >= c {
            if b < TIMEOUT_POLLS {
                read_fifo_out(f.skip(c), b, (len - c) as nat)
            } else {
                f.skip(c)
            }
        } else {
            f
        }
    }
}

/// The caller's buffer a read leaves behind: every packet whose busy-wait
/// succeeded lands in order; from the packet where the transfer stalls on,
/// the buffer is untouched.
pub open spec fn read_data_out(f: Seq<u8>, b: nat, buf: Seq<u8>) -> Seq<u8>
    decreases buf.len(),
{
    if buf.len() == 0 {
        buf
    } else {
        let c = spec_chunk(buf.len()) as int;
        if f.len() >= c && b < TIMEOUT_POLLS {
            f.take(c) + read_data_out(f.skip(c), b, buf.skip(c))
        } else {
            buf
        }
    }
}

/// The data window a read leaves behind: each served packet lands at its
/// base offset before being copied out.
pub open spec fn read_window_out(w: Seq<u8>, f: Seq<u8>, b: nat, len: nat) -> Seq<u8>
    decreases len,
{
    if len == 0 {
        w
    } else {
        let c = spec_chunk(len) as int;
        let base = spec_base(len) as int;
        if f.len() >= c {
            let w2 = w.take(base) + f.take(c);
            if b < TIMEOUT_POLLS {
                read_window_out(w2, f.skip(c), b, (len - c) as nat)
            } else {
                w2
            }
        } else {
            w
        }
    }
}

/// The busy countdown a read leaves behind.
pub open spec fn read_cd_out(f: nat, b: nat, len: nat, cd0: nat) -> nat
    decreases len,
{
    if len == 0 {
        cd0
    } else {
        let c = spec_chunk(len);
        if f >= c {
            if b < TIMEOUT_POLLS {
                read_cd_out((f - c) as nat, b, (len - c) as nat, 0)
            } else {
                (b - TIMEOUT_POLLS) as nat
            }
        } else {
            0
        }
    }
}

/// Status polls a read performs: `b + 1` per served packet, a full budget
/// at the packet where it stalls.
pub open spec fn read_polls_out(f: nat, b: nat, len: nat) -> nat
    decreases len,
{
    if len == 0 {
        0
    } else {
        let c = spec_chunk(len);
        if f >= c && b < TIMEOUT_POLLS {
            b + 1 + read_polls_out((f - c) as nat, b, (len - c) as nat)
        } else {
            TIMEOUT_POLLS as nat
        }
    }
}

/// Whether a write of `len` bytes completes: the bridge clears ACTIVE
/// within the poll budget after every packet.
pub open spec fn write_ok(b: nat, len: nat) -> bool {
    len == 0 || b < TIMEOUT_POLLS
}

/// Commands a write of `len` bytes writes after the arming no-op: one
/// activate command per packet; after a busy-wait timeout, the recovery
/// no-op.
pub open spec fn write_cmds_out(b: nat, len: nat) -> Seq<u32>
    decreases len,
{
    if len == 0 {
        Seq::empty()
    } else {
        let c = spec_chunk(len);
        let cmd = USB_CMD_WR | spec_base(len) as u32;
        if b < TIMEOUT_POLLS {
            seq![cmd] + write_cmds_out(b, (len - c) as nat)
        } else {
            seq![cmd, USB_CMD_RD_NOP]
        }
    }
}

/// DMA transfers a write of `len` bytes issues: one per packet, including
/// the packet whose busy-wait then times out, since the DMA into the data
/// window precedes the activate command.
pub open spec fn write_dmas_out(b: nat, len: nat) -> Seq<DmaRecord>
    decreases len,
{
    if len == 0 {
        Seq::empty()
    } else {
        let c = spec_chunk(len);
        if b < TIMEOUT_POLLS {
            seq![chunk_dma(len, false)] + write_dmas_out(b, (len - c) as nat)
        } else {
            seq![chunk_dma(len, false)]
        }
    }
}

/// Cache-maintenance calls a write of `len` bytes issues: one writeback
/// per packet that reaches its DMA.
pub open spec fn write_caches_out(b: nat, len: nat) -> Seq<CacheRecord>
    decreases len,
{
    if len == 0 {
        Seq::empty()
    } else {
        let c = spec_chunk(len);
        if b < TIMEOUT_POLLS {
            seq![CacheRecord { invalidate: false, len: c as usize }] + write_caches_out(
                b,
                (len - c) as nat,
            )
        } else {
            seq![CacheRecord { invalidate: false, len: c as usize }]
        }
    }
}

/// Bytes a write queues in the bridge: all of `data` on a fault-free
/// bridge; only the first packet when the first busy-wait times out.
pub open spec fn write_fifo_gain(b: nat, data: Seq<u8>) -> Seq<u8> {
    if data.len() == 0 {
        Seq::empty()
    } else if b < TIMEOUT_POLLS {
        data
    } else {
        data.take(spec_chunk(data.len()) as int)
    }
}

/// The data window a write leaves behind: each packet lands at its base
/// offset before being queued.
pub open spec fn write_window_out(w: Seq<u8>, b: nat, data: Seq<u8>) -> Seq<u8>
    decreases data.len(),
{
    if data.len() == 0 {
        w
    } else {
        let c = spec_chunk(data.len()) as int;
        let base = spec_base(data.len()) as int;
        let w2 = w.take(base) + data.take(c);
        if b < TIMEOUT_POLLS {
            write_window_out(w2, b, data.skip(c))
        } else {
            w2
        }
    }
}

/// The busy countdown a write leaves behind.
pub open spec fn write_cd_out(b: nat, len: nat, cd0: nat) -> nat {
    if len == 0 {
        cd0
    } else if b < TIMEOUT_POLLS {
        0
    } else {
        (b - TIMEOUT_POLLS) as nat
    }
}

/// Status polls a write performs: `b + 1` per packet on a fault-free
/// bridge, a full budget when the first busy-wait times out.
pub open spec fn write_polls_out(b: nat, len: nat) -> nat {
    if len == 0 {
        0
    } else if b < TIMEOUT_POLLS {
        spec_polls(b, len)
    } else {
        TIMEOUT_POLLS as nat
    }
}

/// Writes `data.len()` bytes from `data` to the bridge, packet by packet.
/// The bridge is armed with a write no-op first. For each packet: DMA the
/// packet from the buffer into the data window at the packet's base
/// offset, write the write-activate command carrying that offset, then
/// busy-wait on the ACTIVE bit. A busy-wait timeout aborts the transfer.
#[verifier::rlimit(100)]
pub fn evd_usb_write(bus: &mut Bus, data: &Vec<u8>) -> (r: Result<(), BiError>)
    requires
        old(bus).wf(),
    ensures
        final(bus).wf(),
        r is Ok <==> write_ok(old(bus).busy_per_activate as nat, data@.len()),
        final(bus).fifo@ == old(bus).fifo@ + write_fifo_gain(
            old(bus).busy_per_activate as nat,
            data@,
        ),
        final(bus).window@ == write_window_out(
            old(bus).window@,
            old(bus).busy_per_activate as nat,
            data@,
        ),
        final(bus).cmd_log@ == old(bus).cmd_log@.push(USB_CMD_WR_NOP) + write_cmds_out(
            old(bus).busy_per_activate as nat,
            data@.len(),
        ),
        final(bus).dma_log@ == old(bus).dma_log@ + write_dmas_out(
            old(bus).busy_per_activate as nat,
            data@.len(),
        ),
        final(bus).cache_log@ == old(bus).cache_log@ + write_caches_out(
            old(bus).busy_per_activate as nat,
            data@.len(),
        ),
        final(bus).countdown == write_cd_out(
            old(bus).busy_per_activate as nat,
            data@.len(),
            old(bus).countdown as nat,
        ),
        final(bus).status_log@.len() == old(bus).status_log@.len() + write_polls_out(
            old(bus).busy_per_activate as nat,
            data@.len(),
        ),
        same_config_regs(*old(bus), *final(bus)),
{
    let ghost b = old(bus).busy_per_activate as nat;
    proof {
        lemma_cmd_bits(0);
    }
    evd_reg_write(bus, REG_USB_CFG, USB_CMD_WR_NOP);
    let total = data.len();
    let mut cursor: usize = 0;
    proof {
        assert(old(bus).fifo@ + data@.take(0) =~= old(bus).fifo@);
        assert(data@.skip(0) =~= data@);
    }
    while cursor < total
        invariant
            bus.wf(),
            cursor <= total,
            bus.busy_per_activate == old(bus).busy_per_activate,
            cursor > 0 ==> b < TIMEOUT_POLLS,
            bus.fifo@ == old(bus).fifo@ + data@.take(cursor as int),
            write_window_out(old(bus).window@, b, data@) == write_window_out(
                bus.window@,
                b,
                data@.skip(cursor as int),
            ),
            old(bus).cmd_log@.push(USB_CMD_WR_NOP) + write_cmds_out(b, data@.len())
                == bus.cmd_log@ + write_cmds_out(b, (total - cursor) as nat),
            old(bus).dma_log@ + write_dmas_out(b, data@.len()) == bus.dma_log@ + write_dmas_out(
                b,
                (total - cursor) as nat,
            ),
            old(bus).cache_log@ + write_caches_out(b, data@.len()) == bus.cache_log@
                + write_caches_out(b, (total - cursor) as nat),
            write_cd_out(b, data@.len(), old(bus).countdown as nat) == write_cd_out(
                b,
                (total - cursor) as nat,
                bus.countdown as nat,
            ),
            old(bus).status_log@.len() + write_polls_out(b, data@.len()) == bus.status_log@.len()
                + write_polls_out(b, (total - cursor) as nat),
            same_config_regs(*old(bus), *bus),
        decreases total - cursor,
    {
        let remaining = total - cursor;
        let mut blen = PACKET_LEN;
        if blen > remaining {
            blen = remaining;
        }
        let baddr = PACKET_LEN - blen;
        proof {
            lemma_cmd_bits(baddr as u32);
            lemma_dat_address(baddr as u32);
        }
        let pi_addr = ed_regs(REG_USB_DAT + (baddr as u32));
        let ghost pre = *bus;
        pi_write(bus, data, cursor, pi_addr, blen);
        proof {
            assert(bus.window@ =~= pre.window@.take(baddr as int) + data@.skip(cursor as int).take(
                blen as int,
            ));
            assert(bus.cache_log@ =~= pre.cache_log@.push(
                CacheRecord { invalidate: false, len: blen },
            ));
        }
        let ghost mid = *bus;
        let cmd = USB_CMD_WR | (baddr as u32);
        evd_reg_write(bus, REG_USB_CFG, cmd);
        proof {
            assert(bus.fifo@ =~= pre.fifo@ + data@.subrange(cursor as int, (cursor + blen) as int));
            assert(bus.fifo@ =~= old(bus).fifo@ + data@.take((cursor + blen) as int));
        }
        let response = evd_usb_busy(bus);
        match response {
            Err(e) => {
                proof {
                    assert(cursor == 0);
                    assert(bus.fifo@ =~= old(bus).fifo@ + write_fifo_gain(b, data@));
                    assert(old(bus).cmd_log@.push(USB_CMD_WR_NOP) + write_cmds_out(b, data@.len())
                        =~= bus.cmd_log@);
                    assert(old(bus).dma_log@ + write_dmas_out(b, data@.len()) =~= bus.dma_log@);
                    assert(old(bus).cache_log@ + write_caches_out(b, data@.len())
                        =~= bus.cache_log@);
                }
                return Err(e);
            },
            Ok(()) => {},
        }
        proof {
            assert(pre.cmd_log@.push(cmd) + write_cmds_out(b, (remaining - blen) as nat)
                =~= pre.cmd_log@ + (seq![cmd] + write_cmds_out(b, (remaining - blen) as nat)));
            assert(pre.dma_log@.push(chunk_dma(remaining as nat, false)) + write_dmas_out(
                b,
                (remaining - blen) as nat,
            ) =~= pre.dma_log@ + (seq![chunk_dma(remaining as nat, false)] + write_dmas_out(
                b,
                (remaining - blen) as nat,
            )));
            assert(pre.cache_log@.push(CacheRecord { invalidate: false, len: blen })
                + write_caches_out(b, (remaining - blen) as nat) =~= pre.cache_log@ + (seq![
                    CacheRecord { invalidate: false, len: blen },
                ] + write_caches_out(b, (remaining - blen) as nat)));
            assert(data@.skip(cursor as int).skip(blen as int) =~= data@.skip(
                (cursor + blen) as int,
            ));
            assert(write_polls_out(b, remaining as nat) == b + 1 + write_polls_out(
                b,
                (remaining - blen) as nat,
            )) by {
                assert(spec_polls(b, remaining as nat) == b + 1 + spec_polls(
                    b,
                    (remaining - blen) as nat,
                ));
            };
        }
        cursor = cursor + blen;
    }
    Ok(())
}

/// Reads `data.len()` bytes from the bridge into `data`, packet by
/// packet. For each packet: write the read-activate command carrying the
/// packet's base offset, busy-wait on the ACTIVE bit, then DMA the packet
/// from the data window into the buffer at the cursor. A busy-wait
/// timeout aborts the transfer; packets already transferred stay valid
/// and the rest of the buffer is untouched.
#[verifier::rlimit(100)]
pub fn evd_usb_read(bus: &mut Bus, data: &mut Vec<u8>) -> (r: Result<(), BiError>)
    requires
        old(bus).wf(),
    ensures
        final(bus).wf(),
        final(data)@.len() == old(data)@.len(),
        r is Ok <==> read_ok(
            old(bus).fifo@.len(),
            old(bus).busy_per_activate as nat,
            old(data)@.len(),
        ),
        final(data)@ == read_data_out(
            old(bus).fifo@,
            old(bus).busy_per_activate as nat,
            old(data)@,
        ),
        final(bus).fifo@ == read_fifo_out(
            old(bus).fifo@,
            old(bus).busy_per_activate as nat,
            old(data)@.len(),
        ),
        final(bus).window@ == read_window_out(
            old(bus).window@,
            old(bus).fifo@,
            old(bus).busy_per_activate as nat,
            old(data)@.len(),
        ),
        final(bus).cmd_log@ == old(bus).cmd_log@ + read_cmds_out(
            old(bus).fifo@.len(),
            old(bus).busy_per_activate as nat,
            old(data)@.len(),
        ),
        final(bus).dma_log@ == old(bus).dma_log@ + read_dmas_out(
            old(bus).fifo@.len(),
            old(bus).busy_per_activate as nat,
            old(data)@.len(),
        ),
        final(bus).cache_log@ == old(bus).cache_log@ + read_caches_out(
            old(bus).fifo@.len(),
            old(bus).busy_per_activate as nat,
            old(data)@.len(),
        ),
        final(bus).countdown == read_cd_out(
            old(bus).fifo@.len(),
            old(bus).busy_per_activate as nat,
            old(data)@.len(),
            old(bus).countdown as nat,
        ),
        final(bus).status_log@.len() == old(bus).status_log@.len() + read_polls_out(
            old(bus).fifo@.len(),
            old(bus).busy_per_activate as nat,
            old(data)@.len(),
        ),
        same_config_regs(*old(bus), *final(bus)),
{
    let ghost b = old(bus).busy_per_activate as nat;
    let total = data.len();
    let mut cursor: usize = 0;
    proof {
        assert(old(data)@.skip(0) =~= old(data)@);
        assert(data@.take(0) + read_data_out(old(bus).fifo@, b, old(data)@) =~= read_data_out(
            old(bus).fifo@,
            b,
            old(data)@,
        ));
    }
    while cursor < total
        invariant
            bus.wf(),
            cursor <= total,
            data@.len() == total,
            bus.fifo@.len() + cursor == old(bus).fifo@.len(),
            bus.busy_per_activate == old(bus).busy_per_activate,
            forall|j: int| cursor <= j < total ==> data@[j] == old(data)@[j],
            read_data_out(old(bus).fifo@, b, old(data)@) == data@.take(cursor as int)
                + read_data_out(bus.fifo@, b, old(data)@.skip(cursor as int)),
            read_fifo_out(old(bus).fifo@, b, old(data)@.len()) == read_fifo_out(
                bus.fifo@,
                b,
                (total - cursor) as nat,
            ),
            read_window_out(old(bus).window@, old(bus).fifo@, b, old(data)@.len())
                == read_window_out(bus.window@, bus.fifo@, b, (total - cursor) as nat),
            old(bus).cmd_log@ + read_cmds_out(old(bus).fifo@.len(), b, old(data)@.len())
                == bus.cmd_log@ + read_cmds_out(bus.fifo@.len(), b, (total - cursor) as nat),
            old(bus).dma_log@ + read_dmas_out(old(bus).fifo@.len(), b, old(data)@.len())
                == bus.dma_log@ + read_dmas_out(bus.fifo@.len(), b, (total - cursor) as nat),
            old(bus).cache_log@ + read_caches_out(old(bus).fifo@.len(), b, old(data)@.len())
                == bus.cache_log@ + read_caches_out(bus.fifo@.len(), b, (total - cursor) as nat),
            read_cd_out(old(bus).fifo@.len(), b, old(data)@.len(), old(bus).countdown as nat)
                == read_cd_out(
                bus.fifo@.len(),
                b,
                (total - cursor) as nat,
                bus.countdown as nat,
            ),
            old(bus).status_log@.len() + read_polls_out(old(bus).fifo@.len(), b, old(data)@.len())
                == bus.status_log@.len() + read_polls_out(bus.fifo@.len(), b, (total
                - cursor) as nat),
            cursor > 0 ==> old(bus).busy_per_activate < TIMEOUT_POLLS,
            same_config_regs(*old(bus), *bus),
        decreases total - cursor,
    {
        let remaining = total - cursor;
        let mut blen = PACKET_LEN;
        if blen > remaining {
            blen = remaining;
        }
        let baddr = PACKET_LEN - blen;
        proof {
            lemma_cmd_bits(baddr as u32);
            lemma_dat_address(baddr as u32);
        }
        let ghost pre = *bus;
        let cmd = USB_CMD_RD | (baddr as u32);
        evd_reg_write(bus, REG_USB_CFG, cmd);
        let ghost served = pre.fifo@.len() >= blen;
        let response = evd_usb_busy(bus);
        match response {
            Err(e) => {
                proof {
                    assert(old(bus).cmd_log@ + read_cmds_out(old(bus).fifo@.len(), b, old(data)@.len()) =~= bus.cmd_log@ + Seq::<u32>::empty());
                    assert(read_data_out(bus.fifo@, b, old(data)@.skip(cursor as int)) == old(data)@.skip(cursor as int));
                    assert(data@ =~= data@.take(cursor as int) + old(data)@.skip(cursor as int));
                    assert(bus.dma_log@ + read_dmas_out(bus.fifo@.len(), b, (total
                        - cursor) as nat) =~= bus.dma_log@);
                    assert(bus.cache_log@ + read_caches_out(bus.fifo@.len(), b, (total
                        - cursor) as nat) =~= bus.cache_log@);
                }
                return Err(e);
            },
            Ok(()) => {},
        }
        let pi_addr = ed_regs(REG_USB_DAT + (baddr as u32));
        pi_read(bus, data, cursor, pi_addr, blen);
        proof {
            assert(bus.cmd_log@ =~= pre.cmd_log@.push(cmd));
            assert(pre.cmd_log@.push(cmd) + read_cmds_out(bus.fifo@.len(), b, (remaining
                - blen) as nat) =~= pre.cmd_log@ + (seq![cmd] + read_cmds_out(
                bus.fifo@.len(),
                b,
                (remaining - blen) as nat,
            )));
            assert(bus.dma_log@ =~= pre.dma_log@.push(chunk_dma(remaining as nat, true)));
            assert(pre.dma_log@.push(chunk_dma(remaining as nat, true)) + read_dmas_out(
                bus.fifo@.len(),
                b,
                (remaining - blen) as nat,
            ) =~= pre.dma_log@ + (seq![chunk_dma(remaining as nat, true)] + read_dmas_out(
                bus.fifo@.len(),
                b,
                (remaining - blen) as nat,
            )));
            assert(bus.cache_log@ =~= pre.cache_log@.push(
                CacheRecord { invalidate: true, len: blen },
            ));
            assert(pre.cache_log@.push(CacheRecord { invalidate: true, len: blen })
                + read_caches_out(bus.fifo@.len(), b, (remaining - blen) as nat)
                =~= pre.cache_log@ + (seq![CacheRecord { invalidate: true, len: blen }]
                + read_caches_out(bus.fifo@.len(), b, (remaining - blen) as nat)));
            assert(data@.take((cursor + blen) as int) =~= data@.take(cursor as int)
                + pre.fifo@.take(blen as int));
            assert(old(data)@.skip(cursor as int).skip(blen as int) =~= old(data)@.skip(
                (cursor + blen) as int,
            ));
            assert(pre.fifo@.skip(blen as int) =~= bus.fifo@);
        }
        cursor = cursor + blen;
    }
    Ok(())
}

/// The two bus states are equal in every modeled register, log and queue.
pub open spec fn same_bus(a: Bus, b: Bus) -> bool {
    &&& crate::bus::same_transfer_state(a, b)
    &&& same_config_regs(a, b)
}

/// What the FIFO drain of initialization does, given the bridge state
/// when it starts: when the bridge is powered with nothing queued, the
/// drain attempts one packet read, which stalls for a full poll budget
/// and recovers; otherwise it only costs the one status poll of the
/// drain predicate.
pub open spec fn drain_rel(pre: Bus, post: Bus) -> bool {
    &&& post.window@ == pre.window@
    &&& post.fifo@ == pre.fifo@
    &&& post.dma_log@ == pre.dma_log@
    &&& post.cache_log@ == pre.cache_log@
    &&& same_config_regs(pre, post)
    &&& (pre.powered && pre.fifo@.len() == 0) ==> {
        &&& post.cmd_log@ == pre.cmd_log@ + seq![USB_CMD_RD, USB_CMD_RD_NOP]
        &&& post.status_log@.len() == pre.status_log@.len() + 1 + TIMEOUT_POLLS
        &&& post.countdown == 0
    }
    &&& !(pre.powered && pre.fifo@.len() == 0) ==> {
        &&& post.cmd_log@ == pre.cmd_log@
        &&& post.status_log@.len() == pre.status_log@.len() + 1
        &&& post.countdown == if pre.countdown > 0 {
            (pre.countdown - 1) as u64
        } else {
            0
        }
    }
}

/// Arms the bridge with a read no-op and drains stale bytes left in the
/// receive FIFO: while the drain predicate holds (powered, receive FIFO
/// reporting nothing queued), attempt a packet read, stopping at the
/// first read that fails.
#[verifier::loop_isolation(true)]
pub fn evd_usb_init(bus: &mut Bus)
    requires
        old(bus).wf(),
    ensures
        final(bus).wf(),
        final(bus).cmd_log@.len() > old(bus).cmd_log@.len(),
        final(bus).cmd_log@[old(bus).cmd_log@.len() as int] == USB_CMD_RD_NOP,
        final(bus).cmd_log@.take(old(bus).cmd_log@.len() as int) == old(bus).cmd_log@,
        ({
            let armed = old(bus).cmd_log@.push(USB_CMD_RD_NOP);
            &&& (old(bus).powered && old(bus).fifo@.len() == 0) ==> final(bus).cmd_log@ == armed
                + seq![USB_CMD_RD, USB_CMD_RD_NOP]
            &&& !(old(bus).powered && old(bus).fifo@.len() == 0) ==> final(bus).cmd_log@ == armed
        }),
        final(bus).window@ == old(bus).window@,
        final(bus).fifo@ == old(bus).fifo@,
        final(bus).dma_log@ == old(bus).dma_log@,
        final(bus).cache_log@ == old(bus).cache_log@,
        same_config_regs(*old(bus), *final(bus)),
        (old(bus).powered && old(bus).fifo@.len() == 0) ==> {
            &&& final(bus).status_log@.len() == old(bus).status_log@.len() + 1 + TIMEOUT_POLLS
            &&& final(bus).countdown == 0
        },
        !(old(bus).powered && old(bus).fifo@.len() == 0) ==> {
            &&& final(bus).status_log@.len() == old(bus).status_log@.len() + 1
            &&& final(bus).countdown == if old(bus).countdown > 0 {
                (old(bus).countdown - 1) as u64
            } else {
                0
            }
        },
{
    proof {
        lemma_cmd_bits(0);
        lemma_addr_values();
        assert(0xC600u32 | 0u32 == 0xC600u32) by (bit_vector);
    }
    evd_reg_write(bus, REG_USB_CFG, USB_CMD_RD_NOP);
    let ghost armed = *bus;
    let mut buffer: Vec<u8> = Vec::new();
    let mut i: usize = 0;
    while i < PACKET_LEN
        invariant
            i <= PACKET_LEN,
            buffer@.len() == i,
            same_bus(armed, *bus),
            bus.wf(),
        decreases PACKET_LEN - i,
    {
        buffer.push(0);
        i = i + 1;
    }
    // flush fifo buffer
    loop
        invariant_except_break
            bus.wf(),
            same_bus(armed, *bus),
            buffer@.len() == PACKET_LEN,
        ensures
            bus.wf(),
            drain_rel(armed, *bus),
        decreases 0int,
    {
        if !evd_usb_can_read(bus) {
            break;
        }
        let response = evd_usb_read(bus, &mut buffer);
        if response.is_err() {
            proof {
                lemma_cmd_bits(0);
                lemma_addr_values();
                assert(0xC600u32 | 0u32 == 0xC600u32) by (bit_vector);
                assert(bus.dma_log@ =~= armed.dma_log@);
                assert(bus.cache_log@ =~= armed.cache_log@);
                assert(bus.cmd_log@ =~= armed.cmd_log@ + seq![USB_CMD_RD, USB_CMD_RD_NOP]);
            }
            break;
        }
        proof {
            // a drain read with nothing queued cannot succeed
            assert(false);
        }
    }
    proof {
        assert(bus.cmd_log@.take(old(bus).cmd_log@.len() as int) =~= old(bus).cmd_log@);
    }
}

/// One-time bridge initialization: program the domain-1 bus timing the
/// bridge requires, write the unlock key, clear the system configuration,
/// drain the receive FIFO, and switch save emulation off.
pub fn evd_init(bus: &mut Bus)
    requires
        old(bus).wf(),
    ensures
        final(bus).wf(),
        final(bus).dom1_latency == DOM1_LATENCY,
        final(bus).dom1_pulse_width == DOM1_PULSE_WIDTH,
        final(bus).key == 0xAA55,
        final(bus).sys_cfg == 0,
        final(bus).ram_cfg == SAVE_OFF,
        final(bus).window@ == old(bus).window@,
        final(bus).fifo@ == old(bus).fifo@,
        final(bus).dma_log@ == old(bus).dma_log@,
        final(bus).cache_log@ == old(bus).cache_log@,
        final(bus).powered == old(bus).powered,
        final(bus).busy_per_activate == old(bus).busy_per_activate,
        (old(bus).powered && old(bus).fifo@.len() == 0) ==> {
            &&& final(bus).cmd_log@ == old(bus).cmd_log@ + seq![
                USB_CMD_RD_NOP,
                USB_CMD_RD,
                USB_CMD_RD_NOP,
            ]
            &&& final(bus).status_log@.len() == old(bus).status_log@.len() + 1 + TIMEOUT_POLLS
            &&& final(bus).countdown == 0
        },
        !(old(bus).powered && old(bus).fifo@.len() == 0) ==> {
            &&& final(bus).cmd_log@ == old(bus).cmd_log@.push(USB_CMD_RD_NOP)
            &&& final(bus).status_log@.len() == old(bus).status_log@.len() + 1
            &&& final(bus).countdown == if old(bus).countdown > 0 {
                (old(bus).countdown - 1) as u64
            } else {
                0
            }
        },
{
    proof {
        lemma_addr_values();
    }
    bus.io_write(crate::bus::phys_to_k1(crate::bus::PI_BSD_DOM1_LAT_REG), DOM1_LATENCY);
    bus.io_write(crate::bus::phys_to_k1(crate::bus::PI_BSD_DOM1_PWD_REG), DOM1_PULSE_WIDTH);
    // unlock the bridge's register window
    evd_reg_write(bus, REG_KEY, 0xAA55);
    evd_reg_write(bus, REG_SYS_CFG, 0);
    evd_usb_init(bus);
    evd_set_save_type(bus, SAVE_OFF);
    proof {
        if old(bus).powered && old(bus).fifo@.len() == 0 {
            assert(bus.cmd_log@ =~= old(bus).cmd_log@ + seq![
                USB_CMD_RD_NOP,
                USB_CMD_RD,
                USB_CMD_RD_NOP,
            ]);
        }
    }
}

/// Selects the save-emulation mode.
pub fn evd_set_save_type(bus: &mut Bus, stype: u32)
    requires
        old(bus).wf(),
    ensures
        final(bus).wf(),
        final(bus).ram_cfg == stype,
        final(bus).key == old(bus).key,
        final(bus).sys_cfg == old(bus).sys_cfg,
        final(bus).dom1_latency == old(bus).dom1_latency,
        final(bus).dom1_pulse_width == old(bus).dom1_pulse_width,
        crate::bus::same_transfer_state(*old(bus), *final(bus)),
{
    evd_reg_write(bus, REG_RAM_CFG, stype);
}

/// Runs the one-time bridge initialization against the given bus.
pub fn init_usb_interface(bus: &mut Bus)
    requires
        old(bus).wf(),
    ensures
        final(bus).wf(),
        final(bus).dom1_latency == DOM1_LATENCY,
        final(bus).dom1_pulse_width == DOM1_PULSE_WIDTH,
        final(bus).key == 0xAA55,
        final(bus).sys_cfg == 0,
        final(bus).ram_cfg == SAVE_OFF,
        final(bus).window@ == old(bus).window@,
        final(bus).fifo@ == old(bus).fifo@,
        final(bus).dma_log@ == old(bus).dma_log@,
        final(bus).cache_log@ == old(bus).cache_log@,
        final(bus).powered == old(bus).powered,
        final(bus).busy_per_activate == old(bus).busy_per_activate,
        (old(bus).powered && old(bus).fifo@.len() == 0) ==> {
            &&& final(bus).countdown == 0
            &&& final(bus).cmd_log@ == old(bus).cmd_log@ + seq![
                USB_CMD_RD_NOP,
                USB_CMD_RD,
                USB_CMD_RD_NOP,
            ]
        },
{
    evd_init(bus);
}

/// What a public transfer call does when the initial busy-wait itself
/// times out: one recovery write, a full poll budget consumed, nothing
/// else touched.
pub open spec fn busy_timeout_rel(pre: Bus, post: Bus) -> bool {
    &&& post.cmd_log@ == pre.cmd_log@.push(USB_CMD_RD_NOP)
    &&& post.countdown == pre.countdown - TIMEOUT_POLLS
    &&& post.status_log@.len() == pre.status_log@.len() + TIMEOUT_POLLS
    &&& post.window@ == pre.window@
    &&& post.fifo@ == pre.fifo@
    &&& post.dma == pre.dma
    &&& post.dma_log@ == pre.dma_log@
    &&& post.cache_log@ == pre.cache_log@
    &&& same_config_regs(pre, post)
}

/// What a public read does once the initial busy-wait has succeeded.
pub open spec fn read_transfer_rel(pre: Bus, post: Bus, data0: Seq<u8>, data1: Seq<u8>) -> bool {
    let f = pre.fifo@;
    let b = pre.busy_per_activate as nat;
    let len = data0.len();
    &&& data1 == read_data_out(f, b, data0)
    &&& post.fifo@ == read_fifo_out(f, b, len)
    &&& post.window@ == read_window_out(pre.window@, f, b, len)
    &&& post.cmd_log@ == pre.cmd_log@ + read_cmds_out(f.len(), b, len)
    &&& post.dma_log@ == pre.dma_log@ + read_dmas_out(f.len(), b, len)
    &&& post.cache_log@ == pre.cache_log@ + read_caches_out(f.len(), b, len)
    &&& post.countdown == read_cd_out(f.len(), b, len, 0)
    &&& post.status_log@.len() == pre.status_log@.len() + pre.countdown + 1 + read_polls_out(
        f.len(),
        b,
        len,
    )
    &&& same_config_regs(pre, post)
}

/// Reads `data.len()` bytes from the bridge into `data`: busy-wait for the
/// bridge to go idle, then run the packetized read. A zero-length read
/// returns success after the initial busy-wait alone, with no register
/// write beyond its polls.
pub fn read_usb(bus: &mut Bus, data: &mut Vec<u8>) -> (r: Result<(), BiError>)
    requires
        old(bus).wf(),
    ensures
        final(bus).wf(),
        final(data)@.len() == old(data)@.len(),
        r is Ok <==> (old(bus).countdown < TIMEOUT_POLLS && read_ok(
            old(bus).fifo@.len(),
            old(bus).busy_per_activate as nat,
            old(data)@.len(),
        )),
        old(bus).countdown >= TIMEOUT_POLLS ==> {
            &&& busy_timeout_rel(*old(bus), *final(bus))
            &&& final(data)@ == old(data)@
        },
        old(bus).countdown < TIMEOUT_POLLS ==> read_transfer_rel(
            *old(bus),
            *final(bus),
            old(data)@,
            final(data)@,
        ),
{
    let r = evd_usb_busy(bus);
    match r {
        Err(e) => Err(e),
        Ok(()) => evd_usb_read(bus, data),
    }
}

/// What a public write does once the initial busy-wait has succeeded.
pub open spec fn write_transfer_rel(pre: Bus, post: Bus, data: Seq<u8>) -> bool {
    let b = pre.busy_per_activate as nat;
    let len = data.len();
    &&& post.fifo@ == pre.fifo@ + write_fifo_gain(b, data)
    &&& post.window@ == write_window_out(pre.window@, b, data)
    &&& post.cmd_log@ == pre.cmd_log@.push(USB_CMD_WR_NOP) + write_cmds_out(b, len)
    &&& post.dma_log@ == pre.dma_log@ + write_dmas_out(b, len)
    &&& post.cache_log@ == pre.cache_log@ + write_caches_out(b, len)
    &&& post.countdown == write_cd_out(b, len, 0)
    &&& post.status_log@.len() == pre.status_log@.len() + pre.countdown + 1 + write_polls_out(
        b,
        len,
    )
    &&& same_config_regs(pre, post)
}

/// Writes `data` to the bridge: busy-wait for the bridge to go idle, then
/// run the packetized write.
pub fn write_usb(bus: &mut Bus, data: &Vec<u8>) -> (r: Result<(), BiError>)
    requires
        old(bus).wf(),
    ensures
        final(bus).wf(),
        r is Ok <==> (old(bus).countdown < TIMEOUT_POLLS && write_ok(
            old(bus).busy_per_activate as nat,
            data@.len(),
        )),
        old(bus).countdown >= TIMEOUT_POLLS ==> busy_timeout_rel(*old(bus), *final(bus)),
        old(bus).countdown < TIMEOUT_POLLS ==> write_transfer_rel(*old(bus), *final(bus), data@),
{
    let r = evd_usb_busy(bus);
    match r {
        Err(e) => Err(e),
        Ok(()) => evd_usb_write(bus, data),
    }
}

/// Length of the last packet of a transfer: the remainder modulo the
/// packet length, or a full packet when the length divides evenly.
pub open spec fn last_chunk(len: nat) -> nat {
    if len % (PACKET_LEN as nat) == 0 {
        PACKET_LEN as nat
    } else {
        len % (PACKET_LEN as nat)
    }
}

/// A transfer of `len` bytes takes exactly the round-up of `len` divided
/// by the packet length many packets, and none when `len` is zero.
pub proof fn lemma_num_chunks_ceil(len: nat)
    ensures
        num_chunks(len) == (len + 511) / 512,
        len == 0 ==> num_chunks(len) == 0,
    decreases len,
{
    if len > 0 {
        lemma_num_chunks_ceil((len - spec_chunk(len)) as nat);
        if len >= 512 {
            vstd::arithmetic::div_mod::lemma_div_plus_one(len - 1, 512);
        }
    }
}

/// A fault-free read with the bytes queued issues exactly one DMA
/// transfer per packet.
pub proof fn lemma_read_round_trips(f: nat, b: nat, len: nat)
    requires
        b < TIMEOUT_POLLS,
        f >= len,
    ensures
        read_dmas_out(f, b, len).len() == num_chunks(len),
    decreases len,
{
    if len > 0 {
        let c = spec_chunk(len);
        lemma_read_round_trips((f - c) as nat, b, (len - c) as nat);
    }
}

/// A fault-free write issues exactly one DMA transfer per packet.
pub proof fn lemma_write_round_trips(b: nat, len: nat)
    requires
        b < TIMEOUT_POLLS,
    ensures
        write_dmas_out(b, len).len() == num_chunks(len),
    decreases len,
{
    if len > 0 {
        let c = spec_chunk(len);
        lemma_write_round_trips(b, (len - c) as nat);
    }
}

/// A fault-free read with the bytes queued writes exactly the clean
/// per-packet command sequence, and a fault-free write likewise.
pub proof fn lemma_fault_free_cmds(f: nat, b: nat, len: nat)
    requires
        b < TIMEOUT_POLLS,
        f >= len,
    ensures
        read_cmds_out(f, b, len) == read_cmds(len),
        write_cmds_out(b, len) == write_cmds(len),
    decreases len,
{
    if len > 0 {
        let c = spec_chunk(len);
        lemma_fault_free_cmds((f - c) as nat, b, (len - c) as nat);
    }
}

/// The base offsets a transfer uses: every packet but the last is a full
/// packet commanded at base offset zero, and the last packet's command
/// carries the offset that places its `last_chunk(len)` bytes at the high
/// end of the window.
pub proof fn lemma_cmd_base_offsets(len: nat)
    requires
        len > 0,
    ensures
        read_cmds(len).len() == num_chunks(len),
        write_cmds(len).len() == num_chunks(len),
        forall|i: int|
            0 <= i < num_chunks(len) - 1 ==> cfg_base(#[trigger] read_cmds(len)[i]) == 0,
        forall|i: int|
            0 <= i < num_chunks(len) - 1 ==> cfg_base(#[trigger] write_cmds(len)[i]) == 0,
        cfg_base(read_cmds(len)[num_chunks(len) - 1]) == 512 - last_chunk(len),
        cfg_base(write_cmds(len)[num_chunks(len) - 1]) == 512 - last_chunk(len),
    decreases len,
{
    let c = spec_chunk(len);
    let base = spec_base(len);
    lemma_cmd_bits(base as u32);
    if len > 512 {
        lemma_cmd_base_offsets((len - c) as nat);
        assert((len - 512) % 512 == len % 512) by {
            vstd::arithmetic::div_mod::lemma_mod_sub_multiples_vanish(len as int, 512);
        };
    } else {
        assert(read_cmds(0) == Seq::<u32>::empty());
        assert(write_cmds(0) == Seq::<u32>::empty());
        assert(num_chunks(0) == 0);
    }
}

/// A read that finds at least as many bytes queued as it asks for returns
/// exactly the front of the queue.
pub proof fn lemma_read_returns_queued(f: Seq<u8>, b: nat, buf: Seq<u8>)
    requires
        b < TIMEOUT_POLLS,
        f.len() >= buf.len(),
    ensures
        read_data_out(f, b, buf) == f.take(buf.len() as int),
    decreases buf.len(),
{
    if buf.len() == 0 {
        assert(read_data_out(f, b, buf) =~= f.take(0));
    } else {
        let c = spec_chunk(buf.len()) as int;
        lemma_read_returns_queued(f.skip(c), b, buf.skip(c));
        assert(f.take(c) + f.skip(c).take(buf.len() - c) =~= f.take(buf.len() as int));
    }
}

/// Loopback round trip: on a fault-free bridge, writing a buffer and then
/// reading the same number of bytes back yields byte-identical content.
pub proof fn lemma_loopback_round_trip(sent: Seq<u8>, b: nat, buf: Seq<u8>)
    requires
        b < TIMEOUT_POLLS,
        buf.len() == sent.len(),
    ensures
        read_data_out(write_fifo_gain(b, sent), b, buf) == sent,
{
    if sent.len() == 0 {
        assert(read_data_out(write_fifo_gain(b, sent), b, buf) =~= sent);
    } else {
        lemma_read_returns_queued(sent, b, buf);
        assert(sent.take(sent.len() as int) =~= sent);
    }
}

/// The transport driver handle: tracks whether the one-time bridge
/// initialization has run.
#[derive(Copy, Clone)]
pub struct Usb {
    /// Whether `init` has completed on this handle.
    pub inited: bool,
}

impl Default for Usb {
    /// An uninitialized handle; no hardware access.
    fn default() -> (r: Self)
        ensures
            !r.inited,
    {
        Self { inited: false }
    }
}

impl Usb {
    /// An uninitialized handle; no hardware access.
    pub fn new() -> (r: Self)
        ensures
            !r.inited,
    {
        Self::default()
    }

    /// Runs the one-time bridge initialization and marks the handle
    /// ready. Re-invocation repeats every step of the sequence.
    pub fn init(&mut self, bus: &mut Bus)
        requires
            old(bus).wf(),
        ensures
            final(self).inited,
            final(bus).wf(),
            final(bus).key == 0xAA55,
            final(bus).sys_cfg == 0,
            final(bus).ram_cfg == SAVE_OFF,
            final(bus).dom1_latency == DOM1_LATENCY,
            final(bus).dom1_pulse_width == DOM1_PULSE_WIDTH,
            final(bus).fifo@ == old(bus).fifo@,
            final(bus).powered == old(bus).powered,
            final(bus).busy_per_activate == old(bus).busy_per_activate,
            (old(bus).powered && old(bus).fifo@.len() == 0) ==> {
                &&& final(bus).countdown == 0
                &&& final(bus).cmd_log@ == old(bus).cmd_log@ + seq![
                    USB_CMD_RD_NOP,
                    USB_CMD_RD,
                    USB_CMD_RD_NOP,
                ]
            },
    {
        init_usb_interface(bus);
        self.inited = true;
    }

    /// Reads `data.len()` bytes from the bridge into `data`. The handle
    /// must have been initialized first.
    pub fn read_usb(&self, bus: &mut Bus, data: &mut Vec<u8>) -> (r: Result<(), BiError>)
        requires
            self.inited,
            old(bus).wf(),
        ensures
            final(bus).wf(),
            final(data)@.len() == old(data)@.len(),
            r is Ok <==> (old(bus).countdown < TIMEOUT_POLLS && read_ok(
                old(bus).fifo@.len(),
                old(bus).busy_per_activate as nat,
                old(data)@.len(),
            )),
            old(bus).countdown >= TIMEOUT_POLLS ==> {
                &&& busy_timeout_rel(*old(bus), *final(bus))
                &&& final(data)@ == old(data)@
            },
            old(bus).countdown < TIMEOUT_POLLS ==> read_transfer_rel(
                *old(bus),
                *final(bus),
                old(data)@,
                final(data)@,
            ),
    {
        read_usb(bus, data)
    }

    /// Writes `data` to the bridge.
    pub fn write(bus: &mut Bus, data: &Vec<u8>) -> (r: Result<(), BiError>)
        requires
            old(bus).wf(),
        ensures
            final(bus).wf(),
            r is Ok <==> (old(bus).countdown < TIMEOUT_POLLS && write_ok(
                old(bus).busy_per_activate as nat,
                data@.len(),
            )),
            old(bus).countdown >= TIMEOUT_POLLS ==> busy_timeout_rel(*old(bus), *final(bus)),
            old(bus).countdown < TIMEOUT_POLLS ==> write_transfer_rel(
                *old(bus),
                *final(bus),
                data@,
            ),
    {
        write_usb(bus, data)
    }
}

} // verus!
