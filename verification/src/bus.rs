//! Simulated peripheral bus.
//!
//! The transport driver talks to two hardware singletons: the cartridge
//! bridge's register window (command/status register, unlock key, system
//! configuration, save-emulation select, and a 512-byte data window) and
//! the console's parallel-interface DMA engine. `Bus` models both as one
//! injectable capability so that the driver's register-level protocol can
//! be verified, and so that tests can run it against a simulated register
//! file. The model also keeps observation logs (commands written, DMA
//! transfers issued, cache-maintenance calls) that the driver's contracts
//! are stated over.
//!
//! The bridge's behaviour is modeled as a loopback: bytes shipped out by a
//! write command are queued in `fifo`, and read commands serve bytes from
//! the front of that queue into the data window. After every activate
//! command the bridge reports ACTIVE for `busy_per_activate` status polls;
//! a read command that finds too few queued bytes leaves the bridge ACTIVE
//! for a full timeout's worth of polls instead, which is how a stalled
//! host shows up to the driver.

use vstd::prelude::*;

verus! {

/// Number of bytes in one protocol packet, and in the bridge's data window.
pub const PACKET_LEN: usize = 512;

/// Status polls after which the busy-wait gives up.
pub const TIMEOUT_POLLS: u64 = 8192;

/// Uncached (KSEG1) address segment.
pub const KSEG1: u32 = 0xA000_0000;

/// Physical base of the bridge's register window.
pub const REG_BASE: u32 = 0x1F80_0000;

/// Unlock key register offset.
pub const REG_KEY: u32 = 0x8004;

/// System configuration register offset.
pub const REG_SYS_CFG: u32 = 0x8000;

/// Command/status register offset.
pub const REG_USB_CFG: u32 = 0x0004;

/// Base offset of the 512-byte data window.
pub const REG_USB_DAT: u32 = 0x0400;

/// Save-emulation mode register offset.
pub const REG_RAM_CFG: u32 = 0x8018;

/// Physical base of the parallel-interface DMA controller.
pub const PI_BASE_REG: u32 = 0x0460_0000;

/// DMA controller status register.
pub const PI_STATUS_REG: u32 = 0x0460_0010;

/// Domain-1 latency timing register.
pub const PI_BSD_DOM1_LAT_REG: u32 = 0x0460_0014;

/// Domain-1 pulse-width timing register.
pub const PI_BSD_DOM1_PWD_REG: u32 = 0x0460_0018;

/// DMA controller status bit: a DMA transfer is in flight.
pub const PI_STATUS_DMA_BUSY: u32 = 0x0001;

/// DMA controller status bit: a register access is in flight.
pub const PI_STATUS_IO_BUSY: u32 = 0x0002;

/// The bus's physical address window: the low 29 bits.
pub const PI_ADDR_MASK: u32 = 0x1FFF_FFFF;

/// Command bit: byte-order configuration.
pub const USB_LE_CFG: u32 = 0x8000;

/// Command bit: strobe.
pub const USB_LE_CTR: u32 = 0x4000;

/// Command bit: start the transfer described by the command.
pub const USB_CFG_ACT: u32 = 0x0200;

/// Command bit: the transfer direction is bridge-to-console.
pub const USB_CFG_RD: u32 = 0x0400;

/// Command bit pattern for console-to-bridge direction.
pub const USB_CFG_WR: u32 = 0x0000;

/// Mask of the packet base offset carried in a command's low bits.
pub const USB_CFG_BASE_MASK: u32 = 0x01FF;

/// Status bit: the bridge is still working on the last activate command.
pub const USB_STA_ACT: u32 = 0x0200;

/// Status bit: the receive FIFO holds at least one byte.
pub const USB_STA_RXF: u32 = 0x0400;

/// Status bit: the transmit FIFO holds at least one byte.
pub const USB_STA_TXE: u32 = 0x0800;

/// Status bit: the bridge is powered.
pub const USB_STA_PWR: u32 = 0x1000;

/// Status bit: the bridge is busy with a host-side operation.
pub const USB_STA_BSY: u32 = 0x2000;

/// Read command, no transfer started.
pub const USB_CMD_RD_NOP: u32 = USB_LE_CFG | USB_LE_CTR | USB_CFG_RD;

/// Read command, transfer started.
pub const USB_CMD_RD: u32 = USB_LE_CFG | USB_LE_CTR | USB_CFG_RD | USB_CFG_ACT;

/// Write command, no transfer started.
pub const USB_CMD_WR_NOP: u32 = USB_LE_CFG | USB_LE_CTR | USB_CFG_WR;

/// Write command, transfer started.
pub const USB_CMD_WR: u32 = USB_LE_CFG | USB_LE_CTR | USB_CFG_WR | USB_CFG_ACT;

/// The DMA controller's register file.
#[derive(Clone, Copy, PartialEq, Eq, Structural, Debug)]
pub struct DmaRegisters {
    /// RAM-side address of the last programmed transfer.
    pub ram_addr: usize,
    /// Bus-side (masked) address of the last programmed transfer.
    pub peripheral_addr: u32,
    /// Length minus one of the last incoming transfer.
    pub read_len: u32,
    /// Length minus one of the last outgoing transfer.
    pub write_len: u32,
    /// Controller status; the model's engine is synchronous, so it always
    /// reads idle between operations.
    pub status: u32,
}

/// One DMA transfer as the model observed it.
#[derive(Clone, Copy, PartialEq, Eq, Structural, Debug)]
pub struct DmaRecord {
    /// True for a bridge-to-RAM transfer, false for RAM-to-bridge.
    pub to_ram: bool,
    /// Masked bus-side address the transfer was programmed with.
    pub peripheral_addr: u32,
    /// Number of bytes moved.
    pub len: usize,
}

/// One cache-maintenance call as the model observed it.
#[derive(Clone, Copy, PartialEq, Eq, Structural, Debug)]
pub struct CacheRecord {
    /// True for writeback-with-invalidate, false for writeback only.
    pub invalidate: bool,
    /// Number of bytes covered.
    pub len: usize,
}

/// The simulated peripheral bus: bridge register file, data window,
/// loopback FIFO, DMA controller, and observation logs.
pub struct Bus {
    /// The bridge's 512-byte data window.
    pub window: Vec<u8>,
    /// Bytes queued in the bridge: written packets land here, read
    /// commands are served from here.
    pub fifo: Vec<u8>,
    /// Status polls left until the ACTIVE bit clears.
    pub countdown: u64,
    /// Value loaded into `countdown` by each activate command that the
    /// bridge can serve.
    pub busy_per_activate: u64,
    /// Whether the bridge reports the POWERED status bit.
    pub powered: bool,
    /// Last value written to the unlock key register.
    pub key: u32,
    /// Last value written to the system configuration register.
    pub sys_cfg: u32,
    /// Last value written to the save-emulation mode register.
    pub ram_cfg: u32,
    /// Last value written to the domain-1 latency register.
    pub dom1_latency: u32,
    /// Last value written to the domain-1 pulse-width register.
    pub dom1_pulse_width: u32,
    /// The DMA controller's registers.
    pub dma: DmaRegisters,
    /// Every value written to the command/status register, in order.
    pub cmd_log: Vec<u32>,
    /// Every DMA transfer issued, in order.
    pub dma_log: Vec<DmaRecord>,
    /// Every cache-maintenance call issued, in order.
    pub cache_log: Vec<CacheRecord>,
    /// Every value read from the command/status register, in order.
    pub status_log: Vec<u32>,
}

impl Bus {
    /// Well-formedness: the data window spans exactly one packet, and the
    /// synchronous DMA engine reads idle between operations.
    pub open spec fn wf(self) -> bool {
        &&& self.window@.len() == PACKET_LEN
        &&& self.dma.status == 0
    }

    /// A powered, idle bridge with nothing queued.
    pub fn new() -> (r: Bus)
        ensures
            r.wf(),
            r.window@ =~= Seq::new(PACKET_LEN as nat, |i: int| 0u8),
            r.fifo@ =~= Seq::<u8>::empty(),
            r.countdown == 0,
            r.busy_per_activate == 0,
            r.powered,
            r.key == 0 && r.sys_cfg == 0 && r.ram_cfg == 0,
            r.dom1_latency == 0 && r.dom1_pulse_width == 0,
            r.cmd_log@ =~= Seq::<u32>::empty(),
            r.dma_log@ =~= Seq::<DmaRecord>::empty(),
            r.cache_log@ =~= Seq::<CacheRecord>::empty(),
            r.status_log@ =~= Seq::<u32>::empty(),
    {
        let mut window: Vec<u8> = Vec::new();
        let mut i: usize = 0;
        while i < PACKET_LEN
            invariant
                i <= PACKET_LEN,
                window@ =~= Seq::new(i as nat, |j: int| 0u8),
            decreases PACKET_LEN - i,
        {
            window.push(0);
            i = i + 1;
        }
        Bus {
            window,
            fifo: Vec::new(),
            countdown: 0,
            busy_per_activate: 0,
            powered: true,
            key: 0,
            sys_cfg: 0,
            ram_cfg: 0,
            dom1_latency: 0,
            dom1_pulse_width: 0,
            dma: DmaRegisters {
                ram_addr: 0,
                peripheral_addr: 0,
                read_len: 0,
                write_len: 0,
                status: 0,
            },
            cmd_log: Vec::new(),
            dma_log: Vec::new(),
            cache_log: Vec::new(),
            status_log: Vec::new(),
        }
    }
}

/// Uncached address of the command/status register.
pub const ADDR_USB_CFG: u32 = KSEG1 | REG_BASE | REG_USB_CFG;

/// Uncached address of the unlock key register.
pub const ADDR_KEY: u32 = KSEG1 | REG_BASE | REG_KEY;

/// Uncached address of the system configuration register.
pub const ADDR_SYS_CFG: u32 = KSEG1 | REG_BASE | REG_SYS_CFG;

/// Uncached address of the save-emulation mode register.
pub const ADDR_RAM_CFG: u32 = KSEG1 | REG_BASE | REG_RAM_CFG;

/// Uncached address of the DMA controller status register.
pub const ADDR_PI_STATUS: u32 = PI_STATUS_REG | KSEG1;

/// Uncached address of the domain-1 latency register.
pub const ADDR_DOM1_LAT: u32 = PI_BSD_DOM1_LAT_REG | KSEG1;

/// Uncached address of the domain-1 pulse-width register.
pub const ADDR_DOM1_PWD: u32 = PI_BSD_DOM1_PWD_REG | KSEG1;

/// The packet base offset carried in a command's low bits.
pub open spec fn cfg_base(v: u32) -> nat {
    (v & USB_CFG_BASE_MASK) as nat
}

/// Bytes a command moves: from its base offset to the end of the window.
pub open spec fn cfg_span(v: u32) -> nat {
    (PACKET_LEN - cfg_base(v)) as nat
}

/// Whether a command starts a transfer.
pub open spec fn is_activate(v: u32) -> bool {
    v & USB_CFG_ACT != 0
}

/// Whether a command's direction is bridge-to-console.
pub open spec fn is_read_cmd(v: u32) -> bool {
    v & USB_CFG_RD != 0
}

/// The base offset of a command is below the packet length.
pub proof fn lemma_cfg_base_bound(v: u32)
    ensures
        cfg_base(v) < 512,
{
    assert(v & 0x01FFu32 < 512) by (bit_vector);
}

/// The status word the bridge reports for the given bit values.
pub open spec fn status_bits(powered: bool, active: bool, rxf: bool) -> u32 {
    (if powered {
        USB_STA_PWR
    } else {
        0
    }) | (if active {
        USB_STA_ACT
    } else {
        0
    }) | (if rxf {
        USB_STA_RXF
    } else {
        0
    })
}

/// The status word a read of the command/status register returns: POWERED
/// reflects the supply, ACTIVE the remaining busy polls, RX-FIFO-NOT-EMPTY
/// the queued bytes.
pub open spec fn status_value(s: Bus) -> u32 {
    status_bits(s.powered, s.countdown > 0, s.fifo@.len() > 0)
}

/// How each status bit reads back from the assembled status word.
pub proof fn lemma_status_bits_decode(powered: bool, active: bool, rxf: bool)
    ensures
        (status_bits(powered, active, rxf) & USB_STA_ACT != 0) == active,
        (status_bits(powered, active, rxf) & USB_STA_PWR != 0) == powered,
        (status_bits(powered, active, rxf) & USB_STA_RXF != 0) == rxf,
        ((status_bits(powered, active, rxf) & (USB_STA_PWR | USB_STA_RXF)) == USB_STA_PWR) == (
        powered && !rxf),
{
    let p: u32 = if powered { USB_STA_PWR } else { 0 };
    let a: u32 = if active { USB_STA_ACT } else { 0 };
    let r: u32 = if rxf { USB_STA_RXF } else { 0 };
    assert((p == 0 || p == 0x1000) && (a == 0 || a == 0x200) && (r == 0 || r == 0x400) ==> ((p | a
        | r) & 0x200 == a && (p | a | r) & 0x1000 == p && (p | a | r) & 0x400 == r && (((p | a | r)
        & (0x1000u32 | 0x400)) == 0x1000) == (p == 0x1000 && r == 0))) by (bit_vector);
}

/// Translates a physical address into the uncached segment.
pub fn phys_to_k1(addr: u32) -> (r: u32)
    ensures
        r == addr | KSEG1,
{
    addr | KSEG1
}

/// Uncached address of a bridge register given its window offset.
pub fn ed_regs(reg: u32) -> (r: u32)
    ensures
        r == KSEG1 | REG_BASE | reg,
{
    KSEG1 | REG_BASE | reg
}

/// Masks an address into the bus's physical address window.
pub fn mask_pi_address(addr: u32) -> (r: u32)
    ensures
        r == addr & PI_ADDR_MASK,
{
    addr & PI_ADDR_MASK
}

/// Masking lands inside the bus's physical window and is idempotent.
pub proof fn lemma_mask_pi_address(addr: u32)
    ensures
        addr & PI_ADDR_MASK < 0x2000_0000,
        (addr & PI_ADDR_MASK) & PI_ADDR_MASK == addr & PI_ADDR_MASK,
{
    assert(addr & 0x1FFF_FFFFu32 < 0x2000_0000 && (addr & 0x1FFF_FFFF) & 0x1FFF_FFFF == addr
        & 0x1FFF_FFFF) by (bit_vector);
}

/// The uncached register addresses, evaluated.
pub proof fn lemma_addr_values()
    ensures
        ADDR_USB_CFG == 0xBF80_0004u32,
        ADDR_KEY == 0xBF80_8004u32,
        ADDR_SYS_CFG == 0xBF80_8000u32,
        ADDR_RAM_CFG == 0xBF80_8018u32,
        ADDR_PI_STATUS == 0xA460_0010u32,
        ADDR_DOM1_LAT == 0xA460_0014u32,
        ADDR_DOM1_PWD == 0xA460_0018u32,
        USB_CMD_RD_NOP == 0xC400u32,
        USB_CMD_RD == 0xC600u32,
        USB_CMD_WR_NOP == 0xC000u32,
        USB_CMD_WR == 0xC200u32,
{
    assert(0xA000_0000u32 | 0x1F80_0000 | 0x0004 == 0xBF80_0004) by (bit_vector);
    assert(0xA000_0000u32 | 0x1F80_0000 | 0x8004 == 0xBF80_8004) by (bit_vector);
    assert(0xA000_0000u32 | 0x1F80_0000 | 0x8000 == 0xBF80_8000) by (bit_vector);
    assert(0xA000_0000u32 | 0x1F80_0000 | 0x8018 == 0xBF80_8018) by (bit_vector);
    assert(0x0460_0010u32 | 0xA000_0000 == 0xA460_0010) by (bit_vector);
    assert(0x0460_0014u32 | 0xA000_0000 == 0xA460_0014) by (bit_vector);
    assert(0x0460_0018u32 | 0xA000_0000 == 0xA460_0018) by (bit_vector);
    assert(0x8000u32 | 0x4000 | 0x0400 == 0xC400) by (bit_vector);
    assert(0x8000u32 | 0x4000 | 0x0400 | 0x0200 == 0xC600) by (bit_vector);
    assert(0x8000u32 | 0x4000 | 0x0000 == 0xC000) by (bit_vector);
    assert(0x8000u32 | 0x4000 | 0x0000 | 0x0200 == 0xC200) by (bit_vector);
}

/// The bridge's configuration registers are equal in the two states.
pub open spec fn same_config_regs(a: Bus, b: Bus) -> bool {
    &&& a.key == b.key
    &&& a.sys_cfg == b.sys_cfg
    &&& a.ram_cfg == b.ram_cfg
    &&& a.dom1_latency == b.dom1_latency
    &&& a.dom1_pulse_width == b.dom1_pulse_width
    &&& a.busy_per_activate == b.busy_per_activate
    &&& a.powered == b.powered
}

/// Everything but the data window is equal in the two states.
pub open spec fn same_but_window(a: Bus, b: Bus) -> bool {
    &&& a.fifo@ == b.fifo@
    &&& a.countdown == b.countdown
    &&& a.cmd_log@ == b.cmd_log@
    &&& a.status_log@ == b.status_log@
    &&& a.dma == b.dma
    &&& a.dma_log@ == b.dma_log@
    &&& a.cache_log@ == b.cache_log@
    &&& same_config_regs(a, b)
}

/// Everything but the FIFO is equal in the two states.
pub open spec fn same_but_fifo(a: Bus, b: Bus) -> bool {
    &&& a.window@ == b.window@
    &&& a.countdown == b.countdown
    &&& a.cmd_log@ == b.cmd_log@
    &&& a.status_log@ == b.status_log@
    &&& a.dma == b.dma
    &&& a.dma_log@ == b.dma_log@
    &&& a.cache_log@ == b.cache_log@
    &&& same_config_regs(a, b)
}

/// The bridge's transfer state and all logs are equal in the two states.
pub open spec fn same_transfer_state(a: Bus, b: Bus) -> bool {
    &&& a.window@ == b.window@
    &&& a.fifo@ == b.fifo@
    &&& a.countdown == b.countdown
    &&& a.cmd_log@ == b.cmd_log@
    &&& a.status_log@ == b.status_log@
    &&& a.dma == b.dma
    &&& a.dma_log@ == b.dma_log@
    &&& a.cache_log@ == b.cache_log@
    &&& a.busy_per_activate == b.busy_per_activate
    &&& a.powered == b.powered
}

/// What one write of `v` to the command/status register does. Every write
/// is logged. An activate command moves one packet span: a read command
/// with enough queued bytes serves them into the window and leaves the
/// bridge busy for `busy_per_activate` polls; a read command with too few
/// queued bytes leaves the bridge busy for a full timeout instead; a write
/// command queues the window span and leaves the bridge busy for
/// `busy_per_activate` polls.
pub open spec fn usb_command_rel(pre: Bus, post: Bus, v: u32) -> bool {
    &&& post.cmd_log@ == pre.cmd_log@.push(v)
    &&& same_config_regs(pre, post)
    &&& post.dma == pre.dma
    &&& post.dma_log@ == pre.dma_log@
    &&& post.cache_log@ == pre.cache_log@
    &&& post.status_log@ == pre.status_log@
    &&& !is_activate(v) ==> {
        &&& post.window@ == pre.window@
        &&& post.fifo@ == pre.fifo@
        &&& post.countdown == pre.countdown
    }
    &&& (is_activate(v) && is_read_cmd(v) && pre.fifo@.len() >= cfg_span(v)) ==> {
        &&& post.window@ == pre.window@.take(cfg_base(v) as int) + pre.fifo@.take(
            cfg_span(v) as int,
        )
        &&& post.fifo@ == pre.fifo@.skip(cfg_span(v) as int)
        &&& post.countdown == pre.busy_per_activate
    }
    &&& (is_activate(v) && is_read_cmd(v) && pre.fifo@.len() < cfg_span(v)) ==> {
        &&& post.window@ == pre.window@
        &&& post.fifo@ == pre.fifo@
        &&& post.countdown == TIMEOUT_POLLS
    }
    &&& (is_activate(v) && !is_read_cmd(v)) ==> {
        &&& post.window@ == pre.window@
        &&& post.fifo@ == pre.fifo@ + pre.window@.skip(cfg_base(v) as int)
        &&& post.countdown == pre.busy_per_activate
    }
}

/// What one read of the command/status register does: the current status
/// word is logged and returned, and one busy poll is consumed.
pub open spec fn status_read_rel(pre: Bus, post: Bus) -> bool {
    &&& post.status_log@ == pre.status_log@.push(status_value(pre))
    &&& post.countdown == if pre.countdown > 0 {
        (pre.countdown - 1) as u64
    } else {
        0
    }
    &&& same_config_regs(pre, post)
    &&& post.window@ == pre.window@
    &&& post.fifo@ == pre.fifo@
    &&& post.cmd_log@ == pre.cmd_log@
    &&& post.dma == pre.dma
    &&& post.dma_log@ == pre.dma_log@
    &&& post.cache_log@ == pre.cache_log@
}

impl Bus {
    /// Serves one packet span from the FIFO into the data window.
    fn fifo_serve(&mut self, base: usize)
        requires
            old(self).wf(),
            base < PACKET_LEN,
            old(self).fifo@.len() >= PACKET_LEN - base,
        ensures
            final(self).wf(),
            final(self).window@ == old(self).window@.take(base as int) + old(self).fifo@.take(
                (PACKET_LEN - base) as int,
            ),
            final(self).fifo@ == old(self).fifo@.skip((PACKET_LEN - base) as int),
            same_config_regs(*old(self), *final(self)),
            final(self).countdown == old(self).countdown,
            final(self).cmd_log@ == old(self).cmd_log@,
            final(self).status_log@ == old(self).status_log@,
            final(self).dma == old(self).dma,
            final(self).dma_log@ == old(self).dma_log@,
            final(self).cache_log@ == old(self).cache_log@,
    {
        let span = PACKET_LEN - base;
        let mut i: usize = 0;
        while i < span
            invariant
                i <= span,
                self.window@.len() == PACKET_LEN,
                same_but_window(*old(self), *self),
                forall|j: int| 0 <= j < base ==> self.window@[j] == old(self).window@[j],
                forall|j: int|
                    0 <= j < i ==> self.window@[base + j] == old(self).fifo@[j],
                forall|j: int|
                    base + i <= j < PACKET_LEN ==> self.window@[j] == old(self).window@[j],
            decreases span - i,
        {
            let b = self.fifo[i];
            self.window.set(base + i, b);
            i = i + 1;
        }
        let mut rest: Vec<u8> = Vec::new();
        let mut j: usize = span;
        while j < self.fifo.len()
            invariant
                span <= j <= self.fifo@.len(),
                rest@ == self.fifo@.subrange(span as int, j as int),
            decreases self.fifo@.len() - j,
        {
            let b = self.fifo[j];
            rest.push(b);
            j = j + 1;
        }
        self.fifo = rest;
        assert(self.window@ =~= old(self).window@.take(base as int) + old(self).fifo@.take(
            span as int,
        ));
        assert(self.fifo@ =~= old(self).fifo@.skip(span as int));
    }

    /// Queues one packet span from the data window into the FIFO.
    fn fifo_absorb(&mut self, base: usize)
        requires
            old(self).wf(),
            base < PACKET_LEN,
        ensures
            final(self).wf(),
            final(self).fifo@ == old(self).fifo@ + old(self).window@.skip(base as int),
            final(self).window@ == old(self).window@,
            same_config_regs(*old(self), *final(self)),
            final(self).countdown == old(self).countdown,
            final(self).cmd_log@ == old(self).cmd_log@,
            final(self).status_log@ == old(self).status_log@,
            final(self).dma == old(self).dma,
            final(self).dma_log@ == old(self).dma_log@,
            final(self).cache_log@ == old(self).cache_log@,
    {
        let mut i: usize = base;
        while i < PACKET_LEN
            invariant
                base <= i <= PACKET_LEN,
                same_but_fifo(*old(self), *self),
                self.fifo@ == old(self).fifo@ + old(self).window@.subrange(base as int, i as int),
            decreases PACKET_LEN - i,
        {
            let b = self.window[i];
            self.fifo.push(b);
            i = i + 1;
        }
        assert(self.fifo@ =~= old(self).fifo@ + old(self).window@.skip(base as int));
    }

    /// Interprets one write of the command/status register.
    pub fn apply_usb_command(&mut self, v: u32)
        requires
            old(self).wf(),
        ensures
            final(self).wf(),
            usb_command_rel(*old(self), *final(self), v),
    {
        self.cmd_log.push(v);
        if v & USB_CFG_ACT != 0 {
            let base_bits = v & USB_CFG_BASE_MASK;
            proof {
                lemma_cfg_base_bound(v);
            }
            let base = base_bits as usize;
            let span = PACKET_LEN - base;
            if v & USB_CFG_RD != 0 {
                if self.fifo.len() >= span {
                    self.fifo_serve(base);
                    self.countdown = self.busy_per_activate;
                } else {
                    self.countdown = TIMEOUT_POLLS;
                }
            } else {
                self.fifo_absorb(base);
                self.countdown = self.busy_per_activate;
            }
        }
    }

    /// One volatile read at an uncached address; the model backs only the
    /// command/status register with a readable value.
    pub fn io_read(&mut self, addr: u32) -> (r: u32)
        requires
            old(self).wf(),
            addr == ADDR_USB_CFG,
        ensures
            final(self).wf(),
            r == status_value(*old(self)),
            status_read_rel(*old(self), *final(self)),
    {
        let mut status: u32 = 0;
        if self.powered {
            status = status | USB_STA_PWR;
        }
        if self.countdown > 0 {
            status = status | USB_STA_ACT;
        }
        if self.fifo.len() > 0 {
            status = status | USB_STA_RXF;
        }
        proof {
            let p: u32 = if old(self).powered { USB_STA_PWR } else { 0 };
            let a: u32 = if old(self).countdown > 0 { USB_STA_ACT } else { 0 };
            assert(0u32 | p == p && p | 0u32 == p && (p | a) | 0u32 == p | a) by (bit_vector);
        }
        self.status_log.push(status);
        if self.countdown > 0 {
            self.countdown = self.countdown - 1;
        }
        status
    }

    /// One volatile write at an uncached address, dispatched to the
    /// register the address names.
    pub fn io_write(&mut self, addr: u32, data: u32)
        requires
            old(self).wf(),
            addr == ADDR_USB_CFG || addr == ADDR_KEY || addr == ADDR_SYS_CFG || addr
                == ADDR_RAM_CFG || addr == ADDR_PI_STATUS || addr == ADDR_DOM1_LAT || addr
                == ADDR_DOM1_PWD,
        ensures
            final(self).wf(),
            addr == ADDR_USB_CFG ==> usb_command_rel(*old(self), *final(self), data),
            addr != ADDR_USB_CFG ==> same_transfer_state(*old(self), *final(self)),
            addr != ADDR_USB_CFG ==> {
                &&& final(self).key == if addr == ADDR_KEY {
                    data
                } else {
                    old(self).key
                }
                &&& final(self).sys_cfg == if addr == ADDR_SYS_CFG {
                    data
                } else {
                    old(self).sys_cfg
                }
                &&& final(self).ram_cfg == if addr == ADDR_RAM_CFG {
                    data
                } else {
                    old(self).ram_cfg
                }
                &&& final(self).dom1_latency == if addr == ADDR_DOM1_LAT {
                    data
                } else {
                    old(self).dom1_latency
                }
                &&& final(self).dom1_pulse_width == if addr == ADDR_DOM1_PWD {
                    data
                } else {
                    old(self).dom1_pulse_width
                }
                &&& final(self).busy_per_activate == old(self).busy_per_activate
                &&& final(self).powered == old(self).powered
            },
    {
        proof {
            lemma_addr_values();
        }
        if addr == ADDR_USB_CFG {
            self.apply_usb_command(data);
        } else if addr == ADDR_KEY {
            self.key = data;
        } else if addr == ADDR_SYS_CFG {
            self.sys_cfg = data;
        } else if addr == ADDR_RAM_CFG {
            self.ram_cfg = data;
        } else if addr == ADDR_DOM1_LAT {
            self.dom1_latency = data;
        } else if addr == ADDR_DOM1_PWD {
            self.dom1_pulse_width = data;
        } else {
            // DMA controller status: any write resets the synchronous
            // engine to idle, which it already reads as.
            self.dma.status = 0;
        }
    }
}

/// Whether a masked bus address range lies inside the bridge's data window.
pub open spec fn in_data_window(pi_addr: u32, len: nat) -> bool {
    &&& REG_BASE + REG_USB_DAT <= (pi_addr & PI_ADDR_MASK)
    &&& (pi_addr & PI_ADDR_MASK) + len <= REG_BASE + REG_USB_DAT + PACKET_LEN
}

/// Offset of a masked bus address within the bridge's data window.
pub open spec fn window_offset(pi_addr: u32) -> int {
    (pi_addr & PI_ADDR_MASK) - (REG_BASE + REG_USB_DAT)
}

/// Bus state after one cache-maintenance call of the given kind.
pub open spec fn cache_op_rel(pre: Bus, post: Bus, invalidate: bool, len: usize) -> bool {
    &&& post.cache_log@ == pre.cache_log@.push(CacheRecord { invalidate, len })
    &&& post.window@ == pre.window@
    &&& post.fifo@ == pre.fifo@
    &&& post.countdown == pre.countdown
    &&& post.cmd_log@ == pre.cmd_log@
    &&& post.status_log@ == pre.status_log@
    &&& post.dma == pre.dma
    &&& post.dma_log@ == pre.dma_log@
    &&& same_config_regs(pre, post)
}

/// Flushes dirty cache lines over a RAM range to memory. Must run before
/// a DMA that reads from that range.
pub fn data_cache_hit_writeback(bus: &mut Bus, len: usize)
    requires
        old(bus).wf(),
    ensures
        final(bus).wf(),
        cache_op_rel(*old(bus), *final(bus), false, len),
{
    bus.cache_log.push(CacheRecord { invalidate: false, len });
}

/// Flushes and evicts cache lines over a RAM range. Must run before a DMA
/// that writes into that range, so the CPU's next read sees the new data.
pub fn data_cache_hit_writeback_invalidate(bus: &mut Bus, len: usize)
    requires
        old(bus).wf(),
    ensures
        final(bus).wf(),
        cache_op_rel(*old(bus), *final(bus), true, len),
{
    bus.cache_log.push(CacheRecord { invalidate: true, len });
}

/// Whether the DMA controller reports a transfer or register access in
/// flight. The model's engine is synchronous, so a well-formed bus is
/// never seen busy.
pub fn dma_busy(bus: &Bus) -> (r: bool)
    ensures
        r == (bus.dma.status & (PI_STATUS_DMA_BUSY | PI_STATUS_IO_BUSY) != 0),
        bus.wf() ==> !r,
{
    proof {
        assert(0u32 & (1u32 | 2u32) == 0) by (bit_vector);
    }
    bus.dma.status & (PI_STATUS_DMA_BUSY | PI_STATUS_IO_BUSY) != 0
}

/// Spins until the DMA controller reports idle.
pub fn dma_wait_idle(bus: &Bus)
    requires
        bus.wf(),
{
    while dma_busy(bus)
        invariant
            bus.wf(),
        decreases 0int,
    {
    }
}

/// Programs the DMA controller to move `len` bytes from the bridge's data
/// window into `ram` at `ram_offset`. The caller has already evicted the
/// destination range from the cache.
pub fn dma_transfer_to_ram(bus: &mut Bus, ram: &mut Vec<u8>, ram_offset: usize, pi_addr: u32, len: usize)
    requires
        old(bus).wf(),
        1 <= len,
        ram_offset + len <= old(ram)@.len(),
        in_data_window(pi_addr, len as nat),
        old(bus).cache_log@.len() > 0,
        old(bus).cache_log@.last() == (CacheRecord { invalidate: true, len }),
    ensures
        final(bus).wf(),
        final(ram)@ == old(ram)@.take(ram_offset as int) + old(bus).window@.subrange(
            window_offset(pi_addr),
            window_offset(pi_addr) + len,
        ) + old(ram)@.skip(ram_offset + len),
        final(bus).dma_log@ == old(bus).dma_log@.push(
            DmaRecord { to_ram: true, peripheral_addr: pi_addr & PI_ADDR_MASK, len },
        ),
        final(bus).dma.ram_addr == ram_offset,
        final(bus).dma.peripheral_addr == pi_addr & PI_ADDR_MASK,
        final(bus).dma.read_len == len - 1,
        final(bus).dma.write_len == old(bus).dma.write_len,
        final(bus).window@ == old(bus).window@,
        final(bus).fifo@ == old(bus).fifo@,
        final(bus).countdown == old(bus).countdown,
        final(bus).cmd_log@ == old(bus).cmd_log@,
        final(bus).status_log@ == old(bus).status_log@,
        final(bus).cache_log@ == old(bus).cache_log@,
        same_config_regs(*old(bus), *final(bus)),
{
    proof {
        lemma_addr_values();
    }
    let ram_total = ram.len();
    let masked = mask_pi_address(pi_addr);
    let window_base = REG_BASE + REG_USB_DAT;
    let off = (masked - window_base) as usize;
    dma_wait_idle(bus);
    bus.io_write(phys_to_k1(PI_STATUS_REG), PI_STATUS_DMA_BUSY | PI_STATUS_IO_BUSY);
    bus.dma.ram_addr = ram_offset;
    bus.dma.peripheral_addr = masked;
    bus.dma.read_len = (len - 1) as u32;
    let mut i: usize = 0;
    while i < len
        invariant
            i <= len,
            ram@.len() == old(ram)@.len(),
            forall|j: int| 0 <= j < ram_offset ==> ram@[j] == old(ram)@[j],
            forall|j: int|
                ram_offset <= j < ram_offset + i ==> #[trigger] ram@[j] == old(bus).window@[window_offset(pi_addr) + (j - ram_offset)],
            forall|j: int| ram_offset + i <= j < ram@.len() ==> ram@[j] == old(ram)@[j],
        decreases len - i,
    {
        let b = bus.window[off + i];
        ram.set(ram_offset + i, b);
        i = i + 1;
    }
    dma_wait_idle(bus);
    bus.dma_log.push(DmaRecord { to_ram: true, peripheral_addr: masked, len });
    assert(ram@ =~= old(ram)@.take(ram_offset as int) + old(bus).window@.subrange(
        window_offset(pi_addr),
        window_offset(pi_addr) + len,
    ) + old(ram)@.skip(ram_offset + len));
}

/// Programs the DMA controller to move `len` bytes from `ram` at
/// `ram_offset` into the bridge's data window. The caller has already
/// written the source range back from the cache to memory.
pub fn dma_transfer_from_ram(bus: &mut Bus, ram: &Vec<u8>, ram_offset: usize, pi_addr: u32, len: usize)
    requires
        old(bus).wf(),
        1 <= len,
        ram_offset + len <= ram@.len(),
        in_data_window(pi_addr, len as nat),
        old(bus).cache_log@.len() > 0,
        old(bus).cache_log@.last() == (CacheRecord { invalidate: false, len }),
    ensures
        final(bus).wf(),
        final(bus).window@ == old(bus).window@.take(window_offset(pi_addr)) + ram@.subrange(
            ram_offset as int,
            ram_offset + len,
        ) + old(bus).window@.skip(window_offset(pi_addr) + len),
        final(bus).dma_log@ == old(bus).dma_log@.push(
            DmaRecord { to_ram: false, peripheral_addr: pi_addr & PI_ADDR_MASK, len },
        ),
        final(bus).dma.ram_addr == ram_offset,
        final(bus).dma.peripheral_addr == pi_addr & PI_ADDR_MASK,
        final(bus).dma.write_len == len - 1,
        final(bus).dma.read_len == old(bus).dma.read_len,
        final(bus).fifo@ == old(bus).fifo@,
        final(bus).countdown == old(bus).countdown,
        final(bus).cmd_log@ == old(bus).cmd_log@,
        final(bus).status_log@ == old(bus).status_log@,
        final(bus).cache_log@ == old(bus).cache_log@,
        same_config_regs(*old(bus), *final(bus)),
{
    proof {
        lemma_addr_values();
    }
    let ram_total = ram.len();
    let masked = mask_pi_address(pi_addr);
    let window_base = REG_BASE + REG_USB_DAT;
    let off = (masked - window_base) as usize;
    dma_wait_idle(bus);
    bus.io_write(phys_to_k1(PI_STATUS_REG), PI_STATUS_DMA_BUSY | PI_STATUS_IO_BUSY);
    bus.dma.ram_addr = ram_offset;
    bus.dma.peripheral_addr = masked;
    bus.dma.write_len = (len - 1) as u32;
    let mut i: usize = 0;
    while i < len
        invariant
            i <= len,
            bus.wf(),
            bus.fifo@ == old(bus).fifo@,
            bus.countdown == old(bus).countdown,
            bus.cmd_log@ == old(bus).cmd_log@,
            bus.status_log@ == old(bus).status_log@,
            bus.cache_log@ == old(bus).cache_log@,
            bus.dma_log@ == old(bus).dma_log@,
            bus.dma.ram_addr == ram_offset,
            bus.dma.peripheral_addr == masked,
            bus.dma.write_len == len - 1,
            bus.dma.read_len == old(bus).dma.read_len,
            same_config_regs(*old(bus), *bus),
            forall|j: int|
                0 <= j < window_offset(pi_addr) ==> bus.window@[j] == old(bus).window@[j],
            forall|j: int|
                window_offset(pi_addr) <= j < window_offset(pi_addr) + i
                    ==> #[trigger] bus.window@[j] == ram@[ram_offset + (j - window_offset(
                    pi_addr,
                ))],
            forall|j: int|
                window_offset(pi_addr) + i <= j < PACKET_LEN ==> bus.window@[j] == old(bus).window@[j],
        decreases len - i,
    {
        let b = ram[ram_offset + i];
        bus.window.set(off + i, b);
        i = i + 1;
    }
    dma_wait_idle(bus);
    bus.dma_log.push(DmaRecord { to_ram: false, peripheral_addr: masked, len });
    assert(bus.window@ =~= old(bus).window@.take(window_offset(pi_addr)) + ram@.subrange(
        ram_offset as int,
        ram_offset + len,
    ) + old(bus).window@.skip(window_offset(pi_addr) + len));
}

/// One incoming bus transfer: evicts the destination range from the cache,
/// then moves `len` bytes from the bridge's data window into `ram`.
pub fn pi_read(bus: &mut Bus, ram: &mut Vec<u8>, ram_offset: usize, pi_addr: u32, len: usize)
    requires
        old(bus).wf(),
        1 <= len,
        ram_offset + len <= old(ram)@.len(),
        in_data_window(pi_addr, len as nat),
    ensures
        final(bus).wf(),
        final(ram)@ == old(ram)@.take(ram_offset as int) + old(bus).window@.subrange(
            window_offset(pi_addr),
            window_offset(pi_addr) + len,
        ) + old(ram)@.skip(ram_offset + len),
        final(bus).cache_log@ == old(bus).cache_log@.push(CacheRecord { invalidate: true, len }),
        final(bus).dma_log@ == old(bus).dma_log@.push(
            DmaRecord { to_ram: true, peripheral_addr: pi_addr & PI_ADDR_MASK, len },
        ),
        final(bus).window@ == old(bus).window@,
        final(bus).fifo@ == old(bus).fifo@,
        final(bus).countdown == old(bus).countdown,
        final(bus).cmd_log@ == old(bus).cmd_log@,
        final(bus).status_log@ == old(bus).status_log@,
        same_config_regs(*old(bus), *final(bus)),
{
    data_cache_hit_writeback_invalidate(bus, len);
    dma_transfer_to_ram(bus, ram, ram_offset, pi_addr, len);
}

/// One outgoing bus transfer: writes the source range back from the cache
/// to memory, then moves `len` bytes from `ram` into the bridge's data
/// window.
pub fn pi_write(bus: &mut Bus, ram: &Vec<u8>, ram_offset: usize, pi_addr: u32, len: usize)
    requires
        old(bus).wf(),
        1 <= len,
        ram_offset + len <= ram@.len(),
        in_data_window(pi_addr, len as nat),
    ensures
        final(bus).wf(),
        final(bus).window@ == old(bus).window@.take(window_offset(pi_addr)) + ram@.subrange(
            ram_offset as int,
            ram_offset + len,
        ) + old(bus).window@.skip(window_offset(pi_addr) + len),
        final(bus).cache_log@ == old(bus).cache_log@.push(CacheRecord { invalidate: false, len }),
        final(bus).dma_log@ == old(bus).dma_log@.push(
            DmaRecord { to_ram: false, peripheral_addr: pi_addr & PI_ADDR_MASK, len },
        ),
        final(bus).fifo@ == old(bus).fifo@,
        final(bus).countdown == old(bus).countdown,
        final(bus).cmd_log@ == old(bus).cmd_log@,
        final(bus).status_log@ == old(bus).status_log@,
        same_config_regs(*old(bus), *final(bus)),
{
    data_cache_hit_writeback(bus, len);
    dma_transfer_from_ram(bus, ram, ram_offset, pi_addr, len);
}

/// Reads a bridge register given its window offset.
pub fn evd_reg_read(bus: &mut Bus, reg: u32) -> (r: u32)
    requires
        old(bus).wf(),
        reg == REG_USB_CFG,
    ensures
        final(bus).wf(),
        r == status_value(*old(bus)),
        status_read_rel(*old(bus), *final(bus)),
{
    let addr = ed_regs(reg);
    bus.io_read(addr)
}

/// Writes a bridge register given its window offset.
pub fn evd_reg_write(bus: &mut Bus, reg: u32, val: u32)
    requires
        old(bus).wf(),
        reg == REG_USB_CFG || reg == REG_KEY || reg == REG_SYS_CFG || reg == REG_RAM_CFG,
    ensures
        final(bus).wf(),
        reg == REG_USB_CFG ==> usb_command_rel(*old(bus), *final(bus), val),
        reg != REG_USB_CFG ==> same_transfer_state(*old(bus), *final(bus)),
        reg == REG_KEY ==> final(bus).key == val && final(bus).sys_cfg == old(bus).sys_cfg && final(bus).ram_cfg == old(bus).ram_cfg,
        reg == REG_SYS_CFG ==> final(bus).sys_cfg == val && final(bus).key == old(bus).key && final(bus).ram_cfg == old(bus).ram_cfg,
        reg == REG_RAM_CFG ==> final(bus).ram_cfg == val && final(bus).key == old(bus).key && final(bus).sys_cfg == old(bus).sys_cfg,
        final(bus).dom1_latency == old(bus).dom1_latency,
        final(bus).dom1_pulse_width == old(bus).dom1_pulse_width,
        final(bus).powered == old(bus).powered,
        final(bus).busy_per_activate == old(bus).busy_per_activate,
{
    proof {
        lemma_addr_values();
    }
    let addr = ed_regs(reg);
    bus.io_write(addr, val);
}

} // verus!

