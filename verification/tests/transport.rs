use ed64::bus::{mask_pi_address, Bus, PACKET_LEN, TIMEOUT_POLLS};
use ed64::usb::{evd_usb_busy, evd_usb_can_read, evd_usb_can_write, read_usb, write_usb, BiError, Usb};

const CMD_RD_NOP: u32 = 0xC400;
const CMD_RD: u32 = 0xC600;
const CMD_WR_NOP: u32 = 0xC000;
const CMD_WR: u32 = 0xC200;

fn pattern(len: usize) -> Vec<u8> {
    let mut v = Vec::new();
    for i in 0..len {
        v.push((i % 251) as u8);
    }
    v
}

#[test]
fn busy_wait_clears_after_k_polls() {
    // ACTIVE clears at the poll after k busy polls: success, no recovery
    // write.
    let mut bus = Bus::new();
    bus.countdown = 41;
    let r = evd_usb_busy(&mut bus);
    assert!(r.is_ok());
    assert_eq!(bus.status_log.len(), 42);
    assert_eq!(bus.cmd_log.len(), 0);
    assert_eq!(bus.countdown, 0);
}

#[test]
fn busy_wait_immediate_when_idle() {
    let mut bus = Bus::new();
    let r = evd_usb_busy(&mut bus);
    assert!(r.is_ok());
    assert_eq!(bus.status_log.len(), 1);
    assert_eq!(bus.cmd_log.len(), 0);
}

#[test]
fn busy_wait_times_out_after_budget() {
    // ACTIVE never clears: timeout after exactly 8192 polls and exactly
    // one recovery write of the read-no-op command.
    let mut bus = Bus::new();
    bus.countdown = u64::MAX;
    let r = evd_usb_busy(&mut bus);
    assert!(matches!(r, Err(BiError::BiErrUbsTout)));
    assert_eq!(bus.status_log.len(), TIMEOUT_POLLS as usize);
    assert_eq!(bus.cmd_log.len(), 1);
    assert_eq!(bus.cmd_log[0], CMD_RD_NOP);
}

#[test]
fn busy_wait_succeeds_at_budget_edge() {
    let mut bus = Bus::new();
    bus.countdown = TIMEOUT_POLLS - 1;
    let r = evd_usb_busy(&mut bus);
    assert!(r.is_ok());
    assert_eq!(bus.status_log.len(), TIMEOUT_POLLS as usize);
    assert_eq!(bus.cmd_log.len(), 0);
}

#[test]
fn address_masking_in_window_and_idempotent() {
    let samples: [u32; 5] = [0, 0xBF80_0400, 0xFFFF_FFFF, 0xA460_0010, 0x1F80_0400];
    for a in samples {
        let m = mask_pi_address(a);
        assert!(m < 0x2000_0000);
        assert_eq!(mask_pi_address(m), m);
    }
    assert_eq!(mask_pi_address(0xBF80_0400), 0x1F80_0400);
}

#[test]
fn zero_length_read_is_immediate_success() {
    // A 0-byte read succeeds with no register write beyond the initial
    // busy-wait poll.
    let mut bus = Bus::new();
    let mut data: Vec<u8> = Vec::new();
    let r = read_usb(&mut bus, &mut data);
    assert!(r.is_ok());
    assert_eq!(bus.cmd_log.len(), 0);
    assert_eq!(bus.dma_log.len(), 0);
    assert_eq!(bus.cache_log.len(), 0);
    assert_eq!(bus.status_log.len(), 1);
}

#[test]
fn single_packet_write_uses_base_zero() {
    // A 512-byte write: exactly one DMA transfer with base offset 0 and
    // one activate-command write.
    let mut bus = Bus::new();
    let data = pattern(PACKET_LEN);
    let r = write_usb(&mut bus, &data);
    assert!(r.is_ok());
    assert_eq!(bus.dma_log.len(), 1);
    assert!(!bus.dma_log[0].to_ram);
    assert_eq!(bus.dma_log[0].len, PACKET_LEN);
    assert_eq!(bus.dma_log[0].peripheral_addr, 0x1F80_0400);
    let activates: Vec<u32> = bus.cmd_log.iter().copied().filter(|c| c & 0x0200 != 0).collect();
    assert_eq!(activates.len(), 1);
    assert_eq!(activates[0], CMD_WR);
    assert_eq!(bus.cmd_log, vec![CMD_WR_NOP, CMD_WR]);
    assert_eq!(bus.fifo, data);
}

#[test]
fn transfers_use_one_round_trip_per_packet() {
    // ceil(L / 512) packet round-trips for every length, 0 when L = 0.
    for len in [0usize, 1, 511, 512, 513, 1024, 1300] {
        let mut bus = Bus::new();
        let data = pattern(len);
        let expect = (len + 511) / 512;
        assert!(write_usb(&mut bus, &data).is_ok());
        assert_eq!(bus.dma_log.len(), expect);
        assert_eq!(bus.cache_log.len(), expect);
        let mut back = vec![0u8; len];
        assert!(read_usb(&mut bus, &mut back).is_ok());
        assert_eq!(bus.dma_log.len(), 2 * expect);
        assert_eq!(bus.cache_log.len(), 2 * expect);
    }
}

#[test]
fn base_offsets_follow_packet_sizes() {
    // Chunks are 512 except possibly the last (1300 = 512 + 512 + 276),
    // and each activate command carries 512 minus its chunk length.
    let mut bus = Bus::new();
    let data = pattern(1300);
    assert!(write_usb(&mut bus, &data).is_ok());
    let wr_activates: Vec<u32> =
        bus.cmd_log.iter().copied().filter(|c| c & 0x0200 != 0).collect();
    assert_eq!(wr_activates.len(), 3);
    assert_eq!(wr_activates[0], CMD_WR);
    assert_eq!(wr_activates[1], CMD_WR);
    assert_eq!(wr_activates[2], CMD_WR | (512 - 276));
    assert_eq!(bus.dma_log[2].len, 276);
    assert_eq!(bus.dma_log[2].peripheral_addr, 0x1F80_0400 + (512 - 276));

    let mut back = vec![0u8; 1300];
    assert!(read_usb(&mut bus, &mut back).is_ok());
    let rd_activates: Vec<u32> = bus.cmd_log.iter().copied().filter(|c| c & 0x0200 != 0 && c & 0x0400 != 0).collect();
    assert_eq!(rd_activates, vec![CMD_RD, CMD_RD, CMD_RD | (512 - 276)]);
}

#[test]
fn write_then_read_round_trips_1300_bytes() {
    // Writing 1300 bytes then reading 1300 back from the same bridge
    // state yields byte-identical content.
    let mut bus = Bus::new();
    let data = pattern(1300);
    assert!(write_usb(&mut bus, &data).is_ok());
    let mut back = vec![0u8; 1300];
    assert!(read_usb(&mut bus, &mut back).is_ok());
    assert_eq!(back, data);
}

#[test]
fn read_with_nothing_queued_times_out() {
    let mut bus = Bus::new();
    let mut data = vec![0u8; 10];
    let r = read_usb(&mut bus, &mut data);
    assert!(matches!(r, Err(BiError::BiErrUbsTout)));
    assert_eq!(data, vec![0u8; 10]);
    // the failing packet's command, then the recovery write
    let n = bus.cmd_log.len();
    assert_eq!(bus.cmd_log[n - 1], CMD_RD_NOP);
}

#[test]
fn aborted_read_keeps_transferred_prefix() {
    // 600 queued bytes, 1024 requested: the first packet lands, the
    // second times out, and the buffer keeps the valid prefix.
    let mut bus = Bus::new();
    let sent = pattern(600);
    assert!(write_usb(&mut bus, &sent).is_ok());
    let mut back = vec![0xAAu8; 1024];
    let r = read_usb(&mut bus, &mut back);
    assert!(r.is_err());
    assert_eq!(&back[..512], &sent[..512]);
    assert_eq!(&back[512..], &vec![0xAAu8; 512][..]);
}

#[test]
fn busy_bridge_fails_write_before_any_packet() {
    let mut bus = Bus::new();
    bus.countdown = TIMEOUT_POLLS;
    let data = pattern(100);
    let r = write_usb(&mut bus, &data);
    assert!(r.is_err());
    assert_eq!(bus.cmd_log, vec![CMD_RD_NOP]);
    assert_eq!(bus.dma_log.len(), 0);
    assert!(bus.fifo.is_empty());
}

#[test]
fn drain_predicates_track_power_and_queue() {
    let mut bus = Bus::new();
    assert!(evd_usb_can_read(&mut bus));
    assert!(evd_usb_can_write(&mut bus));
    bus.fifo.push(7);
    assert!(!evd_usb_can_read(&mut bus));
    assert!(!evd_usb_can_write(&mut bus));
    bus.fifo.clear();
    bus.powered = false;
    assert!(!evd_usb_can_read(&mut bus));
}

#[test]
fn init_unlocks_and_configures_the_bridge() {
    let mut bus = Bus::new();
    let mut usb = Usb::new();
    assert!(!usb.inited);
    usb.init(&mut bus);
    assert!(usb.inited);
    assert_eq!(bus.key, 0xAA55);
    assert_eq!(bus.sys_cfg, 0);
    assert_eq!(bus.ram_cfg, 0);
    assert_eq!(bus.dom1_latency, 0x04);
    assert_eq!(bus.dom1_pulse_width, 0x0C);
    // arm, one drain attempt that stalls, and its recovery write
    assert_eq!(bus.cmd_log, vec![CMD_RD_NOP, CMD_RD, CMD_RD_NOP]);
    assert_eq!(bus.countdown, 0);
}

#[test]
fn handle_transfers_after_init() {
    let mut bus = Bus::new();
    let mut usb = Usb::new();
    usb.init(&mut bus);
    let data = pattern(276);
    assert!(Usb::write(&mut bus, &data).is_ok());
    let mut back = vec![0u8; 276];
    assert!(usb.read_usb(&mut bus, &mut back).is_ok());
    assert_eq!(back, data);
}

#[test]
fn default_handle_is_uninitialized() {
    let usb = Usb::default();
    assert!(!usb.inited);
}

#[test]
fn partial_packet_sits_at_window_high_end() {
    // A 276-byte write lands at base offset 236, i.e. the high end of
    // the 512-byte window, and programs the DMA registers accordingly.
    let mut bus = Bus::new();
    let data = pattern(276);
    assert!(write_usb(&mut bus, &data).is_ok());
    assert_eq!(&bus.window[236..512], &data[..]);
    assert_eq!(&bus.window[..236], &vec![0u8; 236][..]);
    assert_eq!(bus.dma.write_len, 275);
    assert_eq!(bus.dma.peripheral_addr, 0x1F80_0400 + 236);
    assert_eq!(bus.dma.ram_addr, 0);
    assert_eq!(bus.dma.status, 0);
}

#[test]
fn exact_multiple_uses_only_full_packets() {
    let mut bus = Bus::new();
    let data = pattern(1024);
    assert!(write_usb(&mut bus, &data).is_ok());
    let activates: Vec<u32> = bus.cmd_log.iter().copied().filter(|c| c & 0x0200 != 0).collect();
    assert_eq!(activates, vec![CMD_WR, CMD_WR]);
}

#[test]
fn status_word_reports_power_and_active() {
    let mut bus = Bus::new();
    bus.countdown = 2;
    let r = evd_usb_busy(&mut bus);
    assert!(r.is_ok());
    // two polls with POWERED and ACTIVE set, then POWERED alone
    assert_eq!(bus.status_log, vec![0x1200, 0x1200, 0x1000]);
    bus.fifo.push(1);
    bus.countdown = 0;
    let r = evd_usb_busy(&mut bus);
    assert!(r.is_ok());
    // queued bytes raise the receive-FIFO bit
    assert_eq!(bus.status_log[3], 0x1000 | 0x0400);
}

#[test]
fn busy_polls_counted_per_packet() {
    // Each packet's busy-wait polls busy_per_activate times plus the
    // poll that sees the bit clear.
    let mut bus = Bus::new();
    bus.busy_per_activate = 3;
    let data = pattern(1024);
    assert!(write_usb(&mut bus, &data).is_ok());
    // initial wait: 1 poll; two packets at 4 polls each
    assert_eq!(bus.status_log.len(), 1 + 2 * 4);
}
