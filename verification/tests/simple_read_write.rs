use std::collections::HashMap;
use vroom::cmd::NvmeCommand;
use vroom::memory::{Dma, DmaSlice};
use vroom::nvme::{batch_plan, AdminRequest, BatchPlan, DeviceMemory, NvmeArrayRegs};
use vroom::nvme::{NvmeStats, Piece, Staged, Step, Transfer};
use vroom::queues::{BusWrite, CompletionQueue, NvmeCompletion};
use vroom::{Error, NvmeDevice, NvmeQueuePair, PAGESIZE_2MIB, QUEUE_LENGTH};

const BAR: usize = 0x7000_0000;
const BAR_LEN: usize = 0x4000;
const DATA_VIRT: usize = 0x4000_0000;
const DATA_PHYS: usize = 0x9_0000_0000;
const LIST_VIRT: usize = 0x0200_0000;
const LIST_PHYS: usize = 0x2000_0000;

/// How far the pretend controller has come in one queue pair.
struct Lane {
    sq_virt: usize,
    sq_len: usize,
    sq_doorbell: usize,
    sq_id: u16,
    seen: usize,
    cq_len: usize,
    cq_tail: usize,
    phase: bool,
}

impl Lane {
    fn new(sq_virt: usize, sq_len: usize, sq_doorbell: usize, cq_len: usize, sq_id: u16) -> Lane {
        Lane { sq_virt, sq_len, sq_doorbell, sq_id, seen: 0, cq_len, cq_tail: 0, phase: true }
    }
}

/// A pretend controller: a disk, the memory of one data buffer, and what the
/// driver has stored for it.
struct Controller {
    disk: Vec<u8>,
    data: Vec<u8>,
    commands: HashMap<usize, NvmeCommand>,
    pointers: HashMap<usize, u64>,
    registers: HashMap<usize, u64>,
    fail_next: Option<u16>,
    executed: Vec<NvmeCommand>,
}

impl Controller {
    fn new(data_len: usize) -> Controller {
        Controller {
            disk: vec![0xEE; 4 * 1024 * 1024],
            data: vec![0; data_len],
            commands: HashMap::new(),
            pointers: HashMap::new(),
            registers: HashMap::new(),
            fail_next: None,
            executed: Vec::new(),
        }
    }

    fn pages(&self, cmd: &NvmeCommand, bytes: usize) -> Vec<u64> {
        let mut pages = vec![cmd.prp1];
        if bytes > 8192 {
            let list = LIST_VIRT + (cmd.prp2 as usize - LIST_PHYS);
            let count = (bytes + 4095) / 4096;
            for j in 0..count - 1 {
                pages.push(self.pointers[&(list + 8 * j)]);
            }
        } else if bytes > 4096 {
            pages.push(cmd.prp2);
        } else {
            assert_eq!(cmd.prp2, 0);
        }
        pages
    }

    fn execute(&mut self, cmd: &NvmeCommand) {
        self.executed.push(*cmd);
        if cmd.opcode != 1 && cmd.opcode != 2 {
            return;
        }
        let bytes = (cmd.cdw12 as usize + 1) * 512;
        let lba = (cmd.cdw10 as u64) | ((cmd.cdw11 as u64) << 32);
        let pages = self.pages(cmd, bytes);
        let mut done = 0;
        for page in pages {
            let len = std::cmp::min(4096, bytes - done);
            let at = page as usize - DATA_PHYS;
            let on_disk = lba as usize * 512 + done;
            let len = std::cmp::min(len, self.data.len() - at);
            if cmd.opcode == 1 {
                self.disk[on_disk..on_disk + len].copy_from_slice(&self.data[at..at + len]);
            } else {
                self.data[at..at + len].copy_from_slice(&self.disk[on_disk..on_disk + len]);
            }
            done += 4096;
        }
    }

    fn serve(&mut self, lane: &mut Lane, cq: &mut CompletionQueue, writes: &[BusWrite], io: bool) {
        for write in writes {
            match *write {
                BusWrite::Command { addr, command } => {
                    self.commands.insert(addr, command);
                }
                BusWrite::Pointer { addr, page } => {
                    self.pointers.insert(addr, page);
                }
                BusWrite::Doorbell { addr, value } => {
                    if addr != lane.sq_doorbell {
                        continue;
                    }
                    while lane.seen != value as usize {
                        let cmd = self.commands[&(lane.sq_virt + 64 * lane.seen)];
                        if io {
                            self.execute(&cmd);
                        } else {
                            if cmd.opcode == 0x80 {
                                self.disk.fill(0);
                            }
                            self.executed.push(cmd);
                        }
                        lane.seen = (lane.seen + 1) % lane.sq_len;
                        let failure = self.fail_next.take().unwrap_or(0);
                        let entry = NvmeCompletion {
                            command_specific: 0,
                            _rsvd: 0,
                            sq_head: lane.seen as u16,
                            sq_id: lane.sq_id,
                            c_id: cmd.c_id,
                            status: (failure << 1) | (lane.phase as u16),
                        };
                        cq.post(lane.cq_tail, entry);
                        lane.cq_tail = (lane.cq_tail + 1) % lane.cq_len;
                        if lane.cq_tail == 0 {
                            lane.phase = !lane.phase;
                        }
                    }
                }
            }
        }
    }
}

/// The driver with a pretend controller at the other end.
struct Rig {
    nvme: NvmeDevice,
    ctl: Controller,
    admin: Lane,
    io: Lane,
}

fn device_memory() -> DeviceMemory {
    DeviceMemory {
        buffer: Dma::new(0x0100_0000, 0x1000_0000, 4096).unwrap(),
        prp_list: Dma::new(LIST_VIRT, LIST_PHYS, 4096).unwrap(),
        admin_sq: Dma::new(0x0300_0000, 0x3000_0000, 64 * QUEUE_LENGTH).unwrap(),
        admin_cq: Dma::new(0x0500_0000, 0x5000_0000, 16 * QUEUE_LENGTH).unwrap(),
        io_sq: Dma::new(0x0700_0000, 0x7000_0000, 64 * QUEUE_LENGTH).unwrap(),
        io_cq: Dma::new(0x0900_0000, 0x9000_0000, 16 * QUEUE_LENGTH).unwrap(),
    }
}

impl Rig {
    fn admin(&mut self, request: AdminRequest) -> Result<NvmeCompletion, Error> {
        self.nvme.submit_admin(request)?;
        let writes = self.nvme.take_writes();
        self.ctl.serve(&mut self.admin, &mut self.nvme.admin_cq, &writes, false);
        assert!(self.nvme.admin_cq.is_ready());
        let done = self.nvme.complete_admin();
        let writes = self.nvme.take_writes();
        self.ctl.serve(&mut self.admin, &mut self.nvme.admin_cq, &writes, false);
        done
    }

    fn flush(&mut self) {
        let writes = self.nvme.take_writes();
        self.ctl.serve(&mut self.io, &mut self.nvme.io_cq, &writes, true);
    }

    fn run(&mut self, mut transfer: Transfer) -> Result<(), Error> {
        while self.nvme.next_io(&mut transfer)? {
            self.flush();
            assert!(self.nvme.io_cq.is_ready_for(1));
            if self.nvme.complete_io(1).is_none() {
                return Err(Error::Vroom("the command failed".to_string()));
            }
            self.flush();
        }
        Ok(())
    }
}

fn init_nvme(data_len: usize) -> Rig {
    bring_up(data_len, device_memory())
}

/// A rig whose pretend controller shares its data memory with the buffer of
/// the driver, so that staged transfers can be followed.
fn init_staged(buffer_len: usize) -> Rig {
    let mut memory = device_memory();
    memory.buffer = Dma::new(DATA_VIRT, DATA_PHYS, buffer_len).unwrap();
    let mut rig = bring_up(buffer_len, memory);
    let mut page = vec![0u8; 4096];
    page[0..8].copy_from_slice(&0x10_0000u64.to_le_bytes());
    page[128..132].copy_from_slice(&(9u32 << 16).to_le_bytes());
    rig.admin(AdminRequest::IdentifyNamespace { id: 1 }).unwrap();
    rig.nvme.identify_namespace(1, &page).unwrap();
    rig
}

fn bring_up(data_len: usize, memory: DeviceMemory) -> Rig {
    let cap = (0u64 << 32) | 0x3FFF;
    let nvme = NvmeDevice::init("0000:01:00.0", BAR, BAR_LEN, cap, memory).unwrap();
    let admin = Lane::new(0x0300_0000, QUEUE_LENGTH, BAR + 0x1000, QUEUE_LENGTH, 0);
    let io = Lane::new(0x0700_0000, QUEUE_LENGTH, BAR + 0x1008, QUEUE_LENGTH, 1);
    let mut rig = Rig { nvme, ctl: Controller::new(data_len), admin, io };
    rig.ctl.registers.insert(BAR + 0x14, 0x0000_0001);
    for step in rig.nvme.enable_sequence() {
        match step {
            Step::Write32 { addr, value } => {
                rig.ctl.registers.insert(addr, value as u64);
            }
            Step::Write64 { addr, wide } => {
                rig.ctl.registers.insert(addr, wide);
            }
            Step::Update32 { addr, keep, set } => {
                let loaded = rig.ctl.registers[&addr] as u32;
                rig.ctl.registers.insert(addr, Step::updated(keep, set, loaded) as u64);
            }
            Step::Await { addr, mask, value } => {
                assert_eq!(addr, BAR + 0x1C);
                let ready = rig.ctl.registers[&(BAR + 0x14)] as u32 & 1;
                assert!(Step::reached(mask, value, ready));
            }
            Step::Admin(request) => {
                rig.admin(request).unwrap();
            }
        }
    }
    rig
}

impl Rig {
    fn run_staged(&mut self, mut staged: Staged, memory: &mut [u8], write: bool) -> Vec<Piece> {
        let mut pieces = Vec::new();
        while let Some(piece) = self.nvme.next_staged(&mut staged).unwrap() {
            let range = piece.offset..piece.offset + piece.len;
            if write {
                self.ctl.data[..piece.len].copy_from_slice(&memory[range.clone()]);
            }
            self.flush();
            assert!(self.nvme.io_cq.is_ready_for(piece.commands as usize));
            assert!(self.nvme.complete_io(piece.commands).is_some());
            self.flush();
            if !write {
                memory[range].copy_from_slice(&self.ctl.data[..piece.len]);
            }
            pieces.push(piece);
        }
        pieces
    }
}

fn allocate_dma_buffer(size: usize) -> Dma {
    Dma::new(DATA_VIRT, DATA_PHYS, size).unwrap()
}

#[test]
pub fn simple_read_write() {
    let lba = 0;

    let mut rig = init_nvme(PAGESIZE_2MIB);

    let bytes: &[u8] = b"hello world! vroom test bytes";
    let buffer: Dma = allocate_dma_buffer(PAGESIZE_2MIB);

    rig.ctl.data[..bytes.len()].copy_from_slice(bytes);
    let transfer = rig.nvme.write(&buffer, lba);
    rig.run(transfer).unwrap();

    rig.ctl.data[..bytes.len()].fill_with(Default::default);
    let transfer = rig.nvme.read(&buffer, lba);
    rig.run(transfer).unwrap();

    let read_buf = &rig.ctl.data[0..bytes.len()];
    assert_eq!(
        bytes, read_buf,
        "Data read from NVMe does not match expected data"
    );
}

#[test]
fn hello_world_round_trip_in_a_page() {
    let mut rig = init_nvme(4096);
    let bytes: &[u8] = b"hello world! vroom test bytes";
    assert_eq!(bytes.len(), 29);
    let buffer = allocate_dma_buffer(4096);
    rig.ctl.data[..29].copy_from_slice(bytes);
    let transfer = rig.nvme.write(&buffer, 0);
    rig.run(transfer).unwrap();
    assert_eq!(&rig.ctl.disk[..29], bytes);
    rig.ctl.data[..29].fill(0);
    let transfer = rig.nvme.read(&buffer, 0);
    rig.run(transfer).unwrap();
    assert_eq!(&rig.ctl.data[..29], bytes);
    assert_eq!(rig.nvme.stats, NvmeStats { completions: 2, submissions: 2 });
}

#[test]
fn bring_up_programs_the_registers() {
    let rig = init_nvme(4096);
    let regs = &rig.ctl.registers;
    assert_eq!(regs[&(BAR + 0x28)], 0x3000_0000);
    assert_eq!(regs[&(BAR + 0x30)], 0x5000_0000);
    assert_eq!(regs[&(BAR + 0x24)], ((QUEUE_LENGTH as u64 - 1) << 16) | (QUEUE_LENGTH as u64 - 1));
    let cc = regs[&(BAR + 0x14)] as u32;
    assert_eq!(cc & 1, 1);
    assert_eq!((cc >> 16) & 0xF, 6);
    assert_eq!((cc >> 20) & 0xF, 4);
    assert_eq!(
        rig.ctl.executed,
        vec![
            NvmeCommand::create_io_completion_queue(0, 1, 0x9000_0000, QUEUE_LENGTH as u16 - 1),
            NvmeCommand::create_io_submission_queue(1, 1, 0x7000_0000, QUEUE_LENGTH as u16 - 1, 1),
        ]
    );
    assert_eq!(rig.nvme.next_queue_id(), 2);
}

#[test]
fn enable_sequence_step_by_step() {
    let nvme = NvmeDevice::init("0000:01:00.0", BAR, BAR_LEN, 0x3FFF, device_memory()).unwrap();
    let q = QUEUE_LENGTH as u32 - 1;
    assert_eq!(
        nvme.enable_sequence(),
        vec![
            Step::Update32 { addr: BAR + 0x14, keep: 0xFFFF_FFFE, set: 0 },
            Step::Await { addr: BAR + 0x1C, mask: 1, value: 0 },
            Step::Write64 { addr: BAR + 0x28, wide: 0x3000_0000 },
            Step::Write64 { addr: BAR + 0x30, wide: 0x5000_0000 },
            Step::Write32 { addr: BAR + 0x24, value: (q << 16) | q },
            Step::Update32 { addr: BAR + 0x14, keep: 0xFF00_000F, set: (4 << 20) | (6 << 16) },
            Step::Update32 { addr: BAR + 0x14, keep: 0xFFFF_FFFF, set: 1 },
            Step::Await { addr: BAR + 0x1C, mask: 1, value: 1 },
            Step::Admin(AdminRequest::CreateIoCompletionQueue {
                q_id: 1,
                addr: 0x9000_0000,
                size: q as u16,
            }),
            Step::Admin(AdminRequest::CreateIoSubmissionQueue {
                q_id: 1,
                addr: 0x7000_0000,
                size: q as u16,
                cq_id: 1,
            }),
        ]
    );
    assert_eq!(Step::updated(0xFFFF_FFFE, 0, 0x0046_0001), 0x0046_0000);
    assert_eq!(Step::updated(0xFF00_000F, 0x0046_0000, 0xABCD_EF12), 0xAB46_0002);
    assert_eq!(Step::updated(0xFFFF_FFFF, 1, 0x0046_0000), 0x0046_0001);
    assert!(Step::reached(1, 0, 0xFFFF_FFFE));
    assert!(!Step::reached(1, 0, 1));
    assert!(Step::reached(1, 1, 9));
}

#[test]
fn transfer_of_one_page_has_no_second_pointer() {
    let mut rig = init_nvme(4096);
    let buffer = allocate_dma_buffer(4096);
    let transfer = rig.nvme.write(&buffer, 5);
    rig.run(transfer).unwrap();
    let cmd = *rig.ctl.executed.last().unwrap();
    assert_eq!(cmd, NvmeCommand::io_write(0, 1, 5, 7, DATA_PHYS as u64, 0));
}

#[test]
fn transfer_of_two_pages_points_at_the_second() {
    let mut rig = init_nvme(8192);
    let buffer = allocate_dma_buffer(8192);
    let transfer = rig.nvme.read(&buffer, 5);
    rig.run(transfer).unwrap();
    let cmd = *rig.ctl.executed.last().unwrap();
    assert_eq!(
        cmd,
        NvmeCommand::io_read(0, 1, 5, 15, DATA_PHYS as u64, DATA_PHYS as u64 + 4096)
    );
    assert_eq!(rig.ctl.executed.len(), 3);
}

#[test]
fn plain_transfer_is_cut_into_chunks_of_two_pages() {
    let mut rig = init_nvme(20000);
    let buffer = allocate_dma_buffer(20000);
    for (i, byte) in rig.ctl.data.iter_mut().enumerate() {
        *byte = (i % 251) as u8;
    }
    let transfer = rig.nvme.write(&buffer, 100);
    rig.run(transfer).unwrap();
    let base = DATA_PHYS as u64;
    assert_eq!(
        rig.ctl.executed[2..],
        [
            NvmeCommand::io_write(0, 1, 100, 15, base, base + 4096),
            NvmeCommand::io_write(1, 1, 116, 15, base + 8192, base + 12288),
            NvmeCommand::io_write(2, 1, 132, 7, base + 16384, 0),
        ]
    );
    for i in 0..20000 {
        assert_eq!(rig.ctl.disk[100 * 512 + i], (i % 251) as u8);
    }
}

#[test]
fn large_transfer_uses_the_page_list() {
    let mut rig = init_nvme(64 * 1024);
    let buffer = allocate_dma_buffer(64 * 1024);
    for (i, byte) in rig.ctl.data.iter_mut().enumerate() {
        *byte = (i % 253) as u8;
    }
    let mut transfer = rig.nvme.write_prp(&buffer, 0, true);
    assert_eq!(rig.nvme.next_io(&mut transfer), Ok(true));
    let writes = rig.nvme.take_writes();
    let base = DATA_PHYS as u64;
    assert_eq!(writes.len(), 17);
    for i in 0..15 {
        assert_eq!(
            writes[i],
            BusWrite::Pointer { addr: LIST_VIRT + 8 * i, page: base + 4096 * (i as u64 + 1) }
        );
    }
    assert_eq!(
        writes[14],
        BusWrite::Pointer { addr: LIST_VIRT + 8 * 14, page: base + 60 * 1024 }
    );
    assert_eq!(
        writes[15],
        BusWrite::Command {
            addr: 0x0700_0000,
            command: NvmeCommand::io_write(0, 1, 0, 127, base, LIST_PHYS as u64),
        }
    );
    assert_eq!(writes[16], BusWrite::Doorbell { addr: BAR + 0x1008, value: 1 });
    rig.ctl.serve(&mut rig.io, &mut rig.nvme.io_cq, &writes, true);
    assert_eq!(rig.nvme.complete_io(1), Some(1));
    rig.flush();
    assert_eq!(rig.nvme.next_io(&mut transfer), Ok(false));
    let written = rig.ctl.data.clone();
    assert_eq!(&rig.ctl.disk[..64 * 1024], &written[..]);

    rig.ctl.data.fill(0);
    let transfer = rig.nvme.write_prp(&buffer, 0, false);
    rig.run(transfer).unwrap();
    assert_eq!(rig.ctl.data, written);
}

#[test]
fn transfer_stops_at_the_last_block_address() {
    let mut rig = init_nvme(8192);
    let buffer = allocate_dma_buffer(8192);
    let mut transfer = rig.nvme.write(&buffer, u64::MAX - 15);
    assert!(matches!(rig.nvme.next_io(&mut transfer), Err(Error::Vroom(_))));
    assert!(rig.nvme.take_writes().is_empty());
    let mut transfer = rig.nvme.write(&buffer, u64::MAX - 16);
    assert_eq!(rig.nvme.next_io(&mut transfer), Ok(true));
}

#[test]
fn failed_command_is_reported() {
    let mut rig = init_nvme(4096);
    let buffer = allocate_dma_buffer(4096);
    rig.ctl.fail_next = Some(0x0281);
    let mut transfer = rig.nvme.write(&buffer, 0);
    assert_eq!(rig.nvme.next_io(&mut transfer), Ok(true));
    rig.flush();
    assert_eq!(rig.nvme.complete_io(1), None);
    assert_eq!(rig.nvme.stats, NvmeStats { completions: 0, submissions: 1 });
    assert_eq!(rig.nvme.io_sq.head(), 1);
}

#[test]
fn failed_admin_command_is_an_error() {
    let mut rig = init_nvme(4096);
    rig.ctl.fail_next = Some(0x0102);
    assert_eq!(
        rig.admin(AdminRequest::IdentifyController),
        Err(Error::Device { status_code: 2, status_code_type: 1 })
    );
    let done = rig.admin(AdminRequest::IdentifyController).unwrap();
    assert_eq!(done.c_id, 3);
    assert_eq!(*rig.ctl.executed.last().unwrap(), NvmeCommand::identify_controller(3, 0x1000_0000));
}

#[test]
fn namespaces_are_identified_and_formatted() {
    let mut rig = init_nvme(4096);
    let mut list = vec![0u8; 4096];
    list[0] = 1;
    rig.admin(AdminRequest::IdentifyNamespaceList { base: 0 }).unwrap();
    let ids = NvmeDevice::identify_namespace_list(&list);
    assert_eq!(ids, vec![1]);
    let mut page = vec![0u8; 4096];
    page[0..8].copy_from_slice(&0x10_0000u64.to_le_bytes());
    page[8..16].copy_from_slice(&0x0F_0000u64.to_le_bytes());
    page[26] = 0x10;
    page[128..132].copy_from_slice(&(9u32 << 16).to_le_bytes());
    for id in ids {
        rig.admin(AdminRequest::IdentifyNamespace { id }).unwrap();
        let namespace = rig.nvme.identify_namespace(id, &page).unwrap();
        assert_eq!(namespace.id, 1);
        assert!(namespace.block_size == 512 || namespace.block_size == 4096);
        assert!(namespace.blocks > 0);
        assert_eq!(namespace.blocks, 0x10_0000);
    }
    assert_eq!(rig.nvme.namespaces[&1].block_size, 512);
    assert_eq!(rig.nvme.namespaces[&1].blocks, 0x10_0000);

    assert_eq!(rig.nvme.format_namespace(Some(1)), Ok(AdminRequest::FormatNvm { ns_id: 1 }));
    assert!(matches!(rig.nvme.format_namespace(Some(2)), Err(Error::Vroom(_))));
    assert_eq!(
        rig.nvme.format_namespace(None),
        Ok(AdminRequest::FormatNvm { ns_id: 0xFFFF_FFFF })
    );
    let request = rig.nvme.format_namespace(Some(1)).unwrap();
    rig.admin(request).unwrap();
    assert_eq!(rig.ctl.executed.last().unwrap().opcode, 0x80);
    assert_eq!(rig.ctl.executed.last().unwrap().ns_id, 1);
}

fn queue_pair(rig: &mut Rig, len: usize) -> (NvmeQueuePair, Lane) {
    let sq_memory = Dma::new(0x0B00_0000, 0xB000_0000, 64 * len).unwrap();
    let cq_memory = Dma::new(0x0D00_0000, 0xD000_0000, 16 * len).unwrap();
    let (pair, requests) = rig.nvme.create_io_queue_pair(len, sq_memory, cq_memory).unwrap();
    for request in requests {
        rig.admin(request).unwrap();
    }
    rig.nvme.queue_pair_created(&pair);
    let lane = Lane::new(0x0B00_0000, len, pair.sub_queue.doorbell(), len, pair.id);
    (pair, lane)
}

fn serve_pair(rig: &mut Rig, pair: &mut NvmeQueuePair, lane: &mut Lane) {
    let mut writes = pair.sub_queue.take_writes();
    writes.extend(pair.comp_queue.take_writes());
    rig.ctl.serve(lane, &mut pair.comp_queue, &writes, true);
}

#[test]
fn queue_pairs_get_identifiers_and_doorbells_in_turn() {
    let mut rig = init_nvme(4096);
    let (pair, _) = queue_pair(&mut rig, 64);
    assert_eq!(pair.id, 2);
    assert_eq!(pair.sub_queue.doorbell(), BAR + 0x1000 + 4 * 4);
    assert_eq!(pair.comp_queue.doorbell(), BAR + 0x1000 + 4 * 5);
    assert_eq!(pair.sub_queue.len(), 64);
    let n = rig.ctl.executed.len();
    assert_eq!(
        rig.ctl.executed[n - 2..],
        [
            NvmeCommand::create_io_completion_queue(2, 2, 0xD000_0000, 63),
            NvmeCommand::create_io_submission_queue(3, 2, 0xB000_0000, 63, 2),
        ]
    );
    let (next, _) = queue_pair(&mut rig, 8);
    assert_eq!(next.id, 3);
    assert_eq!(rig.nvme.next_queue_id(), 4);
    let requests = rig.nvme.delete_io_queue_pair(&pair);
    assert_eq!(
        requests,
        vec![
            AdminRequest::DeleteIoSubmissionQueue { q_id: 2 },
            AdminRequest::DeleteIoCompletionQueue { q_id: 2 },
        ]
    );
    for request in requests {
        rig.admin(request).unwrap();
    }
    assert_eq!(rig.ctl.executed.last().unwrap().opcode, 0x04);
}

#[test]
fn queue_pair_outside_the_register_region_is_refused() {
    let memory = device_memory();
    let nvme = NvmeDevice::init("0000:01:00.0", BAR, 0x1000 + 4 * 4, 0, memory).unwrap();
    let sq_memory = Dma::new(0x0B00_0000, 0xB000_0000, 64 * 8).unwrap();
    let cq_memory = Dma::new(0x0D00_0000, 0xD000_0000, 16 * 8).unwrap();
    assert!(matches!(
        nvme.create_io_queue_pair(8, sq_memory, cq_memory),
        Err(Error::Mmio(_))
    ));
    assert!(matches!(
        NvmeDevice::init("0000:01:00.0", BAR, 0x1000 + 4 * 4 - 1, 0, device_memory()),
        Err(Error::Mmio(_))
    ));
    let mut small = device_memory();
    small.io_cq = Dma::new(0x0900_0000, 0x9000_0000, 16 * QUEUE_LENGTH - 1).unwrap();
    assert!(matches!(
        NvmeDevice::init("0000:01:00.0", BAR, BAR_LEN, 0, small),
        Err(Error::Allocation(_))
    ));
}

#[test]
fn doorbells_follow_the_stride() {
    let cap = 2u64 << 32;
    let nvme = NvmeDevice::init("0000:01:00.0", BAR, 0x10_0000, cap, device_memory()).unwrap();
    assert_eq!(nvme.admin_sq.doorbell(), BAR + 0x1000);
    assert_eq!(nvme.admin_cq.doorbell(), BAR + 0x1000 + 16);
    assert_eq!(nvme.io_sq.doorbell(), BAR + 0x1000 + 32);
    assert_eq!(nvme.io_cq.doorbell(), BAR + 0x1000 + 48);
    assert_eq!(
        nvme.write_reg_idx(NvmeArrayRegs::SQyTDBL, 3, 77),
        Some(BusWrite::Doorbell { addr: BAR + 0x1000 + 16 * 6, value: 77 })
    );
    assert_eq!(
        nvme.write_reg_idx(NvmeArrayRegs::CQyHDBL, 3, 78),
        Some(BusWrite::Doorbell { addr: BAR + 0x1000 + 16 * 7, value: 78 })
    );
    assert_eq!(nvme.write_reg_idx(NvmeArrayRegs::CQyHDBL, 0xFFFF, 0), None);
}

#[test]
fn queue_full_pressure() {
    let mut rig = init_nvme(64 * 512);
    let (mut pair, mut lane) = queue_pair(&mut rig, 64);
    let buffer = allocate_dma_buffer(64 * 512);
    for i in 0..63 {
        let slice = buffer.slice(i * 512..(i + 1) * 512);
        assert_eq!(pair.submit_io(&slice, i as u64, true), 1);
    }
    let slice = buffer.slice(63 * 512..64 * 512);
    assert_eq!(pair.submit_io(&slice, 63, true), 0);
    serve_pair(&mut rig, &mut pair, &mut lane);
    assert_eq!(pair.complete_io(1), Some(1));
    assert_eq!(pair.submit_io(&slice, 63, true), 1);
    assert_eq!(pair.submit_io(&slice, 63, true), 0);
}

#[test]
fn submit_io_reports_a_partial_count() {
    let mut rig = init_nvme(8 * 8192);
    let (mut pair, mut lane) = queue_pair(&mut rig, 4);
    let buffer = allocate_dma_buffer(8 * 8192);
    assert_eq!(pair.submit_io(&buffer, 0, false), 3);
    let writes = pair.sub_queue.take_writes();
    let base = DATA_PHYS as u64;
    assert_eq!(
        writes,
        vec![
            BusWrite::Command {
                addr: 0x0B00_0000,
                command: NvmeCommand::io_read(2 << 11, 1, 0, 15, base, base + 4096),
            },
            BusWrite::Doorbell { addr: pair.sub_queue.doorbell(), value: 1 },
            BusWrite::Command {
                addr: 0x0B00_0040,
                command: NvmeCommand::io_read((2 << 11) | 1, 1, 16, 15, base + 8192, base + 12288),
            },
            BusWrite::Doorbell { addr: pair.sub_queue.doorbell(), value: 2 },
            BusWrite::Command {
                addr: 0x0B00_0080,
                command: NvmeCommand::io_read((2 << 11) | 2, 1, 32, 15, base + 16384, base + 20480),
            },
            BusWrite::Doorbell { addr: pair.sub_queue.doorbell(), value: 3 },
        ]
    );
    rig.ctl.serve(&mut lane, &mut pair.comp_queue, &writes, true);
    assert!(pair.is_ready_for(3));
    assert!(!pair.is_ready_for(4));
    assert_eq!(pair.complete_io(3), Some(3));
    assert_eq!(
        pair.comp_queue.take_writes(),
        vec![BusWrite::Doorbell { addr: pair.comp_queue.doorbell(), value: 3 }]
    );
    assert!(pair.sub_queue.is_empty());
}

#[test]
fn phase_wrap() {
    let q = 64;
    let mut rig = init_nvme(4096);
    let (mut pair, mut lane) = queue_pair(&mut rig, q);
    let buffer = allocate_dma_buffer(4096);
    let mut flips = 0;
    let mut phase = pair.comp_queue.phase();
    for i in 0..2 * q {
        assert_eq!(pair.submit_io(&buffer, 8 * i as u64, true), 1);
        serve_pair(&mut rig, &mut pair, &mut lane);
        assert_eq!(pair.complete_io(1), Some(((i + 1) % q) as u16));
        if pair.comp_queue.phase() != phase {
            flips += 1;
            phase = pair.comp_queue.phase();
        }
        if i + 1 == q {
            assert_eq!(flips, 1);
            assert!(!pair.comp_queue.phase());
        }
        if i + 1 < q {
            assert_eq!(flips, 0);
        }
    }
    assert_eq!(flips, 2);
    assert!(pair.comp_queue.phase());
}

#[test]
fn quick_poll_signals_completions() {
    let mut rig = init_nvme(4096);
    let (mut pair, mut lane) = queue_pair(&mut rig, 8);
    let buffer = allocate_dma_buffer(4096);
    assert_eq!(pair.quick_poll(), None);
    assert_eq!(pair.quick_poll_result(), Ok(None));
    assert_eq!(pair.submit_io(&buffer, 0, true), 1);
    serve_pair(&mut rig, &mut pair, &mut lane);
    assert_eq!(pair.quick_poll(), Some(()));
    assert_eq!(pair.quick_poll(), None);
    assert_eq!(pair.sub_queue.head(), 1);
    assert_eq!(
        pair.comp_queue.take_writes(),
        vec![BusWrite::Doorbell { addr: pair.comp_queue.doorbell(), value: 1 }]
    );

    rig.ctl.fail_next = Some(0x0006);
    assert_eq!(pair.submit_io(&buffer, 0, true), 1);
    serve_pair(&mut rig, &mut pair, &mut lane);
    assert_eq!(pair.quick_poll(), Some(()));

    rig.ctl.fail_next = Some(0x0206);
    assert_eq!(pair.submit_io(&buffer, 0, true), 1);
    serve_pair(&mut rig, &mut pair, &mut lane);
    assert_eq!(
        pair.quick_poll_result(),
        Err(Error::Device { status_code: 6, status_code_type: 2 })
    );
    assert_eq!(pair.comp_queue.head(), 3);

    assert_eq!(pair.submit_io(&buffer, 0, true), 1);
    serve_pair(&mut rig, &mut pair, &mut lane);
    assert_eq!(pair.quick_poll_result(), Ok(Some(())));
}

#[test]
fn namespace_io_refuses_too_many_blocks() {
    let mut rig = init_nvme(4096);
    for blocks in [0x1_0001, 0x1_0000, 4105] {
        assert!(matches!(
            rig.nvme.namespace_io(1, blocks, 0, DATA_PHYS as u64, true),
            Err(Error::Vroom(_))
        ));
    }
    assert!(matches!(
        rig.nvme.namespace_io(1, 8, 0, u64::MAX - 4095, true),
        Err(Error::Vroom(_))
    ));
    assert!(rig.nvme.take_writes().is_empty());
    assert_eq!(rig.nvme.namespace_io(1, 4104, 9, DATA_PHYS as u64, false), Ok(()));
    let writes = rig.nvme.take_writes();
    assert_eq!(writes.len(), 512 + 2);
    assert_eq!(
        writes[511],
        BusWrite::Pointer { addr: LIST_VIRT + 8 * 511, page: DATA_PHYS as u64 + 4096 * 512 }
    );
    assert_eq!(
        writes[512],
        BusWrite::Command {
            addr: 0x0700_0000,
            command: NvmeCommand::io_read(0, 1, 9, 4103, DATA_PHYS as u64, LIST_PHYS as u64),
        }
    );
    assert_eq!(rig.nvme.namespace_io(1, 16, 9, DATA_PHYS as u64, true), Ok(()));
    assert_eq!(
        rig.nvme.take_writes()[0],
        BusWrite::Command {
            addr: 0x0700_0040,
            command: NvmeCommand::io_write(
                1,
                1,
                9,
                15,
                DATA_PHYS as u64,
                DATA_PHYS as u64 + 4096
            ),
        }
    );
}

#[test]
fn batch_plans() {
    assert_eq!(
        batch_plan(0x20_0000, Some(32), 512),
        Some(BatchPlan { commands: 32, bytes: 0x1_0000, blocks: 128 })
    );
    assert_eq!(
        batch_plan(0x20_0000, Some(32), 4096),
        Some(BatchPlan { commands: 32, bytes: 0x1_0000, blocks: 16 })
    );
    assert_eq!(
        batch_plan(2048, Some(32), 512),
        Some(BatchPlan { commands: 4, bytes: 512, blocks: 1 })
    );
    assert_eq!(
        batch_plan(1000, Some(3), 512),
        Some(BatchPlan { commands: 1, bytes: 1000, blocks: 1 })
    );
    assert_eq!(batch_plan(511, Some(3), 512), None);
    assert_eq!(batch_plan(4096, Some(0), 512), None);
    assert_eq!(batch_plan(4096, Some(1), 0), None);
    assert_eq!(
        batch_plan(600_000, None, 512),
        Some(BatchPlan { commands: 1, bytes: 600_000, blocks: 1172 })
    );
    assert_eq!(batch_plan(512, None, 512), Some(BatchPlan { commands: 1, bytes: 512, blocks: 1 }));
    assert_eq!(batch_plan(513, None, 512), Some(BatchPlan { commands: 1, bytes: 513, blocks: 2 }));
    assert_eq!(batch_plan(0, None, 512), None);
    assert_eq!(batch_plan(512, None, 0), None);
}

#[test]
fn copied_transfer_goes_through_the_buffer() {
    let mut rig = init_staged(PAGESIZE_2MIB);
    let mut memory: Vec<u8> = (0..600_000usize).map(|i| (i % 241) as u8).collect();
    let staged = rig.nvme.write_copied(memory.len(), 10).unwrap();
    let pieces = rig.run_staged(staged, &mut memory, true);
    assert_eq!(
        pieces,
        vec![
            Piece { offset: 0, len: 0x8_0000, commands: 1 },
            Piece { offset: 0x8_0000, len: 600_000 - 0x8_0000, commands: 1 },
        ]
    );
    assert_eq!(&rig.ctl.disk[10 * 512..10 * 512 + 600_000], &memory[..]);
    let n = rig.ctl.executed.len();
    let base = DATA_PHYS as u64;
    assert_eq!(
        rig.ctl.executed[n - 2..],
        [
            NvmeCommand::io_write(0, 1, 10, 1023, base, LIST_PHYS as u64),
            NvmeCommand::io_write(1, 1, 10 + 1024, 147, base, LIST_PHYS as u64),
        ]
    );

    let mut back = vec![0u8; 600_000];
    let staged = rig.nvme.read_copied(back.len(), 10).unwrap();
    rig.run_staged(staged, &mut back, false);
    assert_eq!(back, memory);
}

#[test]
fn batched_transfer_keeps_a_batch_in_flight() {
    let mut rig = init_staged(PAGESIZE_2MIB);
    let len = PAGESIZE_2MIB + 64 * 1024;
    let mut memory: Vec<u8> = (0..len).map(|i| (i % 239) as u8).collect();
    let staged = rig.nvme.batched_write(1, len, 0, 32).unwrap();
    let pieces = rig.run_staged(staged, &mut memory, true);
    assert_eq!(
        pieces,
        vec![
            Piece { offset: 0, len: PAGESIZE_2MIB, commands: 32 },
            Piece { offset: PAGESIZE_2MIB, len: 64 * 1024, commands: 32 },
        ]
    );
    assert_eq!(&rig.ctl.disk[..len], &memory[..]);
    let first = rig.ctl.executed.len() - 64;
    let base = DATA_PHYS as u64;
    assert_eq!(
        rig.ctl.executed[first],
        NvmeCommand::io_write(0, 1, 0, 127, base, LIST_PHYS as u64)
    );
    assert_eq!(
        rig.ctl.executed[first + 3],
        NvmeCommand::io_write(3, 1, 3 * 128, 127, base + 3 * 0x1_0000, LIST_PHYS as u64 + 8 * 48)
    );
    assert_eq!(
        rig.ctl.executed[first + 33],
        NvmeCommand::io_write(33, 1, 4096 + 4, 3, base + 2048, 0)
    );
    assert_eq!(rig.nvme.stats.submissions, 64);
    assert_eq!(rig.nvme.stats.completions, 2);

    let mut back = vec![0u8; len];
    let staged = rig.nvme.batched_read(1, len, 0, 32).unwrap();
    rig.run_staged(staged, &mut back, false);
    assert_eq!(back, memory);
}

#[test]
fn staged_transfer_needs_a_known_namespace_and_room() {
    let mut rig = init_staged(4096);
    assert!(matches!(rig.nvme.write_copied(100, 0), Ok(_)));
    assert!(matches!(rig.nvme.batched_read(2, 100, 0, 4), Err(Error::Vroom(_))));
    let mut staged = rig.nvme.write_copied(8192, 0).unwrap();
    assert!(matches!(rig.nvme.next_staged(&mut staged), Err(Error::Vroom(_))));
    assert!(rig.nvme.take_writes().is_empty());
    let mut staged = rig.nvme.batched_write(1, 4096, 0, 0).unwrap();
    assert!(matches!(rig.nvme.next_staged(&mut staged), Err(Error::Vroom(_))));
    let mut staged = rig.nvme.write_copied(0, 0).unwrap();
    assert_eq!(rig.nvme.next_staged(&mut staged), Ok(None));
    let mut staged = rig.nvme.write_copied(4096, 0).unwrap();
    assert_eq!(
        rig.nvme.next_staged(&mut staged),
        Ok(Some(Piece { offset: 0, len: 4096, commands: 1 }))
    );
}

#[test]
fn free_slots_are_counted() {
    let rig = init_nvme(4096);
    assert_eq!(rig.nvme.io_sq.free(), QUEUE_LENGTH - 1);
    assert_eq!(rig.nvme.admin_sq.free(), QUEUE_LENGTH - 1);
}

#[test]
fn format_clears_data() {
    let mut rig = init_staged(4096);
    let buffer = allocate_dma_buffer(4096);
    for (i, byte) in rig.ctl.data.iter_mut().enumerate() {
        *byte = (i % 200) as u8 + 1;
    }
    let transfer = rig.nvme.write(&buffer, 0);
    rig.run(transfer).unwrap();
    assert_eq!(rig.ctl.disk[1], 2);

    let request = rig.nvme.format_namespace(Some(1)).unwrap();
    rig.admin(request).unwrap();

    let transfer = rig.nvme.read(&buffer, 0);
    rig.run(transfer).unwrap();
    let first = rig.ctl.data[0];
    assert!(first == 0 || first == 0xFF);
    assert!(rig.ctl.data.iter().all(|byte| *byte == first));
}

#[test]
fn queue_indices_stay_inside_the_ring() {
    let mut rig = init_nvme(4096);
    let (mut pair, mut lane) = queue_pair(&mut rig, 5);
    let buffer = allocate_dma_buffer(4096);
    for i in 0..23u64 {
        let submitted = pair.submit_io(&buffer, i, i % 2 == 0);
        assert!(pair.sub_queue.head() < pair.sub_queue.len());
        assert!(pair.sub_queue.tail() < pair.sub_queue.len());
        serve_pair(&mut rig, &mut pair, &mut lane);
        if submitted == 1 && i % 3 != 0 {
            while pair.quick_poll().is_some() {}
        }
        assert!(pair.sub_queue.head() < pair.sub_queue.len());
        assert!(pair.sub_queue.tail() < pair.sub_queue.len());
        assert!(pair.comp_queue.head() < pair.comp_queue.len());
    }
}

/// A fixed sequence of numbers that look random.
struct Sequence(u64);

impl Sequence {
    fn next(&mut self) -> u64 {
        self.0 = self.0.wrapping_mul(6364136223846793005).wrapping_add(1442695040888963407);
        self.0 >> 33
    }
}

#[test]
fn random_blocks_at_queue_depth_one() {
    let blocks = 8;
    let bytes = 512 * blocks;
    let mut rig = init_nvme(bytes);
    let buffer = allocate_dma_buffer(bytes);
    let mut numbers = Sequence(0x5EED);
    let mut shadow = vec![0xEEu8; 4 * 1024 * 1024];
    let slots = (shadow.len() / bytes) as u64;
    for round in 0..300 {
        let lba = (numbers.next() % slots) * blocks as u64;
        let at = lba as usize * 512;
        if numbers.next() % 2 == 0 {
            for byte in rig.ctl.data.iter_mut() {
                *byte = numbers.next() as u8;
            }
            shadow[at..at + bytes].copy_from_slice(&rig.ctl.data);
            let transfer = rig.nvme.write(&buffer, lba);
            rig.run(transfer).unwrap();
        } else {
            rig.ctl.data.fill(round as u8);
            let transfer = rig.nvme.read(&buffer, lba);
            rig.run(transfer).unwrap();
            assert_eq!(&rig.ctl.data[..], &shadow[at..at + bytes]);
        }
    }
    assert_eq!(rig.ctl.disk, shadow);
    assert_eq!(rig.nvme.stats.submissions, 300);
    assert_eq!(rig.nvme.stats.completions, 300);
}

#[test]
fn random_blocks_at_several_queue_depths() {
    let bytes = 4096;
    let mut numbers = Sequence(0xD1CE);
    for depth in [1usize, 2, 3, 8, 31, 63] {
        let mut rig = init_nvme(bytes * depth);
        let (mut pair, mut lane) = queue_pair(&mut rig, 64);
        let buffer = allocate_dma_buffer(bytes * depth);
        let mut shadow = vec![0xEEu8; 4 * 1024 * 1024];
        for _ in 0..20 {
            for byte in rig.ctl.data.iter_mut() {
                *byte = numbers.next() as u8;
            }
            for i in 0..depth {
                let lba = (numbers.next() % 1000) * 8;
                let at = lba as usize * 512;
                let slice = buffer.slice(i * bytes..(i + 1) * bytes);
                shadow[at..at + bytes].copy_from_slice(&rig.ctl.data[i * bytes..(i + 1) * bytes]);
                assert_eq!(pair.submit_io(&slice, lba, true), 1);
            }
            serve_pair(&mut rig, &mut pair, &mut lane);
            assert!(pair.is_ready_for(depth));
            assert!(pair.complete_io(depth).is_some());
            assert!(pair.sub_queue.is_empty());
            serve_pair(&mut rig, &mut pair, &mut lane);
        }
        assert_eq!(rig.ctl.disk, shadow);
    }
}
