//! Tests of the handle table, the file metadata types and the parallel
//! kernel description.

use mpk_pool::file::{Advice, FdFlags, FdStat, FileCaps, FileTime, FileType, Filestat};
use mpk_pool::kernel::{CpuSingleThreadedDevice, DeviceKind, Engine, Kernel, SharedMemory};
use mpk_pool::nn::{BackendKind, GraphEncoding, Table, UsageError};

#[test]
fn table_hands_out_sequential_keys() {
    let mut table: Table<String> = Table::new();
    let a = table.insert("alpha".to_string());
    let b = table.insert("beta".to_string());
    assert_eq!((a, b), (0, 1));
    assert_eq!(table.len(), 2);
}

#[test]
fn table_get_mut_finds_and_updates() {
    let mut table: Table<u64> = Table::new();
    let k0 = table.insert(10);
    let k1 = table.insert(20);
    *table.get_mut(k1).unwrap() += 5;
    assert_eq!(*table.get_mut(k1).unwrap(), 25);
    assert_eq!(*table.get_mut(k0).unwrap(), 10);
    assert!(table.get_mut(99).is_none());
}

#[test]
fn backend_and_usage_errors_carry_their_data() {
    assert_eq!(BackendKind::OpenVINO, BackendKind::OpenVINO);
    let err = UsageError::InvalidEncoding(GraphEncoding::ONNX);
    match err {
        UsageError::InvalidEncoding(e) => assert_eq!(e, GraphEncoding::ONNX),
        _ => panic!("wrong variant"),
    }
    let err = UsageError::NotFound("mobilenet".to_string());
    match err {
        UsageError::NotFound(name) => assert_eq!(name, "mobilenet"),
        _ => panic!("wrong variant"),
    }
}

#[test]
fn file_caps_combine_and_contain() {
    let read_write = FileCaps(FileCaps::READ).union(FileCaps(FileCaps::WRITE));
    assert!(read_write.contains(FileCaps(FileCaps::READ)));
    assert!(read_write.contains(FileCaps(FileCaps::WRITE)));
    assert!(!read_write.contains(FileCaps(FileCaps::SEEK)));
}

#[test]
fn fd_flags_contain_their_bits() {
    let flags = FdFlags(FdFlags::APPEND | FdFlags::NONBLOCK);
    assert!(flags.contains(FdFlags(FdFlags::APPEND)));
    assert!(!flags.contains(FdFlags(FdFlags::SYNC)));
}

#[test]
fn stat_records_hold_plain_values() {
    let stat = Filestat {
        device_id: 3,
        inode: 77,
        filetype: FileType::RegularFile,
        nlink: 1,
        size: 4096,
        atim: Some(FileTime { nanos: 1_000_000 }),
        mtim: None,
        ctim: None,
    };
    assert_eq!(stat.filetype, FileType::RegularFile);
    assert_eq!(stat.atim.unwrap().nanos, 1_000_000);

    let fdstat = FdStat {
        filetype: FileType::CharacterDevice,
        caps: FileCaps(FileCaps::READ),
        flags: FdFlags(FdFlags::APPEND),
    };
    assert_eq!(fdstat.filetype, FileType::CharacterDevice);
    assert_eq!(Advice::WillNeed, Advice::WillNeed);
}

#[test]
fn kernel_keeps_its_parts() {
    let module = vec![0x00u8, 0x61, 0x73, 0x6d];
    let engine = Engine { id: 7 };
    let memory = SharedMemory { min_pages: 1, max_pages: 5 };
    let kernel = Kernel::new(module.clone(), engine, memory);
    assert_eq!(kernel.module(), &module);
    assert_eq!(*kernel.engine(), engine);
    assert_eq!(*kernel.memory(), memory);
    assert_eq!(Kernel::NAME, "kernel");
}

#[test]
fn single_threaded_device_reports_itself() {
    let device = CpuSingleThreadedDevice::new();
    assert_eq!(device.kind(), DeviceKind::Cpu);
    assert_eq!(device.name(), "single-threaded implementation");
}

struct EchoGraph;

struct EchoContext {
    input: Vec<u8>,
}

struct OneGraphRegistry {
    name: String,
    graph: mpk_pool::nn::Graph,
}

impl mpk_pool::nn::BackendGraph for EchoGraph {
    fn init_execution_context(
        &self,
    ) -> Result<mpk_pool::nn::ExecutionContext, mpk_pool::nn::BackendError> {
        Ok(mpk_pool::nn::ExecutionContext(Box::new(EchoContext { input: Vec::new() })))
    }
}

impl mpk_pool::nn::BackendExecutionContext for EchoContext {
    fn set_input(&mut self, _index: u32, tensor: &Vec<u8>) -> Result<(), mpk_pool::nn::BackendError> {
        self.input = tensor.clone();
        Ok(())
    }
    fn compute(&mut self) -> Result<(), mpk_pool::nn::BackendError> {
        Ok(())
    }
    fn get_output(
        &mut self,
        _index: u32,
        destination: &mut Vec<u8>,
    ) -> Result<u32, mpk_pool::nn::BackendError> {
        destination.clear();
        destination.extend_from_slice(&self.input);
        Ok(self.input.len() as u32)
    }
}

impl mpk_pool::nn::GraphRegistry for OneGraphRegistry {
    fn get_mut(&mut self, name: &str) -> Option<&mut mpk_pool::nn::Graph> {
        if name == self.name {
            Some(&mut self.graph)
        } else {
            None
        }
    }
}

#[test]
fn graph_wrappers_drive_a_backend() {
    let graph = mpk_pool::nn::Graph(Box::new(EchoGraph));
    let mut registry = mpk_pool::nn::Registry(Box::new(OneGraphRegistry {
        name: "echo".to_string(),
        graph,
    }));
    assert!(registry.get_mut("other").is_none());

    let graph = registry.get_mut("echo").expect("registered graph");
    let mut ctx = graph.init_execution_context().unwrap();
    ctx.set_input(0, &vec![1, 2, 3]).unwrap();
    ctx.compute().unwrap();
    let mut out = Vec::new();
    let n = ctx.get_output(0, &mut out).unwrap();
    assert_eq!((n, out), (3, vec![1, 2, 3]));
}
