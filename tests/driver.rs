use capcom::cpu::{Cpu, CpuOp, CR4_SMEP};
use capcom::driver::{
    dispatch, driver_entry, driver_ioctl, driver_open_close, driver_unload, handle_panic,
    run_payload, DriverObject, Payload, DEVICE_TYPE, IOCTL_RUN_PAYLOAD, MANUALLY_INITIATED_CRASH,
};
use capcom::kernel::{Kernel, KernelEvent, SymbolResolver};
use capcom::request::{Irp, MajorFunction};
use capcom::status::{
    nt_success, STATUS_INVALID_DEVICE_REQUEST, STATUS_OBJECT_NAME_COLLISION,
    STATUS_OBJECT_NAME_NOT_FOUND, STATUS_PENDING, STATUS_SUCCESS, STATUS_UNSUCCESSFUL,
};
use capcom::unicode::{device_name, link_name, rtl_constant_string};

const KNOWN_ADDRESS: u64 = 0xffff_f800_1234_5678;
const CR4_WITH_SMEP: u64 = 0x0037_06f8;

fn utf16(s: &str) -> Vec<u16> {
    s.encode_utf16().collect()
}

/// Resolves a routine by name, records what it got, and counts its runs.
struct MarkerPayload {
    routine: Vec<u16>,
    marker: Option<u64>,
    runs: u32,
    entered_with: Option<(u64, bool)>,
}

impl MarkerPayload {
    fn new(routine: &str) -> MarkerPayload {
        MarkerPayload { routine: utf16(routine), marker: None, runs: 0, entered_with: None }
    }
}

impl Payload for MarkerPayload {
    fn ran(self, before: Self, resolver: SymbolResolver, cr4: u64, interrupts_enabled: bool) -> bool {
        self.routine == before.routine
            && self.runs == before.runs + 1
            && self.marker == resolver.resolve(&before.routine)
            && self.entered_with == Some((cr4, interrupts_enabled))
    }

    fn run(&mut self, resolver: &SymbolResolver, cpu: &Cpu) {
        self.runs += 1;
        self.entered_with = Some((cpu.cr4, cpu.interrupts_enabled));
        self.marker = resolver.resolve(&self.routine);
    }
}

fn kernel(debugger_present: bool) -> Kernel {
    let mut resolver = SymbolResolver::new();
    assert!(resolver.add_routine(utf16("KnownRoutineName"), KNOWN_ADDRESS));
    Kernel::new(Cpu::new(CR4_WITH_SMEP), debugger_present, resolver)
}

fn loaded(debugger_present: bool) -> (DriverObject, Kernel) {
    let mut driver = DriverObject::new();
    let mut k = kernel(debugger_present);
    assert_eq!(driver_entry(&mut driver, &mut k), STATUS_SUCCESS);
    (driver, k)
}

fn link_points_to_device(k: &Kernel) -> bool {
    match k.links.find(&link_name()) {
        Some(i) => k.links.entries[i].value == device_name() && k.devices.find(&device_name()).is_some(),
        None => false,
    }
}

fn payload_runs(k: &Kernel) -> usize {
    k.trace.iter().filter(|e| matches!(e, KernelEvent::PayloadRun { .. })).count()
}

fn ioctl_request(code: u32, payload: MarkerPayload) -> Irp<MarkerPayload> {
    Irp::new(MajorFunction::DeviceControl, code, Some(payload))
}

#[test]
fn scenario_load_open_ioctl_close_unload() {
    let (mut driver, mut k) = loaded(false);
    assert!(link_points_to_device(&k));

    let mut open: Irp<MarkerPayload> = Irp::new(MajorFunction::Create, 0, None);
    assert_eq!(dispatch(&driver, &mut k, &mut open), STATUS_SUCCESS);

    let code = (0xaa01u32 << 16) | 0x3044;
    let mut irp = ioctl_request(code, MarkerPayload::new("KnownRoutineName"));
    assert_eq!(dispatch(&driver, &mut k, &mut irp), STATUS_SUCCESS);
    assert_eq!(irp.status, STATUS_SUCCESS);
    assert!(irp.completed);
    let payload = irp.system_buffer.as_ref().unwrap();
    assert_eq!(payload.marker, Some(KNOWN_ADDRESS));
    assert_eq!(payload.runs, 1);

    let mut close: Irp<MarkerPayload> = Irp::new(MajorFunction::Close, 0, None);
    assert_eq!(dispatch(&driver, &mut k, &mut close), STATUS_SUCCESS);

    driver_unload(&mut driver, &mut k);
    assert!(k.links.find(&link_name()).is_none());
    assert!(k.devices.find(&device_name()).is_none());
}

#[test]
fn ioctl_code_is_built_from_device_type() {
    assert_eq!(IOCTL_RUN_PAYLOAD, (DEVICE_TYPE << 16) | 0x3044);
    assert_eq!(IOCTL_RUN_PAYLOAD, 0xaa01_3044);
}

#[test]
fn cr4_is_restored_exactly_with_smep_set() {
    let (driver, mut k) = loaded(false);
    let before = k.cpu.cr4;
    let mut irp = ioctl_request(IOCTL_RUN_PAYLOAD, MarkerPayload::new("KnownRoutineName"));
    dispatch(&driver, &mut k, &mut irp);
    assert_eq!(k.cpu.cr4, before);
    assert!(k.cpu.interrupts_enabled);
    match k.trace.last() {
        Some(KernelEvent::PayloadRun { cr4, interrupts_enabled }) => {
            assert_eq!(*cr4, before & !CR4_SMEP);
            assert_eq!(*cr4 & CR4_SMEP, 0);
            assert!(!*interrupts_enabled);
        }
        _ => panic!("the payload did not run"),
    }
}

#[test]
fn cr4_is_restored_exactly_with_smep_clear() {
    let mut resolver = SymbolResolver::new();
    resolver.add_routine(utf16("KnownRoutineName"), KNOWN_ADDRESS);
    let mut k = Kernel::new(Cpu::new(0x06f8), false, resolver);
    let mut payload = MarkerPayload::new("KnownRoutineName");
    run_payload(&mut k, &mut payload);
    assert_eq!(k.cpu.cr4, 0x06f8);
    assert_eq!(payload.runs, 1);
}

#[test]
fn open_close_repeatedly_succeeds_with_no_bytes() {
    let (driver, mut k) = loaded(false);
    let trace_len = k.trace.len();
    for _ in 0..10 {
        for major in [MajorFunction::Create, MajorFunction::Close] {
            let mut irp: Irp<MarkerPayload> = Irp::new(major, 0, None);
            irp.information = 77;
            assert_eq!(dispatch(&driver, &mut k, &mut irp), STATUS_SUCCESS);
            assert_eq!(irp.status, STATUS_SUCCESS);
            assert_eq!(irp.information, 0);
            assert!(irp.completed);
        }
    }
    assert_eq!(k.trace.len(), trace_len);
    assert!(link_points_to_device(&k));
}

#[test]
fn open_close_handler_directly() {
    let mut irp: Irp<MarkerPayload> = Irp::new(MajorFunction::Create, 0, None);
    assert_eq!(irp.status, STATUS_PENDING);
    assert_eq!(driver_open_close(&mut irp), STATUS_SUCCESS);
    assert_eq!(irp.information, 0);
    assert!(irp.completed);
}

#[test]
fn other_selector_runs_nothing_and_succeeds() {
    let (driver, mut k) = loaded(false);
    for code in [0u32, 1, IOCTL_RUN_PAYLOAD - 1, IOCTL_RUN_PAYLOAD + 1, 0xaa01_3040, u32::MAX] {
        let mut irp = ioctl_request(code, MarkerPayload::new("KnownRoutineName"));
        assert_eq!(dispatch(&driver, &mut k, &mut irp), STATUS_SUCCESS);
        assert_eq!(irp.status, STATUS_SUCCESS);
        assert!(irp.completed);
        assert_eq!(irp.system_buffer.as_ref().unwrap().runs, 0);
    }
    assert_eq!(payload_runs(&k), 0);
}

#[test]
fn recognised_selector_runs_payload_once() {
    let (driver, mut k) = loaded(false);
    let mut irp = ioctl_request(IOCTL_RUN_PAYLOAD, MarkerPayload::new("KnownRoutineName"));
    assert_eq!(dispatch(&driver, &mut k, &mut irp), STATUS_SUCCESS);
    assert_eq!(irp.system_buffer.as_ref().unwrap().runs, 1);
    assert_eq!(payload_runs(&k), 1);
}

#[test]
fn each_request_runs_payload_exactly_once() {
    let (_driver, mut k) = loaded(false);
    let mut total = 0;
    for n in 1..=5usize {
        let mut irp = ioctl_request(IOCTL_RUN_PAYLOAD, MarkerPayload::new("KnownRoutineName"));
        driver_ioctl(&mut k, &mut irp);
        total += irp.system_buffer.as_ref().unwrap().runs;
        assert_eq!(total as usize, n);
        assert_eq!(payload_runs(&k), n);
    }
}

#[test]
fn recognised_selector_without_payload_runs_nothing() {
    let (_driver, mut k) = loaded(false);
    let mut irp: Irp<MarkerPayload> = Irp::new(MajorFunction::DeviceControl, IOCTL_RUN_PAYLOAD, None);
    assert_eq!(driver_ioctl(&mut k, &mut irp), STATUS_SUCCESS);
    assert!(irp.completed);
    assert_eq!(payload_runs(&k), 0);
}

#[test]
fn payload_resolving_unknown_routine_gets_none() {
    let (driver, mut k) = loaded(false);
    let mut irp = ioctl_request(IOCTL_RUN_PAYLOAD, MarkerPayload::new("NoSuchRoutine"));
    dispatch(&driver, &mut k, &mut irp);
    let payload = irp.system_buffer.as_ref().unwrap();
    assert_eq!(payload.runs, 1);
    assert_eq!(payload.marker, None);
}

#[test]
fn load_then_unload_removes_link_and_device() {
    let mut driver = DriverObject::new();
    let mut k = kernel(false);
    assert!(k.links.find(&link_name()).is_none());
    assert_eq!(driver_entry(&mut driver, &mut k), STATUS_SUCCESS);
    assert!(link_points_to_device(&k));
    let i = k.devices.find(&device_name()).unwrap();
    assert_eq!(k.devices.entries[i].value, DEVICE_TYPE);
    assert!(driver.unload_registered);
    assert!(driver.device.is_some());
    match k.trace.last() {
        Some(KernelEvent::Log(s)) => assert_eq!(s, "Loaded the driver successfully"),
        _ => panic!("no load message"),
    }
    driver_unload(&mut driver, &mut k);
    assert!(!link_points_to_device(&k));
    assert!(k.links.find(&link_name()).is_none());
    assert!(k.devices.find(&device_name()).is_none());
    assert_eq!(k.devices.entries.len(), 0);
    assert_eq!(k.links.entries.len(), 0);
    assert!(driver.device.is_none());
}

#[test]
fn load_fails_when_device_name_is_taken() {
    let mut k = kernel(false);
    let name = rtl_constant_string(&device_name());
    assert_eq!(k.io_create_device(&name, 0x22), STATUS_SUCCESS);
    let mut driver = DriverObject::new();
    assert_eq!(driver_entry(&mut driver, &mut k), STATUS_OBJECT_NAME_COLLISION);
    assert!(!nt_success(STATUS_OBJECT_NAME_COLLISION));
    assert!(!driver.unload_registered);
    assert!(driver.device_control.is_none());
    assert!(k.links.find(&link_name()).is_none());
    assert_eq!(k.devices.entries.len(), 1);
    assert_eq!(k.devices.entries[0].value, 0x22);
    assert!(k.trace.is_empty());
}

#[test]
fn load_fails_when_link_name_is_taken_and_deletes_device() {
    let mut k = kernel(false);
    let link = rtl_constant_string(&link_name());
    let other = rtl_constant_string(&utf16("\\Device\\Other"));
    assert_eq!(k.io_create_symbolic_link(&link, &other), STATUS_SUCCESS);
    let mut driver = DriverObject::new();
    assert_eq!(driver_entry(&mut driver, &mut k), STATUS_OBJECT_NAME_COLLISION);
    assert!(driver.device.is_none());
    assert!(driver.create.is_none());
    assert!(k.devices.find(&device_name()).is_none());
    let i = k.links.find(&link_name()).unwrap();
    assert_eq!(k.links.entries[i].value, utf16("\\Device\\Other"));
    assert!(matches!(k.trace.last(), Some(KernelEvent::DeviceDeleted(d)) if *d == device_name()));
}

#[test]
fn load_breaks_into_attached_debugger() {
    let (_driver, k) = loaded(true);
    assert_eq!(k.trace.len(), 2);
    assert!(matches!(k.trace[0], KernelEvent::DebugBreak));
    assert!(matches!(k.trace[1], KernelEvent::Log(_)));
    let (_driver, k) = loaded(false);
    assert_eq!(k.trace.len(), 1);
}

#[test]
fn unregistered_major_is_rejected() {
    let (driver, mut k) = loaded(false);
    let mut irp: Irp<MarkerPayload> = Irp::new(MajorFunction::Other(0x03), IOCTL_RUN_PAYLOAD, Some(MarkerPayload::new("KnownRoutineName")));
    assert_eq!(dispatch(&driver, &mut k, &mut irp), STATUS_INVALID_DEVICE_REQUEST);
    assert_eq!(irp.status, STATUS_INVALID_DEVICE_REQUEST);
    assert!(irp.completed);
    assert_eq!(irp.system_buffer.as_ref().unwrap().runs, 0);
}

#[test]
fn requests_before_load_are_rejected() {
    let driver = DriverObject::new();
    let mut k = kernel(false);
    let mut irp = ioctl_request(IOCTL_RUN_PAYLOAD, MarkerPayload::new("KnownRoutineName"));
    assert_eq!(dispatch(&driver, &mut k, &mut irp), STATUS_INVALID_DEVICE_REQUEST);
    assert_eq!(payload_runs(&k), 0);
}

#[test]
fn inconsistent_stack_location_halts_system() {
    let (_driver, mut k) = loaded(true);
    let mut irp = ioctl_request(IOCTL_RUN_PAYLOAD, MarkerPayload::new("KnownRoutineName"));
    irp.current_location = 5;
    irp.stack_count = 3;
    assert_eq!(driver_ioctl(&mut k, &mut irp), STATUS_UNSUCCESSFUL);
    assert!(!irp.completed);
    assert_eq!(k.halted, Some(MANUALLY_INITIATED_CRASH));
    assert_eq!(MANUALLY_INITIATED_CRASH, 0xe2);
    assert!(matches!(k.trace.last(), Some(KernelEvent::BugCheck(0xe2))));
    let n = k.trace.len();
    assert!(matches!(&k.trace[n - 3], KernelEvent::Log(s) if s == "the current stack location lies outside the request"));
    assert!(matches!(k.trace[n - 2], KernelEvent::DebugBreak));
    assert_eq!(payload_runs(&k), 0);
}

#[test]
fn panic_handler_logs_breaks_and_halts() {
    let mut k = kernel(true);
    handle_panic(&mut k, "fault".to_string());
    assert_eq!(k.trace.len(), 3);
    assert!(matches!(&k.trace[0], KernelEvent::Log(s) if s == "fault"));
    assert!(matches!(k.trace[1], KernelEvent::DebugBreak));
    assert!(matches!(k.trace[2], KernelEvent::BugCheck(0xe2)));
    let mut k = kernel(false);
    handle_panic(&mut k, "fault".to_string());
    assert_eq!(k.trace.len(), 2);
    assert_eq!(k.halted, Some(0xe2));
}

#[test]
fn delete_missing_link_reports_not_found() {
    let mut k = kernel(false);
    let link = rtl_constant_string(&link_name());
    assert_eq!(k.io_delete_symbolic_link(&link), STATUS_OBJECT_NAME_NOT_FOUND);
}

#[test]
fn unload_twice_is_harmless() {
    let (mut driver, mut k) = loaded(false);
    driver_unload(&mut driver, &mut k);
    driver_unload(&mut driver, &mut k);
    assert_eq!(k.devices.entries.len(), 0);
}

#[test]
fn payload_state_after_request_is_one_run_with_kernel_resolver() {
    let (driver, mut k) = loaded(false);
    let before = MarkerPayload::new("KnownRoutineName");
    let mut irp = ioctl_request(IOCTL_RUN_PAYLOAD, MarkerPayload::new("KnownRoutineName"));
    dispatch(&driver, &mut k, &mut irp);
    let after = irp.system_buffer.take().unwrap();
    let mut resolver = SymbolResolver::new();
    resolver.add_routine(utf16("KnownRoutineName"), KNOWN_ADDRESS);
    assert!(after.ran(before, resolver, CR4_WITH_SMEP & !CR4_SMEP, false));
}

#[test]
fn payload_is_entered_inside_the_window() {
    let (driver, mut k) = loaded(false);
    let ops_before = k.cpu.ops.len();
    let mut irp = ioctl_request(IOCTL_RUN_PAYLOAD, MarkerPayload::new("KnownRoutineName"));
    dispatch(&driver, &mut k, &mut irp);
    let payload = irp.system_buffer.as_ref().unwrap();
    assert_eq!(payload.entered_with, Some((CR4_WITH_SMEP & !CR4_SMEP, false)));
    assert_eq!(
        k.cpu.ops[ops_before..].to_vec(),
        vec![
            CpuOp::DisableInterrupts,
            CpuOp::ReadCr4(CR4_WITH_SMEP),
            CpuOp::WriteCr4(CR4_WITH_SMEP & !CR4_SMEP),
            CpuOp::WriteCr4(CR4_WITH_SMEP),
            CpuOp::EnableInterrupts,
        ]
    );
}

#[test]
fn unload_deletes_link_before_device() {
    let (mut driver, mut k) = loaded(false);
    let n = k.trace.len();
    driver_unload(&mut driver, &mut k);
    assert_eq!(k.trace.len(), n + 2);
    assert!(matches!(&k.trace[n], KernelEvent::LinkDeleted(l) if *l == link_name()));
    assert!(matches!(&k.trace[n + 1], KernelEvent::DeviceDeleted(d) if *d == device_name()));
}
