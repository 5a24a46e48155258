//! The driver: load and unload, the dispatch table, the device-control
//! handler, the privileged execution window and the crash path.
use vstd::prelude::*;
use crate::cpu::{close_window_ops, open_window_ops, smep_enabled, without_smep, Cpu};
use crate::kernel::{is_device_deleted, is_link_deleted, is_log_of, Kernel, KernelEvent, SymbolResolver};
use crate::request::{Irp, MajorFunction};
use crate::status::{
    nt_success, STATUS_INVALID_DEVICE_REQUEST, STATUS_OBJECT_NAME_COLLISION, STATUS_SUCCESS,
    STATUS_UNSUCCESSFUL,
};
use crate::unicode::{device_name, device_name_spec, link_name, link_name_spec, rtl_constant_string};

verus! {

/// The device-type tag of the device object.
pub const DEVICE_TYPE: u32 = 0xaa01;

/// The one recognised operation selector: run the payload.
pub const IOCTL_RUN_PAYLOAD: u32 = (DEVICE_TYPE << 16) | 0x3044;

/// The stop code reserved for manually initiated crashes.
pub const MANUALLY_INITIATED_CRASH: u32 = 0xe2;

/// Code supplied by a caller, run in kernel context by the device-control
/// request. It receives the routine resolver, and may read the register
/// state it runs under.
pub trait Payload: Sized {
    /// Whether `self` is what a run leaves behind that started from `before`,
    /// was given `resolver`, and was entered with CR4 holding `cr4` and the
    /// interrupt flag `interrupts_enabled`.
    spec fn ran(
        self,
        before: Self,
        resolver: SymbolResolver,
        cr4: u64,
        interrupts_enabled: bool,
    ) -> bool;

    /// Runs inside the privileged window: SMEP is off and interrupts are
    /// disabled.
    fn run(&mut self, resolver: &SymbolResolver, cpu: &Cpu)
        requires
            !smep_enabled(cpu.cr4),
            !cpu.interrupts_enabled,
        ensures
            final(self).ran(*old(self), *resolver, cpu.cr4, cpu.interrupts_enabled),
    ;
}

/// The routine that handles a major operation.
pub enum Handler {
    OpenClose,
    DeviceControl,
}

/// The driver object: the device it owns and its dispatch table.
pub struct DriverObject {
    /// Name of the device object created at load.
    pub device: Option<Vec<u16>>,
    /// Whether the unload routine is registered.
    pub unload_registered: bool,
    pub create: Option<Handler>,
    pub close: Option<Handler>,
    pub device_control: Option<Handler>,
}

/// Text logged once the driver has loaded.
pub open spec fn load_message() -> Seq<char> {
    "Loaded the driver successfully"@
}

/// The breakpoint taken where a debugger is attached.
pub open spec fn break_events(debugger_present: bool) -> Seq<KernelEvent> {
    if debugger_present {
        seq![KernelEvent::DebugBreak]
    } else {
        seq![]
    }
}

impl DriverObject {
    /// A driver object as the framework hands it to the entry point.
    pub fn new() -> (r: DriverObject)
        ensures
            r.is_fresh(),
    {
        DriverObject {
            device: None,
            unload_registered: false,
            create: None,
            close: None,
            device_control: None,
        }
    }

    /// Nothing created and nothing registered.
    pub open spec fn is_fresh(self) -> bool {
        &&& self.device is None
        &&& !self.unload_registered
        &&& self.create is None
        &&& self.close is None
        &&& self.device_control is None
    }

    /// The unload routine and the three handlers are registered.
    pub open spec fn registered(self) -> bool {
        &&& self.unload_registered
        &&& self.create == Some(Handler::OpenClose)
        &&& self.close == Some(Handler::OpenClose)
        &&& self.device_control == Some(Handler::DeviceControl)
    }

    /// The handler registered for `major`.
    pub open spec fn handler_of(self, major: MajorFunction) -> Option<Handler> {
        match major {
            MajorFunction::Create => self.create,
            MajorFunction::Close => self.close,
            MajorFunction::DeviceControl => self.device_control,
            MajorFunction::Other(_) => None,
        }
    }

    /// Looks up the handler for `major`.
    pub fn handler_for(&self, major: &MajorFunction) -> (r: Option<&Handler>)
        ensures
            match r {
                Some(h) => self.handler_of(*major) == Some(*h),
                None => self.handler_of(*major) is None,
            },
    {
        match major {
            MajorFunction::Create => self.create.as_ref(),
            MajorFunction::Close => self.close.as_ref(),
            MajorFunction::DeviceControl => self.device_control.as_ref(),
            MajorFunction::Other(_) => None,
        }
    }
}

/// The trace of a crash, from `t0` to `t1`: the message, a breakpoint where
/// a debugger is attached, then the halt.
pub open spec fn panic_trace(
    t0: Seq<KernelEvent>,
    t1: Seq<KernelEvent>,
    message: Seq<char>,
    debugger_present: bool,
) -> bool {
    &&& t1.len() == t0.len() + 2 + break_events(debugger_present).len()
    &&& t1.subrange(0, t0.len() as int) == t0
    &&& is_log_of(t1[t0.len() as int], message)
    &&& t1.subrange(t0.len() + 1int, t1.len() - 1int) == break_events(debugger_present)
    &&& t1.last() == KernelEvent::BugCheck(MANUALLY_INITIATED_CRASH)
}

/// Handles an unrecoverable fault: logs it, breaks into an attached debugger,
/// and halts the system with the manually-initiated-crash stop code.
pub fn handle_panic(kernel: &mut Kernel, message: String)
    ensures
        panic_trace(old(kernel).trace@, final(kernel).trace@, message@, old(kernel).debugger_present),
        final(kernel).halted == Some(MANUALLY_INITIATED_CRASH),
        final(kernel).cpu == old(kernel).cpu,
        final(kernel).debugger_present == old(kernel).debugger_present,
        final(kernel).resolver == old(kernel).resolver,
        final(kernel).devices == old(kernel).devices,
        final(kernel).links == old(kernel).links,
{
    let ghost t0 = kernel.trace@;
    let ghost m = message@;
    kernel.print(message);
    let ghost t1 = kernel.trace@;
    if !kernel.debugger_not_present() {
        kernel.debug_break();
    }
    let ghost t2 = kernel.trace@;
    kernel.bug_check(MANUALLY_INITIATED_CRASH);
    assert(kernel.trace@.subrange(0, t0.len() as int) =~= t0);
    assert(kernel.trace@.subrange(t0.len() + 1int, kernel.trace@.len() - 1int) =~= break_events(
        kernel.debugger_present,
    ));
    assert(kernel.trace@[t0.len() as int] == t1[t0.len() as int]);
}

/// The message logged when a request's stack location is out of place.
pub open spec fn stack_fault_message() -> Seq<char> {
    "the current stack location lies outside the request"@
}

/// Runs `payload` with interrupts disabled and CR4.SMEP cleared, then writes
/// the prior CR4 value back exactly and enables interrupts. The payload is
/// handed the routine resolver and a shared view of the register state, so
/// it cannot change that state.
///
/// A payload that does not return leaves SMEP cleared and interrupts off:
/// there is no recovery path. Nothing serialises this window against a
/// request running on another execution unit.
pub fn run_payload<P: Payload>(kernel: &mut Kernel, payload: &mut P)
    ensures
        final(payload).ran(
            *old(payload),
            old(kernel).resolver,
            without_smep(old(kernel).cpu.cr4),
            false,
        ),
        final(kernel).cpu.ops@ == old(kernel).cpu.ops@ + open_window_ops(old(kernel).cpu.cr4)
            + close_window_ops(old(kernel).cpu.cr4),
        final(kernel).trace@ == old(kernel).trace@.push(
            KernelEvent::PayloadRun { cr4: without_smep(old(kernel).cpu.cr4), interrupts_enabled: false },
        ),
        final(kernel).cpu.cr4 == old(kernel).cpu.cr4,
        final(kernel).cpu.interrupts_enabled,
        final(kernel).debugger_present == old(kernel).debugger_present,
        final(kernel).resolver == old(kernel).resolver,
        final(kernel).halted == old(kernel).halted,
        final(kernel).devices == old(kernel).devices,
        final(kernel).links == old(kernel).links,
{
    let ghost ops0 = kernel.cpu.ops@;
    let saved = kernel.cpu.disable_smep();
    kernel.trace.push(
        KernelEvent::PayloadRun { cr4: kernel.cpu.cr4, interrupts_enabled: kernel.cpu.interrupts_enabled },
    );
    payload.run(&kernel.resolver, &kernel.cpu);
    kernel.cpu.restore_smep(saved);
    assert(kernel.cpu.ops@ =~= ops0 + open_window_ops(saved) + close_window_ops(saved));
}

/// What an open or a close does to its request: success, no bytes returned.
pub open spec fn open_close_done<P>(r0: Irp<P>, r1: Irp<P>, status: i32) -> bool {
    &&& status == STATUS_SUCCESS
    &&& r1.status == STATUS_SUCCESS
    &&& r1.information == 0
    &&& r1.completed
    &&& r1.major == r0.major
    &&& r1.control_code == r0.control_code
    &&& r1.current_location == r0.current_location
    &&& r1.stack_count == r0.stack_count
    &&& r1.system_buffer == r0.system_buffer
}

/// Handles an open or a close: completes the request with success and no
/// bytes returned. No state is kept per handle.
pub fn driver_open_close<P>(irp: &mut Irp<P>) -> (status: i32)
    ensures
        open_close_done(*old(irp), *final(irp), status),
{
    irp.information = 0;
    irp.complete(STATUS_SUCCESS);
    STATUS_SUCCESS
}

/// Whether a device-control request runs its payload: the selector is the
/// recognised one and the input region holds a payload.
pub open spec fn runs_payload<P>(irp: Irp<P>) -> bool {
    irp.control_code == IOCTL_RUN_PAYLOAD && irp.system_buffer is Some
}

/// What a device-control request does. With a consistent stack location it
/// succeeds whatever its selector; it runs the payload exactly once where
/// `runs_payload` holds, and never otherwise; CR4 ends as it began. With an
/// inconsistent one the system halts.
pub open spec fn ioctl_done<P: Payload>(k0: Kernel, k1: Kernel, r0: Irp<P>, r1: Irp<P>, status: i32) -> bool {
    if r0.stack_consistent() {
        &&& status == STATUS_SUCCESS
        &&& r1.status == STATUS_SUCCESS
        &&& r1.completed
        &&& r1.information == r0.information
        &&& r1.major == r0.major
        &&& r1.control_code == r0.control_code
        &&& r1.current_location == r0.current_location
        &&& r1.stack_count == r0.stack_count
        &&& (r1.system_buffer is Some) == (r0.system_buffer is Some)
        &&& k1.cpu.cr4 == k0.cpu.cr4
        &&& k1.debugger_present == k0.debugger_present
        &&& k1.resolver == k0.resolver
        &&& k1.halted == k0.halted
        &&& k1.devices == k0.devices
        &&& k1.links == k0.links
        &&& if runs_payload(r0) {
            &&& k1.trace@ == k0.trace@.push(
                KernelEvent::PayloadRun { cr4: without_smep(k0.cpu.cr4), interrupts_enabled: false },
            )
            &&& k1.cpu.interrupts_enabled
            &&& k1.cpu.ops@ == k0.cpu.ops@ + open_window_ops(k0.cpu.cr4) + close_window_ops(
                k0.cpu.cr4,
            )
            &&& r1.system_buffer is Some
            &&& r1.system_buffer->Some_0.ran(
                r0.system_buffer->Some_0,
                k0.resolver,
                without_smep(k0.cpu.cr4),
                false,
            )
        } else {
            &&& k1.trace == k0.trace
            &&& k1.cpu == k0.cpu
            &&& r1.system_buffer == r0.system_buffer
        }
    } else {
        &&& status == STATUS_UNSUCCESSFUL
        &&& r1 == r0
        &&& k1.halted == Some(MANUALLY_INITIATED_CRASH)
        &&& panic_trace(k0.trace@, k1.trace@, stack_fault_message(), k0.debugger_present)
        &&& k1.cpu == k0.cpu
        &&& k1.debugger_present == k0.debugger_present
        &&& k1.resolver == k0.resolver
        &&& k1.devices == k0.devices
        &&& k1.links == k0.links
    }
}

/// Handles a device-control request. With the recognised selector, the input
/// region is read as one payload, which runs in the privileged window. Any
/// other selector is accepted and does nothing. An input region too small to
/// hold a payload is skipped rather than read. Where the request's stack
/// location is out of place the system halts; the status returned then is
/// never observed.
pub fn driver_ioctl<P: Payload>(kernel: &mut Kernel, irp: &mut Irp<P>) -> (status: i32)
    ensures
        ioctl_done(*old(kernel), *final(kernel), *old(irp), *final(irp), status),
{
    match irp.current_control_code() {
        None => {
            handle_panic(kernel, "the current stack location lies outside the request".to_owned());
            STATUS_UNSUCCESSFUL
        },
        Some(control_code) => {
            if control_code == IOCTL_RUN_PAYLOAD {
                match irp.system_buffer.take() {
                    Some(payload) => {
                        let mut payload = payload;
                        run_payload(kernel, &mut payload);
                        irp.system_buffer = Some(payload);
                    },
                    None => {},
                }
            }
            irp.complete(STATUS_SUCCESS);
            STATUS_SUCCESS
        },
    }
}

/// Whether `driver` owns the device object named `name`.
pub open spec fn owns_device(driver: DriverObject, name: Seq<u16>) -> bool {
    match driver.device {
        Some(d) => d@ == name,
        None => false,
    }
}

/// Load succeeds exactly where neither the device's name nor the link's name
/// is taken.
pub open spec fn load_ok(kernel: Kernel) -> bool {
    !kernel.devices.has(device_name_spec()) && !kernel.links.has(link_name_spec())
}

/// What a load leaves behind, from the kernel before it (`k0`) to the
/// kernel and driver object after it.
pub open spec fn load_done(k0: Kernel, k1: Kernel, d1: DriverObject, status: i32) -> bool {
    &&& k1.wf()
    &&& k1.cpu == k0.cpu
    &&& k1.debugger_present == k0.debugger_present
    &&& k1.resolver == k0.resolver
    &&& k1.halted == k0.halted
    &&& status == if load_ok(k0) {
        STATUS_SUCCESS
    } else {
        STATUS_OBJECT_NAME_COLLISION
    }
    &&& load_ok(k0) ==> {
        &&& d1.registered()
        &&& owns_device(d1, device_name_spec())
        &&& k1.devices.get(device_name_spec()) == Some(DEVICE_TYPE)
        &&& k1.link_resolves(link_name_spec(), device_name_spec())
        &&& k1.trace@.len() > 0
        &&& k1.trace@.drop_last() == k0.trace@ + break_events(k0.debugger_present)
        &&& is_log_of(k1.trace@.last(), load_message())
    }
    &&& !load_ok(k0) ==> d1.is_fresh()
    &&& !load_ok(k0) && k0.devices.has(device_name_spec()) ==> k1.trace@ == k0.trace@
        + break_events(k0.debugger_present)
    &&& !load_ok(k0) && !k0.devices.has(device_name_spec()) ==> {
        &&& k1.trace@.len() > 0
        &&& k1.trace@.drop_last() == k0.trace@ + break_events(k0.debugger_present)
        &&& is_device_deleted(k1.trace@.last(), device_name_spec())
    }
    &&& forall|n: Seq<u16>|
        #[trigger] k1.devices.get(n) == if load_ok(k0) && n == device_name_spec() {
            Some(DEVICE_TYPE)
        } else {
            k0.devices.get(n)
        }
    &&& forall|n: Seq<u16>|
        #[trigger] k1.link_target(n) == if load_ok(k0) && n == link_name_spec() {
            Some(device_name_spec())
        } else {
            k0.link_target(n)
        }
}

/// The entry point. Breaks into an attached debugger, creates the device
/// object and the public link to it, and registers the unload routine and
/// the three handlers. Where the device cannot be created, or the link cannot
/// be created, the load is aborted with the failing status, nothing is
/// registered, and a device created on the way is deleted again.
pub fn driver_entry(driver: &mut DriverObject, kernel: &mut Kernel) -> (status: i32)
    requires
        old(kernel).wf(),
        old(driver).is_fresh(),
    ensures
        load_done(*old(kernel), *final(kernel), *final(driver), status),
{
    let ghost t0 = kernel.trace@;
    if !kernel.debugger_not_present() {
        kernel.debug_break();
    }
    assert(kernel.trace@ =~= t0 + break_events(kernel.debugger_present));
    let dev = device_name();
    let device = rtl_constant_string(dev.as_slice());
    let status = kernel.io_create_device(&device, DEVICE_TYPE);
    if !nt_success(status) {
        return status;
    }
    let lnk = link_name();
    let link = rtl_constant_string(lnk.as_slice());
    let status = kernel.io_create_symbolic_link(&link, &device);
    if !nt_success(status) {
        kernel.io_delete_device(&device.buffer);
        return status;
    }
    let ghost linked = *kernel;
    driver.device = Some(device.buffer);
    driver.unload_registered = true;
    driver.create = Some(Handler::OpenClose);
    driver.close = Some(Handler::OpenClose);
    driver.device_control = Some(Handler::DeviceControl);
    let ghost t1 = kernel.trace@;
    kernel.print("Loaded the driver successfully".to_owned());
    assert(kernel.trace@.drop_last() =~= t1);
    assert(forall|n: Seq<u16>| #[trigger] kernel.link_target(n) == linked.link_target(n));
    assert(kernel.link_target(link_name_spec()) == Some(device_name_spec()));
    assert(kernel.devices.get(device_name_spec()) == Some(DEVICE_TYPE));
    assert(kernel.link_resolves(link_name_spec(), device_name_spec()));
    assert(is_log_of(kernel.trace@.last(), load_message()));
    STATUS_SUCCESS
}

/// What an unload leaves behind: the public link is deleted first, then the
/// device object that the driver owned, and nothing else has changed.
pub open spec fn unload_done(k1: Kernel, k2: Kernel, d1: DriverObject, d2: DriverObject) -> bool {
    &&& k2.wf()
    &&& k2.same_machine(k1)
    &&& k2.trace@.len() == k1.trace@.len() + if d1.device is Some {
        2int
    } else {
        1int
    }
    &&& k2.trace@.subrange(0, k1.trace@.len() as int) == k1.trace@
    &&& is_link_deleted(k2.trace@[k1.trace@.len() as int], link_name_spec())
    &&& d1.device is Some ==> is_device_deleted(
        k2.trace@[k1.trace@.len() + 1int],
        d1.device->Some_0@,
    )
    &&& d2.device is None
    &&& forall|n: Seq<u16>|
        #[trigger] k2.link_target(n) == if n == link_name_spec() {
            None
        } else {
            k1.link_target(n)
        }
    &&& forall|n: Seq<u16>|
        #[trigger] k2.devices.get(n) == if owns_device(d1, n) {
            None
        } else {
            k1.devices.get(n)
        }
}

/// The unload routine: deletes the public link first, then the device object
/// that the driver owns.
pub fn driver_unload(driver: &mut DriverObject, kernel: &mut Kernel)
    requires
        old(kernel).wf(),
    ensures
        unload_done(*old(kernel), *final(kernel), *old(driver), *final(driver)),
{
    let ghost t0 = kernel.trace@;
    let lnk = link_name();
    let link = rtl_constant_string(lnk.as_slice());
    let _ = kernel.io_delete_symbolic_link(&link);
    let ghost unlinked = *kernel;
    assert(kernel.trace@[t0.len() as int] == kernel.trace@.last());
    match driver.device.take() {
        Some(device) => {
            kernel.io_delete_device(&device);
            assert(kernel.trace@[t0.len() as int] == unlinked.trace@[t0.len() as int]);
        },
        None => {},
    }
    assert(kernel.trace@.subrange(0, t0.len() as int) =~= t0);
    assert(forall|n: Seq<u16>| #[trigger] kernel.link_target(n) == unlinked.link_target(n));
}

/// What routing a request does, from the kernel and request before it
/// (`k0`, `r0`) to those after it.
pub open spec fn dispatch_done<P: Payload>(
    driver: DriverObject,
    k0: Kernel,
    k1: Kernel,
    r0: Irp<P>,
    r1: Irp<P>,
    status: i32,
) -> bool {
    match driver.handler_of(r0.major) {
        Some(Handler::OpenClose) => open_close_done(r0, r1, status) && k1 == k0,
        Some(Handler::DeviceControl) => ioctl_done(k0, k1, r0, r1, status),
        None => {
            &&& status == STATUS_INVALID_DEVICE_REQUEST
            &&& r1.status == STATUS_INVALID_DEVICE_REQUEST
            &&& r1.completed
            &&& r1.information == r0.information
            &&& r1.major == r0.major
            &&& r1.control_code == r0.control_code
            &&& r1.current_location == r0.current_location
            &&& r1.stack_count == r0.stack_count
            &&& r1.system_buffer == r0.system_buffer
            &&& k1 == k0
        },
    }
}

/// Routes a request to the handler registered for its major code. A code
/// with no handler is rejected with `STATUS_INVALID_DEVICE_REQUEST`.
pub fn dispatch<P: Payload>(driver: &DriverObject, kernel: &mut Kernel, irp: &mut Irp<P>) -> (status: i32)
    ensures
        dispatch_done(*driver, *old(kernel), *final(kernel), *old(irp), *final(irp), status),
{
    match driver.handler_for(&irp.major) {
        Some(Handler::OpenClose) => driver_open_close(irp),
        Some(Handler::DeviceControl) => driver_ioctl(kernel, irp),
        None => {
            irp.complete(STATUS_INVALID_DEVICE_REQUEST);
            STATUS_INVALID_DEVICE_REQUEST
        },
    }
}

} // verus!
