//! The parts of the kernel that the driver talks to: the object namespace of
//! devices and symbolic links, the routine table behind
//! `MmGetSystemRoutineAddress`, the debugger, and the register state of the
//! execution unit. Everything the driver makes the kernel do is recorded in
//! a trace of events.
use vstd::prelude::*;
use crate::cpu::Cpu;
use crate::namespace::Directory;
use crate::status::{STATUS_OBJECT_NAME_COLLISION, STATUS_OBJECT_NAME_NOT_FOUND, STATUS_SUCCESS};
use crate::unicode::UnicodeString;

verus! {

/// Something the kernel was made to do, in the order it happened.
pub enum KernelEvent {
    /// A breakpoint for an attached debugger (`int3`).
    DebugBreak,
    /// A line of debug output.
    Log(String),
    /// A payload was entered with this CR4 value and interrupt flag.
    PayloadRun { cr4: u64, interrupts_enabled: bool },
    /// The system was halted with this stop code.
    BugCheck(u32),
    /// Deletion of the symbolic link of this name was asked for.
    LinkDeleted(Vec<u16>),
    /// Deletion of the device object of this name was asked for.
    DeviceDeleted(Vec<u16>),
}

/// Whether `e` records the deletion of the link named `name`.
pub open spec fn is_link_deleted(e: KernelEvent, name: Seq<u16>) -> bool {
    match e {
        KernelEvent::LinkDeleted(n) => n@ == name,
        _ => false,
    }
}

/// Whether `e` records the deletion of the device object named `name`.
pub open spec fn is_device_deleted(e: KernelEvent, name: Seq<u16>) -> bool {
    match e {
        KernelEvent::DeviceDeleted(n) => n@ == name,
        _ => false,
    }
}

/// Whether `e` is a line of debug output reading `msg`.
pub open spec fn is_log_of(e: KernelEvent, msg: Seq<char>) -> bool {
    match e {
        KernelEvent::Log(s) => s@ == msg,
        _ => false,
    }
}

/// Looks up kernel routine addresses by name; handed to every payload.
pub struct SymbolResolver {
    pub routines: Directory<u64>,
}

impl SymbolResolver {
    pub open spec fn wf(self) -> bool {
        self.routines.wf()
    }

    /// The address of the routine named `name`.
    pub open spec fn lookup(self, name: Seq<u16>) -> Option<u64> {
        self.routines.get(name)
    }

    /// A resolver that knows no routine.
    pub fn new() -> (r: SymbolResolver)
        ensures
            r.wf(),
            forall|n: Seq<u16>| r.lookup(n) is None,
    {
        SymbolResolver { routines: Directory::new() }
    }

    /// Makes the routine `name` known at `address`, unless a routine of that
    /// name is known already. Returns whether it was added.
    pub fn add_routine(&mut self, name: Vec<u16>, address: u64) -> (added: bool)
        requires
            old(self).wf(),
        ensures
            final(self).wf(),
            added == (old(self).lookup(name@) is None),
            forall|n: Seq<u16>|
                #[trigger] final(self).lookup(n) == if added && n == name@ {
                    Some(address)
                } else {
                    old(self).lookup(n)
                },
    {
        self.routines.insert(name, address)
    }

    /// Resolves a routine by name (`MmGetSystemRoutineAddress`).
    pub fn resolve(&self, name: &Vec<u16>) -> (r: Option<u64>)
        requires
            self.wf(),
        ensures
            r == self.lookup(name@),
    {
        match self.routines.find(name) {
            Some(i) => {
                proof {
                    self.routines.lemma_at(name@, i as int);
                }
                Some(self.routines.entries[i].value)
            },
            None => None,
        }
    }
}

/// The kernel as the driver sees it.
pub struct Kernel {
    /// The execution unit that runs the driver's callbacks.
    pub cpu: Cpu,
    /// Whether a kernel debugger is attached.
    pub debugger_present: bool,
    /// Device objects, by name, with their device type.
    pub devices: Directory<u32>,
    /// Symbolic links, by name, with the name of the object each points to.
    pub links: Directory<Vec<u16>>,
    /// The routine table that payloads resolve names against.
    pub resolver: SymbolResolver,
    /// What the kernel was made to do.
    pub trace: Vec<KernelEvent>,
    /// The stop code, once the system has been halted.
    pub halted: Option<u32>,
}

impl Kernel {
    pub open spec fn wf(self) -> bool {
        self.devices.wf() && self.links.wf() && self.resolver.wf()
    }

    /// The name that the link `link` points to.
    pub open spec fn link_target(self, link: Seq<u16>) -> Option<Seq<u16>> {
        match self.links.get(link) {
            Some(target) => Some(target@),
            None => None,
        }
    }

    /// Whether the link `link` exists, names `device`, and `device` exists.
    pub open spec fn link_resolves(self, link: Seq<u16>, device: Seq<u16>) -> bool {
        self.link_target(link) == Some(device) && self.devices.has(device)
    }

    /// `other` has the same register state, debugger and routine table.
    pub open spec fn same_machine(self, other: Kernel) -> bool {
        self.cpu == other.cpu && self.debugger_present == other.debugger_present
            && self.resolver == other.resolver && self.halted == other.halted
    }

    /// A running kernel with no device and no link.
    pub fn new(cpu: Cpu, debugger_present: bool, resolver: SymbolResolver) -> (r: Kernel)
        requires
            resolver.wf(),
        ensures
            r.wf(),
            r.cpu == cpu,
            r.debugger_present == debugger_present,
            r.resolver == resolver,
            forall|n: Seq<u16>| !r.devices.has(n) && !r.links.has(n),
            r.trace@.len() == 0,
            r.halted is None,
    {
        Kernel {
            cpu,
            debugger_present,
            devices: Directory::new(),
            links: Directory::new(),
            resolver,
            trace: Vec::new(),
            halted: None,
        }
    }

    /// Whether no debugger is attached (`KdRefreshDebuggerNotPresent`).
    pub fn debugger_not_present(&self) -> (r: bool)
        ensures
            r == !self.debugger_present,
    {
        !self.debugger_present
    }

    /// Breaks into the debugger (`int3`).
    pub fn debug_break(&mut self)
        ensures
            final(self).trace@ == old(self).trace@.push(KernelEvent::DebugBreak),
            final(self).same_machine(*old(self)),
            final(self).devices == old(self).devices,
            final(self).links == old(self).links,
    {
        self.trace.push(KernelEvent::DebugBreak);
    }

    /// Writes a line of debug output.
    pub fn print(&mut self, msg: String)
        ensures
            final(self).trace@ == old(self).trace@.push(KernelEvent::Log(msg)),
            final(self).same_machine(*old(self)),
            final(self).devices == old(self).devices,
            final(self).links == old(self).links,
    {
        self.trace.push(KernelEvent::Log(msg));
    }

    /// Halts the system with a stop code (`KeBugCheck`).
    pub fn bug_check(&mut self, code: u32)
        ensures
            final(self).trace@ == old(self).trace@.push(KernelEvent::BugCheck(code)),
            final(self).halted == Some(code),
            final(self).cpu == old(self).cpu,
            final(self).debugger_present == old(self).debugger_present,
            final(self).resolver == old(self).resolver,
            final(self).devices == old(self).devices,
            final(self).links == old(self).links,
    {
        self.trace.push(KernelEvent::BugCheck(code));
        self.halted = Some(code);
    }

    /// Creates a device object (`IoCreateDevice`). Fails with a name
    /// collision where an object of that name exists.
    pub fn io_create_device(&mut self, name: &UnicodeString, device_type: u32) -> (status: i32)
        requires
            old(self).wf(),
        ensures
            final(self).wf(),
            final(self).same_machine(*old(self)),
            final(self).trace == old(self).trace,
            final(self).links == old(self).links,
            old(self).devices.has(name.buffer@) ==> status == STATUS_OBJECT_NAME_COLLISION
                && final(self).devices == old(self).devices,
            !old(self).devices.has(name.buffer@) ==> status == STATUS_SUCCESS,
            forall|n: Seq<u16>|
                #[trigger] final(self).devices.get(n) == if n == name.buffer@ && status
                    == STATUS_SUCCESS {
                    Some(device_type)
                } else {
                    old(self).devices.get(n)
                },
    {
        let owned = vstd::slice::slice_to_vec(name.buffer.as_slice());
        if self.devices.insert(owned, device_type) {
            STATUS_SUCCESS
        } else {
            STATUS_OBJECT_NAME_COLLISION
        }
    }

    /// Deletes the device object named `name` (`IoDeleteDevice`).
    pub fn io_delete_device(&mut self, name: &Vec<u16>)
        requires
            old(self).wf(),
        ensures
            final(self).wf(),
            final(self).same_machine(*old(self)),
            final(self).trace@.len() == old(self).trace@.len() + 1,
            final(self).trace@.drop_last() == old(self).trace@,
            is_device_deleted(final(self).trace@.last(), name@),
            final(self).links == old(self).links,
            forall|n: Seq<u16>|
                #[trigger] final(self).devices.get(n) == if n == name@ {
                    None
                } else {
                    old(self).devices.get(n)
                },
    {
        let _ = self.devices.remove(name);
        let ghost t0 = self.trace@;
        self.trace.push(KernelEvent::DeviceDeleted(vstd::slice::slice_to_vec(name.as_slice())));
        assert(self.trace@.drop_last() =~= t0);
    }

    /// Creates a symbolic link named `link` to the object named `target`
    /// (`IoCreateSymbolicLink`). Fails with a name collision where a link of
    /// that name exists.
    pub fn io_create_symbolic_link(&mut self, link: &UnicodeString, target: &UnicodeString) -> (status: i32)
        requires
            old(self).wf(),
        ensures
            final(self).wf(),
            final(self).same_machine(*old(self)),
            final(self).trace == old(self).trace,
            final(self).devices == old(self).devices,
            old(self).links.has(link.buffer@) ==> status == STATUS_OBJECT_NAME_COLLISION
                && final(self).links == old(self).links,
            !old(self).links.has(link.buffer@) ==> status == STATUS_SUCCESS,
            forall|n: Seq<u16>|
                #[trigger] final(self).link_target(n) == if n == link.buffer@ && status
                    == STATUS_SUCCESS {
                    Some(target.buffer@)
                } else {
                    old(self).link_target(n)
                },
    {
        let name = vstd::slice::slice_to_vec(link.buffer.as_slice());
        let to = vstd::slice::slice_to_vec(target.buffer.as_slice());
        if self.links.insert(name, to) {
            STATUS_SUCCESS
        } else {
            STATUS_OBJECT_NAME_COLLISION
        }
    }

    /// Deletes the symbolic link named `link` (`IoDeleteSymbolicLink`). Fails
    /// with "not found" where no link of that name exists.
    pub fn io_delete_symbolic_link(&mut self, link: &UnicodeString) -> (status: i32)
        requires
            old(self).wf(),
        ensures
            final(self).wf(),
            final(self).same_machine(*old(self)),
            final(self).trace@.len() == old(self).trace@.len() + 1,
            final(self).trace@.drop_last() == old(self).trace@,
            is_link_deleted(final(self).trace@.last(), link.buffer@),
            final(self).devices == old(self).devices,
            status == if old(self).links.has(link.buffer@) {
                STATUS_SUCCESS
            } else {
                STATUS_OBJECT_NAME_NOT_FOUND
            },
            forall|n: Seq<u16>|
                #[trigger] final(self).link_target(n) == if n == link.buffer@ {
                    None
                } else {
                    old(self).link_target(n)
                },
    {
        let ghost t0 = self.trace@;
        self.trace.push(KernelEvent::LinkDeleted(vstd::slice::slice_to_vec(link.buffer.as_slice())));
        assert(self.trace@.drop_last() =~= t0);
        if self.links.remove(&link.buffer) {
            STATUS_SUCCESS
        } else {
            STATUS_OBJECT_NAME_NOT_FOUND
        }
    }
}

} // verus!
