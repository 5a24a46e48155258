//! Properties that hold across calls of the driver's operations.
use vstd::prelude::*;
use crate::driver::{
    dispatch_done, ioctl_done, load_done, runs_payload, unload_done, DriverObject, Handler,
    Payload, IOCTL_RUN_PAYLOAD,
};
use crate::cpu::without_smep;
use crate::kernel::{Kernel, KernelEvent};
use crate::request::{Irp, MajorFunction};
use crate::status::STATUS_SUCCESS;
use crate::unicode::{device_name_spec, link_name_spec};

verus! {

/// Number of payload runs recorded in a trace.
pub open spec fn payload_runs(t: Seq<KernelEvent>) -> nat
    decreases t.len(),
{
    if t.len() == 0 {
        0
    } else {
        payload_runs(t.drop_last()) + if t.last() is PayloadRun {
            1nat
        } else {
            0nat
        }
    }
}

/// Whether a request opens or closes a handle.
pub open spec fn is_open_or_close(major: MajorFunction) -> bool {
    major is Create || major is Close
}

/// A device-control request leaves CR4 holding exactly the value it held
/// before, whatever the payload did with the resolver it was given.
pub proof fn law_protection_round_trip<P: Payload>(
    k0: Kernel,
    k1: Kernel,
    r0: Irp<P>,
    r1: Irp<P>,
    status: i32,
)
    requires
        ioctl_done(k0, k1, r0, r1, status),
    ensures
        k1.cpu.cr4 == k0.cpu.cr4,
{
}

/// Any number of opens and closes in a row, routed through a loaded driver,
/// each succeed with zero bytes returned, and leave the kernel as it was.
/// Step `i` takes kernel `ks[i]` and request `before[i]` to kernel `ks[i + 1]`
/// and request `after[i]`, with status `statuses[i]`.
pub proof fn law_open_close_repeatable<P: Payload>(
    driver: DriverObject,
    ks: Seq<Kernel>,
    before: Seq<Irp<P>>,
    after: Seq<Irp<P>>,
    statuses: Seq<i32>,
)
    requires
        driver.registered(),
        ks.len() == before.len() + 1,
        after.len() == before.len(),
        statuses.len() == before.len(),
        forall|i: int| 0 <= i < before.len() ==> is_open_or_close(#[trigger] before[i].major),
        forall|i: int|
            0 <= i < before.len() ==> #[trigger] dispatch_done(
                driver,
                ks[i],
                ks[i + 1],
                before[i],
                after[i],
                statuses[i],
            ),
    ensures
        forall|i: int|
            0 <= i < before.len() ==> #[trigger] statuses[i] == STATUS_SUCCESS
                && after[i].status == STATUS_SUCCESS && after[i].information == 0
                && after[i].completed,
        ks.last() == ks[0],
    decreases before.len(),
{
    let n = before.len() as int;
    if n > 0 {
        let j = n - 1;
        assert(dispatch_done(driver, ks[j], ks[j + 1], before[j], after[j], statuses[j]));
        assert forall|i: int| 0 <= i < j implies #[trigger] dispatch_done(
            driver,
            ks.drop_last()[i],
            ks.drop_last()[i + 1],
            before.drop_last()[i],
            after.drop_last()[i],
            statuses.drop_last()[i],
        ) && is_open_or_close(before.drop_last()[i].major) by {
            assert(dispatch_done(driver, ks[i], ks[i + 1], before[i], after[i], statuses[i]));
            assert(is_open_or_close(before[i].major));
        }
        law_open_close_repeatable(
            driver,
            ks.drop_last(),
            before.drop_last(),
            after.drop_last(),
            statuses.drop_last(),
        );
        assert(ks.drop_last().last() == ks[j]);
        assert(is_open_or_close(before[j].major));
        assert forall|i: int| 0 <= i < n implies #[trigger] statuses[i] == STATUS_SUCCESS
            && after[i].status == STATUS_SUCCESS && after[i].information == 0
            && after[i].completed by {
            if i < n - 1 {
                assert(statuses.drop_last()[i] == statuses[i]);
                assert(after.drop_last()[i] == after[i]);
            } else {
                assert(dispatch_done(driver, ks[i], ks[i + 1], before[i], after[i], statuses[i]));
            }
        }
    }
}

/// A device-control request with the recognised selector and a payload in
/// its input region runs that payload exactly once; one with any other
/// selector runs none. Both report success.
pub proof fn law_selector_discrimination<P: Payload>(
    k0: Kernel,
    k1: Kernel,
    r0: Irp<P>,
    r1: Irp<P>,
    status: i32,
)
    requires
        ioctl_done(k0, k1, r0, r1, status),
        r0.stack_consistent(),
    ensures
        status == STATUS_SUCCESS,
        r1.status == STATUS_SUCCESS,
        r0.control_code == IOCTL_RUN_PAYLOAD && r0.system_buffer is Some ==> payload_runs(k1.trace@)
            == payload_runs(k0.trace@) + 1 && r1.system_buffer is Some
            && r1.system_buffer->Some_0.ran(
            r0.system_buffer->Some_0,
            k0.resolver,
            without_smep(k0.cpu.cr4),
            false,
        ),
        r0.control_code != IOCTL_RUN_PAYLOAD ==> payload_runs(k1.trace@) == payload_runs(
            k0.trace@,
        ),
{
    if runs_payload(r0) {
        assert(k1.trace@.drop_last() =~= k0.trace@);
    }
}

/// Routed through a loaded driver, each device-control request raises the
/// number of payload runs by exactly one where it carries the recognised
/// selector and a payload, and leaves it unchanged otherwise. The payload
/// handed back in the request is what one run of it, given the kernel's
/// resolver, left behind.
pub proof fn law_single_invocation<P: Payload>(
    driver: DriverObject,
    k0: Kernel,
    k1: Kernel,
    r0: Irp<P>,
    r1: Irp<P>,
    status: i32,
)
    requires
        driver.registered(),
        r0.major is DeviceControl,
        r0.stack_consistent(),
        dispatch_done(driver, k0, k1, r0, r1, status),
    ensures
        payload_runs(k1.trace@) == payload_runs(k0.trace@) + if runs_payload(r0) {
            1nat
        } else {
            0nat
        },
        runs_payload(r0) ==> r1.system_buffer is Some && r1.system_buffer->Some_0.ran(
            r0.system_buffer->Some_0,
            k0.resolver,
            without_smep(k0.cpu.cr4),
            false,
        ),
        !runs_payload(r0) ==> r1.system_buffer == r0.system_buffer,
{
    assert(driver.handler_of(r0.major) == Some(Handler::DeviceControl));
    if runs_payload(r0) {
        assert(k1.trace@.drop_last() =~= k0.trace@);
    }
}

/// After a successful load the public link resolves to the device. After the
/// unload that follows, the link no longer exists, the device no longer
/// exists, and every other name is as it was before the load.
pub proof fn law_load_unload_symmetry(
    k0: Kernel,
    k1: Kernel,
    k2: Kernel,
    d1: DriverObject,
    d2: DriverObject,
    status: i32,
)
    requires
        load_done(k0, k1, d1, status),
        status == STATUS_SUCCESS,
        unload_done(k1, k2, d1, d2),
    ensures
        k1.link_resolves(link_name_spec(), device_name_spec()),
        k2.link_target(link_name_spec()) is None,
        !k2.link_resolves(link_name_spec(), device_name_spec()),
        !k2.devices.has(device_name_spec()),
        forall|n: Seq<u16>| #[trigger] k2.devices.get(n) == k0.devices.get(n),
        forall|n: Seq<u16>| #[trigger] k2.link_target(n) == k0.link_target(n),
{
    let dev = device_name_spec();
    assert(k2.devices.get(dev) is None);
    assert forall|n: Seq<u16>| #[trigger] k2.devices.get(n) == k0.devices.get(n) by {
        if n == dev {
            assert(!k0.devices.has(n));
        }
    }
    assert forall|n: Seq<u16>| #[trigger] k2.link_target(n) == k0.link_target(n) by {
        if n == link_name_spec() {
            assert(!k0.links.has(n));
        }
    }
}

} // verus!
