//! I/O requests as the framework hands them to the driver.
use vstd::prelude::*;
use crate::status::STATUS_PENDING;

verus! {

/// The major operation of a request.
pub enum MajorFunction {
    /// A handle to the device is opened.
    Create,
    /// A handle to the device is closed.
    Close,
    /// A device-control request with an operation selector.
    DeviceControl,
    /// Any other major code.
    Other(u8),
}

/// A request (an IRP) with a payload of type `P` as its input region.
pub struct Irp<P> {
    pub major: MajorFunction,
    /// The operation selector of a device-control request.
    pub control_code: u32,
    /// Position of the current stack location, counted from one.
    pub current_location: u8,
    /// Number of stack locations.
    pub stack_count: u8,
    /// The input region, read as one payload value; `None` where it is too
    /// small to hold one.
    pub system_buffer: Option<P>,
    pub status: i32,
    /// Number of bytes returned.
    pub information: u64,
    /// Whether the request has been handed back to the framework.
    pub completed: bool,
}

impl<P> Irp<P> {
    /// A request with one stack location that has not been completed.
    pub fn new(major: MajorFunction, control_code: u32, system_buffer: Option<P>) -> (r: Irp<P>)
        ensures
            r.major == major,
            r.control_code == control_code,
            r.system_buffer == system_buffer,
            r.current_location == 1,
            r.stack_count == 1,
            r.stack_consistent(),
            r.status == STATUS_PENDING,
            r.information == 0,
            !r.completed,
    {
        Irp {
            major,
            control_code,
            current_location: 1,
            stack_count: 1,
            system_buffer,
            status: STATUS_PENDING,
            information: 0,
            completed: false,
        }
    }

    /// The current stack location lies within the request's stack, or one
    /// past it.
    pub open spec fn stack_consistent(self) -> bool {
        self.current_location as int <= self.stack_count as int + 1
    }

    /// The operation selector at the current stack location, or `None` where
    /// the stack location is out of place.
    pub fn current_control_code(&self) -> (r: Option<u32>)
        ensures
            r == if self.stack_consistent() {
                Some(self.control_code)
            } else {
                None
            },
    {
        if self.current_location as u16 <= self.stack_count as u16 + 1 {
            Some(self.control_code)
        } else {
            None
        }
    }

    /// Sets the final status and hands the request back (`IofCompleteRequest`).
    pub fn complete(&mut self, status: i32)
        ensures
            final(self).status == status,
            final(self).completed,
            final(self).major == old(self).major,
            final(self).control_code == old(self).control_code,
            final(self).current_location == old(self).current_location,
            final(self).stack_count == old(self).stack_count,
            final(self).system_buffer == old(self).system_buffer,
            final(self).information == old(self).information,
    {
        self.status = status;
        self.completed = true;
    }
}

} // verus!
