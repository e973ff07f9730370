//! Request dispatcher: one synchronous control request, decoded, screened,
//! and driven to completion.
//!
//! The pipeline of one request runs `Decoding`, `Validating`, `Resolving`,
//! `Copying`, `Responding`, and always ends in `Completed`, on the success
//! path or by short-circuiting on the first error.  Decoding and validating
//! are pure and happen in [`Session::begin`]; resolving the target process
//! and invoking the privileged copy primitive are the surrounding layer's
//! work, and their outcomes are handed back through [`Session::on_resolved`]
//! and [`Session::on_copy`].  Whatever path a request takes, a process
//! reference, once acquired, is released exactly once before completion.

use vstd::prelude::*;

use crate::Status;
use crate::ioctl::Operation;
use crate::ioctl::operation_of_code;
use crate::ioctl::spec_operation_of_code;
use crate::ipc::REQUEST_SIZE;
use crate::ipc::Request;
use crate::ipc::ResponseChannel;
use crate::ipc::decode_request;
use crate::ipc::encode_status;
use crate::ipc::parsed_request;
use crate::memory::is_valid_user_memory;
use crate::memory::valid_user_range;
use crate::text::confirmation_message;
use crate::text::confirmation_rep;
use vstd::string::StringSliceAdditionalSpecFns;

verus! {

/// Where a request stands between arrival and completion.  The pure decoding
/// and validating stages never rest: a fresh session is already resolving, or
/// already completed.
#[derive(Clone, Copy, PartialEq, Eq, Structural, Debug)]
pub enum Phase {
    /// Waiting for the process resolver's outcome.
    Resolving,
    /// Holding a process reference, waiting for the copy primitive's report.
    Copying,
    /// Copy done; the confirmation text is owed to the caller.
    Responding,
    /// Terminal: the final status is set and no reference is held.
    Completed,
}

/// Which address space an address belongs to.  The request record carries one
/// address of each kind; tagging them keeps the copy plan from ever swapping
/// the two.
#[derive(Clone, Copy, PartialEq, Eq, Structural, Debug)]
pub enum Space {
    /// The target process's address space.
    Target,
    /// The calling process's address space.
    Caller,
}

/// One ordered invocation of the privileged dual-address-space copy
/// primitive.
#[derive(Clone, Copy, PartialEq, Eq, Structural, Debug)]
pub struct CopyPlan {
    /// Address space the bytes come from.
    pub source_space: Space,
    /// Virtual address the bytes come from.
    pub source_address: u64,
    /// Address space the bytes go to.
    pub destination_space: Space,
    /// Virtual address the bytes go to.
    pub destination_address: u64,
    /// Number of bytes to copy.
    pub size: u64,
    /// Whether the primitive is told to enforce privileged address validity
    /// rules rather than caller-level ones.
    pub privileged: bool,
}

/// The handling of one control request.  There is no state across requests:
/// a session lives for exactly one dispatch and is then discarded.
pub struct Session {
    /// The operation the control code selected, when it was recognized.
    pub operation: Option<Operation>,
    /// The decoded request record, once decoding succeeded.
    pub request: Option<Request>,
    /// Where the request stands.
    pub phase: Phase,
    /// The final status, set exactly when the session is completed.
    pub status: Option<Status>,
    /// Process references acquired on behalf of this request.
    pub references_acquired: u64,
    /// Process references released again.
    pub references_released: u64,
    /// Byte count the copy primitive reported.
    pub bytes_copied: u64,
}

impl Session {
    /// The scoped-resource discipline and the state machine's bookkeeping:
    /// at most one reference is ever taken, it is held exactly in the
    /// copying and responding stages, and a completed session has released
    /// everything it acquired.
    pub open spec fn wf(self) -> bool {
        &&& self.references_acquired <= 1
        &&& self.references_released <= self.references_acquired
        &&& (self.phase == Phase::Completed <==> self.status is Some)
        &&& (self.phase == Phase::Completed ==> self.references_released
            == self.references_acquired)
        &&& (self.phase == Phase::Resolving ==> {
            &&& self.references_acquired == 0
            &&& self.references_released == 0
            &&& self.operation is Some
            &&& self.request is Some
        })
        &&& (self.phase == Phase::Copying || self.phase == Phase::Responding ==> {
            &&& self.references_acquired == 1
            &&& self.references_released == 0
            &&& self.operation is Some
            &&& self.request is Some
        })
    }

    /// Accepts one control request: recognizes the control code, decodes the
    /// request record and validates it.  An unsupported code, a short buffer
    /// or a zero-size read completes at once as malformed; a range outside
    /// the user-mode window completes as an access violation; otherwise the
    /// session waits for the target process to be resolved.  No process
    /// reference is acquired here, so a rejected request never reaches the
    /// resolver or the copy primitive.
    pub fn begin(control_code: u32, input: &[u8]) -> (session: Session)
        ensures
            session.wf(),
            session.operation == spec_operation_of_code(control_code),
            session.references_acquired == 0,
            session.references_released == 0,
            spec_operation_of_code(control_code) is None ==> {
                &&& session.phase == Phase::Completed
                &&& session.status == Some(Status::MalformedInput)
                &&& session.request is None
            },
            spec_operation_of_code(control_code) is Some && input@.len() < REQUEST_SIZE ==> {
                &&& session.phase == Phase::Completed
                &&& session.status == Some(Status::MalformedInput)
                &&& session.request is None
            },
            spec_operation_of_code(control_code) is Some && input@.len() >= REQUEST_SIZE ==> {
                let operation = spec_operation_of_code(control_code)->0;
                let request = parsed_request(input@);
                &&& session.request == Some(request)
                &&& (operation == Operation::Read && request.size == 0 ==> {
                    &&& session.phase == Phase::Completed
                    &&& session.status == Some(Status::MalformedInput)
                })
                &&& (!(operation == Operation::Read && request.size == 0)
                    && !valid_user_range(request.address as int, request.size as int) ==> {
                    &&& session.phase == Phase::Completed
                    &&& session.status == Some(Status::AccessViolation)
                })
                &&& (!(operation == Operation::Read && request.size == 0)
                    && valid_user_range(request.address as int, request.size as int) ==> {
                    &&& session.phase == Phase::Resolving
                    &&& session.status is None
                })
            },
    {
        let operation = match operation_of_code(control_code) {
            Some(operation) => operation,
            None => {
                return Session {
                    operation: None,
                    request: None,
                    phase: Phase::Completed,
                    status: Some(Status::MalformedInput),
                    references_acquired: 0,
                    references_released: 0,
                    bytes_copied: 0,
                };
            },
        };
        let request = match decode_request(input) {
            Ok(request) => request,
            Err(status) => {
                return Session {
                    operation: Some(operation),
                    request: None,
                    phase: Phase::Completed,
                    status: Some(status),
                    references_acquired: 0,
                    references_released: 0,
                    bytes_copied: 0,
                };
            },
        };
        if matches!(operation, Operation::Read) && request.size == 0 {
            return Session {
                operation: Some(operation),
                request: Some(request),
                phase: Phase::Completed,
                status: Some(Status::MalformedInput),
                references_acquired: 0,
                references_released: 0,
                bytes_copied: 0,
            };
        }
        let valid = if request.address <= usize::MAX as u64 && request.size <= usize::MAX as u64 {
            is_valid_user_memory(request.address as usize, request.size as usize)
        } else {
            false
        };
        if !valid {
            return Session {
                operation: Some(operation),
                request: Some(request),
                phase: Phase::Completed,
                status: Some(Status::AccessViolation),
                references_acquired: 0,
                references_released: 0,
                bytes_copied: 0,
            };
        }
        Session {
            operation: Some(operation),
            request: Some(request),
            phase: Phase::Resolving,
            status: None,
            references_acquired: 0,
            references_released: 0,
            bytes_copied: 0,
        }
    }

    /// Takes the process resolver's outcome.  A resolved process comes with
    /// one reference, which the session now owes a release; an identifier
    /// that did not resolve completes the request at once, with no reference
    /// ever acquired.
    pub fn on_resolved(&mut self, found: bool)
        requires
            old(self).wf(),
            old(self).phase == Phase::Resolving,
        ensures
            final(self).wf(),
            final(self).operation == old(self).operation,
            final(self).request == old(self).request,
            final(self).bytes_copied == old(self).bytes_copied,
            !found ==> {
                &&& final(self).phase == Phase::Completed
                &&& final(self).status == Some(Status::ProcessNotFound)
                &&& final(self).references_acquired == 0
                &&& final(self).references_released == 0
            },
            found ==> {
                &&& final(self).phase == Phase::Copying
                &&& final(self).status is None
                &&& final(self).references_acquired == 1
                &&& final(self).references_released == 0
            },
    {
        if found {
            self.references_acquired = 1;
            self.phase = Phase::Copying;
        } else {
            self.phase = Phase::Completed;
            self.status = Some(Status::ProcessNotFound);
        }
    }

    /// Lays out the one invocation of the privileged copy primitive: for a
    /// read the target process supplies the bytes and the caller's buffer
    /// receives them, for a write the roles are reversed.  Privileged
    /// address validity rules are enforced on the access.
    pub fn copy_plan(&self) -> (plan: CopyPlan)
        requires
            self.wf(),
            self.phase == Phase::Copying,
        ensures
            plan.size == self.request->0.size,
            plan.privileged,
            self.operation->0 == Operation::Read ==> {
                &&& plan.source_space == Space::Target
                &&& plan.source_address == self.request->0.address
                &&& plan.destination_space == Space::Caller
                &&& plan.destination_address == self.request->0.buffer
            },
            self.operation->0 == Operation::Write ==> {
                &&& plan.source_space == Space::Caller
                &&& plan.source_address == self.request->0.buffer
                &&& plan.destination_space == Space::Target
                &&& plan.destination_address == self.request->0.address
            },
    {
        let request = self.request.unwrap();
        match self.operation.unwrap() {
            Operation::Read => CopyPlan {
                source_space: Space::Target,
                source_address: request.address,
                destination_space: Space::Caller,
                destination_address: request.buffer,
                size: request.size,
                privileged: true,
            },
            Operation::Write => CopyPlan {
                source_space: Space::Caller,
                source_address: request.buffer,
                destination_space: Space::Target,
                destination_address: request.address,
                size: request.size,
                privileged: true,
            },
        }
    }

    /// Takes the copy primitive's report.  Success carries the number of
    /// bytes actually transferred and moves on to responding; anything else
    /// is surfaced only as a coarse access-denied status, and the process
    /// reference is released on this failure path at once.
    pub fn on_copy(&mut self, report: Option<u64>)
        requires
            old(self).wf(),
            old(self).phase == Phase::Copying,
        ensures
            final(self).wf(),
            final(self).operation == old(self).operation,
            final(self).request == old(self).request,
            report is None ==> {
                &&& final(self).phase == Phase::Completed
                &&& final(self).status == Some(Status::AccessDenied)
                &&& final(self).references_acquired == 1
                &&& final(self).references_released == 1
            },
            report is Some ==> {
                &&& final(self).phase == Phase::Responding
                &&& final(self).status is None
                &&& final(self).references_acquired == 1
                &&& final(self).references_released == 0
                &&& final(self).bytes_copied == report->0
            },
    {
        match report {
            Some(bytes_copied) => {
                self.bytes_copied = bytes_copied;
                self.phase = Phase::Responding;
            },
            None => {
                self.references_released = 1;
                self.phase = Phase::Completed;
                self.status = Some(Status::AccessDenied);
            },
        }
    }

    /// Writes the confirmation text through the marshaler and completes the
    /// request.  A missing output buffer still completes it, reporting that
    /// the output was unavailable; the process reference is released either
    /// way.
    pub fn respond(&mut self, channel: &mut ResponseChannel)
        requires
            old(self).wf(),
            old(self).phase == Phase::Responding,
        ensures
            final(self).wf(),
            final(self).operation == old(self).operation,
            final(self).request == old(self).request,
            final(self).bytes_copied == old(self).bytes_copied,
            final(self).phase == Phase::Completed,
            final(self).references_acquired == 1,
            final(self).references_released == 1,
            old(channel).buffer is None ==> {
                &&& final(self).status == Some(Status::OutputUnavailable)
                &&& final(channel).buffer is None
                &&& final(channel).information == old(channel).information
            },
            old(channel).buffer is Some ==> {
                let text = confirmation_rep(
                    old(self).operation->0,
                    old(self).bytes_copied,
                    old(self).request->0.address,
                );
                &&& final(self).status == Some(Status::Success)
                &&& final(channel).buffer is Some
                &&& final(channel).buffer->0@ == vstd::utf8::encode_utf8(text)
                &&& final(channel).information == vstd::utf8::encode_utf8(text).len()
            },
    {
        let request = self.request.unwrap();
        let message = confirmation_message(self.operation.unwrap(), self.bytes_copied,
            request.address);
        match encode_status(channel, message.as_str()) {
            Ok(_) => {
                self.status = Some(Status::Success);
            },
            Err(status) => {
                self.status = Some(status);
            },
        }
        self.references_released = 1;
        self.phase = Phase::Completed;
    }
}

/// Law: every completed request observes the scoped-resource discipline:
/// whatever exit path it took, it released exactly the references it
/// acquired, and it never acquired more than one.
pub proof fn lemma_reference_discipline(session: Session)
    requires
        session.wf(),
        session.phase == Phase::Completed,
    ensures
        session.references_released == session.references_acquired,
        session.references_acquired <= 1,
{
}

} // verus!
