//! The write action: persist the request body to an expanded destination
//! path, then apply the optional permission bits, owner and group, in that
//! order. Each step is a checkpoint: the first failure yields 500 and halts
//! the remaining steps, leaving earlier effects applied — there is no
//! rollback. All steps completing yields 201 with an empty body.

use vstd::prelude::*;
use crate::config::opt_bytes_view;
use crate::response::{HttpResponse, BodyKind, empty_with_status};

verus! {

/// Everything the write action needs: the expanded destination path and the
/// optional mode, owner and group from the matched command.
pub struct WritePlan {
    /// Expanded destination path.
    pub path: Vec<u8>,
    /// Permission bits to apply, if configured.
    pub mode: Option<u32>,
    /// Owner name to apply, if configured.
    pub user: Option<Vec<u8>>,
    /// Group name to apply, if configured.
    pub group: Option<Vec<u8>>,
}

/// Mathematical image of a `WritePlan`.
pub struct SpecWritePlan {
    /// Expanded destination path.
    pub path: Seq<u8>,
    /// Permission bits to apply, if configured.
    pub mode: Option<u32>,
    /// Owner name to apply, if configured.
    pub user: Option<Seq<u8>>,
    /// Group name to apply, if configured.
    pub group: Option<Seq<u8>>,
}

impl View for WritePlan {
    type V = SpecWritePlan;

    open spec fn view(&self) -> SpecWritePlan {
        SpecWritePlan {
            path: self.path@,
            mode: self.mode,
            user: opt_bytes_view(self.user),
            group: opt_bytes_view(self.group),
        }
    }
}

/// The checkpoints of the write action, in execution order.
#[derive(PartialEq, Eq, Structural, Clone, Copy, Debug)]
pub enum WriteStepKind {
    /// Read the whole request body as text.
    ReadBody,
    /// Create or truncate the destination and write the body to it.
    WriteContent,
    /// Set the file's permission bits to the configured value.
    SetMode,
    /// Resolve the configured user name and make it the file's owner,
    /// leaving the group unchanged.
    SetOwner,
    /// Resolve the configured group name and make it the file's group,
    /// leaving the owner unchanged.
    SetGroup,
}

/// The ordered checkpoints a plan prescribes: body and write always, then
/// mode, owner and group exactly when each is configured.
pub open spec fn spec_write_steps(p: SpecWritePlan) -> Seq<WriteStepKind> {
    seq![WriteStepKind::ReadBody, WriteStepKind::WriteContent] + (if p.mode is Some {
        seq![WriteStepKind::SetMode]
    } else {
        Seq::<WriteStepKind>::empty()
    }) + (if p.user is Some {
        seq![WriteStepKind::SetOwner]
    } else {
        Seq::<WriteStepKind>::empty()
    }) + (if p.group is Some {
        seq![WriteStepKind::SetGroup]
    } else {
        Seq::<WriteStepKind>::empty()
    })
}

/// The ordered checkpoints the plan prescribes.
pub fn write_step_kinds(plan: &WritePlan) -> (r: Vec<WriteStepKind>)
    ensures
        r@ == spec_write_steps(plan@),
{
    let mut r: Vec<WriteStepKind> = Vec::new();
    r.push(WriteStepKind::ReadBody);
    r.push(WriteStepKind::WriteContent);
    if plan.mode.is_some() {
        r.push(WriteStepKind::SetMode);
    }
    if plan.user.is_some() {
        r.push(WriteStepKind::SetOwner);
    }
    if plan.group.is_some() {
        r.push(WriteStepKind::SetGroup);
    }
    proof {
        assert(r@ =~= spec_write_steps(plan@));
    }
    r
}

/// How far the write action got: completion, or the first checkpoint that
/// failed.
#[derive(PartialEq, Eq, Structural, Clone, Copy, Debug)]
pub enum WriteOutcome {
    /// Every prescribed step completed.
    Success,
    /// The request carried no body stream at all.
    NoBody,
    /// The body stream existed but could not be read as text.
    BodyReadFailed,
    /// Writing the destination file failed.
    WriteFailed,
    /// The file's metadata could not be read before setting the mode.
    MetadataFailed,
    /// Applying the configured permission bits failed.
    SetModeFailed,
    /// The configured user name is not in the system's user database.
    UserNotFound,
    /// Applying the resolved owner id failed.
    ChownFailed,
    /// The configured group name is not in the system's group database.
    GroupNotFound,
    /// Applying the resolved group id failed.
    ChgrpFailed,
}

/// Status owed to a write outcome: 201 on completion, 500 on any failure.
pub open spec fn spec_write_status(o: WriteOutcome) -> u16 {
    if o == WriteOutcome::Success {
        201
    } else {
        500
    }
}

/// Response to a write outcome: always bodyless; 201 Created on completion,
/// 500 on the first failed checkpoint.
pub fn write_outcome_response(o: WriteOutcome) -> (r: HttpResponse)
    ensures
        r.status_code == spec_write_status(o),
        r.kind == BodyKind::Empty,
        r.body@ == Seq::<u8>::empty(),
{
    if o == WriteOutcome::Success {
        empty_with_status(201)
    } else {
        empty_with_status(500)
    }
}

} // verus!
