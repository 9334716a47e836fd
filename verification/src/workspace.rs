//! The workspace: settings, profiles, credentials, history, worksheets and
//! layout behind one handle. A request is checked and handed to the service; its
//! reply comes out of a queue, in the order the service answered.

use std::collections::VecDeque;

use vstd::prelude::*;

use crate::connect::{ReldexSecret, Secret};
use crate::counters::Kind;
use crate::history::{history_id_from_ffi, history_outcome_from_i32, meant_history_id, outcome_of,
    HistoryEntry, HistoryOutcome, HistoryPage};
use crate::profile::{build_profile_details, entered, ReldexProfileDetails};
use crate::reply::{crossed, live_with, ReldexWorkspaceReply};
use crate::service::{Operation, QueuedWorkspaceReply, WorkspaceCommand};
use crate::settings::{named_setting, parse_scope, scope_of, setting_of, ReldexSettingValue, Scope,
    SettingId, SettingValue};
use crate::status::{Boundary, BoundaryModel, ReldexStatus};
use crate::strings::{InParam, ReldexStr};
use crate::worksheet::{ReldexLayout, Worksheet, WorksheetState};

verus! {

/// The handle of a workspace: whether it still takes requests, whether it was
/// closed, whether a waker is registered, and the replies that wait.
pub struct ReldexWorkspace {
    open: bool,
    destroyed: bool,
    waker: bool,
    replies: VecDeque<QueuedWorkspaceReply>,
}

/// What a workspace knows.
#[verifier::ext_equal]
pub struct WorkspaceModel {
    /// Whether it takes requests.
    pub open: bool,
    /// Whether it was closed.
    pub destroyed: bool,
    /// Whether a waker is registered.
    pub waker: bool,
    /// The replies that wait, the oldest first.
    pub replies: Seq<QueuedWorkspaceReply>,
}

impl View for ReldexWorkspace {
    type V = WorkspaceModel;

    closed spec fn view(&self) -> WorkspaceModel {
        WorkspaceModel {
            open: self.open,
            destroyed: self.destroyed,
            waker: self.waker,
            replies: self.replies@,
        }
    }
}

impl WorkspaceModel {
    /// A workspace nothing was asked of yet.
    pub open spec fn fresh() -> Self {
        WorkspaceModel { open: true, destroyed: false, waker: false, replies: Seq::empty() }
    }

    /// Once a reply was put into the queue.
    pub open spec fn pushed(self, reply: QueuedWorkspaceReply) -> Self {
        WorkspaceModel { replies: self.replies.push(reply), ..self }
    }

    /// Once the oldest reply was taken out.
    pub open spec fn taken(self) -> Self {
        WorkspaceModel { replies: self.replies.skip(1), ..self }
    }

    /// Whether a reply that is put into the queue wakes the caller: the queue
    /// goes from empty to non-empty, and there is someone to wake.
    pub open spec fn wakes(self) -> bool {
        self.replies.len() == 0 && !self.destroyed && self.waker
    }

    /// Once it was closed.
    pub open spec fn closed(self) -> Self {
        WorkspaceModel { open: false, destroyed: true, waker: false, ..self }
    }
}

impl ReldexWorkspace {
    /// Puts a reply into the queue. The answer is whether the caller is to be
    /// woken.
    pub fn push_reply(&mut self, reply: QueuedWorkspaceReply) -> (wake: bool)
        ensures
            final(self)@ == old(self)@.pushed(reply),
            wake == old(self)@.wakes(),
    {
        let was_empty = self.replies.len() == 0;
        self.replies.push_back(reply);
        was_empty && !self.destroyed && self.waker
    }
}

/// Replies come out in the order they were put in: what is put in behind others
/// does not change which comes next, and comes next once they are taken.
pub proof fn replies_come_out_in_order(
    workspace: WorkspaceModel,
    reply: QueuedWorkspaceReply,
)
    ensures
        workspace.replies.len() > 0 ==> {
            &&& workspace.pushed(reply).replies[0] == workspace.replies[0]
            &&& workspace.pushed(reply).taken() == workspace.taken().pushed(reply)
        },
        workspace.replies.len() == 0 ==> {
            &&& workspace.pushed(reply).replies[0] == reply
            &&& workspace.pushed(reply).taken() == workspace
        },
{
    if workspace.replies.len() > 0 {
        assert(workspace.pushed(reply).taken().replies =~= workspace.taken().pushed(reply).replies);
    } else {
        assert(workspace.pushed(reply).taken().replies =~= workspace.replies);
    }
}

/// Nobody is woken for a workspace that was closed.
pub proof fn a_closed_workspace_wakes_nobody(workspace: WorkspaceModel)
    ensures
        !workspace.closed().wakes(),
        !workspace.closed().open,
{
}

/// Checks what a workspace is opened with: the path of its store, or none for
/// one in memory. `out_usable` is whether the place for the handle is neither
/// null nor unaligned.
pub fn reldex_workspace_open(
    boundary: &mut Boundary,
    path: ReldexStr<'_>,
    in_memory: bool,
    out_usable: bool,
) -> (answer: Result<Option<String>, ReldexStatus>)
    requires
        path.readable(),
    ensures
        old(boundary)@.in_waker ==> {
            &&& answer == Err::<Option<String>, _>(ReldexStatus::Reentrant)
            &&& final(boundary)@ == old(boundary)@.refused()
        },
        !old(boundary)@.in_waker ==> if !out_usable {
            &&& answer == Err::<Option<String>, _>(ReldexStatus::InvalidArgument)
            &&& final(boundary)@ == old(boundary)@.argument_error(
                "reldex_workspace_open: `out` is null or unaligned"@,
            )
        } else if in_memory {
            &&& answer == Ok::<_, ReldexStatus>(None::<String>)
            &&& final(boundary)@ == old(boundary)@
        } else if path.text() is None {
            &&& answer == Err::<Option<String>, _>(ReldexStatus::InvalidArgument)
            &&& final(boundary)@ == old(boundary)@.argument_error(
                "reldex_workspace_open: `path` is null or is not valid UTF-8"@,
            )
        } else {
            &&& answer matches Ok(Some(text)) && path.text() == Some(text@)
            &&& final(boundary)@ == old(boundary)@
        },
{
    if boundary.refuse_reentrant() {
        return Err(ReldexStatus::Reentrant);
    }
    if !out_usable {
        return Err(
            boundary.set_last_argument_error("reldex_workspace_open: `out` is null or unaligned"),
        );
    }
    if in_memory {
        return Ok(None);
    }
    match path.as_str() {
        Some(text) => Ok(Some(text.to_owned())),
        None => Err(
            boundary.set_last_argument_error(
                "reldex_workspace_open: `path` is null or is not valid UTF-8",
            ),
        ),
    }
}

/// Ends an open: `spawned` is whether the service's thread runs. A workspace
/// that was opened is counted.
pub fn finish_open(boundary: &mut Boundary, spawned: bool) -> (answer: Result<
    ReldexWorkspace,
    ReldexStatus,
>)
    ensures
        if spawned {
            &&& answer matches Ok(workspace) && workspace@ == WorkspaceModel::fresh()
            &&& final(boundary)@ == old(boundary)@.plus(Kind::WorkspaceObject)
        } else {
            &&& answer == Err::<ReldexWorkspace, _>(ReldexStatus::InvalidArgument)
            &&& final(boundary)@ == old(boundary)@.argument_error(
                "reldex_workspace_open: the operating system refused to create the service thread"@,
            )
        },
{
    if !spawned {
        return Err(
            boundary.set_last_argument_error(
                "reldex_workspace_open: the operating system refused to create the service thread",
            ),
        );
    }
    boundary.live.created(Kind::WorkspaceObject);
    Ok(ReldexWorkspace { open: true, destroyed: false, waker: false, replies: VecDeque::new() })
}

/// Closes a workspace: it takes no more requests and wakes nobody. What waits in
/// its queue stays there.
pub fn reldex_workspace_close(boundary: &mut Boundary, workspace: Option<&mut ReldexWorkspace>)
    ensures
        old(boundary)@.in_waker ==> {
            &&& final(boundary)@ == old(boundary)@.refused()
            &&& workspace matches Some(workspace) ==> final(workspace)@ == workspace@
        },
        !old(boundary)@.in_waker ==> {
            &&& final(boundary)@ == old(boundary)@
            &&& workspace matches Some(workspace) ==> final(workspace)@ == workspace@.closed()
        },
{
    if boundary.refuse_reentrant() {
        return;
    }
    if let Some(workspace) = workspace {
        workspace.destroyed = true;
        workspace.waker = false;
        workspace.open = false;
    }
}

/// Lets go of a workspace that nobody holds any more, and of the replies nobody
/// took.
pub fn release_workspace(boundary: &mut Boundary, workspace: ReldexWorkspace)
    ensures
        final(boundary)@ == old(boundary)@.minus(Kind::WorkspaceObject),
{
    let mut replies = workspace.replies;
    while replies.len() > 0
        decreases replies@.len(),
    {
        if let Some(reply) = replies.pop_front() {
            reply.discard();
        }
    }
    boundary.live.destroyed(Kind::WorkspaceObject);
}

/// Registers a waker, or takes it back. `registered` is whether there is one.
pub fn reldex_workspace_set_waker(
    boundary: &mut Boundary,
    workspace: Option<&mut ReldexWorkspace>,
    registered: bool,
) -> (status: ReldexStatus)
    ensures
        old(boundary)@.in_waker ==> {
            &&& status == ReldexStatus::Reentrant
            &&& final(boundary)@ == old(boundary)@.refused()
            &&& workspace matches Some(workspace) ==> final(workspace)@ == workspace@
        },
        !old(boundary)@.in_waker ==> match workspace {
            None => {
                &&& status == ReldexStatus::InvalidArgument
                &&& final(boundary)@ == old(boundary)@.argument_error(
                    "reldex_workspace_set_waker: `workspace` is null or unaligned"@,
                )
            },
            Some(workspace) => {
                &&& status == ReldexStatus::Okay
                &&& final(boundary)@ == old(boundary)@
                &&& final(workspace)@ == (WorkspaceModel { waker: registered, ..workspace@ })
            },
        },
{
    if boundary.refuse_reentrant() {
        return ReldexStatus::Reentrant;
    }
    match workspace {
        None => boundary.set_last_argument_error(
            "reldex_workspace_set_waker: `workspace` is null or unaligned",
        ),
        Some(workspace) => {
            workspace.waker = registered;
            ReldexStatus::Okay
        },
    }
}

/// How many replies wait.
pub fn reldex_workspace_pending_replies(
    boundary: &mut Boundary,
    workspace: Option<&ReldexWorkspace>,
) -> (count: usize)
    ensures
        old(boundary)@.in_waker ==> count == 0 && final(boundary)@ == old(boundary)@.refused(),
        !old(boundary)@.in_waker ==> {
            &&& count == match workspace {
                Some(workspace) => workspace@.replies.len(),
                None => 0,
            }
            &&& final(boundary)@ == old(boundary)@
        },
{
    if boundary.refuse_reentrant() {
        return 0;
    }
    match workspace {
        Some(workspace) => workspace.replies.len(),
        None => 0,
    }
}

/// Takes the oldest reply. `out` is how many bytes the caller's struct takes, or
/// nothing where it was refused, in which case no reply is taken.
pub fn reldex_workspace_next_reply(
    boundary: &mut Boundary,
    workspace: Option<&mut ReldexWorkspace>,
    out: Option<u32>,
) -> (reply: Option<ReldexWorkspaceReply>)
    ensures
        old(boundary)@.in_waker ==> {
            &&& reply is None
            &&& final(boundary)@ == old(boundary)@.refused()
            &&& workspace matches Some(workspace) ==> final(workspace)@ == workspace@
        },
        !old(boundary)@.in_waker ==> match out {
            None => {
                &&& reply is None
                &&& final(boundary)@ == old(boundary)@.argument_error(
                    "reldex_workspace_next_reply: `out` is null, unaligned, or has too small a struct_size"@,
                )
                &&& workspace matches Some(workspace) ==> final(workspace)@ == workspace@
            },
            Some(valid) => match workspace {
                None => reply is None && final(boundary)@ == old(boundary)@,
                Some(workspace) => if workspace@.replies.len() == 0 {
                    &&& reply is None
                    &&& final(boundary)@ == old(boundary)@
                    &&& final(workspace)@ == workspace@
                } else {
                    let model = crossed(workspace@.replies[0]);
                    &&& reply matches Some(reply) && reply.struct_size == valid && reply.says(model)
                    &&& final(workspace)@ == workspace@.taken()
                    &&& final(boundary)@ == (BoundaryModel {
                        live: live_with(old(boundary)@.live, model),
                        ..old(boundary)@
                    })
                },
            },
        },
{
    if boundary.refuse_reentrant() {
        return None;
    }
    let valid: u32 = match out {
        None => {
            boundary.set_last_argument_error(
                "reldex_workspace_next_reply: `out` is null, unaligned, or has too small a struct_size",
            );
            return None;
        },
        Some(valid) => valid,
    };
    match workspace {
        None => None,
        Some(workspace) => {
            let ghost before = workspace@;
            match workspace.replies.pop_front() {
                None => None,
                Some(reply) => {
                    assert(workspace@ =~= before.taken());
                    Some(reply.into_c(&mut boundary.live, valid))
                },
            }
        },
    }
}

/// An id as a caller passes it.
#[derive(Debug, Clone, Copy)]
pub enum IdParam {
    /// A null pointer.
    Null,
    /// Bytes the store does not accept as an id.
    Invalid,
    Valid([u8; 16]),
}

impl IdParam {
    /// The id, where it has to be there.
    pub open spec fn required(self) -> Option<[u8; 16]> {
        match self {
            IdParam::Valid(id) => Some(id),
            _ => None,
        }
    }

    /// The id, where it has to be there.
    fn get(self) -> (id: Option<[u8; 16]>)
        ensures
            id == self.required(),
    {
        match self {
            IdParam::Valid(id) => Some(id),
            _ => None,
        }
    }
}

/// Why a request is refused: its arguments, a workspace that is not there, or
/// one that was closed.
pub open spec fn refusal(wrong: Option<Seq<char>>, workspace: Option<&ReldexWorkspace>) -> Option<
    Seq<char>,
> {
    match (wrong, workspace) {
        (Some(message), _) => Some(message),
        (None, None) => Some("reldex_workspace: `workspace` is null or unaligned"@),
        (None, Some(workspace)) => if workspace@.open {
            None
        } else {
            Some("reldex_workspace: the workspace has been closed"@)
        },
    }
}

/// Whether a request was answered as it has to be: not from inside a waker, not
/// where it is refused, and otherwise with a command under the caller's id.
pub open spec fn answered(
    before: BoundaryModel,
    after: BoundaryModel,
    refusal: Option<Seq<char>>,
    request: u64,
    answer: Result<WorkspaceCommand, ReldexStatus>,
) -> bool {
    if before.in_waker {
        &&& answer == Err::<WorkspaceCommand, _>(ReldexStatus::Reentrant)
        &&& after == before.refused()
    } else {
        match refusal {
            Some(message) => {
                &&& answer == Err::<WorkspaceCommand, _>(ReldexStatus::InvalidArgument)
                &&& after == before.argument_error(message)
            },
            None => {
                &&& answer matches Ok(command) && command.request == request
                &&& after == before
            },
        }
    }
}

/// A request that is refused says why; one that is accepted leaves the last error
/// alone and carries the caller's id.
pub proof fn a_refused_workspace_request_says_why(
    before: BoundaryModel,
    after: BoundaryModel,
    refusal: Option<Seq<char>>,
    request: u64,
    answer: Result<WorkspaceCommand, ReldexStatus>,
)
    requires
        answered(before, after, refusal, request, answer),
    ensures
        answer is Err ==> after.last_error is Some,
        answer matches Ok(command) ==> after == before && command.request == request,
{
}

/// Makes a command of a request whose arguments are in order, unless there is no
/// workspace for it.
fn submit(
    boundary: &mut Boundary,
    workspace: Option<&ReldexWorkspace>,
    request: u64,
    operation: Operation,
) -> (answer: Result<WorkspaceCommand, ReldexStatus>)
    ensures
        match refusal(None, workspace) {
            Some(message) => {
                &&& answer == Err::<WorkspaceCommand, _>(ReldexStatus::InvalidArgument)
                &&& final(boundary)@ == old(boundary)@.argument_error(message)
            },
            None => {
                &&& answer == Ok::<_, ReldexStatus>(WorkspaceCommand { request, operation })
                &&& final(boundary)@ == old(boundary)@
            },
        },
{
    let command = WorkspaceCommand { request, operation };
    let message = match workspace {
        None => "reldex_workspace: `workspace` is null or unaligned",
        Some(workspace) => if workspace.open {
            return Ok(command);
        } else {
            "reldex_workspace: the workspace has been closed"
        },
    };
    command.discard();
    Err(boundary.set_last_argument_error(message))
}

/// Ends a request: `sent` is whether the service took the command, which comes
/// back where its service is gone.
pub fn finish_request(boundary: &mut Boundary, sent: Result<(), WorkspaceCommand>) -> (
    status: ReldexStatus)
    ensures
        if sent is Ok {
            status == ReldexStatus::Okay && final(boundary)@ == old(boundary)@
        } else {
            &&& status == ReldexStatus::InvalidArgument
            &&& final(boundary)@ == old(boundary)@.argument_error(
                "reldex_workspace: the workspace has been closed"@,
            )
        },
{
    match sent {
        Ok(_) => ReldexStatus::Okay,
        Err(command) => {
            command.discard();
            boundary.set_last_argument_error("reldex_workspace: the workspace has been closed")
        },
    }
}

/// Asks for a setting's effective value: the worksheet's, else the profile's,
/// else the application's, else the built-in one.
pub fn reldex_workspace_resolve_setting(
    boundary: &mut Boundary,
    workspace: Option<&ReldexWorkspace>,
    request: u64,
    setting_id: i32,
    profile: IdParam,
    worksheet: IdParam,
) -> (answer: Result<WorkspaceCommand, ReldexStatus>)
    ensures
        answered(
            old(boundary)@,
            final(boundary)@,
            refusal(
                if setting_of(setting_id) is None {
                    Some(
                        "reldex_workspace_resolve_setting: `setting_id` is not a setting this build knows"@,
                    )
                } else if profile is Invalid {
                    Some("reldex_workspace_resolve_setting: `profile` is not a valid id"@)
                } else if worksheet is Invalid {
                    Some("reldex_workspace_resolve_setting: `worksheet` is not a valid id"@)
                } else {
                    None
                },
                workspace,
            ),
            request,
            answer,
        ),
        answer matches Ok(command) ==> command.operation == (Operation::ResolveSetting {
            setting: setting_of(setting_id)->0,
            profile: profile.required(),
            worksheet: worksheet.required(),
        }),
{
    if boundary.refuse_reentrant() {
        return Err(ReldexStatus::Reentrant);
    }
    let setting = match named_setting(setting_id) {
        Some(setting) => setting,
        None => return Err(
            boundary.set_last_argument_error(
                "reldex_workspace_resolve_setting: `setting_id` is not a setting this build knows",
            ),
        ),
    };
    if let IdParam::Invalid = profile {
        return Err(
            boundary.set_last_argument_error(
                "reldex_workspace_resolve_setting: `profile` is not a valid id",
            ),
        );
    }
    if let IdParam::Invalid = worksheet {
        return Err(
            boundary.set_last_argument_error(
                "reldex_workspace_resolve_setting: `worksheet` is not a valid id",
            ),
        );
    }
    submit(
        boundary,
        workspace,
        request,
        Operation::ResolveSetting { setting, profile: profile.get(), worksheet: worksheet.get() },
    )
}

/// Asks for a value to be set at a level, in place of any that is there.
/// `profile` and `worksheet` are the caller's id as an id of either kind, or how
/// the store words that it is none.
pub fn reldex_workspace_set_setting(
    boundary: &mut Boundary,
    workspace: Option<&ReldexWorkspace>,
    request: u64,
    setting_id: i32,
    level: i32,
    profile: Result<[u8; 16], String>,
    worksheet: Result<[u8; 16], String>,
    value: InParam<ReldexSettingValue>,
) -> (answer: Result<WorkspaceCommand, ReldexStatus>)
    ensures
        answered(
            old(boundary)@,
            final(boundary)@,
            refusal(
                if setting_of(setting_id) is None {
                    Some(
                        "reldex_workspace_set_setting: `setting_id` is not a setting this build knows"@,
                    )
                } else if scope_of(level, profile, worksheet) is Err {
                    Some(
                        "reldex_workspace_set_setting: `level`/`scope_id` do not name a settable scope"@,
                    )
                } else if value !is Given {
                    Some(
                        "reldex_workspace_set_setting: `value` is null, unaligned, or its struct_size is too small"@,
                    )
                } else if value->Given_0.meant() is None {
                    Some(
                        "reldex_workspace_set_setting: `value` does not describe a valid value for its kind"@,
                    )
                } else {
                    None
                },
                workspace,
            ),
            request,
            answer,
        ),
        answer matches Ok(command) ==> command.operation == (Operation::SetSetting {
            scope: scope_of(level, profile, worksheet)->Ok_0,
            setting: setting_of(setting_id)->0,
            value: value->Given_0.meant()->0,
        }),
{
    if boundary.refuse_reentrant() {
        return Err(ReldexStatus::Reentrant);
    }
    let setting = match named_setting(setting_id) {
        Some(setting) => setting,
        None => return Err(
            boundary.set_last_argument_error(
                "reldex_workspace_set_setting: `setting_id` is not a setting this build knows",
            ),
        ),
    };
    let scope = match parse_scope(level, &profile, &worksheet) {
        Ok(scope) => scope,
        Err(_) => return Err(
            boundary.set_last_argument_error(
                "reldex_workspace_set_setting: `level`/`scope_id` do not name a settable scope",
            ),
        ),
    };
    let value = match value {
        InParam::Given(value) => value,
        _ => return Err(
            boundary.set_last_argument_error(
                "reldex_workspace_set_setting: `value` is null, unaligned, or its struct_size is too small",
            ),
        ),
    };
    let value = match value.to_value() {
        Some(value) => value,
        None => return Err(
            boundary.set_last_argument_error(
                "reldex_workspace_set_setting: `value` does not describe a valid value for its kind",
            ),
        ),
    };
    submit(boundary, workspace, request, Operation::SetSetting { scope, setting, value })
}

/// Asks for the value at a level to be removed, so that the setting is inherited
/// again.
pub fn reldex_workspace_clear_setting(
    boundary: &mut Boundary,
    workspace: Option<&ReldexWorkspace>,
    request: u64,
    setting_id: i32,
    level: i32,
    profile: Result<[u8; 16], String>,
    worksheet: Result<[u8; 16], String>,
) -> (answer: Result<WorkspaceCommand, ReldexStatus>)
    ensures
        answered(
            old(boundary)@,
            final(boundary)@,
            refusal(
                if setting_of(setting_id) is None {
                    Some(
                        "reldex_workspace_clear_setting: `setting_id` is not a setting this build knows"@,
                    )
                } else if scope_of(level, profile, worksheet) is Err {
                    Some(
                        "reldex_workspace_clear_setting: `level`/`scope_id` do not name a settable scope"@,
                    )
                } else {
                    None
                },
                workspace,
            ),
            request,
            answer,
        ),
        answer matches Ok(command) ==> command.operation == (Operation::ClearSetting {
            scope: scope_of(level, profile, worksheet)->Ok_0,
            setting: setting_of(setting_id)->0,
        }),
{
    if boundary.refuse_reentrant() {
        return Err(ReldexStatus::Reentrant);
    }
    let setting = match named_setting(setting_id) {
        Some(setting) => setting,
        None => return Err(
            boundary.set_last_argument_error(
                "reldex_workspace_clear_setting: `setting_id` is not a setting this build knows",
            ),
        ),
    };
    let scope = match parse_scope(level, &profile, &worksheet) {
        Ok(scope) => scope,
        Err(_) => return Err(
            boundary.set_last_argument_error(
                "reldex_workspace_clear_setting: `level`/`scope_id` do not name a settable scope",
            ),
        ),
    };
    submit(boundary, workspace, request, Operation::ClearSetting { scope, setting })
}

/// What is wrong with a profile's details as they are passed to `function`.
pub open spec fn wrong_details(
    function: Seq<char>,
    details: InParam<ReldexProfileDetails>,
) -> Option<Seq<char>> {
    match details {
        InParam::Given(details) => if entered(details) is Ok {
            None
        } else {
            Some(function + ": `details` is not valid"@)
        },
        _ => Some(function + ": `details` is null, unaligned, or its struct_size is too small"@),
    }
}

/// Reads a profile's details as they are passed to `function`.
fn read_details(
    boundary: &mut Boundary,
    function: &str,
    details: InParam<ReldexProfileDetails<'_>>,
) -> (read: Result<crate::profile::ProfileDetails<String>, ReldexStatus>)
    requires
        details matches InParam::Given(details) ==> details.readable(),
    ensures
        match read {
            Ok(read) => {
                &&& wrong_details(function@, details) is None
                &&& entered(details->Given_0) == Ok::<_, Seq<char>>(read@)
                &&& final(boundary)@ == old(boundary)@
            },
            Err(status) => {
                &&& status == ReldexStatus::InvalidArgument
                &&& wrong_details(function@, details) is Some
                &&& final(boundary)@ == old(boundary)@.argument_error(
                    wrong_details(function@, details)->0,
                )
            },
        },
{
    let details = match details {
        InParam::Given(details) => details,
        _ => {
            let mut message = String::from_str(function);
            message.append(": `details` is null, unaligned, or its struct_size is too small");
            return Err(boundary.set_last_argument_error(message.as_str()));
        },
    };
    match build_profile_details(&details) {
        Ok(details) => Ok(details),
        Err(_) => {
            let mut message = String::from_str(function);
            message.append(": `details` is not valid");
            Err(boundary.set_last_argument_error(message.as_str()))
        },
    }
}

/// Asks for a profile to be created.
pub fn reldex_workspace_create_profile(
    boundary: &mut Boundary,
    workspace: Option<&ReldexWorkspace>,
    request: u64,
    details: InParam<ReldexProfileDetails<'_>>,
) -> (answer: Result<WorkspaceCommand, ReldexStatus>)
    requires
        details matches InParam::Given(details) ==> details.readable(),
    ensures
        answered(
            old(boundary)@,
            final(boundary)@,
            refusal(wrong_details("reldex_workspace_create_profile"@, details), workspace),
            request,
            answer,
        ),
        answer matches Ok(command) ==> (command.operation matches Operation::CreateProfile {
            details: read,
        } && entered(details->Given_0) == Ok::<_, Seq<char>>(read@)),
{
    if boundary.refuse_reentrant() {
        return Err(ReldexStatus::Reentrant);
    }
    let details = match read_details(boundary, "reldex_workspace_create_profile", details) {
        Ok(details) => details,
        Err(status) => return Err(status),
    };
    submit(boundary, workspace, request, Operation::CreateProfile { details })
}

/// Asks for a profile's details to be replaced.
pub fn reldex_workspace_update_profile(
    boundary: &mut Boundary,
    workspace: Option<&ReldexWorkspace>,
    request: u64,
    id: IdParam,
    details: InParam<ReldexProfileDetails<'_>>,
) -> (answer: Result<WorkspaceCommand, ReldexStatus>)
    requires
        details matches InParam::Given(details) ==> details.readable(),
    ensures
        answered(
            old(boundary)@,
            final(boundary)@,
            refusal(
                if id.required() is None {
                    Some(
                        "reldex_workspace_update_profile: `id` is null or not a valid profile id"@,
                    )
                } else {
                    wrong_details("reldex_workspace_update_profile"@, details)
                },
                workspace,
            ),
            request,
            answer,
        ),
        answer matches Ok(command) ==> (command.operation matches Operation::UpdateProfile {
            id: named,
            details: read,
        } && id == IdParam::Valid(named) && entered(details->Given_0) == Ok::<_, Seq<char>>(read@)),
{
    if boundary.refuse_reentrant() {
        return Err(ReldexStatus::Reentrant);
    }
    let id = match id.get() {
        Some(id) => id,
        None => return Err(
            boundary.set_last_argument_error(
                "reldex_workspace_update_profile: `id` is null or not a valid profile id",
            ),
        ),
    };
    let details = match read_details(boundary, "reldex_workspace_update_profile", details) {
        Ok(details) => details,
        Err(status) => return Err(status),
    };
    submit(boundary, workspace, request, Operation::UpdateProfile { id, details })
}

/// Asks for a profile to be deleted, with every setting it overrides. A password
/// kept for it stays.
pub fn reldex_workspace_delete_profile(
    boundary: &mut Boundary,
    workspace: Option<&ReldexWorkspace>,
    request: u64,
    id: IdParam,
) -> (answer: Result<WorkspaceCommand, ReldexStatus>)
    ensures
        answered(
            old(boundary)@,
            final(boundary)@,
            refusal(
                if id.required() is None {
                    Some("reldex_workspace_delete_profile: `id` is null or not a valid profile id"@)
                } else {
                    None
                },
                workspace,
            ),
            request,
            answer,
        ),
        answer matches Ok(command) ==> command.operation == (Operation::DeleteProfile {
            id: id.required()->0,
        }),
{
    if boundary.refuse_reentrant() {
        return Err(ReldexStatus::Reentrant);
    }
    match id.get() {
        Some(id) => submit(boundary, workspace, request, Operation::DeleteProfile { id }),
        None => Err(
            boundary.set_last_argument_error(
                "reldex_workspace_delete_profile: `id` is null or not a valid profile id",
            ),
        ),
    }
}

/// Asks for one profile.
pub fn reldex_workspace_get_profile(
    boundary: &mut Boundary,
    workspace: Option<&ReldexWorkspace>,
    request: u64,
    id: IdParam,
) -> (answer: Result<WorkspaceCommand, ReldexStatus>)
    ensures
        answered(
            old(boundary)@,
            final(boundary)@,
            refusal(
                if id.required() is None {
                    Some("reldex_workspace_get_profile: `id` is null or not a valid profile id"@)
                } else {
                    None
                },
                workspace,
            ),
            request,
            answer,
        ),
        answer matches Ok(command) ==> command.operation == (Operation::GetProfile {
            id: id.required()->0,
        }),
{
    if boundary.refuse_reentrant() {
        return Err(ReldexStatus::Reentrant);
    }
    match id.get() {
        Some(id) => submit(boundary, workspace, request, Operation::GetProfile { id }),
        None => Err(
            boundary.set_last_argument_error(
                "reldex_workspace_get_profile: `id` is null or not a valid profile id",
            ),
        ),
    }
}

/// Asks for every profile, by name.
pub fn reldex_workspace_list_profiles(
    boundary: &mut Boundary,
    workspace: Option<&ReldexWorkspace>,
    request: u64,
) -> (answer: Result<WorkspaceCommand, ReldexStatus>)
    ensures
        answered(
            old(boundary)@,
            final(boundary)@,
            refusal(None, workspace),
            request,
            answer,
        ),
        answer matches Ok(command) ==> command.operation == Operation::ListProfiles,
{
    if boundary.refuse_reentrant() {
        return Err(ReldexStatus::Reentrant);
    }
    submit(boundary, workspace, request, Operation::ListProfiles)
}

/// Asks for the connection parameters of a profile. `password` stays with the
/// caller; without one, a profile that needs one fails.
pub fn reldex_workspace_build_connect_params(
    boundary: &mut Boundary,
    workspace: Option<&ReldexWorkspace>,
    request: u64,
    profile: IdParam,
    password: Option<&ReldexSecret>,
) -> (answer: Result<WorkspaceCommand, ReldexStatus>)
    ensures
        answered(
            old(boundary)@,
            final(boundary)@,
            refusal(
                if profile.required() is None {
                    Some(
                        "reldex_workspace_build_connect_params: `profile` is null or not a valid profile id"@,
                    )
                } else {
                    None
                },
                workspace,
            ),
            request,
            answer,
        ),
        answer matches Ok(command) ==> (command.operation matches Operation::BuildConnectParams {
            id,
            password: passed,
        } && profile == IdParam::Valid(id) && match (password, passed) {
            (Some(secret), Some(passed)) => passed@ == secret@,
            (None, None) => true,
            _ => false,
        }),
{
    if boundary.refuse_reentrant() {
        return Err(ReldexStatus::Reentrant);
    }
    let id = match profile.get() {
        Some(id) => id,
        None => return Err(
            boundary.set_last_argument_error(
                "reldex_workspace_build_connect_params: `profile` is null or not a valid profile id",
            ),
        ),
    };
    let password = match password {
        Some(secret) => Some(secret.secret()),
        None => None,
    };
    submit(boundary, workspace, request, Operation::BuildConnectParams { id, password })
}

/// Asks for the password that is kept for a profile.
pub fn reldex_workspace_credential_get(
    boundary: &mut Boundary,
    workspace: Option<&ReldexWorkspace>,
    request: u64,
    profile: IdParam,
) -> (answer: Result<WorkspaceCommand, ReldexStatus>)
    ensures
        answered(
            old(boundary)@,
            final(boundary)@,
            refusal(
                if profile.required() is None {
                    Some("reldex_workspace_credential_get: `profile` is null or not a valid profile id"@)
                } else {
                    None
                },
                workspace,
            ),
            request,
            answer,
        ),
        answer matches Ok(command) ==> command.operation == (Operation::CredentialGet {
            id: profile.required()->0,
        }),
{
    if boundary.refuse_reentrant() {
        return Err(ReldexStatus::Reentrant);
    }
    match profile.get() {
        Some(id) => submit(boundary, workspace, request, Operation::CredentialGet { id }),
        None => Err(
            boundary.set_last_argument_error(
                "reldex_workspace_credential_get: `profile` is null or not a valid profile id",
            ),
        ),
    }
}

/// Asks for a password to be kept for a profile, in place of any that is there.
pub fn reldex_workspace_credential_put(
    boundary: &mut Boundary,
    workspace: Option<&ReldexWorkspace>,
    request: u64,
    profile: IdParam,
    password: ReldexStr<'_>,
) -> (answer: Result<WorkspaceCommand, ReldexStatus>)
    requires
        password.readable(),
    ensures
        answered(
            old(boundary)@,
            final(boundary)@,
            refusal(
                if profile.required() is None {
                    Some(
                        "reldex_workspace_credential_put: `profile` is null or not a valid profile id"@,
                    )
                } else if password.text() is None {
                    Some(
                        "reldex_workspace_credential_put: `password` is null or is not valid UTF-8"@,
                    )
                } else {
                    None
                },
                workspace,
            ),
            request,
            answer,
        ),
        answer matches Ok(command) ==> (command.operation matches Operation::CredentialPut {
            id,
            secret,
        } && profile == IdParam::Valid(id) && secret@ == vstd::utf8::encode_utf8(
            password.text()->0,
        )),
{
    if boundary.refuse_reentrant() {
        return Err(ReldexStatus::Reentrant);
    }
    let id = match profile.get() {
        Some(id) => id,
        None => return Err(
            boundary.set_last_argument_error(
                "reldex_workspace_credential_put: `profile` is null or not a valid profile id",
            ),
        ),
    };
    match password.as_str() {
        Some(text) => submit(
            boundary,
            workspace,
            request,
            Operation::CredentialPut { id, secret: Secret::new(text) },
        ),
        None => Err(
            boundary.set_last_argument_error(
                "reldex_workspace_credential_put: `password` is null or is not valid UTF-8",
            ),
        ),
    }
}

/// Asks for the password that is kept for a profile to be removed.
pub fn reldex_workspace_credential_delete(
    boundary: &mut Boundary,
    workspace: Option<&ReldexWorkspace>,
    request: u64,
    profile: IdParam,
) -> (answer: Result<WorkspaceCommand, ReldexStatus>)
    ensures
        answered(
            old(boundary)@,
            final(boundary)@,
            refusal(
                if profile.required() is None {
                    Some("reldex_workspace_credential_delete: `profile` is null or not a valid profile id"@)
                } else {
                    None
                },
                workspace,
            ),
            request,
            answer,
        ),
        answer matches Ok(command) ==> command.operation == (Operation::CredentialDelete {
            id: profile.required()->0,
        }),
{
    if boundary.refuse_reentrant() {
        return Err(ReldexStatus::Reentrant);
    }
    match profile.get() {
        Some(id) => submit(boundary, workspace, request, Operation::CredentialDelete { id }),
        None => Err(
            boundary.set_last_argument_error(
                "reldex_workspace_credential_delete: `profile` is null or not a valid profile id",
            ),
        ),
    }
}

/// Asks where the password for a profile comes from: the credential store, a
/// prompt, or nowhere because none is needed.
pub fn reldex_workspace_resolve_password(
    boundary: &mut Boundary,
    workspace: Option<&ReldexWorkspace>,
    request: u64,
    profile: IdParam,
) -> (answer: Result<WorkspaceCommand, ReldexStatus>)
    ensures
        answered(
            old(boundary)@,
            final(boundary)@,
            refusal(
                if profile.required() is None {
                    Some("reldex_workspace_resolve_password: `profile` is null or not a valid profile id"@)
                } else {
                    None
                },
                workspace,
            ),
            request,
            answer,
        ),
        answer matches Ok(command) ==> command.operation == (Operation::ResolvePassword {
            id: profile.required()->0,
        }),
{
    if boundary.refuse_reentrant() {
        return Err(ReldexStatus::Reentrant);
    }
    match profile.get() {
        Some(id) => submit(boundary, workspace, request, Operation::ResolvePassword { id }),
        None => Err(
            boundary.set_last_argument_error(
                "reldex_workspace_resolve_password: `profile` is null or not a valid profile id",
            ),
        ),
    }
}

/// A time as the store keeps it: at most what it holds.
pub open spec fn kept_millis(millis: u64) -> i64 {
    if millis > i64::MAX {
        i64::MAX
    } else {
        millis as i64
    }
}

/// Asks for a statement's outcome to be recorded.
pub fn reldex_workspace_record_history(
    boundary: &mut Boundary,
    workspace: Option<&ReldexWorkspace>,
    request: u64,
    profile: IdParam,
    executed_at_ms: u64,
    statement: ReldexStr<'_>,
    outcome_kind: i32,
    native_code: i32,
    has_native_code: bool,
    elapsed_ms: u64,
    row_count: u64,
    has_row_count: bool,
) -> (answer: Result<WorkspaceCommand, ReldexStatus>)
    requires
        statement.readable(),
    ensures
        answered(
            old(boundary)@,
            final(boundary)@,
            refusal(
                if profile.required() is None {
                    Some(
                        "reldex_workspace_record_history: `profile` is null or not a valid profile id"@,
                    )
                } else if statement.text() is None {
                    Some(
                        "reldex_workspace_record_history: `statement` is null or is not valid UTF-8"@,
                    )
                } else if outcome_of(outcome_kind, native_code, has_native_code) is None {
                    Some(
                        "reldex_workspace_record_history: `outcome_kind` is not a kind this build knows"@,
                    )
                } else {
                    None
                },
                workspace,
            ),
            request,
            answer,
        ),
        answer matches Ok(command) ==> (command.operation matches Operation::RecordHistory { entry }
            && {
            &&& profile == IdParam::Valid(entry.profile)
            &&& entry.executed_at == kept_millis(executed_at_ms)
            &&& statement.text() == Some(entry.statement@)
            &&& outcome_of(outcome_kind, native_code, has_native_code) == Some(entry.outcome)
            &&& entry.elapsed_ms == elapsed_ms
            &&& entry.row_count == if has_row_count {
                Some(row_count)
            } else {
                None
            }
        }),
{
    if boundary.refuse_reentrant() {
        return Err(ReldexStatus::Reentrant);
    }
    let profile = match profile.get() {
        Some(profile) => profile,
        None => return Err(
            boundary.set_last_argument_error(
                "reldex_workspace_record_history: `profile` is null or not a valid profile id",
            ),
        ),
    };
    let statement = match statement.as_str() {
        Some(statement) => statement,
        None => return Err(
            boundary.set_last_argument_error(
                "reldex_workspace_record_history: `statement` is null or is not valid UTF-8",
            ),
        ),
    };
    let outcome = match history_outcome_from_i32(outcome_kind, native_code, has_native_code) {
        Some(outcome) => outcome,
        None => return Err(
            boundary.set_last_argument_error(
                "reldex_workspace_record_history: `outcome_kind` is not a kind this build knows",
            ),
        ),
    };
    let executed_at: i64 = if executed_at_ms > i64::MAX as u64 {
        i64::MAX
    } else {
        executed_at_ms as i64
    };
    let entry = HistoryEntry {
        profile,
        executed_at,
        statement: statement.to_owned(),
        outcome,
        elapsed_ms,
        row_count: if has_row_count {
            Some(row_count)
        } else {
            None
        },
    };
    submit(boundary, workspace, request, Operation::RecordHistory { entry })
}

/// Asks for one page of a profile's history, newest first.
pub fn reldex_workspace_list_history(
    boundary: &mut Boundary,
    workspace: Option<&ReldexWorkspace>,
    request: u64,
    profile: IdParam,
    limit: u32,
    before_id: u64,
    has_before: bool,
) -> (answer: Result<WorkspaceCommand, ReldexStatus>)
    ensures
        answered(
            old(boundary)@,
            final(boundary)@,
            refusal(
                if profile.required() is None {
                    Some(
                        "reldex_workspace_list_history: `profile` is null or not a valid profile id"@,
                    )
                } else {
                    None
                },
                workspace,
            ),
            request,
            answer,
        ),
        answer matches Ok(command) ==> command.operation == (Operation::ListHistory {
            profile: profile.required()->0,
            page: HistoryPage {
                limit,
                before: if has_before {
                    Some(meant_history_id(before_id))
                } else {
                    None
                },
            },
        }),
{
    if boundary.refuse_reentrant() {
        return Err(ReldexStatus::Reentrant);
    }
    let profile = match profile.get() {
        Some(profile) => profile,
        None => return Err(
            boundary.set_last_argument_error(
                "reldex_workspace_list_history: `profile` is null or not a valid profile id",
            ),
        ),
    };
    let before = if has_before {
        Some(history_id_from_ffi(before_id))
    } else {
        None
    };
    submit(
        boundary,
        workspace,
        request,
        Operation::ListHistory { profile, page: HistoryPage { limit, before } },
    )
}

/// Asks for a profile's history to be cleared.
pub fn reldex_workspace_clear_history(
    boundary: &mut Boundary,
    workspace: Option<&ReldexWorkspace>,
    request: u64,
    profile: IdParam,
) -> (answer: Result<WorkspaceCommand, ReldexStatus>)
    ensures
        answered(
            old(boundary)@,
            final(boundary)@,
            refusal(
                if profile.required() is None {
                    Some("reldex_workspace_clear_history: `profile` is null or not a valid profile id"@)
                } else {
                    None
                },
                workspace,
            ),
            request,
            answer,
        ),
        answer matches Ok(command) ==> command.operation == (Operation::ClearHistory {
            profile: profile.required()->0,
        }),
{
    if boundary.refuse_reentrant() {
        return Err(ReldexStatus::Reentrant);
    }
    match profile.get() {
        Some(profile) => submit(boundary, workspace, request, Operation::ClearHistory { profile }),
        None => Err(
            boundary.set_last_argument_error(
                "reldex_workspace_clear_history: `profile` is null or not a valid profile id",
            ),
        ),
    }
}

/// A worksheet that is to be saved, before the store has made one of it.
#[derive(Debug)]
pub struct WorksheetDraft {
    pub id: [u8; 16],
    pub profile: Option<[u8; 16]>,
    pub state: WorksheetState,
    pub tab_order: u32,
}

/// Whether a worksheet to be saved is the one that was asked for.
pub open spec fn drafts(
    draft: WorksheetDraft,
    id: IdParam,
    profile: IdParam,
    title: ReldexStr<'_>,
    text: ReldexStr<'_>,
) -> bool {
    &&& id == IdParam::Valid(draft.id)
    &&& draft.profile == profile.required()
    &&& title.text() == Some(draft.state.title@)
    &&& text.text() == Some(draft.state.text@)
}

/// Checks a worksheet that is to be saved. What the store makes of it goes to
/// [`submit_worksheet`].
pub fn reldex_workspace_save_worksheet(
    boundary: &mut Boundary,
    id: IdParam,
    profile_id: IdParam,
    title: ReldexStr<'_>,
    text: ReldexStr<'_>,
    caret: u32,
    scroll: u32,
    tab_order: u32,
) -> (answer: Result<WorksheetDraft, ReldexStatus>)
    requires
        title.readable(),
        text.readable(),
    ensures
        old(boundary)@.in_waker ==> {
            &&& answer == Err::<WorksheetDraft, _>(ReldexStatus::Reentrant)
            &&& final(boundary)@ == old(boundary)@.refused()
        },
        !old(boundary)@.in_waker ==> if id.required() is None {
            &&& answer == Err::<WorksheetDraft, _>(ReldexStatus::InvalidArgument)
            &&& final(boundary)@ == old(boundary)@.argument_error(
                "reldex_workspace_save_worksheet: `id` is null or not a valid worksheet id"@,
            )
        } else if profile_id is Invalid {
            &&& answer == Err::<WorksheetDraft, _>(ReldexStatus::InvalidArgument)
            &&& final(boundary)@ == old(boundary)@.argument_error(
                "reldex_workspace_save_worksheet: `profile_id` is not a valid profile id"@,
            )
        } else if title.text() is None || text.text() is None {
            &&& answer == Err::<WorksheetDraft, _>(ReldexStatus::InvalidArgument)
            &&& final(boundary)@ == old(boundary)@.argument_error(
                "reldex_workspace_save_worksheet: `title`/`text` is null or is not valid UTF-8"@,
            )
        } else {
            &&& answer matches Ok(draft) && drafts(draft, id, profile_id, title, text)
                && draft.state.caret == caret && draft.state.scroll == scroll && draft.tab_order
                == tab_order
            &&& final(boundary)@ == old(boundary)@
        },
{
    if boundary.refuse_reentrant() {
        return Err(ReldexStatus::Reentrant);
    }
    let id = match id.get() {
        Some(id) => id,
        None => return Err(
            boundary.set_last_argument_error(
                "reldex_workspace_save_worksheet: `id` is null or not a valid worksheet id",
            ),
        ),
    };
    if let IdParam::Invalid = profile_id {
        return Err(
            boundary.set_last_argument_error(
                "reldex_workspace_save_worksheet: `profile_id` is not a valid profile id",
            ),
        );
    }
    match (title.as_str(), text.as_str()) {
        (Some(title), Some(text)) => Ok(
            WorksheetDraft {
                id,
                profile: profile_id.get(),
                state: WorksheetState {
                    title: title.to_owned(),
                    text: text.to_owned(),
                    caret,
                    scroll,
                },
                tab_order,
            },
        ),
        _ => Err(
            boundary.set_last_argument_error(
                "reldex_workspace_save_worksheet: `title`/`text` is null or is not valid UTF-8",
            ),
        ),
    }
}

/// Asks for a worksheet to be saved: inserted, or put in place of the one with
/// its id. `made` is what the store made of the draft, or how it words that it
/// cannot be a worksheet, which the reply will say.
pub fn submit_worksheet(
    boundary: &mut Boundary,
    workspace: Option<&ReldexWorkspace>,
    request: u64,
    made: Result<Worksheet, String>,
) -> (answer: Result<WorkspaceCommand, ReldexStatus>)
    ensures
        match refusal(None, workspace) {
            Some(message) => {
                &&& answer == Err::<WorkspaceCommand, _>(ReldexStatus::InvalidArgument)
                &&& final(boundary)@ == old(boundary)@.argument_error(message)
            },
            None => {
                &&& answer == Ok::<_, ReldexStatus>(
                    WorkspaceCommand {
                        request,
                        operation: Operation::SaveWorksheet { worksheet: made },
                    },
                )
                &&& final(boundary)@ == old(boundary)@
            },
        },
{
    submit(boundary, workspace, request, Operation::SaveWorksheet { worksheet: made })
}

/// Asks for every open worksheet, in tab order.
pub fn reldex_workspace_load_worksheets(
    boundary: &mut Boundary,
    workspace: Option<&ReldexWorkspace>,
    request: u64,
) -> (answer: Result<WorkspaceCommand, ReldexStatus>)
    ensures
        answered(
            old(boundary)@,
            final(boundary)@,
            refusal(None, workspace),
            request,
            answer,
        ),
        answer matches Ok(command) ==> command.operation == Operation::LoadWorksheets,
{
    if boundary.refuse_reentrant() {
        return Err(ReldexStatus::Reentrant);
    }
    submit(boundary, workspace, request, Operation::LoadWorksheets)
}

/// Asks for a worksheet to be deleted.
pub fn reldex_workspace_delete_worksheet(
    boundary: &mut Boundary,
    workspace: Option<&ReldexWorkspace>,
    request: u64,
    id: IdParam,
) -> (answer: Result<WorkspaceCommand, ReldexStatus>)
    ensures
        answered(
            old(boundary)@,
            final(boundary)@,
            refusal(
                if id.required() is None {
                    Some("reldex_workspace_delete_worksheet: `id` is null or not a valid worksheet id"@)
                } else {
                    None
                },
                workspace,
            ),
            request,
            answer,
        ),
        answer matches Ok(command) ==> command.operation == (Operation::DeleteWorksheet {
            id: id.required()->0,
        }),
{
    if boundary.refuse_reentrant() {
        return Err(ReldexStatus::Reentrant);
    }
    match id.get() {
        Some(id) => submit(boundary, workspace, request, Operation::DeleteWorksheet { id }),
        None => Err(
            boundary.set_last_argument_error(
                "reldex_workspace_delete_worksheet: `id` is null or not a valid worksheet id",
            ),
        ),
    }
}

/// Asks for the layout to be saved, in place of any that is there. `worksheet`
/// and `profile` are the two ids in it as the store reads them.
pub fn reldex_workspace_save_layout(
    boundary: &mut Boundary,
    workspace: Option<&ReldexWorkspace>,
    request: u64,
    layout: InParam<ReldexLayout>,
    worksheet: Result<[u8; 16], String>,
    profile: Result<[u8; 16], String>,
) -> (answer: Result<WorkspaceCommand, ReldexStatus>)
    ensures
        answered(
            old(boundary)@,
            final(boundary)@,
            refusal(
                if layout !is Given {
                    Some(
                        "reldex_workspace_save_layout: `layout` is null, unaligned, or its struct_size is too small"@,
                    )
                } else if layout->Given_0.meant(worksheet, profile) is Err {
                    Some(
                        "reldex_workspace_save_layout: `layout` names an id that is not a valid UUID"@,
                    )
                } else {
                    None
                },
                workspace,
            ),
            request,
            answer,
        ),
        answer matches Ok(command) ==> command.operation == (Operation::SaveLayout {
            layout: layout->Given_0.meant(worksheet, profile)->Ok_0,
        }),
{
    if boundary.refuse_reentrant() {
        return Err(ReldexStatus::Reentrant);
    }
    let layout = match layout {
        InParam::Given(layout) => layout,
        _ => return Err(
            boundary.set_last_argument_error(
                "reldex_workspace_save_layout: `layout` is null, unaligned, or its struct_size is too small",
            ),
        ),
    };
    match layout.to_layout(&worksheet, &profile) {
        Ok(layout) => submit(boundary, workspace, request, Operation::SaveLayout { layout }),
        Err(_) => Err(
            boundary.set_last_argument_error(
                "reldex_workspace_save_layout: `layout` names an id that is not a valid UUID",
            ),
        ),
    }
}

/// Asks for the layout, where one was saved.
pub fn reldex_workspace_load_layout(
    boundary: &mut Boundary,
    workspace: Option<&ReldexWorkspace>,
    request: u64,
) -> (answer: Result<WorkspaceCommand, ReldexStatus>)
    ensures
        answered(
            old(boundary)@,
            final(boundary)@,
            refusal(None, workspace),
            request,
            answer,
        ),
        answer matches Ok(command) ==> command.operation == Operation::LoadLayout,
{
    if boundary.refuse_reentrant() {
        return Err(ReldexStatus::Reentrant);
    }
    submit(boundary, workspace, request, Operation::LoadLayout)
}

/// A value is set, and cleared, where its caller said: the setting is the one the
/// number names, the scope is the level that was named with the caller's own id,
/// and the value is the one that was passed.
pub proof fn a_setting_is_set_where_its_caller_said(
    boundary: &mut Boundary,
    workspace: &ReldexWorkspace,
    request: u64,
    setting_id: i32,
    level: i32,
    profile: Result<[u8; 16], String>,
    worksheet: Result<[u8; 16], String>,
    value: ReldexSettingValue,
    set: Result<WorkspaceCommand, ReldexStatus>,
    again: &mut Boundary,
    cleared: Result<WorkspaceCommand, ReldexStatus>,
)
    requires
        !old(boundary).in_waker,
        !old(again).in_waker,
        workspace@.open,
        call_ensures(
            reldex_workspace_set_setting,
            (
                boundary,
                Some(workspace),
                request,
                setting_id,
                level,
                profile,
                worksheet,
                InParam::Given(value),
            ),
            set,
        ),
        call_ensures(
            reldex_workspace_clear_setting,
            (again, Some(workspace), request, setting_id, level, profile, worksheet),
            cleared,
        ),
    ensures
        cleared is Ok <==> 1 <= setting_id <= 8 && (level == 2 || (level == 3 && profile is Ok) || (
        level == 4 && worksheet is Ok)),
        set is Ok ==> cleared is Ok,
        set matches Ok(command) ==> {
            &&& command.request == request
            &&& command.operation matches Operation::SetSetting { scope, setting, value: sent }
            &&& scope is Application <==> level == 2
            &&& level == 3 ==> (scope matches Scope::Profile(id) && profile == Ok::<_, String>(id))
            &&& level == 4 ==> (scope matches Scope::Worksheet(id) && worksheet == Ok::<_, String>(
                id,
            ))
            &&& setting == SettingId::ConnectTimeout <==> setting_id == 1
            &&& setting == SettingId::RewriteTriggerDdl <==> setting_id == 2
            &&& setting == SettingId::StatementTimeLimit <==> setting_id == 3
            &&& setting == SettingId::FetchRows <==> setting_id == 4
            &&& setting == SettingId::FetchesInFlight <==> setting_id == 5
            &&& setting == SettingId::ServerOutputEnabled <==> setting_id == 6
            &&& setting == SettingId::ServerOutputBuffer <==> setting_id == 7
            &&& setting == SettingId::HistoryMaxEntriesPerProfile <==> setting_id == 8
            &&& value.kind == 1 ==> sent == SettingValue::Bool(value.bool_value)
            &&& value.kind == 3 ==> sent == SettingValue::Count(value.count_value)
            &&& value.kind == 2 ==> sent == SettingValue::TimeLimit(
                if value.no_limit {
                    None
                } else {
                    Some(value.number_value)
                },
            )
            &&& value.kind == 4 ==> sent == SettingValue::ByteLimit(
                if value.no_limit {
                    None
                } else {
                    Some(value.number_value)
                },
            )
            &&& value.kind == 5 ==> sent == SettingValue::EntryLimit(
                if value.no_limit {
                    None
                } else {
                    Some(value.number_value)
                },
            )
        },
        cleared matches Ok(command) ==> {
            &&& command.request == request
            &&& command.operation matches Operation::ClearSetting { scope, setting }
            &&& scope is Application <==> level == 2
            &&& level == 3 ==> (scope matches Scope::Profile(id) && profile == Ok::<_, String>(id))
            &&& level == 4 ==> (scope matches Scope::Worksheet(id) && worksheet == Ok::<_, String>(
                id,
            ))
            &&& setting == SettingId::FetchRows <==> setting_id == 4
            &&& setting == SettingId::ConnectTimeout <==> setting_id == 1
        },
        set is Err ==> final(boundary)@.last_error is Some,
        cleared is Err ==> final(again)@.last_error is Some,
{
}

/// A setting is resolved for the profile and the worksheet its caller named, and
/// for none where it named none.
pub proof fn a_setting_is_resolved_for_whom_it_was_asked(
    boundary: &mut Boundary,
    workspace: &ReldexWorkspace,
    request: u64,
    setting_id: i32,
    profile: IdParam,
    worksheet: IdParam,
    answer: Result<WorkspaceCommand, ReldexStatus>,
)
    requires
        !old(boundary).in_waker,
        workspace@.open,
        call_ensures(
            reldex_workspace_resolve_setting,
            (boundary, Some(workspace), request, setting_id, profile, worksheet),
            answer,
        ),
    ensures
        answer is Ok <==> 1 <= setting_id <= 8 && profile !is Invalid && worksheet !is Invalid,
        answer matches Ok(command) ==> {
            &&& command.request == request
            &&& command.operation matches Operation::ResolveSetting {
                setting,
                profile: of_profile,
                worksheet: of_worksheet,
            }
            &&& setting == SettingId::FetchRows <==> setting_id == 4
            &&& setting == SettingId::StatementTimeLimit <==> setting_id == 3
            &&& profile is Null <==> of_profile is None
            &&& profile matches IdParam::Valid(id) ==> of_profile == Some(id)
            &&& worksheet is Null <==> of_worksheet is None
            &&& worksheet matches IdParam::Valid(id) ==> of_worksheet == Some(id)
        },
{
}

/// A request about one profile is about the profile its caller named, and is what
/// the call is named after: reading it, deleting it, reading, deleting or
/// resolving its password, or clearing its history. An id that is none is
/// refused.
pub proof fn a_request_is_about_the_profile_it_names(
    boundary: &mut Boundary,
    workspace: &ReldexWorkspace,
    request: u64,
    profile: IdParam,
    answer: Result<WorkspaceCommand, ReldexStatus>,
)
    requires
        !old(boundary).in_waker,
        workspace@.open,
    ensures
        ({
            let arguments = (boundary, Some(workspace), request, profile);
            let gets = call_ensures(reldex_workspace_get_profile, arguments, answer);
            let deletes = call_ensures(reldex_workspace_delete_profile, arguments, answer);
            let reads = call_ensures(reldex_workspace_credential_get, arguments, answer);
            let forgets = call_ensures(reldex_workspace_credential_delete, arguments, answer);
            let resolves = call_ensures(reldex_workspace_resolve_password, arguments, answer);
            let clears = call_ensures(reldex_workspace_clear_history, arguments, answer);
            let drops = call_ensures(reldex_workspace_delete_worksheet, arguments, answer);
            &&& gets || deletes || reads || forgets || resolves || clears || drops ==> {
                &&& answer is Ok <==> profile is Valid
                &&& answer is Err ==> final(boundary)@.last_error is Some
                &&& answer matches Ok(command) ==> command.request == request
            }
            &&& answer matches Ok(command) ==> {
                let id = profile->Valid_0;
                &&& gets ==> command.operation == (Operation::GetProfile { id })
                &&& deletes ==> command.operation == (Operation::DeleteProfile { id })
                &&& reads ==> command.operation == (Operation::CredentialGet { id })
                &&& forgets ==> command.operation == (Operation::CredentialDelete { id })
                &&& resolves ==> command.operation == (Operation::ResolvePassword { id })
                &&& clears ==> command.operation == (Operation::ClearHistory { profile: id })
                &&& drops ==> command.operation == (Operation::DeleteWorksheet { id })
            }
        }),
{
}

/// A request for everything of a sort asks for that sort.
pub proof fn a_listing_asks_for_what_it_is_named_after(
    boundary: &mut Boundary,
    workspace: &ReldexWorkspace,
    request: u64,
    answer: Result<WorkspaceCommand, ReldexStatus>,
)
    requires
        !old(boundary).in_waker,
        workspace@.open,
    ensures
        call_ensures(reldex_workspace_list_profiles, (boundary, Some(workspace), request), answer)
            ==> (answer matches Ok(command) && command.request == request
            && command.operation is ListProfiles),
        call_ensures(reldex_workspace_load_worksheets, (boundary, Some(workspace), request), answer)
            ==> (answer matches Ok(command) && command.request == request
            && command.operation is LoadWorksheets),
        call_ensures(reldex_workspace_load_layout, (boundary, Some(workspace), request), answer)
            ==> (answer matches Ok(command) && command.request == request
            && command.operation is LoadLayout),
{
}

/// A profile is created, or changed, with what its caller entered, and the one that
/// is changed is the one that was named.
pub proof fn a_profile_is_saved_as_entered(
    boundary: &mut Boundary,
    workspace: &ReldexWorkspace,
    request: u64,
    id: IdParam,
    details: ReldexProfileDetails<'_>,
    answer: Result<WorkspaceCommand, ReldexStatus>,
)
    requires
        !old(boundary).in_waker,
        workspace@.open,
    ensures
        call_ensures(
            reldex_workspace_create_profile,
            (boundary, Some(workspace), request, InParam::Given(details)),
            answer,
        ) ==> {
            &&& answer is Ok <==> entered(details) is Ok
            &&& answer matches Ok(command) ==> command.request == request && (
            command.operation matches Operation::CreateProfile { details: read }
                && entered(details) == Ok::<_, Seq<char>>(read@))
        },
        call_ensures(
            reldex_workspace_update_profile,
            (boundary, Some(workspace), request, id, InParam::Given(details)),
            answer,
        ) ==> {
            &&& answer is Ok <==> entered(details) is Ok && id is Valid
            &&& answer matches Ok(command) ==> command.request == request && (
            command.operation matches Operation::UpdateProfile { id: named, details: read } && named
                == id->Valid_0 && entered(details) == Ok::<_, Seq<char>>(read@))
        },
{
}

/// A password goes with the request it was passed to, byte for byte, for the
/// profile that was named; where none was passed none goes.
pub proof fn a_password_goes_with_its_request(
    boundary: &mut Boundary,
    workspace: &ReldexWorkspace,
    request: u64,
    profile: IdParam,
    secret: Option<&ReldexSecret>,
    password: ReldexStr<'_>,
    answer: Result<WorkspaceCommand, ReldexStatus>,
)
    requires
        !old(boundary).in_waker,
        workspace@.open,
        password.readable(),
    ensures
        call_ensures(
            reldex_workspace_build_connect_params,
            (boundary, Some(workspace), request, profile, secret),
            answer,
        ) ==> {
            &&& answer is Ok <==> profile is Valid
            &&& answer matches Ok(command) ==> command.request == request && (
            command.operation matches Operation::BuildConnectParams { id, password: passed } && id
                == profile->Valid_0 && (passed is Some <==> secret is Some) && (
            passed matches Some(passed) ==> passed@ == secret->0@))
        },
        call_ensures(
            reldex_workspace_credential_put,
            (boundary, Some(workspace), request, profile, password),
            answer,
        ) ==> {
            &&& answer is Ok <==> profile is Valid && password.text() is Some
            &&& answer matches Ok(command) ==> command.request == request && (
            command.operation matches Operation::CredentialPut { id, secret: stored } && id
                == profile->Valid_0 && stored@.len() == password.len && (password.len > 0
                ==> stored@ == password.ptr->0@.subrange(0, password.len as int)))
        },
{
    crate::strings::a_string_is_read_as_its_bytes(password);
    if password.text() == Some(Seq::<char>::empty()) {
        assert(vstd::utf8::encode_utf8(Seq::<char>::empty()) =~= Seq::<u8>::empty());
    }
}

/// History records what its caller reported: whose it is, when, which statement,
/// how it ended, how long it took and how many rows, where that is known. A page
/// of it is the caller's: at most its limit, behind its id where one was given.
pub proof fn history_records_what_was_reported(
    boundary: &mut Boundary,
    workspace: &ReldexWorkspace,
    request: u64,
    profile: IdParam,
    executed_at_ms: u64,
    statement: ReldexStr<'_>,
    outcome_kind: i32,
    native_code: i32,
    has_native_code: bool,
    elapsed_ms: u64,
    row_count: u64,
    has_row_count: bool,
    answer: Result<WorkspaceCommand, ReldexStatus>,
)
    requires
        !old(boundary).in_waker,
        workspace@.open,
        call_ensures(
            reldex_workspace_record_history,
            (
                boundary,
                Some(workspace),
                request,
                profile,
                executed_at_ms,
                statement,
                outcome_kind,
                native_code,
                has_native_code,
                elapsed_ms,
                row_count,
                has_row_count,
            ),
            answer,
        ),
    ensures
        answer is Ok <==> profile is Valid && statement.text() is Some && 1 <= outcome_kind <= 4,
        answer matches Ok(command) ==> {
            &&& command.request == request
            &&& command.operation matches Operation::RecordHistory { entry }
            &&& entry.profile == profile->Valid_0
            &&& Some(entry.statement@) == statement.text()
            &&& entry.elapsed_ms == elapsed_ms
            &&& entry.row_count is Some <==> has_row_count
            &&& entry.row_count matches Some(rows) ==> rows == row_count
            &&& executed_at_ms <= 0x7fff_ffff_ffff_ffff ==> entry.executed_at == executed_at_ms
            &&& executed_at_ms > 0x7fff_ffff_ffff_ffff ==> entry.executed_at
                == 0x7fff_ffff_ffff_ffff
            &&& entry.outcome is Succeeded <==> outcome_kind == 1
            &&& entry.outcome is Cancelled <==> outcome_kind == 3
            &&& entry.outcome is TimedOut <==> outcome_kind == 4
            &&& outcome_kind == 2 ==> (entry.outcome matches HistoryOutcome::Failed {
                native_code: code,
            } && (code is Some <==> has_native_code) && (code matches Some(code) ==> code
                == native_code))
        },
{
}

/// A page of history is the one its caller asked for.
pub proof fn a_page_of_history_is_the_one_asked_for(
    boundary: &mut Boundary,
    workspace: &ReldexWorkspace,
    request: u64,
    profile: IdParam,
    limit: u32,
    before_id: u64,
    has_before: bool,
    answer: Result<WorkspaceCommand, ReldexStatus>,
)
    requires
        !old(boundary).in_waker,
        workspace@.open,
        call_ensures(
            reldex_workspace_list_history,
            (boundary, Some(workspace), request, profile, limit, before_id, has_before),
            answer,
        ),
    ensures
        answer is Ok <==> profile is Valid,
        answer matches Ok(command) ==> {
            &&& command.request == request
            &&& command.operation matches Operation::ListHistory { profile: of, page }
            &&& of == profile->Valid_0
            &&& page.limit == limit
            &&& page.before is Some <==> has_before
            &&& page.before matches Some(before) ==> (before_id <= 0x7fff_ffff_ffff_ffff ==> before
                == before_id)
        },
{
}

/// A worksheet is saved as it stands: its title and text, its caret and scroll
/// position, its place among the tabs, and the profile it belongs to, if any.
pub proof fn a_worksheet_is_saved_as_it_stands(
    boundary: &mut Boundary,
    id: IdParam,
    profile_id: IdParam,
    title: ReldexStr<'_>,
    text: ReldexStr<'_>,
    caret: u32,
    scroll: u32,
    tab_order: u32,
    answer: Result<WorksheetDraft, ReldexStatus>,
)
    requires
        !old(boundary).in_waker,
        call_ensures(
            reldex_workspace_save_worksheet,
            (boundary, id, profile_id, title, text, caret, scroll, tab_order),
            answer,
        ),
    ensures
        answer is Ok <==> id is Valid && profile_id !is Invalid && title.text() is Some
            && text.text() is Some,
        answer matches Ok(draft) ==> {
            &&& draft.id == id->Valid_0
            &&& draft.profile is Some <==> profile_id is Valid
            &&& draft.profile matches Some(profile) ==> profile == profile_id->Valid_0
            &&& Some(draft.state.title@) == title.text()
            &&& Some(draft.state.text@) == text.text()
            &&& draft.state.caret == caret
            &&& draft.state.scroll == scroll
            &&& draft.tab_order == tab_order
        },
{
}

/// What the store made of a worksheet goes to the service as it is.
pub proof fn a_made_worksheet_is_sent_as_it_is(
    boundary: &mut Boundary,
    workspace: &ReldexWorkspace,
    request: u64,
    made: Result<Worksheet, String>,
    answer: Result<WorkspaceCommand, ReldexStatus>,
)
    requires
        call_ensures(submit_worksheet, (boundary, Some(workspace), request, made), answer),
    ensures
        answer is Ok <==> workspace@.open,
        answer matches Ok(command) ==> command.request == request && (
        command.operation matches Operation::SaveWorksheet { worksheet } && worksheet == made),
{
}

/// A workspace takes requests until it is closed, and from then on none; what
/// waits in its queue stays to be drained, and nobody is woken any more.
pub proof fn a_workspace_takes_requests_until_it_is_closed(
    boundary: &mut Boundary,
    workspace: &mut ReldexWorkspace,
    later: &mut Boundary,
    request: u64,
    answer: Result<WorkspaceCommand, ReldexStatus>,
)
    requires
        !old(boundary).in_waker,
        !old(later).in_waker,
        call_ensures(reldex_workspace_close, (boundary, Some(workspace)), ()),
        call_ensures(
            reldex_workspace_list_profiles,
            (later, Some(final(workspace)), request),
            answer,
        ),
    ensures
        answer is Err,
        final(later)@.last_error is Some,
        final(workspace)@.replies == old(workspace)@.replies,
        final(workspace)@.destroyed,
        !final(workspace)@.waker,
{
}

/// A workspace is opened on the path its caller gave, or in memory where it asked
/// for that; where its service cannot be had there is none.
pub proof fn a_workspace_is_opened_where_asked(
    boundary: &mut Boundary,
    path: ReldexStr<'_>,
    in_memory: bool,
    answer: Result<Option<String>, ReldexStatus>,
    later: &mut Boundary,
    spawned: bool,
    opened: Result<ReldexWorkspace, ReldexStatus>,
)
    requires
        !old(boundary).in_waker,
        call_ensures(reldex_workspace_open, (boundary, path, in_memory, true), answer),
        call_ensures(finish_open, (later, spawned), opened),
    ensures
        in_memory ==> answer == Ok::<_, ReldexStatus>(None::<String>),
        !in_memory && path.text() is None ==> answer is Err,
        !in_memory && path.text() is Some ==> (answer matches Ok(Some(opened_at))
            && Some(opened_at@) == path.text()),
        opened is Ok <==> spawned,
        opened matches Ok(workspace) ==> workspace@.open && !workspace@.destroyed
            && workspace@.replies.len() == 0,
{
}

/// The reply a caller drains is the oldest, the others stay in their order, and a
/// refused call drains none.
pub proof fn replies_are_drained_oldest_first(
    boundary: &mut Boundary,
    workspace: &mut ReldexWorkspace,
    valid: u32,
    reply: Option<ReldexWorkspaceReply>,
    counted: &mut Boundary,
    count: usize,
)
    requires
        !old(boundary).in_waker,
        !old(counted).in_waker,
        call_ensures(reldex_workspace_next_reply, (boundary, Some(workspace), Some(valid)), reply),
        call_ensures(reldex_workspace_pending_replies, (counted, Some(old(workspace))), count),
    ensures
        count == old(workspace)@.replies.len(),
        reply is Some <==> count > 0,
        reply matches Some(reply) ==> {
            let oldest = old(workspace)@.replies[0];
            &&& reply.struct_size == valid
            &&& reply.request == oldest.request
            &&& reply.kind == oldest.kind as i32
            &&& oldest.payload matches Err(error) ==> reply.error is Some && reply.error->0@
                == error@
            &&& oldest.payload matches Ok(payload) ==> (payload !is PasswordResolved
                ==> reply.error is None)
            &&& final(workspace)@.replies == old(workspace)@.replies.drop_first()
        },
        final(workspace)@.open == old(workspace)@.open,
{
    if old(workspace)@.replies.len() > 0 {
        assert(old(workspace)@.replies.skip(1) =~= old(workspace)@.replies.drop_first());
    }
}

/// A reply is put behind the others; its caller is woken exactly where it is the
/// first to wait, the workspace was not closed, and there is a waker.
pub proof fn a_reply_wakes_its_caller_once(
    workspace: &mut ReldexWorkspace,
    reply: QueuedWorkspaceReply,
    wake: bool,
)
    requires
        call_ensures(ReldexWorkspace::push_reply, (workspace, reply), wake),
    ensures
        final(workspace)@.replies == old(workspace)@.replies.push(reply),
        wake <==> old(workspace)@.replies.len() == 0 && old(workspace)@.waker
            && !old(workspace)@.destroyed,
        final(workspace)@.open == old(workspace)@.open,
{
}

/// A layout is saved as it was given, what is marked as there and nothing else; one
/// that names an id the store cannot read is refused.
pub proof fn a_layout_is_saved_as_given(
    boundary: &mut Boundary,
    workspace: Option<&ReldexWorkspace>,
    request: u64,
    layout: ReldexLayout,
    worksheet: Result<[u8; 16], String>,
    profile: Result<[u8; 16], String>,
    answer: Result<WorkspaceCommand, ReldexStatus>,
)
    requires
        call_ensures(
            reldex_workspace_save_layout,
            (boundary, workspace, request, InParam::Given(layout), worksheet, profile),
            answer,
        ),
    ensures
        answer is Ok ==> {
            &&& workspace is Some && !old(boundary)@.in_waker
            &&& layout.has_active_worksheet ==> worksheet is Ok
            &&& layout.has_active_profile ==> profile is Ok
            &&& answer->Ok_0.request == request
            &&& answer->Ok_0.operation is SaveLayout
        },
        answer matches Ok(command) ==> {
            let saved = command.operation->SaveLayout_layout;
            &&& saved.active_worksheet is Some <==> layout.has_active_worksheet
            &&& saved.active_worksheet matches Some(id) ==> worksheet == Ok::<_, String>(id)
            &&& saved.active_profile is Some <==> layout.has_active_profile
            &&& saved.active_profile matches Some(id) ==> profile == Ok::<_, String>(id)
            &&& saved.panes.object_browser_width is Some <==> layout.has_object_browser_width
            &&& saved.panes.object_browser_width matches Some(width) ==> width
                == layout.object_browser_width
            &&& saved.panes.result_pane_height is Some <==> layout.has_result_pane_height
            &&& saved.panes.result_pane_height matches Some(height) ==> height
                == layout.result_pane_height
            &&& saved.window.x is Some <==> layout.has_window_position
            &&& saved.window.x matches Some(x) ==> x == layout.window_x
            &&& saved.window.y matches Some(y) ==> y == layout.window_y
            &&& saved.window.width is Some <==> layout.has_window_size
            &&& saved.window.width matches Some(width) ==> width == layout.window_width
            &&& saved.window.height matches Some(height) ==> height == layout.window_height
            &&& saved.window.maximized == layout.window_maximized
        },
{
}

/// A waker is registered or taken back as its caller says, and nothing else of the
/// workspace changes.
pub proof fn a_waker_is_set_as_asked(
    boundary: &mut Boundary,
    workspace: Option<&mut ReldexWorkspace>,
    registered: bool,
    status: ReldexStatus,
)
    requires
        call_ensures(reldex_workspace_set_waker, (boundary, workspace, registered), status),
    ensures
        status == ReldexStatus::Okay <==> !old(boundary)@.in_waker && workspace is Some,
        workspace matches Some(workspace) ==> {
            &&& status == ReldexStatus::Okay ==> final(workspace)@.waker == registered
            &&& status != ReldexStatus::Okay ==> final(workspace)@ == workspace@
            &&& (WorkspaceModel { waker: workspace@.waker, ..final(workspace)@ }) == workspace@
        },
{
}

/// A request is accepted exactly where it was sent; one that could not be is told
/// that the workspace has been closed.
pub proof fn only_a_sent_request_is_accepted(
    boundary: &mut Boundary,
    sent: Result<(), WorkspaceCommand>,
    status: ReldexStatus,
)
    requires
        call_ensures(finish_request, (boundary, sent), status),
    ensures
        status == ReldexStatus::Okay <==> sent is Ok,
        sent is Ok ==> final(boundary)@ == old(boundary)@,
        sent is Err ==> {
            &&& status == ReldexStatus::InvalidArgument
            &&& final(boundary)@.last_error is Some
            &&& final(boundary)@.last_error->0.message
                == "reldex-ffi: "@ + "reldex_workspace: the workspace has been closed"@
        },
{
}

/// A setting is taken exactly where its number is known, its level can be set and
/// its value says something: a switch or a count always does, a limit where it is
/// none or above zero. A layout is taken where the ids that it marks as there are
/// ids.
pub proof fn a_well_made_value_is_taken(
    boundary: &mut Boundary,
    workspace: ReldexWorkspace,
    request: u64,
    setting_id: i32,
    level: i32,
    profile: Result<[u8; 16], String>,
    worksheet: Result<[u8; 16], String>,
    value: ReldexSettingValue,
    set: Result<WorkspaceCommand, ReldexStatus>,
    again: &mut Boundary,
    layout: ReldexLayout,
    saved: Result<WorkspaceCommand, ReldexStatus>,
)
    requires
        !old(boundary)@.in_waker,
        !old(again)@.in_waker,
        call_ensures(
            reldex_workspace_set_setting,
            (
                boundary,
                Some(&workspace),
                request,
                setting_id,
                level,
                profile,
                worksheet,
                InParam::Given(value),
            ),
            set,
        ),
        call_ensures(
            reldex_workspace_save_layout,
            (again, Some(&workspace), request, InParam::Given(layout), worksheet, profile),
            saved,
        ),
    ensures
        set is Ok <==> {
            &&& workspace@.open
            &&& 1 <= setting_id <= 8
            &&& level == 2 || (level == 3 && profile is Ok) || (level == 4 && worksheet is Ok)
            &&& value.kind == 1 || value.kind == 3 || ((value.kind == 2 || value.kind == 4
                || value.kind == 5) && (value.no_limit || value.number_value > 0))
        },
        saved is Ok <==> {
            &&& workspace@.open
            &&& layout.has_active_worksheet ==> worksheet is Ok
            &&& layout.has_active_profile ==> profile is Ok
        },
{
}

} // verus!
