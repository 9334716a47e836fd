//! What the workspace's service does for each command: which calls it makes to
//! the store and the credential store, in what order, and what it replies.
//!
//! The calls themselves block and stay outside. A command is run step by step:
//! each step is a call to make, or the reply. What a call returned is handed
//! back with [`resume`]. The service keeps what its calls have read (a profile,
//! layers of settings) for the calls that come after.

use vstd::prelude::*;

use crate::connect::{credential_error, credential_failure, forget, ConnectionParams,
    CredentialError, PasswordSource, Secret};
use crate::error::{DbError, ErrorKind, ErrorModel, ReldexErrorKind};
use crate::history::{HistoryEntry, HistoryPage, HistoryRecord};
use crate::profile::{Profile, ProfileDetails};
use crate::settings::{Level, Scope, SettingId, SettingValue};
use crate::worksheet::{Layout, Worksheet};

verus! {

/// Which request a reply answers.
///
/// `0` is reserved for a kind the caller's header predates. A reply with an
/// error is its request's failure, still delivered under its own kind.
#[derive(Debug, Clone, Copy, PartialEq, Eq, Structural)]
pub enum ReldexWorkspaceReplyKind {
    /// A kind this header does not know.
    Unknown,
    /// The store finished opening, or failed to.
    Opened,
    /// A setting was resolved.
    SettingResolved,
    /// A setting was set, or cleared: `found` is whether there was a value.
    SettingCleared,
    /// A profile was created or updated.
    ProfileSaved,
    /// A profile was deleted: `found` is whether there was one.
    ProfileDeleted,
    /// A profile was asked for: `found` is whether there is one.
    ProfileFetched,
    /// The profiles were listed.
    ProfilesListed,
    /// Connection parameters were built.
    ConnectParamsBuilt,
    /// A password was asked for: `found` is whether there is one.
    CredentialGot,
    /// A password was stored.
    CredentialPut,
    /// A password was deleted: `found` is whether there was one.
    CredentialDeleted,
    /// It was decided where a password comes from.
    PasswordResolved,
    /// A statement was recorded.
    HistoryRecorded,
    /// A page of history was listed.
    HistoryListed,
    /// A history was cleared: `count` is how many records there were.
    HistoryCleared,
    /// A worksheet was saved.
    WorksheetSaved,
    /// The worksheets were loaded.
    WorksheetsLoaded,
    /// A worksheet was deleted: `found` is whether there was one.
    WorksheetDeleted,
    /// The layout was saved.
    LayoutSaved,
    /// The layout was loaded: `found` is whether there was one.
    LayoutLoaded,
}

/// What a request asks for. Ids are those the store accepted.
#[allow(inconsistent_fields)]
pub enum Operation {
    ResolveSetting { setting: SettingId, profile: Option<[u8; 16]>, worksheet: Option<[u8; 16]> },
    SetSetting { scope: Scope, setting: SettingId, value: SettingValue },
    ClearSetting { scope: Scope, setting: SettingId },
    CreateProfile { details: ProfileDetails<String> },
    UpdateProfile { id: [u8; 16], details: ProfileDetails<String> },
    DeleteProfile { id: [u8; 16] },
    GetProfile { id: [u8; 16] },
    ListProfiles,
    BuildConnectParams { id: [u8; 16], password: Option<Secret> },
    CredentialGet { id: [u8; 16] },
    CredentialPut { id: [u8; 16], secret: Secret },
    CredentialDelete { id: [u8; 16] },
    ResolvePassword { id: [u8; 16] },
    RecordHistory { entry: HistoryEntry },
    ListHistory { profile: [u8; 16], page: HistoryPage },
    ClearHistory { profile: [u8; 16] },
    /// The worksheet, or how the store words that it cannot be one.
    SaveWorksheet { worksheet: Result<Worksheet, String> },
    LoadWorksheets,
    DeleteWorksheet { id: [u8; 16] },
    SaveLayout { layout: Layout },
    LoadLayout,
}

/// One request to the service, with the caller's own id.
pub struct WorkspaceCommand {
    pub request: u64,
    pub operation: Operation,
}

/// A call to the store or the credential store.
pub enum StoreCall {
    /// Read the application's settings, and keep them.
    ReadApplicationSettings,
    /// Read a profile's settings, and keep them.
    ReadProfileSettings { id: [u8; 16] },
    /// Read a worksheet's settings, and keep them.
    ReadWorksheetSettings { id: [u8; 16] },
    /// Resolve a setting over the layers that were kept.
    ResolveSetting { setting: SettingId },
    PutSetting { scope: Scope, setting: SettingId, value: SettingValue },
    ClearSetting { scope: Scope, setting: SettingId },
    /// Make a new profile, and keep it.
    MakeProfile { details: ProfileDetails<String> },
    /// Insert the profile that was kept.
    InsertProfile,
    /// Read a profile, and keep it.
    ReadProfile { id: [u8; 16] },
    /// Change the profile that was kept.
    ChangeProfile { details: ProfileDetails<String> },
    /// Write the profile that was kept.
    WriteProfile,
    DeleteProfile { id: [u8; 16] },
    ListProfiles,
    /// Map the profile that was kept, with the settings that were kept, onto
    /// connection parameters.
    MapConnection { password: Option<Secret> },
    GetCredential { id: [u8; 16] },
    PutCredential { id: [u8; 16], secret: Secret },
    DeleteCredential { id: [u8; 16] },
    /// Decide where the password of the profile that was kept comes from.
    ResolvePassword,
    RecordHistory { entry: HistoryEntry },
    ListHistory { profile: [u8; 16], page: HistoryPage },
    ClearHistory { profile: [u8; 16] },
    SaveWorksheet { worksheet: Worksheet },
    LoadWorksheets,
    DeleteWorksheet { id: [u8; 16] },
    SaveLayout { layout: Layout },
    LoadLayout,
}

/// An id, and when what it names was made and last changed, in milliseconds
/// since 1970.
#[derive(Debug, Clone, Copy)]
pub struct Stamp {
    pub id: [u8; 16],
    pub created_at: i64,
    pub updated_at: i64,
}

/// What a call returned.
pub enum StoreAnswer {
    /// It was done.
    Done,
    /// A layer of settings was read.
    SettingsRead,
    Resolved { value: SettingValue, source: Level },
    Existed(bool),
    /// A profile was read.
    FoundProfile(Profile<String>),
    /// There is no such profile. The text is how the store words that.
    NoProfile(String),
    /// A profile was made or changed.
    ProfileMade(Stamp),
    Profiles(Vec<Profile<String>>),
    Params(ConnectionParams<String>),
    Credential(Option<Secret>),
    Password(PasswordSource),
    Recorded(i64),
    Records(Vec<HistoryRecord>),
    Cleared(usize),
    Worksheets(Vec<Worksheet>),
    SavedLayout(Option<Layout>),
}

/// Which kind of failure the store reported.
#[derive(Debug, Clone, Copy, PartialEq, Eq, Structural)]
pub enum StoreErrorKind {
    InvalidProfile,
    InvalidSetting,
    InvalidHistory,
    InvalidWorksheet,
    ProfileNotFound,
    ProfileExists,
    WorksheetNotFound,
    /// Anything else.
    Backend,
}

/// A failure of the store, with its own words.
#[derive(Debug)]
pub struct StoreError {
    pub kind: StoreErrorKind,
    pub text: String,
}

/// How a call failed.
#[derive(Debug)]
pub enum StoreFailure {
    Store(StoreError),
    /// A profile's details were refused; the text says why.
    Profile(String),
    Credential(CredentialError),
    /// A profile could not be mapped onto connection parameters; the text says
    /// why.
    Connect(String),
}

/// Whose fault a failure of the store is: the input's, or the store's.
pub open spec fn store_fault(kind: StoreErrorKind) -> ReldexErrorKind {
    if kind == StoreErrorKind::Backend {
        ReldexErrorKind::Other
    } else {
        ReldexErrorKind::Configuration
    }
}

/// A failure behind the name of what failed.
pub open spec fn named_failure(kind: ReldexErrorKind, name: Seq<char>, text: Seq<char>) -> ErrorModel {
    ErrorModel::plain(kind, name + ": "@ + text)
}

/// A failure of a call, as the caller is told it.
pub open spec fn failure_of(name: Seq<char>, failure: StoreFailure) -> ErrorModel {
    match failure {
        StoreFailure::Store(error) => named_failure(store_fault(error.kind), name, error.text@),
        StoreFailure::Profile(text) => named_failure(ReldexErrorKind::Configuration, name, text@),
        StoreFailure::Credential(error) => credential_failure(name, error),
        StoreFailure::Connect(text) => named_failure(ReldexErrorKind::Configuration, name, text@),
    }
}

/// A failure behind the name of what failed.
fn named_error(kind: ErrorKind, name: &str, text: &String) -> (error: DbError)
    ensures
        error@ == named_failure(ReldexErrorKind::of(kind), name@, text@),
{
    let mut message = String::from_str(name);
    message.append(": ");
    message.append(text.as_str());
    DbError::new(kind, message)
}

/// A failure of the store, as the caller is told it.
pub fn store_error(name: &str, error: &StoreError) -> (failure: DbError)
    ensures
        failure@ == named_failure(store_fault(error.kind), name@, error.text@),
{
    let kind = match error.kind {
        StoreErrorKind::InvalidProfile => ErrorKind::Configuration,
        StoreErrorKind::InvalidSetting => ErrorKind::Configuration,
        StoreErrorKind::InvalidHistory => ErrorKind::Configuration,
        StoreErrorKind::InvalidWorksheet => ErrorKind::Configuration,
        StoreErrorKind::ProfileNotFound => ErrorKind::Configuration,
        StoreErrorKind::ProfileExists => ErrorKind::Configuration,
        StoreErrorKind::WorksheetNotFound => ErrorKind::Configuration,
        StoreErrorKind::Backend => ErrorKind::Other,
    };
    named_error(kind, name, &error.text)
}

/// A failure of a call, as the caller is told it.
fn call_error(name: &str, failure: &StoreFailure) -> (error: DbError)
    ensures
        error@ == failure_of(name@, *failure),
{
    match failure {
        StoreFailure::Store(error) => store_error(name, error),
        StoreFailure::Profile(text) => named_error(ErrorKind::Configuration, name, text),
        StoreFailure::Credential(error) => credential_error(name, error),
        StoreFailure::Connect(text) => named_error(ErrorKind::Configuration, name, text),
    }
}

/// What a reply carries when its request succeeded.
pub enum WorkspacePayload {
    /// Nothing but that it was done.
    Nothing,
    SettingResolved { setting: SettingId, value: SettingValue, source: Level },
    Existed(bool),
    ProfileSaved(Stamp),
    ProfileFetched(Option<Profile<String>>),
    ProfilesListed(Vec<Profile<String>>),
    ConnectParamsBuilt(ConnectionParams<String>),
    CredentialGot(Option<Secret>),
    PasswordResolved(PasswordSource),
    HistoryRecorded(i64),
    HistoryListed(Vec<HistoryRecord>),
    HistoryCleared(usize),
    WorksheetSaved(Stamp),
    WorksheetsLoaded(Vec<Worksheet>),
    LayoutLoaded(Option<Layout>),
}

/// A reply that waits to be drained.
pub struct QueuedWorkspaceReply {
    pub kind: ReldexWorkspaceReplyKind,
    pub request: u64,
    pub payload: Result<WorkspacePayload, DbError>,
}

/// What a service waits for, while one of its calls is out.
pub enum Stage {
    /// The application's settings, to resolve a setting.
    ResolveApplication {
        setting: SettingId,
        profile: Option<[u8; 16]>,
        worksheet: Option<[u8; 16]>,
    },
    /// A profile's settings, to resolve a setting.
    ResolveProfile { setting: SettingId, worksheet: Option<[u8; 16]> },
    /// A worksheet's settings, to resolve a setting.
    ResolveWorksheet { setting: SettingId },
    /// A setting's value and source.
    Resolve { setting: SettingId },
    SetSetting,
    ClearSetting,
    /// A new profile.
    CreateMake,
    /// The new profile to be in the store.
    CreateInsert { stamp: Stamp },
    /// The profile to update.
    UpdateRead { details: ProfileDetails<String> },
    /// The profile to be changed.
    UpdateChange,
    /// The changed profile to be in the store.
    UpdateWrite { stamp: Stamp },
    DeleteProfile,
    GetProfile,
    ListProfiles,
    /// The profile to connect to.
    ConnectProfile { id: [u8; 16], password: Option<Secret> },
    /// The application's settings, to connect.
    ConnectApplication { id: [u8; 16], password: Option<Secret> },
    /// The profile's settings, to connect.
    ConnectSettings { password: Option<Secret> },
    /// The connection parameters.
    ConnectMap,
    CredentialGet,
    CredentialPut,
    CredentialDelete,
    /// The profile whose password is to be resolved.
    PasswordProfile,
    /// Where the password comes from.
    PasswordResolve,
    RecordHistory,
    ListHistory,
    ClearHistory,
    SaveWorksheet { stamp: Stamp },
    LoadWorksheets,
    DeleteWorksheet,
    SaveLayout,
    LoadLayout,
}

impl Operation {
    /// The kind of the reply to this.
    pub open spec fn kind(self) -> ReldexWorkspaceReplyKind {
        match self {
            Operation::ResolveSetting {
                setting,
                profile,
                worksheet,
            } => ReldexWorkspaceReplyKind::SettingResolved,
            Operation::SetSetting {
                scope,
                setting,
                value,
            } => ReldexWorkspaceReplyKind::SettingCleared,
            Operation::ClearSetting { scope, setting } => ReldexWorkspaceReplyKind::SettingCleared,
            Operation::CreateProfile { details } => ReldexWorkspaceReplyKind::ProfileSaved,
            Operation::UpdateProfile { id, details } => ReldexWorkspaceReplyKind::ProfileSaved,
            Operation::DeleteProfile { id } => ReldexWorkspaceReplyKind::ProfileDeleted,
            Operation::GetProfile { id } => ReldexWorkspaceReplyKind::ProfileFetched,
            Operation::ListProfiles => ReldexWorkspaceReplyKind::ProfilesListed,
            Operation::BuildConnectParams {
                id,
                password,
            } => ReldexWorkspaceReplyKind::ConnectParamsBuilt,
            Operation::CredentialGet { id } => ReldexWorkspaceReplyKind::CredentialGot,
            Operation::CredentialPut { id, secret } => ReldexWorkspaceReplyKind::CredentialPut,
            Operation::CredentialDelete { id } => ReldexWorkspaceReplyKind::CredentialDeleted,
            Operation::ResolvePassword { id } => ReldexWorkspaceReplyKind::PasswordResolved,
            Operation::RecordHistory { entry } => ReldexWorkspaceReplyKind::HistoryRecorded,
            Operation::ListHistory { profile, page } => ReldexWorkspaceReplyKind::HistoryListed,
            Operation::ClearHistory { profile } => ReldexWorkspaceReplyKind::HistoryCleared,
            Operation::SaveWorksheet { worksheet } => ReldexWorkspaceReplyKind::WorksheetSaved,
            Operation::LoadWorksheets => ReldexWorkspaceReplyKind::WorksheetsLoaded,
            Operation::DeleteWorksheet { id } => ReldexWorkspaceReplyKind::WorksheetDeleted,
            Operation::SaveLayout { layout } => ReldexWorkspaceReplyKind::LayoutSaved,
            Operation::LoadLayout => ReldexWorkspaceReplyKind::LayoutLoaded,
        }
    }

    /// What a failure of this is named after.
    pub open spec fn name(self) -> Seq<char> {
        match self {
            Operation::ResolveSetting { setting, profile, worksheet } => "resolve_setting"@,
            Operation::SetSetting { scope, setting, value } => "set_setting"@,
            Operation::ClearSetting { scope, setting } => "clear_setting"@,
            Operation::CreateProfile { details } => "create_profile"@,
            Operation::UpdateProfile { id, details } => "update_profile"@,
            Operation::DeleteProfile { id } => "delete_profile"@,
            Operation::GetProfile { id } => "get_profile"@,
            Operation::ListProfiles => "list_profiles"@,
            Operation::BuildConnectParams { id, password } => "build_connect_params"@,
            Operation::CredentialGet { id } => "credential_get"@,
            Operation::CredentialPut { id, secret } => "credential_put"@,
            Operation::CredentialDelete { id } => "credential_delete"@,
            Operation::ResolvePassword { id } => "resolve_password"@,
            Operation::RecordHistory { entry } => "record_history"@,
            Operation::ListHistory { profile, page } => "list_history"@,
            Operation::ClearHistory { profile } => "clear_history"@,
            Operation::SaveWorksheet { worksheet } => "save_worksheet"@,
            Operation::LoadWorksheets => "load_worksheets"@,
            Operation::DeleteWorksheet { id } => "delete_worksheet"@,
            Operation::SaveLayout { layout } => "save_layout"@,
            Operation::LoadLayout => "load_layout"@,
        }
    }

    /// The kind of the reply to this, and what a failure of it is named after.
    fn reply_kind(&self) -> (kind: (ReldexWorkspaceReplyKind, &'static str))
        ensures
            kind.0 == self.kind(),
            kind.1@ == self.name(),
    {
        match self {
            Operation::ResolveSetting { .. } => (
                ReldexWorkspaceReplyKind::SettingResolved,
                "resolve_setting",
            ),
            Operation::SetSetting { .. } => (
                ReldexWorkspaceReplyKind::SettingCleared,
                "set_setting",
            ),
            Operation::ClearSetting { .. } => (
                ReldexWorkspaceReplyKind::SettingCleared,
                "clear_setting",
            ),
            Operation::CreateProfile { .. } => (
                ReldexWorkspaceReplyKind::ProfileSaved,
                "create_profile",
            ),
            Operation::UpdateProfile { .. } => (
                ReldexWorkspaceReplyKind::ProfileSaved,
                "update_profile",
            ),
            Operation::DeleteProfile { .. } => (
                ReldexWorkspaceReplyKind::ProfileDeleted,
                "delete_profile",
            ),
            Operation::GetProfile { .. } => (
                ReldexWorkspaceReplyKind::ProfileFetched,
                "get_profile",
            ),
            Operation::ListProfiles => (ReldexWorkspaceReplyKind::ProfilesListed, "list_profiles"),
            Operation::BuildConnectParams { .. } => (
                ReldexWorkspaceReplyKind::ConnectParamsBuilt,
                "build_connect_params",
            ),
            Operation::CredentialGet { .. } => (
                ReldexWorkspaceReplyKind::CredentialGot,
                "credential_get",
            ),
            Operation::CredentialPut { .. } => (
                ReldexWorkspaceReplyKind::CredentialPut,
                "credential_put",
            ),
            Operation::CredentialDelete { .. } => (
                ReldexWorkspaceReplyKind::CredentialDeleted,
                "credential_delete",
            ),
            Operation::ResolvePassword { .. } => (
                ReldexWorkspaceReplyKind::PasswordResolved,
                "resolve_password",
            ),
            Operation::RecordHistory { .. } => (
                ReldexWorkspaceReplyKind::HistoryRecorded,
                "record_history",
            ),
            Operation::ListHistory { .. } => (
                ReldexWorkspaceReplyKind::HistoryListed,
                "list_history",
            ),
            Operation::ClearHistory { .. } => (
                ReldexWorkspaceReplyKind::HistoryCleared,
                "clear_history",
            ),
            Operation::SaveWorksheet { .. } => (
                ReldexWorkspaceReplyKind::WorksheetSaved,
                "save_worksheet",
            ),
            Operation::LoadWorksheets => (
                ReldexWorkspaceReplyKind::WorksheetsLoaded,
                "load_worksheets",
            ),
            Operation::DeleteWorksheet { .. } => (
                ReldexWorkspaceReplyKind::WorksheetDeleted,
                "delete_worksheet",
            ),
            Operation::SaveLayout { .. } => (ReldexWorkspaceReplyKind::LayoutSaved, "save_layout"),
            Operation::LoadLayout => (ReldexWorkspaceReplyKind::LayoutLoaded, "load_layout"),
        }
    }
}

impl Stage {
    /// The kind of the reply that this leads to.
    pub open spec fn kind(self) -> ReldexWorkspaceReplyKind {
        match self {
            Stage::ResolveApplication {
                setting,
                profile,
                worksheet,
            } => ReldexWorkspaceReplyKind::SettingResolved,
            Stage::ResolveProfile { setting, worksheet } => ReldexWorkspaceReplyKind::SettingResolved,
            Stage::ResolveWorksheet { setting } => ReldexWorkspaceReplyKind::SettingResolved,
            Stage::Resolve { setting } => ReldexWorkspaceReplyKind::SettingResolved,
            Stage::SetSetting => ReldexWorkspaceReplyKind::SettingCleared,
            Stage::ClearSetting => ReldexWorkspaceReplyKind::SettingCleared,
            Stage::CreateMake => ReldexWorkspaceReplyKind::ProfileSaved,
            Stage::CreateInsert { stamp } => ReldexWorkspaceReplyKind::ProfileSaved,
            Stage::UpdateRead { details } => ReldexWorkspaceReplyKind::ProfileSaved,
            Stage::UpdateChange => ReldexWorkspaceReplyKind::ProfileSaved,
            Stage::UpdateWrite { stamp } => ReldexWorkspaceReplyKind::ProfileSaved,
            Stage::DeleteProfile => ReldexWorkspaceReplyKind::ProfileDeleted,
            Stage::GetProfile => ReldexWorkspaceReplyKind::ProfileFetched,
            Stage::ListProfiles => ReldexWorkspaceReplyKind::ProfilesListed,
            Stage::ConnectProfile { id, password } => ReldexWorkspaceReplyKind::ConnectParamsBuilt,
            Stage::ConnectApplication {
                id,
                password,
            } => ReldexWorkspaceReplyKind::ConnectParamsBuilt,
            Stage::ConnectSettings { password } => ReldexWorkspaceReplyKind::ConnectParamsBuilt,
            Stage::ConnectMap => ReldexWorkspaceReplyKind::ConnectParamsBuilt,
            Stage::CredentialGet => ReldexWorkspaceReplyKind::CredentialGot,
            Stage::CredentialPut => ReldexWorkspaceReplyKind::CredentialPut,
            Stage::CredentialDelete => ReldexWorkspaceReplyKind::CredentialDeleted,
            Stage::PasswordProfile => ReldexWorkspaceReplyKind::PasswordResolved,
            Stage::PasswordResolve => ReldexWorkspaceReplyKind::PasswordResolved,
            Stage::RecordHistory => ReldexWorkspaceReplyKind::HistoryRecorded,
            Stage::ListHistory => ReldexWorkspaceReplyKind::HistoryListed,
            Stage::ClearHistory => ReldexWorkspaceReplyKind::HistoryCleared,
            Stage::SaveWorksheet { stamp } => ReldexWorkspaceReplyKind::WorksheetSaved,
            Stage::LoadWorksheets => ReldexWorkspaceReplyKind::WorksheetsLoaded,
            Stage::DeleteWorksheet => ReldexWorkspaceReplyKind::WorksheetDeleted,
            Stage::SaveLayout => ReldexWorkspaceReplyKind::LayoutSaved,
            Stage::LoadLayout => ReldexWorkspaceReplyKind::LayoutLoaded,
        }
    }

    /// What a failure here is named after.
    pub open spec fn name(self) -> Seq<char> {
        match self {
            Stage::ResolveApplication { setting, profile, worksheet } => "resolve_setting"@,
            Stage::ResolveProfile { setting, worksheet } => "resolve_setting"@,
            Stage::ResolveWorksheet { setting } => "resolve_setting"@,
            Stage::Resolve { setting } => "resolve_setting"@,
            Stage::SetSetting => "set_setting"@,
            Stage::ClearSetting => "clear_setting"@,
            Stage::CreateMake => "create_profile"@,
            Stage::CreateInsert { stamp } => "create_profile"@,
            Stage::UpdateRead { details } => "update_profile"@,
            Stage::UpdateChange => "update_profile"@,
            Stage::UpdateWrite { stamp } => "update_profile"@,
            Stage::DeleteProfile => "delete_profile"@,
            Stage::GetProfile => "get_profile"@,
            Stage::ListProfiles => "list_profiles"@,
            Stage::ConnectProfile { id, password } => "build_connect_params"@,
            Stage::ConnectApplication { id, password } => "build_connect_params"@,
            Stage::ConnectSettings { password } => "build_connect_params"@,
            Stage::ConnectMap => "build_connect_params"@,
            Stage::CredentialGet => "credential_get"@,
            Stage::CredentialPut => "credential_put"@,
            Stage::CredentialDelete => "credential_delete"@,
            Stage::PasswordProfile => "resolve_password"@,
            Stage::PasswordResolve => "resolve_password"@,
            Stage::RecordHistory => "record_history"@,
            Stage::ListHistory => "list_history"@,
            Stage::ClearHistory => "clear_history"@,
            Stage::SaveWorksheet { stamp } => "save_worksheet"@,
            Stage::LoadWorksheets => "load_worksheets"@,
            Stage::DeleteWorksheet => "delete_worksheet"@,
            Stage::SaveLayout => "save_layout"@,
            Stage::LoadLayout => "load_layout"@,
        }
    }

    /// How many more calls there can be, the one that is out not counted.
    pub open spec fn calls_left(self) -> nat {
        match self {
            Stage::ResolveApplication { setting, profile, worksheet } => 3,
            Stage::ResolveProfile { setting, worksheet } => 2,
            Stage::ResolveWorksheet { setting } => 1,
            Stage::CreateMake => 1,
            Stage::UpdateRead { details } => 2,
            Stage::UpdateChange => 1,
            Stage::ConnectProfile { id, password } => 3,
            Stage::ConnectApplication { id, password } => 2,
            Stage::ConnectSettings { password } => 1,
            Stage::PasswordProfile => 1,
            _ => 0,
        }
    }

    /// Whether `answer` is what the call that is out returns.
    pub open spec fn expects(self, answer: StoreAnswer) -> bool {
        match self {
            Stage::ResolveApplication { setting, profile, worksheet } => answer is SettingsRead,
            Stage::ResolveProfile { setting, worksheet } => answer is SettingsRead,
            Stage::ResolveWorksheet { setting } => answer is SettingsRead,
            Stage::Resolve { setting } => answer is Resolved,
            Stage::SetSetting => answer is Done,
            Stage::ClearSetting => answer is Existed,
            Stage::CreateMake => answer is ProfileMade,
            Stage::CreateInsert { stamp } => answer is Done,
            Stage::UpdateRead { details } => answer is FoundProfile || answer is NoProfile,
            Stage::UpdateChange => answer is ProfileMade,
            Stage::UpdateWrite { stamp } => answer is Done,
            Stage::DeleteProfile => answer is Existed,
            Stage::GetProfile => answer is FoundProfile || answer is NoProfile,
            Stage::ListProfiles => answer is Profiles,
            Stage::ConnectProfile { id, password } => answer is FoundProfile || answer is NoProfile,
            Stage::ConnectApplication { id, password } => answer is SettingsRead,
            Stage::ConnectSettings { password } => answer is SettingsRead,
            Stage::ConnectMap => answer is Params,
            Stage::CredentialGet => answer is Credential,
            Stage::CredentialPut => answer is Done,
            Stage::CredentialDelete => answer is Done,
            Stage::PasswordProfile => answer is FoundProfile || answer is NoProfile,
            Stage::PasswordResolve => answer is Password,
            Stage::RecordHistory => answer is Recorded,
            Stage::ListHistory => answer is Records,
            Stage::ClearHistory => answer is Cleared,
            Stage::SaveWorksheet { stamp } => answer is Done,
            Stage::LoadWorksheets => answer is Worksheets,
            Stage::DeleteWorksheet => answer is Existed,
            Stage::SaveLayout => answer is Done,
            Stage::LoadLayout => answer is SavedLayout,
        }
    }
}

/// What comes next: a call, or what the reply carries.
pub enum NextModel {
    Call(StoreCall, Stage),
    Reply(Result<WorkspacePayload, ErrorModel>),
}

/// How a command begins. Where the store did not open, it ends there: the reply
/// says why, under the command's name.
pub open spec fn begun(failed: Option<&StoreError>, operation: Operation) -> NextModel {
    match failed {
        None => first(operation),
        Some(error) => NextModel::Reply(
            Err(named_failure(store_fault(error.kind), operation.name(), error.text@)),
        ),
    }
}

/// What an operation begins with.
pub open spec fn first(operation: Operation) -> NextModel {
    match operation {
        Operation::ResolveSetting { setting, profile, worksheet } => NextModel::Call(
            StoreCall::ReadApplicationSettings,
            Stage::ResolveApplication { setting, profile, worksheet },
        ),
        Operation::SetSetting { scope, setting, value } => NextModel::Call(
            StoreCall::PutSetting { scope, setting, value },
            Stage::SetSetting,
        ),
        Operation::ClearSetting { scope, setting } => NextModel::Call(
            StoreCall::ClearSetting { scope, setting },
            Stage::ClearSetting,
        ),
        Operation::CreateProfile { details } => NextModel::Call(
            StoreCall::MakeProfile { details },
            Stage::CreateMake,
        ),
        Operation::UpdateProfile { id, details } => NextModel::Call(
            StoreCall::ReadProfile { id },
            Stage::UpdateRead { details },
        ),
        Operation::DeleteProfile { id } => NextModel::Call(
            StoreCall::DeleteProfile { id },
            Stage::DeleteProfile,
        ),
        Operation::GetProfile { id } => NextModel::Call(
            StoreCall::ReadProfile { id },
            Stage::GetProfile,
        ),
        Operation::ListProfiles => NextModel::Call(StoreCall::ListProfiles, Stage::ListProfiles),
        Operation::BuildConnectParams { id, password } => NextModel::Call(
            StoreCall::ReadProfile { id },
            Stage::ConnectProfile { id, password },
        ),
        Operation::CredentialGet { id } => NextModel::Call(
            StoreCall::GetCredential { id },
            Stage::CredentialGet,
        ),
        Operation::CredentialPut { id, secret } => NextModel::Call(
            StoreCall::PutCredential { id, secret },
            Stage::CredentialPut,
        ),
        Operation::CredentialDelete { id } => NextModel::Call(
            StoreCall::DeleteCredential { id },
            Stage::CredentialDelete,
        ),
        Operation::ResolvePassword { id } => NextModel::Call(
            StoreCall::ReadProfile { id },
            Stage::PasswordProfile,
        ),
        Operation::RecordHistory { entry } => NextModel::Call(
            StoreCall::RecordHistory { entry },
            Stage::RecordHistory,
        ),
        Operation::ListHistory { profile, page } => NextModel::Call(
            StoreCall::ListHistory { profile, page },
            Stage::ListHistory,
        ),
        Operation::ClearHistory { profile } => NextModel::Call(
            StoreCall::ClearHistory { profile },
            Stage::ClearHistory,
        ),
        Operation::SaveWorksheet { worksheet } => match worksheet {
            Ok(worksheet) => NextModel::Call(
                StoreCall::SaveWorksheet { worksheet },
                Stage::SaveWorksheet {
                    stamp: Stamp {
                        id: worksheet.id,
                        created_at: worksheet.created_at,
                        updated_at: worksheet.updated_at,
                    },
                },
            ),
            Err(why) => NextModel::Reply(
                Err(named_failure(ReldexErrorKind::Configuration, "save_worksheet"@, why@)),
            ),
        },
        Operation::LoadWorksheets => NextModel::Call(
            StoreCall::LoadWorksheets,
            Stage::LoadWorksheets,
        ),
        Operation::DeleteWorksheet { id } => NextModel::Call(
            StoreCall::DeleteWorksheet { id },
            Stage::DeleteWorksheet,
        ),
        Operation::SaveLayout { layout } => NextModel::Call(
            StoreCall::SaveLayout { layout },
            Stage::SaveLayout,
        ),
        Operation::LoadLayout => NextModel::Call(StoreCall::LoadLayout, Stage::LoadLayout),
    }
}

/// The layers of a profile, where there is one, and of a worksheet, where there
/// is one, are read before a setting is resolved.
pub open spec fn then_resolve(
    setting: SettingId,
    profile: Option<[u8; 16]>,
    worksheet: Option<[u8; 16]>,
) -> NextModel {
    match profile {
        Some(id) => NextModel::Call(
            StoreCall::ReadProfileSettings { id },
            Stage::ResolveProfile { setting, worksheet },
        ),
        None => match worksheet {
            Some(id) => NextModel::Call(
                StoreCall::ReadWorksheetSettings { id },
                Stage::ResolveWorksheet { setting },
            ),
            None => NextModel::Call(
                StoreCall::ResolveSetting { setting },
                Stage::Resolve { setting },
            ),
        },
    }
}

/// What follows a call that succeeded.
pub open spec fn after_answer(stage: Stage, answer: StoreAnswer) -> NextModel {
    match (stage, answer) {
        (
            Stage::ResolveApplication { setting, profile, worksheet },
            StoreAnswer::SettingsRead,
        ) => then_resolve(setting, profile, worksheet),
        (Stage::ResolveProfile { setting, worksheet }, StoreAnswer::SettingsRead) => then_resolve(
            setting,
            None,
            worksheet,
        ),
        (Stage::ResolveWorksheet { setting }, StoreAnswer::SettingsRead) => then_resolve(
            setting,
            None,
            None,
        ),
        (Stage::Resolve { setting }, StoreAnswer::Resolved { value, source }) => NextModel::Reply(
            Ok(WorkspacePayload::SettingResolved { setting, value, source }),
        ),
        (Stage::CreateMake, StoreAnswer::ProfileMade(stamp)) => NextModel::Call(
            StoreCall::InsertProfile,
            Stage::CreateInsert { stamp },
        ),
        (Stage::CreateInsert { stamp }, StoreAnswer::Done) => NextModel::Reply(
            Ok(WorkspacePayload::ProfileSaved(stamp)),
        ),
        (Stage::UpdateRead { details }, StoreAnswer::FoundProfile(profile)) => NextModel::Call(
            StoreCall::ChangeProfile { details },
            Stage::UpdateChange,
        ),
        (Stage::UpdateChange, StoreAnswer::ProfileMade(stamp)) => NextModel::Call(
            StoreCall::WriteProfile,
            Stage::UpdateWrite { stamp },
        ),
        (Stage::UpdateWrite { stamp }, StoreAnswer::Done) => NextModel::Reply(
            Ok(WorkspacePayload::ProfileSaved(stamp)),
        ),
        (Stage::GetProfile, StoreAnswer::FoundProfile(profile)) => NextModel::Reply(
            Ok(WorkspacePayload::ProfileFetched(Some(profile))),
        ),
        (Stage::GetProfile, StoreAnswer::NoProfile(why)) => NextModel::Reply(
            Ok(WorkspacePayload::ProfileFetched(None)),
        ),
        (Stage::ConnectProfile { id, password }, StoreAnswer::FoundProfile(profile)) =>
            NextModel::Call(
            StoreCall::ReadApplicationSettings,
            Stage::ConnectApplication { id, password },
        ),
        (Stage::ConnectApplication { id, password }, StoreAnswer::SettingsRead) => NextModel::Call(
            StoreCall::ReadProfileSettings { id },
            Stage::ConnectSettings { password },
        ),
        (Stage::ConnectSettings { password }, StoreAnswer::SettingsRead) => NextModel::Call(
            StoreCall::MapConnection { password },
            Stage::ConnectMap,
        ),
        (Stage::PasswordProfile, StoreAnswer::FoundProfile(profile)) => NextModel::Call(
            StoreCall::ResolvePassword,
            Stage::PasswordResolve,
        ),
        (Stage::SaveWorksheet { stamp }, StoreAnswer::Done) => NextModel::Reply(
            Ok(WorkspacePayload::WorksheetSaved(stamp)),
        ),
        (Stage::CredentialDelete, StoreAnswer::Done) => NextModel::Reply(
            Ok(WorkspacePayload::Existed(true)),
        ),
        // A profile that is not there fails what needs it.
        (_, StoreAnswer::NoProfile(why)) => NextModel::Reply(
            Err(named_failure(ReldexErrorKind::Configuration, stage.name(), why@)),
        ),
        (_, StoreAnswer::Existed(existed)) => NextModel::Reply(
            Ok(WorkspacePayload::Existed(existed)),
        ),
        (_, StoreAnswer::Profiles(profiles)) => NextModel::Reply(
            Ok(WorkspacePayload::ProfilesListed(profiles)),
        ),
        (_, StoreAnswer::Params(params)) => NextModel::Reply(
            Ok(WorkspacePayload::ConnectParamsBuilt(params)),
        ),
        (_, StoreAnswer::Credential(secret)) => NextModel::Reply(
            Ok(WorkspacePayload::CredentialGot(secret)),
        ),
        (_, StoreAnswer::Password(source)) => NextModel::Reply(
            Ok(WorkspacePayload::PasswordResolved(source)),
        ),
        (_, StoreAnswer::Recorded(id)) => NextModel::Reply(
            Ok(WorkspacePayload::HistoryRecorded(id)),
        ),
        (_, StoreAnswer::Records(records)) => NextModel::Reply(
            Ok(WorkspacePayload::HistoryListed(records)),
        ),
        (_, StoreAnswer::Cleared(count)) => NextModel::Reply(
            Ok(WorkspacePayload::HistoryCleared(count)),
        ),
        (_, StoreAnswer::Worksheets(worksheets)) => NextModel::Reply(
            Ok(WorkspacePayload::WorksheetsLoaded(worksheets)),
        ),
        (_, StoreAnswer::SavedLayout(layout)) => NextModel::Reply(
            Ok(WorkspacePayload::LayoutLoaded(layout)),
        ),
        _ => NextModel::Reply(Ok(WorkspacePayload::Nothing)),
    }
}

/// What follows a call. A failure ends the command, but for a password that was
/// not there to delete.
pub open spec fn after(stage: Stage, answer: Result<StoreAnswer, StoreFailure>) -> NextModel {
    match answer {
        Ok(answer) => after_answer(stage, answer),
        Err(failure) => if stage is CredentialDelete && (failure matches StoreFailure::Credential(
            error,
        ) && error.not_found) {
            NextModel::Reply(Ok(WorkspacePayload::Existed(false)))
        } else {
            NextModel::Reply(Err(failure_of(stage.name(), failure)))
        },
    }
}

/// The next thing a service does.
pub enum Step {
    /// Make the call, and hand back what it returned with the stage.
    Call { call: StoreCall, request: u64, stage: Stage },
    /// Put the reply into the queue.
    Reply(QueuedWorkspaceReply),
}

impl WorkspaceCommand {
    /// Lets go of a command that nobody takes. A password in it is wiped.
    pub(crate) fn discard(self) {
        match self.operation {
            Operation::BuildConnectParams { password, .. } => forget(password),
            Operation::CredentialPut { secret, .. } => forget(Some(secret)),
            _ => {},
        }
    }
}

impl QueuedWorkspaceReply {
    /// Lets go of a reply that nobody takes. A password in it is wiped.
    pub(crate) fn discard(self) {
        match self.payload {
            Ok(WorkspacePayload::CredentialGot(secret)) => forget(secret),
            Ok(WorkspacePayload::PasswordResolved(PasswordSource::FromStore(secret))) => forget(
                Some(secret),
            ),
            _ => {},
        }
    }

    /// Whether this is the reply to `request`, of the kind `kind`, that carries
    /// `payload`.
    pub open spec fn answers(
        self,
        request: u64,
        kind: ReldexWorkspaceReplyKind,
        payload: Result<WorkspacePayload, ErrorModel>,
    ) -> bool {
        &&& self.kind == kind
        &&& self.request == request
        &&& match self.payload {
            Ok(carried) => payload == Ok::<_, ErrorModel>(carried),
            Err(error) => payload == Err::<WorkspacePayload, _>(error@),
        }
    }
}

impl Step {
    /// Whether this is `next`, for `request` and a reply of the kind `kind`.
    pub open spec fn is_next(
        self,
        request: u64,
        kind: ReldexWorkspaceReplyKind,
        next: NextModel,
    ) -> bool {
        match self {
            Step::Call { call, request: owner, stage } => owner == request && next
                == NextModel::Call(call, stage),
            Step::Reply(reply) => match next {
                NextModel::Reply(payload) => reply.answers(request, kind, payload),
                NextModel::Call(call, stage) => false,
            },
        }
    }
}

/// Begins a command.
pub fn run_command(command: WorkspaceCommand) -> (step: Step)
    ensures
        step.is_next(command.request, command.operation.kind(), first(command.operation)),
{
    let request: u64 = command.request;
    let (call, stage): (StoreCall, Stage) = match command.operation {
        Operation::ResolveSetting { setting, profile, worksheet } => (
            StoreCall::ReadApplicationSettings,
            Stage::ResolveApplication { setting, profile, worksheet },
        ),
        Operation::SetSetting { scope, setting, value } => (
            StoreCall::PutSetting { scope, setting, value },
            Stage::SetSetting,
        ),
        Operation::ClearSetting { scope, setting } => (
            StoreCall::ClearSetting { scope, setting },
            Stage::ClearSetting,
        ),
        Operation::CreateProfile { details } => (
            StoreCall::MakeProfile { details },
            Stage::CreateMake,
        ),
        Operation::UpdateProfile { id, details } => (
            StoreCall::ReadProfile { id },
            Stage::UpdateRead { details },
        ),
        Operation::DeleteProfile { id } => (StoreCall::DeleteProfile { id }, Stage::DeleteProfile),
        Operation::GetProfile { id } => (StoreCall::ReadProfile { id }, Stage::GetProfile),
        Operation::ListProfiles => (StoreCall::ListProfiles, Stage::ListProfiles),
        Operation::BuildConnectParams { id, password } => (
            StoreCall::ReadProfile { id },
            Stage::ConnectProfile { id, password },
        ),
        Operation::CredentialGet { id } => (StoreCall::GetCredential { id }, Stage::CredentialGet),
        Operation::CredentialPut { id, secret } => (
            StoreCall::PutCredential { id, secret },
            Stage::CredentialPut,
        ),
        Operation::CredentialDelete { id } => (
            StoreCall::DeleteCredential { id },
            Stage::CredentialDelete,
        ),
        Operation::ResolvePassword { id } => (StoreCall::ReadProfile { id }, Stage::PasswordProfile),
        Operation::RecordHistory { entry } => (
            StoreCall::RecordHistory { entry },
            Stage::RecordHistory,
        ),
        Operation::ListHistory { profile, page } => (
            StoreCall::ListHistory { profile, page },
            Stage::ListHistory,
        ),
        Operation::ClearHistory { profile } => (
            StoreCall::ClearHistory { profile },
            Stage::ClearHistory,
        ),
        Operation::SaveWorksheet { worksheet } => match worksheet {
            Ok(worksheet) => {
                let stamp = Stamp {
                    id: worksheet.id,
                    created_at: worksheet.created_at,
                    updated_at: worksheet.updated_at,
                };
                (StoreCall::SaveWorksheet { worksheet }, Stage::SaveWorksheet { stamp })
            },
            Err(why) => return Step::Reply(
                QueuedWorkspaceReply {
                    kind: ReldexWorkspaceReplyKind::WorksheetSaved,
                    request,
                    payload: Err(named_error(ErrorKind::Configuration, "save_worksheet", &why)),
                },
            ),
        },
        Operation::LoadWorksheets => (StoreCall::LoadWorksheets, Stage::LoadWorksheets),
        Operation::DeleteWorksheet { id } => (
            StoreCall::DeleteWorksheet { id },
            Stage::DeleteWorksheet,
        ),
        Operation::SaveLayout { layout } => (StoreCall::SaveLayout { layout }, Stage::SaveLayout),
        Operation::LoadLayout => (StoreCall::LoadLayout, Stage::LoadLayout),
    };
    Step::Call { call, request, stage }
}

impl Stage {
    /// The kind of the reply that this leads to, and what a failure here is
    /// named after.
    fn reply_kind(&self) -> (kind: (ReldexWorkspaceReplyKind, &'static str))
        ensures
            kind.0 == self.kind(),
            kind.1@ == self.name(),
    {
        match self {
            Stage::ResolveApplication { .. } => (
                ReldexWorkspaceReplyKind::SettingResolved,
                "resolve_setting",
            ),
            Stage::ResolveProfile { .. } => (
                ReldexWorkspaceReplyKind::SettingResolved,
                "resolve_setting",
            ),
            Stage::ResolveWorksheet { .. } => (
                ReldexWorkspaceReplyKind::SettingResolved,
                "resolve_setting",
            ),
            Stage::Resolve { .. } => (ReldexWorkspaceReplyKind::SettingResolved, "resolve_setting"),
            Stage::SetSetting => (ReldexWorkspaceReplyKind::SettingCleared, "set_setting"),
            Stage::ClearSetting => (ReldexWorkspaceReplyKind::SettingCleared, "clear_setting"),
            Stage::CreateMake => (ReldexWorkspaceReplyKind::ProfileSaved, "create_profile"),
            Stage::CreateInsert { .. } => (ReldexWorkspaceReplyKind::ProfileSaved, "create_profile"),
            Stage::UpdateRead { .. } => (ReldexWorkspaceReplyKind::ProfileSaved, "update_profile"),
            Stage::UpdateChange => (ReldexWorkspaceReplyKind::ProfileSaved, "update_profile"),
            Stage::UpdateWrite { .. } => (ReldexWorkspaceReplyKind::ProfileSaved, "update_profile"),
            Stage::DeleteProfile => (ReldexWorkspaceReplyKind::ProfileDeleted, "delete_profile"),
            Stage::GetProfile => (ReldexWorkspaceReplyKind::ProfileFetched, "get_profile"),
            Stage::ListProfiles => (ReldexWorkspaceReplyKind::ProfilesListed, "list_profiles"),
            Stage::ConnectProfile { .. } => (
                ReldexWorkspaceReplyKind::ConnectParamsBuilt,
                "build_connect_params",
            ),
            Stage::ConnectApplication { .. } => (
                ReldexWorkspaceReplyKind::ConnectParamsBuilt,
                "build_connect_params",
            ),
            Stage::ConnectSettings { .. } => (
                ReldexWorkspaceReplyKind::ConnectParamsBuilt,
                "build_connect_params",
            ),
            Stage::ConnectMap => (
                ReldexWorkspaceReplyKind::ConnectParamsBuilt,
                "build_connect_params",
            ),
            Stage::CredentialGet => (ReldexWorkspaceReplyKind::CredentialGot, "credential_get"),
            Stage::CredentialPut => (ReldexWorkspaceReplyKind::CredentialPut, "credential_put"),
            Stage::CredentialDelete => (
                ReldexWorkspaceReplyKind::CredentialDeleted,
                "credential_delete",
            ),
            Stage::PasswordProfile => (
                ReldexWorkspaceReplyKind::PasswordResolved,
                "resolve_password",
            ),
            Stage::PasswordResolve => (
                ReldexWorkspaceReplyKind::PasswordResolved,
                "resolve_password",
            ),
            Stage::RecordHistory => (ReldexWorkspaceReplyKind::HistoryRecorded, "record_history"),
            Stage::ListHistory => (ReldexWorkspaceReplyKind::HistoryListed, "list_history"),
            Stage::ClearHistory => (ReldexWorkspaceReplyKind::HistoryCleared, "clear_history"),
            Stage::SaveWorksheet { .. } => (
                ReldexWorkspaceReplyKind::WorksheetSaved,
                "save_worksheet",
            ),
            Stage::LoadWorksheets => (
                ReldexWorkspaceReplyKind::WorksheetsLoaded,
                "load_worksheets",
            ),
            Stage::DeleteWorksheet => (
                ReldexWorkspaceReplyKind::WorksheetDeleted,
                "delete_worksheet",
            ),
            Stage::SaveLayout => (ReldexWorkspaceReplyKind::LayoutSaved, "save_layout"),
            Stage::LoadLayout => (ReldexWorkspaceReplyKind::LayoutLoaded, "load_layout"),
        }
    }
}

/// The call that comes before a setting is resolved, or the one that resolves
/// it.
fn next_layer(setting: SettingId, profile: Option<[u8; 16]>, worksheet: Option<[u8; 16]>) -> (next: (
    StoreCall,
    Stage,
))
    ensures
        then_resolve(setting, profile, worksheet) == NextModel::Call(next.0, next.1),
{
    match profile {
        Some(id) => (
            StoreCall::ReadProfileSettings { id },
            Stage::ResolveProfile { setting, worksheet },
        ),
        None => match worksheet {
            Some(id) => (
                StoreCall::ReadWorksheetSettings { id },
                Stage::ResolveWorksheet { setting },
            ),
            None => (StoreCall::ResolveSetting { setting }, Stage::Resolve { setting }),
        },
    }
}

/// What an answer is to a reply, where a call is all that its request needs.
fn only_answer(stage: &Stage, answer: StoreAnswer) -> (payload: Result<
    WorkspacePayload,
    DbError,
>)
    requires
        stage.expects(answer),
        stage.calls_left() == 0 || answer is NoProfile,
    ensures
        match payload {
            Ok(payload) => after_answer(*stage, answer) == NextModel::Reply(Ok(payload)),
            Err(error) => after_answer(*stage, answer) == NextModel::Reply(Err(error@)),
        },
{
    match answer {
        StoreAnswer::Resolved { value, source } => match stage {
            Stage::Resolve { setting } => Ok(
                WorkspacePayload::SettingResolved { setting: *setting, value, source },
            ),
            _ => Ok(WorkspacePayload::Nothing),
        },
        StoreAnswer::Existed(existed) => Ok(WorkspacePayload::Existed(existed)),
        StoreAnswer::FoundProfile(profile) => Ok(WorkspacePayload::ProfileFetched(Some(profile))),
        StoreAnswer::NoProfile(why) => match stage {
            Stage::GetProfile => Ok(WorkspacePayload::ProfileFetched(None)),
            _ => {
                let (_, name) = stage.reply_kind();
                Err(named_error(ErrorKind::Configuration, name, &why))
            },
        },
        StoreAnswer::Profiles(profiles) => Ok(WorkspacePayload::ProfilesListed(profiles)),
        StoreAnswer::Params(params) => Ok(WorkspacePayload::ConnectParamsBuilt(params)),
        StoreAnswer::Credential(secret) => Ok(WorkspacePayload::CredentialGot(secret)),
        StoreAnswer::Password(source) => Ok(WorkspacePayload::PasswordResolved(source)),
        StoreAnswer::Recorded(id) => Ok(WorkspacePayload::HistoryRecorded(id)),
        StoreAnswer::Records(records) => Ok(WorkspacePayload::HistoryListed(records)),
        StoreAnswer::Cleared(count) => Ok(WorkspacePayload::HistoryCleared(count)),
        StoreAnswer::Worksheets(worksheets) => Ok(WorkspacePayload::WorksheetsLoaded(worksheets)),
        StoreAnswer::SavedLayout(layout) => Ok(WorkspacePayload::LayoutLoaded(layout)),
        StoreAnswer::Done => match stage {
            Stage::CreateInsert { stamp } => Ok(WorkspacePayload::ProfileSaved(*stamp)),
            Stage::UpdateWrite { stamp } => Ok(WorkspacePayload::ProfileSaved(*stamp)),
            Stage::SaveWorksheet { stamp } => Ok(WorkspacePayload::WorksheetSaved(*stamp)),
            Stage::CredentialDelete => Ok(WorkspacePayload::Existed(true)),
            _ => Ok(WorkspacePayload::Nothing),
        },
        StoreAnswer::SettingsRead => Ok(WorkspacePayload::Nothing),
        StoreAnswer::ProfileMade(_) => Ok(WorkspacePayload::Nothing),
    }
}

/// Lets go of a stage that nothing follows. A password in it is wiped.
fn discard_stage(stage: Stage) {
    match stage {
        Stage::ConnectProfile { password, .. } => forget(password),
        Stage::ConnectApplication { password, .. } => forget(password),
        Stage::ConnectSettings { password } => forget(password),
        _ => {},
    }
}

/// Goes on with a command: `answer` is what the call that was out returned.
pub fn resume(request: u64, stage: Stage, answer: Result<StoreAnswer, StoreFailure>) -> (step: Step)
    requires
        answer matches Ok(answer) ==> stage.expects(answer),
    ensures
        step.is_next(request, stage.kind(), after(stage, answer)),
{
    let (kind, name) = stage.reply_kind();
    let answer = match answer {
        Ok(answer) => answer,
        Err(failure) => {
            let mut was_there = true;
            if let Stage::CredentialDelete = stage {
                if let StoreFailure::Credential(error) = &failure {
                    was_there = !error.not_found;
                }
            }
            let payload = if was_there {
                Err(call_error(name, &failure))
            } else {
                Ok(WorkspacePayload::Existed(false))
            };
            discard_stage(stage);
            return Step::Reply(QueuedWorkspaceReply { kind, request, payload });
        },
    };
    if let StoreAnswer::NoProfile(_) = &answer {
        let payload = only_answer(&stage, answer);
        discard_stage(stage);
        return Step::Reply(QueuedWorkspaceReply { kind, request, payload });
    }
    let (call, stage): (StoreCall, Stage) = match stage {
        Stage::ResolveApplication { setting, profile, worksheet } => next_layer(
            setting,
            profile,
            worksheet,
        ),
        Stage::ResolveProfile { setting, worksheet } => next_layer(setting, None, worksheet),
        Stage::ResolveWorksheet { setting } => next_layer(setting, None, None),
        Stage::CreateMake => match answer {
            StoreAnswer::ProfileMade(stamp) => (
                StoreCall::InsertProfile,
                Stage::CreateInsert { stamp },
            ),
            _ => (StoreCall::InsertProfile, Stage::CreateMake),
        },
        Stage::UpdateRead { details } => (
            StoreCall::ChangeProfile { details },
            Stage::UpdateChange,
        ),
        Stage::UpdateChange => match answer {
            StoreAnswer::ProfileMade(stamp) => (
                StoreCall::WriteProfile,
                Stage::UpdateWrite { stamp },
            ),
            _ => (StoreCall::WriteProfile, Stage::UpdateChange),
        },
        Stage::ConnectProfile { id, password } => (
            StoreCall::ReadApplicationSettings,
            Stage::ConnectApplication { id, password },
        ),
        Stage::ConnectApplication { id, password } => (
            StoreCall::ReadProfileSettings { id },
            Stage::ConnectSettings { password },
        ),
        Stage::ConnectSettings { password } => (
            StoreCall::MapConnection { password },
            Stage::ConnectMap,
        ),
        Stage::PasswordProfile => (StoreCall::ResolvePassword, Stage::PasswordResolve),
        stage => {
            let payload = only_answer(&stage, answer);
            return Step::Reply(QueuedWorkspaceReply { kind, request, payload });
        },
    };
    Step::Call { call, request, stage }
}

/// Begins a command behind the opening of the store, which `failed` or did not.
/// A command that waited for a store that did not open is answered with why.
pub fn begin_command(failed: Option<&StoreError>, command: WorkspaceCommand) -> (step: Step)
    ensures
        step.is_next(command.request, command.operation.kind(), begun(failed, command.operation)),
{
    match failed {
        None => run_command(command),
        Some(error) => {
            let request: u64 = command.request;
            let (kind, name) = command.operation.reply_kind();
            command.discard();
            Step::Reply(
                QueuedWorkspaceReply { kind, request, payload: Err(store_error(name, error)) },
            )
        },
    }
}

/// The first reply of a workspace: its store opened, or it `failed` to.
pub fn service_opened(request: u64, failed: Option<&StoreError>) -> (reply: QueuedWorkspaceReply)
    ensures
        reply.answers(
            request,
            ReldexWorkspaceReplyKind::Opened,
            match failed {
                None => Ok(WorkspacePayload::Nothing),
                Some(error) => Err(
                    named_failure(
                        store_fault(error.kind),
                        "reldex_workspace_open"@,
                        error.text@,
                    ),
                ),
            },
        ),
{
    let payload = match failed {
        None => Ok(WorkspacePayload::Nothing),
        Some(error) => Err(store_error("reldex_workspace_open", error)),
    };
    QueuedWorkspaceReply { kind: ReldexWorkspaceReplyKind::Opened, request, payload }
}

/// Whatever a command's calls return, its reply is of the command's own kind
/// and its failures carry the command's own name: every stage of an operation
/// leads to the same kind and the same name.
pub proof fn a_command_is_answered_as_itself(
    failed: Option<&StoreError>,
    operation: Operation,
    stage: Stage,
    answer: Result<StoreAnswer, StoreFailure>,
)
    requires
        answer matches Ok(answer) ==> stage.expects(answer),
    ensures
        begun(failed, operation) matches NextModel::Call(call, out) ==> out.kind()
            == operation.kind() && out.name() == operation.name(),
        after(stage, answer) matches NextModel::Call(call, following) ==> following.kind()
            == stage.kind() && following.name() == stage.name(),
{
}

/// Every command is answered: each call brings its reply nearer, and no command
/// makes more than four. One that waited for a store that did not open is
/// answered at once, with why.
pub proof fn a_command_comes_to_its_reply(
    failed: Option<&StoreError>,
    operation: Operation,
    stage: Stage,
    answer: Result<StoreAnswer, StoreFailure>,
)
    requires
        answer matches Ok(answer) ==> stage.expects(answer),
    ensures
        failed matches Some(error) ==> begun(failed, operation) == NextModel::Reply(
            Err(failure_of(operation.name(), StoreFailure::Store(*error))),
        ),
        begun(failed, operation) matches NextModel::Call(call, out) ==> out.calls_left() <= 3,
        after(stage, answer) matches NextModel::Call(call, following) ==> following.calls_left()
            < stage.calls_left(),
        stage.calls_left() == 0 ==> after(stage, answer) is Reply,
{
}

/// A failure at any step ends its command, and the reply says so under the
/// command's name. A password that is not there to delete is no failure.
pub proof fn a_failed_call_fails_its_command(stage: Stage, failure: StoreFailure)
    requires
        !(stage is CredentialDelete && (failure matches StoreFailure::Credential(error)
            && error.not_found)),
    ensures
        after(stage, Err(failure)) == NextModel::Reply(Err(failure_of(stage.name(), failure))),
{
}

/// The layers of a setting are read from the widest to the narrowest: the
/// application's, then the profile's where there is one, then the worksheet's
/// where there is one; then the setting is resolved over all of them.
pub proof fn layers_are_read_in_order(
    setting: SettingId,
    profile: [u8; 16],
    worksheet: [u8; 16],
)
    ensures
        first(
            Operation::ResolveSetting {
                setting,
                profile: Some(profile),
                worksheet: Some(worksheet),
            },
        ) == NextModel::Call(
            StoreCall::ReadApplicationSettings,
            Stage::ResolveApplication {
                setting,
                profile: Some(profile),
                worksheet: Some(worksheet),
            },
        ),
        after_answer(
            Stage::ResolveApplication {
                setting,
                profile: Some(profile),
                worksheet: Some(worksheet),
            },
            StoreAnswer::SettingsRead,
        ) == NextModel::Call(
            StoreCall::ReadProfileSettings { id: profile },
            Stage::ResolveProfile { setting, worksheet: Some(worksheet) },
        ),
        after_answer(
            Stage::ResolveProfile { setting, worksheet: Some(worksheet) },
            StoreAnswer::SettingsRead,
        ) == NextModel::Call(
            StoreCall::ReadWorksheetSettings { id: worksheet },
            Stage::ResolveWorksheet { setting },
        ),
        after_answer(Stage::ResolveWorksheet { setting }, StoreAnswer::SettingsRead)
            == NextModel::Call(
            StoreCall::ResolveSetting { setting },
            Stage::Resolve { setting },
        ),
{
}

/// Nothing is stored of a profile that cannot be made or changed: the call that
/// writes it comes only once the one before succeeded.
pub proof fn a_refused_profile_is_not_written(stage: Stage, answer: Result<
    StoreAnswer,
    StoreFailure,
>)
    requires
        answer matches Ok(answer) ==> stage.expects(answer),
        after(stage, answer) matches NextModel::Call(call, following) && (call is InsertProfile
            || call is WriteProfile),
    ensures
        stage is CreateMake || stage is UpdateChange,
        answer matches Ok(StoreAnswer::ProfileMade(stamp)),
{
}

/// A command goes to the store as it was asked: the call it begins with is about
/// the very scope, setting, value, profile, password, entry, page, worksheet or
/// layout of the command, and of no other.
pub proof fn a_command_is_carried_out_as_asked(command: WorkspaceCommand, step: Step)
    requires
        call_ensures(run_command, (command,), step),
    ensures
        step matches Step::Call { call, request, stage } ==> request == command.request,
        match command.operation {
            Operation::ResolveSetting { setting, profile, worksheet } => step is Call
                && step->call is ReadApplicationSettings,
            Operation::SetSetting { scope, setting, value } => {
                &&& step is Call
                &&& step->call matches StoreCall::PutSetting { scope: at, setting: of, value: to }
                &&& at == scope && of == setting && to == value
            },
            Operation::ClearSetting { scope, setting } => {
                &&& step is Call
                &&& step->call matches StoreCall::ClearSetting { scope: at, setting: of }
                &&& at == scope && of == setting
            },
            Operation::CreateProfile { details } => {
                &&& step is Call
                &&& step->call matches StoreCall::MakeProfile { details: made }
                &&& made == details
            },
            Operation::UpdateProfile { id, details } => {
                &&& step is Call
                &&& step->call matches StoreCall::ReadProfile { id: read }
                &&& read == id
            },
            Operation::DeleteProfile { id } => {
                &&& step is Call
                &&& step->call matches StoreCall::DeleteProfile { id: deleted }
                &&& deleted == id
            },
            Operation::GetProfile { id } => {
                &&& step is Call
                &&& step->call matches StoreCall::ReadProfile { id: read }
                &&& read == id
            },
            Operation::ListProfiles => step is Call && step->call is ListProfiles,
            Operation::BuildConnectParams { id, password } => {
                &&& step is Call
                &&& step->call matches StoreCall::ReadProfile { id: read }
                &&& read == id
            },
            Operation::CredentialGet { id } => {
                &&& step is Call
                &&& step->call matches StoreCall::GetCredential { id: got }
                &&& got == id
            },
            Operation::CredentialPut { id, secret } => {
                &&& step is Call
                &&& step->call matches StoreCall::PutCredential { id: put, secret: kept }
                &&& put == id && kept == secret
            },
            Operation::CredentialDelete { id } => {
                &&& step is Call
                &&& step->call matches StoreCall::DeleteCredential { id: deleted }
                &&& deleted == id
            },
            Operation::ResolvePassword { id } => {
                &&& step is Call
                &&& step->call matches StoreCall::ReadProfile { id: read }
                &&& read == id
            },
            Operation::RecordHistory { entry } => {
                &&& step is Call
                &&& step->call matches StoreCall::RecordHistory { entry: recorded }
                &&& recorded == entry
            },
            Operation::ListHistory { profile, page } => {
                &&& step is Call
                &&& step->call matches StoreCall::ListHistory { profile: of, page: listed }
                &&& of == profile && listed == page
            },
            Operation::ClearHistory { profile } => {
                &&& step is Call
                &&& step->call matches StoreCall::ClearHistory { profile: of }
                &&& of == profile
            },
            Operation::SaveWorksheet { worksheet } => {
                &&& step is Call <==> worksheet is Ok
                &&& worksheet matches Ok(worksheet) ==> (
                step->call matches StoreCall::SaveWorksheet { worksheet: saved } && saved
                    == worksheet)
                &&& worksheet matches Err(why) ==> {
                    &&& step->Reply_0.request == command.request
                    &&& step->Reply_0.kind as i32 == 16
                    &&& step->Reply_0.payload is Err
                    &&& step->Reply_0.payload->Err_0@.kind == ReldexErrorKind::Configuration
                    &&& step->Reply_0.payload->Err_0@.message =~= "save_worksheet"@ + ": "@ + why@
                }
            },
            Operation::LoadWorksheets => step is Call && step->call is LoadWorksheets,
            Operation::DeleteWorksheet { id } => {
                &&& step is Call
                &&& step->call matches StoreCall::DeleteWorksheet { id: deleted }
                &&& deleted == id
            },
            Operation::SaveLayout { layout } => {
                &&& step is Call
                &&& step->call matches StoreCall::SaveLayout { layout: saved }
                &&& saved == layout
            },
            Operation::LoadLayout => step is Call && step->call is LoadLayout,
        },
{
}

/// A service that opened carries every command out; one that did not carries none
/// out.
pub proof fn a_service_that_opened_does_as_it_is_asked(command: WorkspaceCommand, step: Step)
    requires
        call_ensures(begin_command, (None::<&StoreError>, command), step),
    ensures
        step is Reply <==> (command.operation matches Operation::SaveWorksheet { worksheet }
            && worksheet is Err),
        command.operation matches Operation::SetSetting { scope, setting, value } ==> step->call
            == (StoreCall::PutSetting { scope, setting, value }),
        command.operation matches Operation::ClearSetting { scope, setting } ==> step->call
            == (StoreCall::ClearSetting { scope, setting }),
        command.operation matches Operation::DeleteProfile { id } ==> step->call
            == (StoreCall::DeleteProfile { id }),
        command.operation matches Operation::ClearHistory { profile } ==> step->call
            == (StoreCall::ClearHistory { profile }),
        command.operation matches Operation::CredentialPut { id, secret } ==> step->call
            == (StoreCall::PutCredential { id, secret }),
{
}

/// What is set at a level is read for that same level: a value set for a worksheet
/// or a profile is among the layers of every resolution that names the same one,
/// and a value set for the application among those of every resolution. The layers
/// are read from the broadest to the narrowest, and what they come to is told of
/// the setting that was asked for.
pub proof fn a_value_is_read_where_it_was_set(
    set: WorkspaceCommand,
    put: Step,
    asked: WorkspaceCommand,
    broadest: Step,
    second: Step,
    third: Step,
    last: Step,
    value: SettingValue,
    source: Level,
    told: Step,
)
    requires
        set.operation is SetSetting,
        call_ensures(run_command, (set,), put),
        asked.operation is ResolveSetting,
        call_ensures(run_command, (asked,), broadest),
        call_ensures(resume, (asked.request, broadest->stage, Ok(StoreAnswer::SettingsRead)), second),
        asked.operation->ResolveSetting_profile is Some
            || asked.operation->ResolveSetting_worksheet is Some ==> call_ensures(
            resume,
            (asked.request, second->stage, Ok(StoreAnswer::SettingsRead)),
            third,
        ),
        asked.operation->ResolveSetting_profile is Some
            && asked.operation->ResolveSetting_worksheet is Some ==> call_ensures(
            resume,
            (asked.request, third->stage, Ok(StoreAnswer::SettingsRead)),
            last,
        ),
        ({
            let narrowest = if asked.operation->ResolveSetting_profile is Some
                && asked.operation->ResolveSetting_worksheet is Some {
                last
            } else if asked.operation->ResolveSetting_profile is Some
                || asked.operation->ResolveSetting_worksheet is Some {
                third
            } else {
                second
            };
            call_ensures(
                resume,
                (asked.request, narrowest->stage, Ok(StoreAnswer::Resolved { value, source })),
                told,
            )
        }),
    ensures
        put is Call && put->call is PutSetting,
        put->call->PutSetting_setting == set.operation->SetSetting_setting,
        put->call->PutSetting_value == set.operation->SetSetting_value,
        put->call->PutSetting_scope == set.operation->SetSetting_scope,
        broadest is Call && broadest->call is ReadApplicationSettings,
        put->call->PutSetting_scope matches Scope::Profile(id) ==> (
        asked.operation->ResolveSetting_profile == Some(id) ==> second is Call && second->call == (
        StoreCall::ReadProfileSettings { id })),
        put->call->PutSetting_scope matches Scope::Worksheet(id) ==> (
        asked.operation->ResolveSetting_worksheet == Some(id) ==> {
            &&& asked.operation->ResolveSetting_profile is None ==> second is Call && second->call
                == (StoreCall::ReadWorksheetSettings { id })
            &&& asked.operation->ResolveSetting_profile is Some ==> third is Call && third->call
                == (StoreCall::ReadWorksheetSettings { id })
        }),
        asked.operation->ResolveSetting_profile is None
            && asked.operation->ResolveSetting_worksheet is None ==> second is Call
            && second->call == (StoreCall::ResolveSetting {
            setting: asked.operation->ResolveSetting_setting,
        }),
        asked.operation->ResolveSetting_profile is Some
            && asked.operation->ResolveSetting_worksheet is Some ==> last is Call && last->call == (
        StoreCall::ResolveSetting { setting: asked.operation->ResolveSetting_setting }),
        asked.operation->ResolveSetting_profile is Some
            != asked.operation->ResolveSetting_worksheet is Some ==> third is Call && third->call
            == (StoreCall::ResolveSetting { setting: asked.operation->ResolveSetting_setting }),
        told is Reply && told->Reply_0.request == asked.request,
        told->Reply_0.kind as i32 == 2,
        told->Reply_0.payload is Ok,
        told->Reply_0.payload->Ok_0 == (WorkspacePayload::SettingResolved {
            setting: asked.operation->ResolveSetting_setting,
            value,
            source,
        }),
{
}

/// A profile is made out of the details that were given and then inserted, and
/// what is told is the stamp it was made with.
pub proof fn a_profile_is_created_from_its_details(
    command: WorkspaceCommand,
    made: Step,
    stamp: Stamp,
    inserted: Step,
    told: Step,
)
    requires
        command.operation is CreateProfile,
        call_ensures(run_command, (command,), made),
        call_ensures(
            resume,
            (command.request, made->stage, Ok(StoreAnswer::ProfileMade(stamp))),
            inserted,
        ),
        call_ensures(resume, (command.request, inserted->stage, Ok(StoreAnswer::Done)), told),
    ensures
        made is Call && made->call == (StoreCall::MakeProfile {
            details: command.operation->CreateProfile_details,
        }),
        inserted is Call && inserted->call is InsertProfile,
        told is Reply && told->Reply_0.request == command.request,
        told->Reply_0.kind as i32 == 4,
        told->Reply_0.payload == Ok::<_, DbError>(WorkspacePayload::ProfileSaved(stamp)),
{
}

/// An update reads the profile it names, changes it to the details that were given
/// and writes it, and what is told is the stamp it was changed to. A profile that
/// is not there fails the update before anything is written.
pub proof fn a_profile_is_updated_to_its_details(
    command: WorkspaceCommand,
    read: Step,
    found: Profile<String>,
    changed: Step,
    stamp: Stamp,
    written: Step,
    told: Step,
    why: String,
    missed: Step,
)
    requires
        command.operation is UpdateProfile,
        call_ensures(run_command, (command,), read),
        call_ensures(
            resume,
            (command.request, read->stage, Ok(StoreAnswer::FoundProfile(found))),
            changed,
        ),
        call_ensures(
            resume,
            (command.request, changed->stage, Ok(StoreAnswer::ProfileMade(stamp))),
            written,
        ),
        call_ensures(resume, (command.request, written->stage, Ok(StoreAnswer::Done)), told),
        call_ensures(
            resume,
            (command.request, read->stage, Ok(StoreAnswer::NoProfile(why))),
            missed,
        ),
    ensures
        read is Call && read->call == (StoreCall::ReadProfile {
            id: command.operation->UpdateProfile_id,
        }),
        changed is Call && changed->call == (StoreCall::ChangeProfile {
            details: command.operation->UpdateProfile_details,
        }),
        written is Call && written->call is WriteProfile,
        told is Reply && told->Reply_0.payload == Ok::<_, DbError>(
            WorkspacePayload::ProfileSaved(stamp),
        ),
        missed is Reply && missed->Reply_0.payload is Err,
        missed->Reply_0.payload->Err_0@.kind == ReldexErrorKind::Configuration,
        missed->Reply_0.payload->Err_0@.message =~= "update_profile"@ + ": "@ + why@,
{
}

/// The parameters of a connection are made out of the profile that was named, of
/// the application's and of that profile's settings, and of the password that came
/// with the request; what is told is what they were made to.
pub proof fn a_connection_is_built_of_its_profile(
    command: WorkspaceCommand,
    read: Step,
    found: Profile<String>,
    application: Step,
    settings: Step,
    mapped: Step,
    params: ConnectionParams<String>,
    told: Step,
    why: String,
    missed: Step,
)
    requires
        command.operation is BuildConnectParams,
        call_ensures(run_command, (command,), read),
        call_ensures(
            resume,
            (command.request, read->stage, Ok(StoreAnswer::FoundProfile(found))),
            application,
        ),
        call_ensures(
            resume,
            (command.request, application->stage, Ok(StoreAnswer::SettingsRead)),
            settings,
        ),
        call_ensures(
            resume,
            (command.request, settings->stage, Ok(StoreAnswer::SettingsRead)),
            mapped,
        ),
        call_ensures(
            resume,
            (command.request, mapped->stage, Ok(StoreAnswer::Params(params))),
            told,
        ),
        call_ensures(
            resume,
            (command.request, read->stage, Ok(StoreAnswer::NoProfile(why))),
            missed,
        ),
    ensures
        read is Call && read->call == (StoreCall::ReadProfile {
            id: command.operation->BuildConnectParams_id,
        }),
        application is Call && application->call is ReadApplicationSettings,
        settings is Call && settings->call == (StoreCall::ReadProfileSettings {
            id: command.operation->BuildConnectParams_id,
        }),
        mapped is Call && mapped->call == (StoreCall::MapConnection {
            password: command.operation->BuildConnectParams_password,
        }),
        told is Reply && told->Reply_0.payload == Ok::<_, DbError>(
            WorkspacePayload::ConnectParamsBuilt(params),
        ),
        missed is Reply && missed->Reply_0.payload is Err,
        missed->Reply_0.payload->Err_0@.kind == ReldexErrorKind::Configuration,
        missed->Reply_0.payload->Err_0@.message =~= "build_connect_params"@ + ": "@ + why@,
{
}

/// A password is resolved for the profile that was named, and told as it was
/// resolved; a profile that is not there fails the request.
pub proof fn a_password_is_resolved_for_its_profile(
    command: WorkspaceCommand,
    read: Step,
    found: Profile<String>,
    resolved: Step,
    source: PasswordSource,
    told: Step,
    why: String,
    missed: Step,
)
    requires
        command.operation is ResolvePassword,
        call_ensures(run_command, (command,), read),
        call_ensures(
            resume,
            (command.request, read->stage, Ok(StoreAnswer::FoundProfile(found))),
            resolved,
        ),
        call_ensures(
            resume,
            (command.request, resolved->stage, Ok(StoreAnswer::Password(source))),
            told,
        ),
        call_ensures(
            resume,
            (command.request, read->stage, Ok(StoreAnswer::NoProfile(why))),
            missed,
        ),
    ensures
        read is Call && read->call == (StoreCall::ReadProfile {
            id: command.operation->ResolvePassword_id,
        }),
        resolved is Call && resolved->call is ResolvePassword,
        told is Reply && told->Reply_0.payload == Ok::<_, DbError>(
            WorkspacePayload::PasswordResolved(source),
        ),
        missed is Reply && missed->Reply_0.payload is Err,
        missed->Reply_0.payload->Err_0@.kind == ReldexErrorKind::Configuration,
        missed->Reply_0.payload->Err_0@.message =~= "resolve_password"@ + ": "@ + why@,
{
}

/// What a command that makes one call is told is what that call answered: whether
/// there was something, a profile or that there is none, a list in the order it
/// came in, a credential, an id, a count or a layout. A worksheet that was saved
/// is told by its own id and times.
pub proof fn a_call_is_told_as_it_answered(
    command: WorkspaceCommand,
    step: Step,
    answer: StoreAnswer,
    told: Step,
)
    requires
        call_ensures(run_command, (command,), step),
        step is Call,
        step->stage.expects(answer),
        call_ensures(resume, (command.request, step->stage, Ok(answer)), told),
    ensures
        answer matches StoreAnswer::Existed(existed) ==> told is Reply
            && told->Reply_0.payload == Ok::<_, DbError>(WorkspacePayload::Existed(existed)),
        command.operation is SetSetting || command.operation is CredentialPut
            || command.operation is SaveLayout ==> told is Reply && told->Reply_0.payload
            == Ok::<_, DbError>(WorkspacePayload::Nothing),
        command.operation is CredentialDelete ==> told is Reply && told->Reply_0.payload
            == Ok::<_, DbError>(WorkspacePayload::Existed(true)),
        command.operation is GetProfile ==> {
            &&& told is Reply && told->Reply_0.payload is Ok
            &&& answer matches StoreAnswer::FoundProfile(profile) ==> told->Reply_0.payload->Ok_0
                == WorkspacePayload::ProfileFetched(Some(profile))
            &&& answer is NoProfile ==> told->Reply_0.payload->Ok_0
                == WorkspacePayload::ProfileFetched(None)
        },
        answer matches StoreAnswer::Profiles(profiles) ==> told is Reply
            && told->Reply_0.payload == Ok::<_, DbError>(
            WorkspacePayload::ProfilesListed(profiles),
        ),
        answer matches StoreAnswer::Credential(secret) ==> told is Reply
            && told->Reply_0.payload == Ok::<_, DbError>(WorkspacePayload::CredentialGot(secret)),
        answer matches StoreAnswer::Recorded(id) ==> told is Reply && told->Reply_0.payload
            == Ok::<_, DbError>(WorkspacePayload::HistoryRecorded(id)),
        answer matches StoreAnswer::Records(records) ==> told is Reply && told->Reply_0.payload
            == Ok::<_, DbError>(WorkspacePayload::HistoryListed(records)),
        answer matches StoreAnswer::Cleared(count) ==> told is Reply && told->Reply_0.payload
            == Ok::<_, DbError>(WorkspacePayload::HistoryCleared(count)),
        answer matches StoreAnswer::Worksheets(worksheets) ==> told is Reply
            && told->Reply_0.payload == Ok::<_, DbError>(
            WorkspacePayload::WorksheetsLoaded(worksheets),
        ),
        answer matches StoreAnswer::SavedLayout(layout) ==> told is Reply
            && told->Reply_0.payload == Ok::<_, DbError>(WorkspacePayload::LayoutLoaded(layout)),
        command.operation matches Operation::SaveWorksheet { worksheet: Ok(worksheet) } ==> {
            &&& told is Reply && told->Reply_0.payload is Ok
            &&& told->Reply_0.payload->Ok_0 matches WorkspacePayload::WorksheetSaved(stamp)
            &&& stamp.id == worksheet.id
            &&& stamp.created_at == worksheet.created_at
            &&& stamp.updated_at == worksheet.updated_at
        },
        command.operation is ClearSetting || command.operation is DeleteProfile
            || command.operation is DeleteWorksheet ==> answer is Existed,
        command.operation is ListProfiles ==> answer is Profiles,
        command.operation is CredentialGet ==> answer is Credential,
        command.operation is RecordHistory ==> answer is Recorded,
        command.operation is ListHistory ==> answer is Records,
        command.operation is ClearHistory ==> answer is Cleared,
        command.operation is LoadWorksheets ==> answer is Worksheets,
        command.operation is LoadLayout ==> answer is SavedLayout,
{
}

/// Whether a workspace opened is told to the request that opened it; a failure in
/// the store's own words.
pub proof fn an_opening_is_told_as_it_went(
    request: u64,
    failed: Option<&StoreError>,
    reply: QueuedWorkspaceReply,
)
    requires
        call_ensures(service_opened, (request, failed), reply),
    ensures
        reply.request == request,
        reply.kind as i32 == 1,
        failed is None ==> reply.payload == Ok::<_, DbError>(WorkspacePayload::Nothing),
        failed matches Some(error) ==> {
            &&& reply.payload is Err
            &&& reply.payload->Err_0@.kind == ReldexErrorKind::Other <==> error.kind
                == StoreErrorKind::Backend
            &&& reply.payload->Err_0@.kind == ReldexErrorKind::Configuration <==> error.kind
                != StoreErrorKind::Backend
            &&& reply.payload->Err_0@.message =~= "reldex_workspace_open"@ + ": "@ + error.text@
        },
{
}

/// A command that a failed service answers is answered as what it asked for, by
/// number, in the words of its own name and of the failure.
pub proof fn a_failed_service_answers_each_command(
    error: StoreError,
    command: WorkspaceCommand,
    step: Step,
)
    requires
        call_ensures(begin_command, (Some(&error), command), step),
    ensures
        step is Reply,
        step->Reply_0.request == command.request,
        step->Reply_0.payload is Err,
        step->Reply_0.payload->Err_0@.kind == ReldexErrorKind::Other <==> error.kind
            == StoreErrorKind::Backend,
        step->Reply_0.payload->Err_0@.kind == ReldexErrorKind::Configuration <==> error.kind
            != StoreErrorKind::Backend,
        ({
            let operation = command.operation;
            let number = step->Reply_0.kind as i32;
            let message = step->Reply_0.payload->Err_0@.message;
            let text = ": "@ + error.text@;
            &&& operation is ResolveSetting ==> number == 2 && message =~= "resolve_setting"@ + text
            &&& operation is SetSetting ==> number == 3 && message =~= "set_setting"@ + text
            &&& operation is ClearSetting ==> number == 3 && message =~= "clear_setting"@ + text
            &&& operation is CreateProfile ==> number == 4 && message =~= "create_profile"@ + text
            &&& operation is UpdateProfile ==> number == 4 && message =~= "update_profile"@ + text
            &&& operation is DeleteProfile ==> number == 5 && message =~= "delete_profile"@ + text
            &&& operation is GetProfile ==> number == 6 && message =~= "get_profile"@ + text
            &&& operation is ListProfiles ==> number == 7 && message =~= "list_profiles"@ + text
            &&& operation is BuildConnectParams ==> number == 8 && message =~= "build_connect_params"@ + text
            &&& operation is CredentialGet ==> number == 9 && message =~= "credential_get"@ + text
            &&& operation is CredentialPut ==> number == 10 && message =~= "credential_put"@ + text
            &&& operation is CredentialDelete ==> number == 11 && message =~= "credential_delete"@ + text
            &&& operation is ResolvePassword ==> number == 12 && message =~= "resolve_password"@ + text
            &&& operation is RecordHistory ==> number == 13 && message =~= "record_history"@ + text
            &&& operation is ListHistory ==> number == 14 && message =~= "list_history"@ + text
            &&& operation is ClearHistory ==> number == 15 && message =~= "clear_history"@ + text
            &&& operation is SaveWorksheet ==> number == 16 && message =~= "save_worksheet"@ + text
            &&& operation is LoadWorksheets ==> number == 17 && message =~= "load_worksheets"@ + text
            &&& operation is DeleteWorksheet ==> number == 18 && message =~= "delete_worksheet"@ + text
            &&& operation is SaveLayout ==> number == 19 && message =~= "save_layout"@ + text
            &&& operation is LoadLayout ==> number == 20 && message =~= "load_layout"@ + text
        }),
{
}

/// A reply to a call answers the request that the call was made for, and is of the
/// number of what was asked, whichever of its calls it comes after.
pub proof fn a_reply_is_of_its_commands_kind(
    request: u64,
    stage: Stage,
    answer: Result<StoreAnswer, StoreFailure>,
    step: Step,
)
    requires
        call_ensures(resume, (request, stage, answer), step),
    ensures
        step matches Step::Call { call, request: owner, stage: following } ==> owner == request,
        step matches Step::Reply(reply) ==> {
            let number = reply.kind as i32;
            &&& reply.request == request
            &&& stage is ResolveApplication
                || stage is ResolveProfile
                || stage is ResolveWorksheet
                || stage is Resolve ==> number == 2
            &&& stage is SetSetting ==> number == 3
            &&& stage is ClearSetting ==> number == 3
            &&& stage is CreateMake || stage is CreateInsert ==> number == 4
            &&& stage is UpdateRead
                || stage is UpdateChange
                || stage is UpdateWrite ==> number == 4
            &&& stage is DeleteProfile ==> number == 5
            &&& stage is GetProfile ==> number == 6
            &&& stage is ListProfiles ==> number == 7
            &&& stage is ConnectProfile
                || stage is ConnectApplication
                || stage is ConnectSettings
                || stage is ConnectMap ==> number == 8
            &&& stage is CredentialGet ==> number == 9
            &&& stage is CredentialPut ==> number == 10
            &&& stage is CredentialDelete ==> number == 11
            &&& stage is PasswordProfile || stage is PasswordResolve ==> number == 12
            &&& stage is RecordHistory ==> number == 13
            &&& stage is ListHistory ==> number == 14
            &&& stage is ClearHistory ==> number == 15
            &&& stage is SaveWorksheet ==> number == 16
            &&& stage is LoadWorksheets ==> number == 17
            &&& stage is DeleteWorksheet ==> number == 18
            &&& stage is SaveLayout ==> number == 19
            &&& stage is LoadLayout ==> number == 20
        },
{
}

/// A call that fails fails its command in the words of its own name and of the
/// failure; only a credential that is not there to delete is no failure.
pub proof fn a_failure_is_told_by_its_commands_name(
    request: u64,
    stage: Stage,
    failure: StoreFailure,
    step: Step,
)
    requires
        call_ensures(resume, (request, stage, Err(failure)), step),
    ensures
        step is Reply,
        step->Reply_0.payload is Ok <==> stage is CredentialDelete && (
        failure matches StoreFailure::Credential(error) && error.not_found),
        step->Reply_0.payload is Ok ==> step->Reply_0.payload->Ok_0 == WorkspacePayload::Existed(
            false,
        ),
        step->Reply_0.payload matches Err(told) ==> {
            &&& failure matches StoreFailure::Store(error) ==> {
                &&& told@.kind == ReldexErrorKind::Other <==> error.kind == StoreErrorKind::Backend
                &&& told@.kind == ReldexErrorKind::Configuration <==> error.kind
                    != StoreErrorKind::Backend
            }
            &&& failure is Profile || failure is Connect ==> told@.kind
                == ReldexErrorKind::Configuration
        },
        failure !is Credential ==> {
            let told = step->Reply_0.payload->Err_0@.message;
            let text = ": "@ + match failure {
                StoreFailure::Store(error) => error.text@,
                StoreFailure::Profile(text) => text@,
                StoreFailure::Connect(text) => text@,
                StoreFailure::Credential(error) => Seq::empty(),
            };
            &&& stage is ResolveApplication ==> told =~= "resolve_setting"@ + text
            &&& stage is ResolveProfile ==> told =~= "resolve_setting"@ + text
            &&& stage is ResolveWorksheet ==> told =~= "resolve_setting"@ + text
            &&& stage is Resolve ==> told =~= "resolve_setting"@ + text
            &&& stage is SetSetting ==> told =~= "set_setting"@ + text
            &&& stage is ClearSetting ==> told =~= "clear_setting"@ + text
            &&& stage is CreateMake ==> told =~= "create_profile"@ + text
            &&& stage is CreateInsert ==> told =~= "create_profile"@ + text
            &&& stage is UpdateRead ==> told =~= "update_profile"@ + text
            &&& stage is UpdateChange ==> told =~= "update_profile"@ + text
            &&& stage is UpdateWrite ==> told =~= "update_profile"@ + text
            &&& stage is DeleteProfile ==> told =~= "delete_profile"@ + text
            &&& stage is GetProfile ==> told =~= "get_profile"@ + text
            &&& stage is ListProfiles ==> told =~= "list_profiles"@ + text
            &&& stage is ConnectProfile ==> told =~= "build_connect_params"@ + text
            &&& stage is ConnectApplication ==> told =~= "build_connect_params"@ + text
            &&& stage is ConnectSettings ==> told =~= "build_connect_params"@ + text
            &&& stage is ConnectMap ==> told =~= "build_connect_params"@ + text
            &&& stage is CredentialGet ==> told =~= "credential_get"@ + text
            &&& stage is CredentialPut ==> told =~= "credential_put"@ + text
            &&& stage is CredentialDelete ==> told =~= "credential_delete"@ + text
            &&& stage is PasswordProfile ==> told =~= "resolve_password"@ + text
            &&& stage is PasswordResolve ==> told =~= "resolve_password"@ + text
            &&& stage is RecordHistory ==> told =~= "record_history"@ + text
            &&& stage is ListHistory ==> told =~= "list_history"@ + text
            &&& stage is ClearHistory ==> told =~= "clear_history"@ + text
            &&& stage is SaveWorksheet ==> told =~= "save_worksheet"@ + text
            &&& stage is LoadWorksheets ==> told =~= "load_worksheets"@ + text
            &&& stage is DeleteWorksheet ==> told =~= "delete_worksheet"@ + text
            &&& stage is SaveLayout ==> told =~= "save_layout"@ + text
            &&& stage is LoadLayout ==> told =~= "load_layout"@ + text
        },
{
}

} // verus!
