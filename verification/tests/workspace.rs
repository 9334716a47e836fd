//! A workspace end to end: requests, a store in memory that answers the
//! service's calls, and the replies a caller takes.

use reldex_ffi::connect::{
    oracle_extensions, reldex_connect_summary_release, reldex_connect_summary_view,
    reldex_secret_expose, reldex_secret_release, CaDirectory, ConnectionParams, CredentialError,
    DriverOptions, Endpoint, PasswordSource, PromptReason, ReldexPasswordSourceKind,
    ReldexPromptReasonKind, Secret, TlsMode,
};
use reldex_ffi::error::{reldex_error_free, ReldexErrorKind};
use reldex_ffi::history::{
    history_id_from_ffi, history_id_to_ffi, history_outcome_from_i32, reldex_history_list_count,
    reldex_history_list_get, reldex_history_list_release, split_history_outcome, HistoryOutcome,
    HistoryRecord, ReldexHistoryOutcomeKind,
};
use reldex_ffi::profile::{
    build_profile_details, reldex_profile_list_count, reldex_profile_list_get,
    reldex_profile_list_release, Authentication, Environment, PasswordStorage, Profile,
    ProfileDetails, ProfileEndpoint, ReldexAuthKind, ReldexDatabaseType, ReldexEndpointKind,
    ReldexEnvironmentKind, ReldexPasswordStorageKind, ReldexProfileDetails, ReldexServiceTargetKind,
    ReldexSessionRoleKind, ReldexTransportKind, ServiceTarget, SessionRole, StoredProfile, Transport,
};
use reldex_ffi::reply::ReldexWorkspaceReply;
use reldex_ffi::service::{
    begin_command, resume, service_opened, ReldexWorkspaceReplyKind, Stamp, Step, StoreAnswer,
    StoreCall, StoreError, StoreErrorKind, StoreFailure, WorkspaceCommand,
};
use reldex_ffi::settings::{
    Level, ReldexSettingId, ReldexSettingLevel, ReldexSettingValue, ReldexValueKind, Scope,
    SettingId, SettingValue,
};
use reldex_ffi::status::{Boundary, ReldexStatus};
use reldex_ffi::strings::{InParam, ReldexStr};
use reldex_ffi::workspace::{
    finish_open, finish_request, reldex_workspace_build_connect_params,
    reldex_workspace_clear_history, reldex_workspace_clear_setting, reldex_workspace_close,
    reldex_workspace_create_profile, reldex_workspace_credential_delete,
    reldex_workspace_credential_get, reldex_workspace_credential_put,
    reldex_workspace_delete_profile, reldex_workspace_delete_worksheet,
    reldex_workspace_get_profile, reldex_workspace_list_history, reldex_workspace_list_profiles,
    reldex_workspace_load_layout, reldex_workspace_load_worksheets, reldex_workspace_next_reply,
    reldex_workspace_open, reldex_workspace_pending_replies, reldex_workspace_record_history,
    reldex_workspace_resolve_password, reldex_workspace_resolve_setting,
    reldex_workspace_save_layout, reldex_workspace_save_worksheet, reldex_workspace_set_setting,
    reldex_workspace_set_waker, reldex_workspace_update_profile, release_workspace,
    submit_worksheet, IdParam, ReldexWorkspace,
};
use reldex_ffi::worksheet::{
    reldex_worksheet_list_count, reldex_worksheet_list_get, reldex_worksheet_list_release, Layout,
    PaneSizes, ReldexLayout, WindowGeometry, Worksheet,
};

const FULL: u32 = 400;

type Id = [u8; 16];
type Layer = Vec<(SettingId, SettingValue)>;

/// A store in memory: what was put in comes out again.
#[derive(Default)]
struct Store {
    application: Layer,
    profile_settings: Vec<(Id, Layer)>,
    worksheet_settings: Vec<(Id, Layer)>,
    /// The layers read for the command that runs, the most general first.
    layers: Vec<(Level, Layer)>,
    profiles: Vec<Profile<String>>,
    /// The profile the command that runs read or made.
    current: Option<Profile<String>>,
    credentials: Vec<(Id, Secret)>,
    history: Vec<(Id, HistoryRecord)>,
    worksheets: Vec<Worksheet>,
    layout: Option<Layout>,
    made: u8,
}

fn refused(kind: StoreErrorKind, text: &str) -> StoreFailure {
    StoreFailure::Store(StoreError {
        kind,
        text: text.to_owned(),
    })
}

impl Store {
    fn layer(&mut self, scope: Scope) -> &mut Layer {
        let (layers, id) = match scope {
            Scope::Application => return &mut self.application,
            Scope::Profile(id) => (&mut self.profile_settings, id),
            Scope::Worksheet(id) => (&mut self.worksheet_settings, id),
        };
        let index = match layers.iter().position(|(known, _)| *known == id) {
            Some(index) => index,
            None => {
                layers.push((id, Layer::new()));
                layers.len() - 1
            }
        };
        &mut layers[index].1
    }

    fn resolve(&self, setting: SettingId) -> (SettingValue, Level) {
        let mut resolved = match setting {
            SettingId::FetchRows => (SettingValue::Count(1_000), Level::BuiltIn),
            SettingId::RewriteTriggerDdl => (SettingValue::Bool(true), Level::BuiltIn),
            _ => (SettingValue::TimeLimit(None), Level::BuiltIn),
        };
        for (level, layer) in &self.layers {
            for (known, value) in layer {
                if *known == setting {
                    resolved = (*value, *level);
                }
            }
        }
        resolved
    }

    fn make(&mut self, details: ProfileDetails<String>) -> Result<StoreAnswer, StoreFailure> {
        if let ProfileEndpoint::ConnectString(text) = &details.endpoint {
            if text.contains('@') {
                return Err(StoreFailure::Profile(
                    "the connect string looks like it holds a credential".to_owned(),
                ));
            }
        }
        self.made += 1;
        let stamp = Stamp {
            id: [self.made; 16],
            created_at: 1_000,
            updated_at: 1_000,
        };
        self.current = Some(Profile {
            id: stamp.id,
            created_at: stamp.created_at,
            modified_at: stamp.updated_at,
            details,
        });
        Ok(StoreAnswer::ProfileMade(stamp))
    }

    fn connection(&self) -> ConnectionParams<String> {
        let profile = self.current.as_ref().expect("a profile was read");
        let endpoint = match &profile.details.endpoint {
            ProfileEndpoint::HostPort { host, port, target } => match target {
                ServiceTarget::ServiceName(service) => Endpoint::HostPort {
                    host: host.clone(),
                    port: *port,
                    service: service.clone(),
                },
                ServiceTarget::Sid(sid) => {
                    Endpoint::ConnectString(format!("(SID={sid})(HOST={host})(PORT={port})"))
                }
                ServiceTarget::Unrecognized => Endpoint::Unrecognized,
            },
            ProfileEndpoint::ConnectString(text) => Endpoint::ConnectString(text.clone()),
            ProfileEndpoint::Unrecognized => Endpoint::Unrecognized,
        };
        let SettingValue::Bool(rewrite_trigger_ddl) = self.resolve(SettingId::RewriteTriggerDdl).0
        else {
            panic!("a flag");
        };
        let extensions = oracle_extensions(&DriverOptions {
            connect_without_limit: false,
            rewrite_trigger_ddl,
            allow_unenforced_certificate_pin: false,
            ca_directory: CaDirectory::Absent,
        })
        .expect("the directory is readable");
        ConnectionParams {
            endpoint,
            tls: TlsMode::Disabled,
            connect_timeout: None,
            role: profile.details.role,
            extensions,
        }
    }

    fn answer(&mut self, call: StoreCall) -> Result<StoreAnswer, StoreFailure> {
        let answer = match call {
            StoreCall::ReadApplicationSettings => {
                self.layers = vec![(Level::Application, self.application.clone())];
                StoreAnswer::SettingsRead
            }
            StoreCall::ReadProfileSettings { id } => {
                let layer = self.layer(Scope::Profile(id)).clone();
                self.layers.push((Level::Profile, layer));
                StoreAnswer::SettingsRead
            }
            StoreCall::ReadWorksheetSettings { id } => {
                let layer = self.layer(Scope::Worksheet(id)).clone();
                self.layers.push((Level::Worksheet, layer));
                StoreAnswer::SettingsRead
            }
            StoreCall::ResolveSetting { setting } => {
                let (value, source) = self.resolve(setting);
                StoreAnswer::Resolved { value, source }
            }
            StoreCall::PutSetting {
                scope,
                setting,
                value,
            } => {
                if value == SettingValue::Count(0) {
                    return Err(refused(StoreErrorKind::InvalidSetting, "zero rows"));
                }
                let layer = self.layer(scope);
                layer.retain(|(known, _)| *known != setting);
                layer.push((setting, value));
                StoreAnswer::Done
            }
            StoreCall::ClearSetting { scope, setting } => {
                let layer = self.layer(scope);
                let before = layer.len();
                layer.retain(|(known, _)| *known != setting);
                StoreAnswer::Existed(layer.len() < before)
            }
            StoreCall::MakeProfile { details } => return self.make(details),
            StoreCall::ChangeProfile { details } => {
                let read = self.current.take().expect("a profile was read");
                self.make(details)?;
                let made = self.current.as_mut().expect("just made");
                made.id = read.id;
                made.modified_at = 2_000;
                StoreAnswer::ProfileMade(Stamp {
                    id: read.id,
                    created_at: made.created_at,
                    updated_at: made.modified_at,
                })
            }
            StoreCall::InsertProfile => {
                let made = self.current.take().expect("a profile was made");
                self.profiles.push(made);
                StoreAnswer::Done
            }
            StoreCall::WriteProfile => {
                let made = self.current.take().expect("a profile was made");
                self.profiles.retain(|known| known.id != made.id);
                self.profiles.push(made);
                StoreAnswer::Done
            }
            StoreCall::ReadProfile { id } => {
                let found = self.profiles.iter().find(|known| known.id == id).cloned();
                self.current = found.clone();
                match found {
                    Some(profile) => StoreAnswer::FoundProfile(profile),
                    None => StoreAnswer::NoProfile("there is no such profile".to_owned()),
                }
            }
            StoreCall::DeleteProfile { id } => {
                let before = self.profiles.len();
                self.profiles.retain(|known| known.id != id);
                StoreAnswer::Existed(self.profiles.len() < before)
            }
            StoreCall::ListProfiles => StoreAnswer::Profiles(self.profiles.clone()),
            StoreCall::MapConnection { password } => {
                let profile = self.current.as_ref().expect("a profile was read");
                let needs = matches!(
                    profile.details.authentication,
                    Authentication::Password { .. }
                );
                if needs && password.is_none() {
                    return Err(StoreFailure::Connect("a password is needed".to_owned()));
                }
                StoreAnswer::Params(self.connection())
            }
            StoreCall::GetCredential { id } => StoreAnswer::Credential(self.credential(id)),
            StoreCall::PutCredential { id, secret } => {
                self.credentials.retain(|(known, _)| *known != id);
                self.credentials.push((id, secret));
                StoreAnswer::Done
            }
            StoreCall::DeleteCredential { id } => {
                let before = self.credentials.len();
                self.credentials.retain(|(known, _)| *known != id);
                if self.credentials.len() == before {
                    return Err(StoreFailure::Credential(CredentialError {
                        not_found: true,
                        text: "no password is stored".to_owned(),
                    }));
                }
                StoreAnswer::Done
            }
            StoreCall::ResolvePassword => {
                let profile = self.current.as_ref().expect("a profile was read");
                let id = profile.id;
                StoreAnswer::Password(match &profile.details.authentication {
                    Authentication::Password {
                        storage: PasswordStorage::CredentialStore,
                        ..
                    } => match self.credential(id) {
                        Some(secret) => PasswordSource::FromStore(secret),
                        None => PasswordSource::PromptRequired(PromptReason::NotStored),
                    },
                    Authentication::Password { .. } => {
                        PasswordSource::PromptRequired(PromptReason::PromptEachTime)
                    }
                    _ => PasswordSource::NotNeeded,
                })
            }
            StoreCall::RecordHistory { entry } => {
                let id = self.history.len() as i64 + 1;
                self.history.push((
                    entry.profile,
                    HistoryRecord {
                        id,
                        executed_at: entry.executed_at,
                        statement: entry.statement,
                        outcome: entry.outcome,
                        elapsed_ms: entry.elapsed_ms,
                        row_count: entry.row_count,
                    },
                ));
                StoreAnswer::Recorded(id)
            }
            StoreCall::ListHistory { profile, page } => {
                let listed = self.history.iter().rev();
                let listed = listed.filter(|(owner, record)| {
                    *owner == profile && page.before.is_none_or(|before| record.id < before)
                });
                let records = listed.take(page.limit as usize);
                StoreAnswer::Records(records.map(|(_, record)| record.clone()).collect())
            }
            StoreCall::ClearHistory { profile } => {
                let before = self.history.len();
                self.history.retain(|(owner, _)| *owner != profile);
                StoreAnswer::Cleared(before - self.history.len())
            }
            StoreCall::SaveWorksheet { worksheet } => {
                self.worksheets.retain(|known| known.id != worksheet.id);
                self.worksheets.push(worksheet);
                StoreAnswer::Done
            }
            StoreCall::LoadWorksheets => StoreAnswer::Worksheets(self.worksheets.clone()),
            StoreCall::DeleteWorksheet { id } => {
                let before = self.worksheets.len();
                self.worksheets.retain(|known| known.id != id);
                StoreAnswer::Existed(self.worksheets.len() < before)
            }
            StoreCall::SaveLayout { layout } => {
                self.layout = Some(layout);
                StoreAnswer::Done
            }
            StoreCall::LoadLayout => StoreAnswer::SavedLayout(self.layout),
        };
        Ok(answer)
    }

    fn credential(&self, id: Id) -> Option<Secret> {
        let found = self.credentials.iter().find(|(known, _)| *known == id);
        found.map(|(_, secret)| secret.copy())
    }
}

/// A workspace with a waker, and the service behind it.
struct TestWorkspace {
    boundary: Boundary,
    workspace: ReldexWorkspace,
    store: Store,
}

impl TestWorkspace {
    fn open() -> Self {
        let mut boundary = Boundary::new();
        let path = reldex_workspace_open(&mut boundary, ReldexStr::empty(), true, true);
        assert_eq!(path, Ok(None));
        let workspace = finish_open(&mut boundary, true).ok().expect("a workspace");
        let mut opened = TestWorkspace {
            boundary,
            workspace,
            store: Store::default(),
        };
        let status = reldex_workspace_set_waker(
            &mut opened.boundary,
            Some(&mut opened.workspace),
            true,
        );
        assert_eq!(status, ReldexStatus::Okay);
        assert!(opened.workspace.push_reply(service_opened(1, None)));
        let reply = opened.take(1);
        assert!(reply.error.is_none(), "store failed to open");
        assert_eq!(reply.kind, ReldexWorkspaceReplyKind::Opened as i32);
        opened
    }

    fn take(&mut self, request: u64) -> ReldexWorkspaceReply {
        let reply = reldex_workspace_next_reply(
            &mut self.boundary,
            Some(&mut self.workspace),
            Some(FULL),
        )
        .expect("a reply waits");
        assert_eq!(reply.request, request);
        assert_eq!(reply.struct_size, FULL);
        reply
    }

    /// Runs an accepted request to its reply.
    fn run(&mut self, answer: Result<WorkspaceCommand, ReldexStatus>) -> ReldexWorkspaceReply {
        let command = answer.ok().expect("the request is accepted");
        let request = command.request;
        assert_eq!(finish_request(&mut self.boundary, Ok(())), ReldexStatus::Okay);
        let mut step = begin_command(None, command);
        let mut calls = 0;
        loop {
            match step {
                Step::Call {
                    call,
                    request,
                    stage,
                } => {
                    calls += 1;
                    assert!(calls <= 4, "a command comes to its reply");
                    step = resume(request, stage, self.store.answer(call));
                }
                Step::Reply(reply) => {
                    assert!(self.workspace.push_reply(reply), "the caller is woken");
                    return self.take(request);
                }
            }
        }
    }

    fn create(&mut self, request: u64, details: ReldexProfileDetails<'_>) -> ReldexWorkspaceReply {
        let answer = reldex_workspace_create_profile(
            &mut self.boundary,
            Some(&self.workspace),
            request,
            InParam::Given(details),
        );
        self.run(answer)
    }

    fn resolve(&mut self, request: u64) -> ReldexWorkspaceReply {
        let answer = reldex_workspace_resolve_setting(
            &mut self.boundary,
            Some(&self.workspace),
            request,
            ReldexSettingId::FetchRows as i32,
            IdParam::Null,
            IdParam::Null,
        );
        self.run(answer)
    }

    fn last_message(&mut self) -> String {
        let error = self.boundary.take_last_error().expect("a failed call says why");
        error.message().to_owned()
    }
}

fn str_of(text: &str) -> ReldexStr<'_> {
    ReldexStr {
        ptr: Some(text.as_bytes()),
        len: text.len(),
    }
}

fn no_id() -> Result<Id, String> {
    Err("no id was given".to_owned())
}

fn profile_details(port: u16, sid: bool) -> ReldexProfileDetails<'static> {
    let target_kind = if sid {
        ReldexServiceTargetKind::Sid
    } else {
        ReldexServiceTargetKind::ServiceName
    };
    ReldexProfileDetails {
        name: str_of("Orders (test)"),
        database_type: ReldexDatabaseType::Oracle as i32,
        environment: ReldexEnvironmentKind::Test as i32,
        environment_label: ReldexStr::empty(),
        treat_as_production: false,
        endpoint_kind: ReldexEndpointKind::HostPort as i32,
        host: str_of("db.example.internal"),
        port,
        service_target_kind: target_kind as i32,
        service_name_or_sid: str_of("ORDERS"),
        connect_string: ReldexStr::empty(),
        auth_kind: ReldexAuthKind::Password as i32,
        username: str_of("app_owner"),
        password_storage: ReldexPasswordStorageKind::CredentialStore as i32,
        role: ReldexSessionRoleKind::Normal as i32,
        transport: ReldexTransportKind::Plain as i32,
        ca_directory: ReldexStr::empty(),
        allow_unenforced_certificate_pin: false,
    }
}

#[test]
fn a_setting_resolves_to_its_built_in_default_with_no_layers() {
    let mut workspace = TestWorkspace::open();
    let reply = workspace.resolve(2);
    assert!(reply.error.is_none());
    assert_eq!(reply.setting_source, ReldexSettingLevel::BuiltIn as i32);
    assert_eq!(reply.setting_value.kind, ReldexValueKind::Count as i32);
    assert_eq!(
        reply.setting_value.count_value, 1_000,
        "FETCH_ROWS's documented default"
    );
    assert_eq!(reply.setting_id, ReldexSettingId::FetchRows as i32);
}

#[test]
fn setting_a_value_is_seen_on_resolve_and_clearing_it_reverts_to_the_default() {
    let mut workspace = TestWorkspace::open();
    let value = ReldexSettingValue {
        kind: ReldexValueKind::Count as i32,
        bool_value: false,
        count_value: 250,
        no_limit: false,
        number_value: 0,
    };
    let answer = reldex_workspace_set_setting(
        &mut workspace.boundary,
        Some(&workspace.workspace),
        3,
        ReldexSettingId::FetchRows as i32,
        ReldexSettingLevel::Application as i32,
        no_id(),
        no_id(),
        InParam::Given(value),
    );
    let set_reply = workspace.run(answer);
    assert!(set_reply.error.is_none(), "set_setting failed");

    let resolved = workspace.resolve(4);
    assert_eq!(
        resolved.setting_source,
        ReldexSettingLevel::Application as i32
    );
    assert_eq!(resolved.setting_value.count_value, 250);

    let answer = reldex_workspace_clear_setting(
        &mut workspace.boundary,
        Some(&workspace.workspace),
        5,
        ReldexSettingId::FetchRows as i32,
        ReldexSettingLevel::Application as i32,
        no_id(),
        no_id(),
    );
    let cleared = workspace.run(answer);
    assert!(cleared.error.is_none());
    assert!(cleared.found, "a value existed to clear");

    let back_to_default = workspace.resolve(6);
    assert_eq!(
        back_to_default.setting_source,
        ReldexSettingLevel::BuiltIn as i32
    );
    assert_eq!(back_to_default.setting_value.count_value, 1_000);
}

#[test]
fn a_profile_is_created_fetched_and_a_credential_looking_endpoint_is_refused() {
    let mut workspace = TestWorkspace::open();
    let created = workspace.create(7, profile_details(1521, false));
    assert!(created.error.is_none(), "create_profile failed");
    let id = created.id;

    let answer = reldex_workspace_get_profile(
        &mut workspace.boundary,
        Some(&workspace.workspace),
        8,
        IdParam::Valid(id),
    );
    let fetched = workspace.run(answer);
    assert!(fetched.error.is_none());
    assert!(fetched.found);
    let list = fetched.profile_list.expect("a list");
    let profile_count = reldex_profile_list_count(&mut workspace.boundary, Some(&list));
    assert_eq!(profile_count, 1);
    let view = reldex_profile_list_get(&mut workspace.boundary, Some(&list), 0, Some(FULL))
        .expect("a profile");
    assert_eq!(view.name.as_str(), Some("Orders (test)"));
    assert_eq!(view.id, id);
    assert!(reldex_profile_list_release(&mut workspace.boundary, Some(list)).is_none());

    let mut credential_looking = profile_details(1521, false);
    credential_looking.connect_string = str_of("scott/tiger@//db:1521/ORDERS");
    credential_looking.endpoint_kind = ReldexEndpointKind::ConnectString as i32;
    let refused = workspace.create(9, credential_looking);
    let error = refused
        .error
        .expect("a credential-looking endpoint must be refused");
    assert_eq!(error.kind(), ReldexErrorKind::Configuration);
    assert!(error.message().contains("create_profile"));
    assert!(reldex_error_free(&mut workspace.boundary, Some(error)).is_none());
    assert_eq!(workspace.store.profiles.len(), 1, "nothing was written");
    assert_eq!(workspace.boundary.live.errors, 0);
}

#[test]
fn connect_params_map_a_service_name_and_a_sid_through_the_oracle_binding() {
    let mut workspace = TestWorkspace::open();
    let mut service_name = profile_details(1521, false);
    service_name.auth_kind = ReldexAuthKind::External as i32;
    let created = workspace.create(10, service_name);
    assert!(created.error.is_none());
    let id = created.id;

    let answer = reldex_workspace_build_connect_params(
        &mut workspace.boundary,
        Some(&workspace.workspace),
        11,
        IdParam::Valid(id),
        None,
    );
    let built = workspace.run(answer);
    assert!(
        built.error.is_none(),
        "build_connect_params failed for a service-name profile"
    );
    let summary = built.connect.expect("a summary");
    let view = reldex_connect_summary_view(&mut workspace.boundary, Some(&summary), Some(FULL))
        .expect("a view");
    assert_eq!(view.endpoint_kind, ReldexEndpointKind::HostPort as i32);
    assert_eq!(view.host.as_str(), Some("db.example.internal"));
    assert!(
        view.rewrite_trigger_ddl,
        "REWRITE_TRIGGER_DDL defaults to on"
    );
    assert!(reldex_connect_summary_release(&mut workspace.boundary, Some(summary)).is_none());

    let mut sid = profile_details(1522, true);
    sid.auth_kind = ReldexAuthKind::External as i32;
    let created_sid = workspace.create(12, sid);
    assert!(created_sid.error.is_none());
    let sid_id = created_sid.id;

    let answer = reldex_workspace_build_connect_params(
        &mut workspace.boundary,
        Some(&workspace.workspace),
        13,
        IdParam::Valid(sid_id),
        None,
    );
    let built_sid = workspace.run(answer);
    assert!(
        built_sid.error.is_none(),
        "build_connect_params failed for a SID profile"
    );
    let summary = built_sid.connect.expect("a summary");
    let sid_view = reldex_connect_summary_view(&mut workspace.boundary, Some(&summary), Some(FULL))
        .expect("a view");
    assert_eq!(
        sid_view.endpoint_kind,
        ReldexEndpointKind::ConnectString as i32,
        "a SID has no vendor-neutral endpoint shape; the Oracle binding maps it to a connect \
         string"
    );
    let text = sid_view.connect_string.as_str().expect("utf-8");
    assert!(text.contains("ORDERS"), "{text}");
    assert!(reldex_connect_summary_release(&mut workspace.boundary, Some(summary)).is_none());
}

#[test]
fn resolve_password_against_a_memory_store_reports_not_stored_then_from_store() {
    let mut workspace = TestWorkspace::open();
    let created = workspace.create(14, profile_details(1521, false));
    let id = created.id;

    let answer = reldex_workspace_resolve_password(
        &mut workspace.boundary,
        Some(&workspace.workspace),
        15,
        IdParam::Valid(id),
    );
    let not_stored = workspace.run(answer);
    assert!(not_stored.error.is_none());
    assert_eq!(
        not_stored.password_source_kind,
        ReldexPasswordSourceKind::PromptRequired as i32
    );
    assert_eq!(
        not_stored.prompt_reason,
        ReldexPromptReasonKind::NotStored as i32
    );

    let marker = "reldex-test-marker-9f2c";
    let answer = reldex_workspace_credential_put(
        &mut workspace.boundary,
        Some(&workspace.workspace),
        16,
        IdParam::Valid(id),
        str_of(marker),
    );
    let put = workspace.run(answer);
    assert!(put.error.is_none(), "credential_put failed");

    let answer = reldex_workspace_resolve_password(
        &mut workspace.boundary,
        Some(&workspace.workspace),
        17,
        IdParam::Valid(id),
    );
    let from_store = workspace.run(answer);
    assert!(from_store.error.is_none());
    assert_eq!(
        from_store.password_source_kind,
        ReldexPasswordSourceKind::FromStore as i32
    );
    let mut secret = from_store.secret.expect("a secret");
    let exposed = reldex_secret_expose(&mut workspace.boundary, Some(&secret));
    let bytes = &exposed.ptr.expect("a buffer")[..exposed.len];
    let exposed_text = std::str::from_utf8(bytes);
    assert_eq!(exposed_text, Ok(marker));
    assert!(reldex_secret_release(
        &mut workspace.boundary,
        Some(&mut secret)
    ));

    let answer = reldex_workspace_credential_delete(
        &mut workspace.boundary,
        Some(&workspace.workspace),
        18,
        IdParam::Valid(id),
    );
    let deleted = workspace.run(answer);
    assert!(deleted.error.is_none());
    assert!(
        deleted.found,
        "the password just put must be reported as having existed"
    );
}

#[test]
fn history_is_recorded_listed_and_cleared() {
    let mut workspace = TestWorkspace::open();
    let created = workspace.create(19, profile_details(1521, false));
    let id = created.id;

    let answer = reldex_workspace_record_history(
        &mut workspace.boundary,
        Some(&workspace.workspace),
        20,
        IdParam::Valid(id),
        1_700_000_000_000,
        str_of("SELECT 1 FROM dual"),
        ReldexHistoryOutcomeKind::Succeeded as i32,
        0,
        false,
        5,
        1,
        true,
    );
    let recorded = workspace.run(answer);
    assert!(recorded.error.is_none(), "record_history failed");
    assert_eq!(recorded.history_id, 1);

    let answer = reldex_workspace_list_history(
        &mut workspace.boundary,
        Some(&workspace.workspace),
        21,
        IdParam::Valid(id),
        10,
        0,
        false,
    );
    let listed = workspace.run(answer);
    assert!(listed.error.is_none());
    let list = listed.history_list.expect("a list");
    assert_eq!(
        reldex_history_list_count(&mut workspace.boundary, Some(&list)),
        1
    );
    let record_view = reldex_history_list_get(&mut workspace.boundary, Some(&list), 0, Some(FULL))
        .expect("a record");
    assert_eq!(record_view.statement.as_str(), Some("SELECT 1 FROM dual"));
    assert_eq!(record_view.row_count, 1);
    assert_eq!(record_view.executed_at, 1_700_000_000_000);
    assert!(reldex_history_list_release(&mut workspace.boundary, Some(list)).is_none());

    let answer = reldex_workspace_clear_history(
        &mut workspace.boundary,
        Some(&workspace.workspace),
        22,
        IdParam::Valid(id),
    );
    let cleared = workspace.run(answer);
    assert!(cleared.error.is_none());
    assert_eq!(cleared.count, 1);
}

fn layout(active: Id) -> ReldexLayout {
    ReldexLayout {
        has_active_worksheet: true,
        active_worksheet: active,
        has_active_profile: false,
        active_profile: [0; 16],
        has_object_browser_width: true,
        object_browser_width: 240,
        has_result_pane_height: false,
        result_pane_height: 0,
        has_window_position: false,
        window_x: 0,
        window_y: 0,
        has_window_size: false,
        window_width: 0,
        window_height: 0,
        window_maximized: true,
    }
}

#[test]
fn a_worksheet_is_saved_loaded_and_deleted_and_layout_round_trips() {
    let mut workspace = TestWorkspace::open();
    let id = [0x5a_u8; 16];
    let draft = reldex_workspace_save_worksheet(
        &mut workspace.boundary,
        IdParam::Valid(id),
        IdParam::Null,
        str_of("scratch"),
        str_of("select 1 from dual;"),
        0,
        0,
        0,
    )
    .expect("the worksheet is in order");
    let made = Worksheet {
        id: draft.id,
        profile: draft.profile,
        state: draft.state,
        tab_order: draft.tab_order,
        created_at: 10,
        updated_at: 10,
    };
    let answer = submit_worksheet(
        &mut workspace.boundary,
        Some(&workspace.workspace),
        23,
        Ok(made),
    );
    let saved = workspace.run(answer);
    assert!(saved.error.is_none(), "save_worksheet failed");
    assert_eq!((saved.id, saved.created_at), (id, 10));

    let answer = reldex_workspace_load_worksheets(
        &mut workspace.boundary,
        Some(&workspace.workspace),
        24,
    );
    let loaded = workspace.run(answer);
    assert!(loaded.error.is_none());
    let list = loaded.worksheet_list.expect("a list");
    let worksheet_count = reldex_worksheet_list_count(&mut workspace.boundary, Some(&list));
    assert_eq!(worksheet_count, 1);
    let view = reldex_worksheet_list_get(&mut workspace.boundary, Some(&list), 0, Some(FULL))
        .expect("a worksheet");
    assert_eq!(view.text.as_str(), Some("select 1 from dual;"));
    assert!(!view.has_profile);
    assert!(reldex_worksheet_list_release(&mut workspace.boundary, Some(list)).is_none());

    let answer = reldex_workspace_save_layout(
        &mut workspace.boundary,
        Some(&workspace.workspace),
        25,
        InParam::Given(layout(id)),
        Ok(id),
        no_id(),
    );
    let layout_saved = workspace.run(answer);
    assert!(layout_saved.error.is_none(), "save_layout failed");

    let answer =
        reldex_workspace_load_layout(&mut workspace.boundary, Some(&workspace.workspace), 26);
    let layout_loaded = workspace.run(answer);
    assert!(layout_loaded.error.is_none());
    assert!(layout_loaded.found);
    assert!(layout_loaded.layout.has_active_worksheet);
    assert_eq!(layout_loaded.layout.active_worksheet, id);
    assert_eq!(layout_loaded.layout.object_browser_width, 240);
    assert!(layout_loaded.layout.window_maximized);

    let answer = reldex_workspace_delete_worksheet(
        &mut workspace.boundary,
        Some(&workspace.workspace),
        27,
        IdParam::Valid(id),
    );
    let deleted = workspace.run(answer);
    assert!(deleted.error.is_none());
    assert!(
        deleted.found,
        "the worksheet just saved must be reported as having existed"
    );
}

#[test]
fn layers_are_read_from_the_most_general_to_the_most_particular() {
    let mut workspace = TestWorkspace::open();
    let (profile, worksheet) = ([1; 16], [2; 16]);
    let values = [
        (Scope::Application, 10),
        (Scope::Profile(profile), 20),
        (Scope::Worksheet(worksheet), 30),
    ];
    for (scope, rows) in values {
        let layer = workspace.store.layer(scope);
        layer.push((SettingId::FetchRows, SettingValue::Count(rows)));
    }
    let asked = [
        (IdParam::Null, IdParam::Null, 10, ReldexSettingLevel::Application),
        (
            IdParam::Valid(profile),
            IdParam::Null,
            20,
            ReldexSettingLevel::Profile,
        ),
        (
            IdParam::Valid(profile),
            IdParam::Valid(worksheet),
            30,
            ReldexSettingLevel::Worksheet,
        ),
        (
            IdParam::Null,
            IdParam::Valid(worksheet),
            30,
            ReldexSettingLevel::Worksheet,
        ),
    ];
    for (profile, worksheet, rows, source) in asked {
        let answer = reldex_workspace_resolve_setting(
            &mut workspace.boundary,
            Some(&workspace.workspace),
            60,
            ReldexSettingId::FetchRows as i32,
            profile,
            worksheet,
        );
        let reply = workspace.run(answer);
        assert_eq!(reply.setting_value.count_value, rows);
        assert_eq!(reply.setting_source, source as i32);
    }
}

#[test]
fn a_failed_call_fails_its_request_with_the_name_of_what_was_asked() {
    let mut workspace = TestWorkspace::open();
    let value = ReldexSettingValue {
        kind: ReldexValueKind::Count as i32,
        bool_value: false,
        count_value: 0,
        no_limit: false,
        number_value: 0,
    };
    let answer = reldex_workspace_set_setting(
        &mut workspace.boundary,
        Some(&workspace.workspace),
        3,
        ReldexSettingId::FetchRows as i32,
        ReldexSettingLevel::Profile as i32,
        Ok([4; 16]),
        Ok([4; 16]),
        InParam::Given(value),
    );
    let reply = workspace.run(answer);
    let error = reply.error.expect("an error");
    assert_eq!(error.kind(), ReldexErrorKind::Configuration);
    assert_eq!(error.message(), "set_setting: zero rows");
    assert_eq!(reply.request, 3);

    let answer = reldex_workspace_build_connect_params(
        &mut workspace.boundary,
        Some(&workspace.workspace),
        4,
        IdParam::Valid([9; 16]),
        None,
    );
    let reply = workspace.run(answer);
    let error = reply.error.expect("an error");
    assert!(error.message().contains("there is no such profile"));

    let created = workspace.create(5, profile_details(1, false));
    let answer = reldex_workspace_build_connect_params(
        &mut workspace.boundary,
        Some(&workspace.workspace),
        6,
        IdParam::Valid(created.id),
        None,
    );
    let reply = workspace.run(answer);
    let error = reply.error.expect("an error");
    assert!(error.message().contains("a password is needed"));
    assert!(reply.connect.is_none());
}

#[test]
fn a_profile_is_updated_listed_and_deleted() {
    let mut workspace = TestWorkspace::open();
    let id = workspace.create(1, profile_details(1521, false)).id;
    let mut changed = profile_details(1600, false);
    changed.name = str_of("Orders (renamed)");
    let answer = reldex_workspace_update_profile(
        &mut workspace.boundary,
        Some(&workspace.workspace),
        2,
        IdParam::Valid(id),
        InParam::Given(changed),
    );
    let updated = workspace.run(answer);
    assert_eq!(updated.kind, ReldexWorkspaceReplyKind::ProfileSaved as i32);
    assert_eq!((updated.id, updated.updated_at), (id, 2_000));
    let answer =
        reldex_workspace_list_profiles(&mut workspace.boundary, Some(&workspace.workspace), 3);
    let listed = workspace.run(answer).profile_list.expect("a list");
    let view = reldex_profile_list_get(&mut workspace.boundary, Some(&listed), 0, Some(FULL))
        .expect("a profile");
    assert_eq!(view.name.as_str(), Some("Orders (renamed)"));
    assert_eq!((view.port, view.updated_at), (1600, 2_000));
    assert_eq!(view.service_name_or_sid.as_str(), Some("ORDERS"));
    assert_eq!(view.username.as_str(), Some("app_owner"));
    let past = reldex_profile_list_get(&mut workspace.boundary, Some(&listed), 1, Some(FULL));
    assert!(past.is_none());
    for expected in [true, false] {
        let answer = reldex_workspace_delete_profile(
            &mut workspace.boundary,
            Some(&workspace.workspace),
            4,
            IdParam::Valid(id),
        );
        assert_eq!(workspace.run(answer).found, expected);
    }
    let answer = reldex_workspace_get_profile(
        &mut workspace.boundary,
        Some(&workspace.workspace),
        5,
        IdParam::Valid(id),
    );
    let missing = workspace.run(answer);
    assert!(missing.error.is_none(), "a missing profile is an answer");
    assert!(!missing.found);
    let empty = missing.profile_list.expect("a list of none");
    assert_eq!(
        reldex_profile_list_count(&mut workspace.boundary, Some(&empty)),
        0
    );
}

#[test]
fn a_password_that_is_not_there_is_not_an_error_to_delete() {
    let mut workspace = TestWorkspace::open();
    let id = workspace.create(1, profile_details(1521, false)).id;
    let answer = reldex_workspace_credential_delete(
        &mut workspace.boundary,
        Some(&workspace.workspace),
        2,
        IdParam::Valid(id),
    );
    let reply = workspace.run(answer);
    assert!(reply.error.is_none());
    assert!(!reply.found);
    let answer = reldex_workspace_credential_get(
        &mut workspace.boundary,
        Some(&workspace.workspace),
        3,
        IdParam::Valid(id),
    );
    let reply = workspace.run(answer);
    assert!(reply.secret.is_none() && !reply.found);
}

#[test]
fn profile_details_are_refused_by_the_first_thing_wrong_with_them() {
    let good = profile_details(1521, false);
    let built = build_profile_details(&good).expect("in order");
    assert_eq!(built.name, "Orders (test)");
    assert!(matches!(built.environment, Environment::Test));
    assert!(matches!(
        built.endpoint,
        ProfileEndpoint::HostPort {
            port: 1521,
            target: ServiceTarget::ServiceName(_),
            ..
        }
    ));
    assert!(matches!(
        built.authentication,
        Authentication::Password {
            storage: PasswordStorage::CredentialStore,
            ..
        }
    ));
    assert_eq!(built.role, SessionRole::Normal);
    assert_eq!(built.tls.transport, Transport::Plain);
    assert!(built.tls.ca_directory.is_none());

    let mut bad = [good; 7];
    bad[0].name = ReldexStr { ptr: None, len: 3 };
    bad[1].database_type = 9;
    bad[2].environment = 9;
    bad[3].endpoint_kind = 9;
    bad[4].auth_kind = 9;
    bad[5].service_target_kind = 9;
    bad[6].password_storage = 9;
    for (index, details) in bad.iter().enumerate() {
        let error = build_profile_details(details).err().expect("refused");
        assert!(!error.message.is_empty(), "{index}");
    }
    let mut lenient = good;
    lenient.transport = 9;
    lenient.role = 9;
    let built = build_profile_details(&lenient).expect("in order");
    assert_eq!(built.tls.transport, Transport::Plain);
    assert_eq!(built.role, SessionRole::Normal);
    let mut custom = good;
    custom.environment = ReldexEnvironmentKind::Custom as i32;
    custom.environment_label = str_of("Pre-prod");
    let built = build_profile_details(&custom).expect("in order");
    assert!(matches!(built.environment, Environment::Custom(label) if label == "Pre-prod"));
}

#[test]
fn a_request_to_a_workspace_that_is_not_there_is_refused() {
    let mut workspace = TestWorkspace::open();
    let nowhere = reldex_workspace_list_profiles(&mut workspace.boundary, None, 1).err();
    assert_eq!(nowhere, Some(ReldexStatus::InvalidArgument));
    workspace.boundary.enter_waker();
    let inside =
        reldex_workspace_list_profiles(&mut workspace.boundary, Some(&workspace.workspace), 1)
            .err();
    assert_eq!(inside, Some(ReldexStatus::Reentrant));
    workspace.boundary.leave_waker();
    let bad_id = reldex_workspace_get_profile(
        &mut workspace.boundary,
        Some(&workspace.workspace),
        1,
        IdParam::Invalid,
    )
    .err();
    assert_eq!(bad_id, Some(ReldexStatus::InvalidArgument));
    assert!(workspace.last_message().contains("profile id"));
    let command =
        reldex_workspace_list_profiles(&mut workspace.boundary, Some(&workspace.workspace), 1)
            .ok()
            .expect("the request is accepted");
    let unsent = finish_request(&mut workspace.boundary, Err(command));
    assert_eq!(unsent, ReldexStatus::InvalidArgument);
    assert!(workspace.last_message().ends_with("has been closed"));

    reldex_workspace_close(&mut workspace.boundary, Some(&mut workspace.workspace));
    let closed =
        reldex_workspace_list_profiles(&mut workspace.boundary, Some(&workspace.workspace), 1)
            .err();
    assert_eq!(closed, Some(ReldexStatus::InvalidArgument));
    assert!(
        !workspace.workspace.push_reply(service_opened(2, None)),
        "a closed workspace wakes nobody"
    );
    release_workspace(&mut workspace.boundary, workspace.workspace);
    assert_eq!(workspace.boundary.live.misc_objects, 0);
}

#[test]
fn an_open_is_refused_or_fails_with_a_reply() {
    let mut boundary = Boundary::new();
    let path = str_of("/tmp/reldex.db");
    let opened = reldex_workspace_open(&mut boundary, path, false, true);
    assert_eq!(opened, Ok(Some("/tmp/reldex.db".to_owned())));
    let bad = ReldexStr {
        ptr: Some(b"\xff"),
        len: 1,
    };
    let refused = reldex_workspace_open(&mut boundary, bad, false, true);
    assert_eq!(refused, Err(ReldexStatus::InvalidArgument));
    let nowhere = reldex_workspace_open(&mut boundary, path, false, false);
    assert_eq!(nowhere, Err(ReldexStatus::InvalidArgument));
    let unspawned = finish_open(&mut boundary, false).err();
    assert_eq!(unspawned, Some(ReldexStatus::InvalidArgument));
    assert_eq!(boundary.live.misc_objects, 0);

    let mut workspace = finish_open(&mut boundary, true).ok().expect("a workspace");
    let failed = StoreError {
        kind: StoreErrorKind::Backend,
        text: "disk I/O error".to_owned(),
    };
    assert!(
        !workspace.push_reply(service_opened(7, Some(&failed))),
        "there is nobody to wake yet"
    );
    let reply = reldex_workspace_next_reply(&mut boundary, Some(&mut workspace), Some(FULL))
        .expect("the open's reply");
    assert_eq!(reply.request, 7);
    let error = reply.error.expect("an error");
    assert!(error.message().contains("disk I/O error"));
}

#[test]
fn a_command_behind_a_failed_open_is_answered_with_why() {
    let mut boundary = Boundary::new();
    let mut workspace = finish_open(&mut boundary, true).ok().expect("a workspace");
    let listing = reldex_workspace_list_profiles(&mut boundary, Some(&workspace), 8)
        .ok()
        .expect("the request is accepted");
    let put = reldex_workspace_credential_put(
        &mut boundary,
        Some(&workspace),
        9,
        IdParam::Valid([7; 16]),
        str_of("hunter2"),
    )
    .ok()
    .expect("the request is accepted");
    let failed = StoreError {
        kind: StoreErrorKind::Backend,
        text: "disk I/O error".to_owned(),
    };
    workspace.push_reply(service_opened(7, Some(&failed)));
    for command in [listing, put] {
        match begin_command(Some(&failed), command) {
            Step::Reply(reply) => workspace.push_reply(reply),
            Step::Call { .. } => panic!("there is no store to call"),
        };
    }
    let expected = [
        (
            7,
            ReldexWorkspaceReplyKind::Opened,
            "reldex_workspace_open: disk I/O error",
        ),
        (
            8,
            ReldexWorkspaceReplyKind::ProfilesListed,
            "list_profiles: disk I/O error",
        ),
        (
            9,
            ReldexWorkspaceReplyKind::CredentialPut,
            "credential_put: disk I/O error",
        ),
    ];
    for (request, kind, message) in expected {
        let reply = reldex_workspace_next_reply(&mut boundary, Some(&mut workspace), Some(FULL))
            .expect("a reply waits");
        assert_eq!(reply.request, request);
        assert_eq!(reply.kind, kind as i32);
        let error = reply.error.expect("an error");
        assert_eq!(error.message(), message);
        assert_eq!(error.kind(), ReldexErrorKind::Other);
    }
}

#[test]
fn a_profile_without_a_host_or_a_password_shows_neither() {
    let mut details = profile_details(1521, false);
    details.endpoint_kind = ReldexEndpointKind::ConnectString as i32;
    details.connect_string = str_of("orders.example.internal/ORDERS");
    details.auth_kind = ReldexAuthKind::External as i32;
    let entered = build_profile_details(&details).ok().expect("the details are accepted");
    let profile = Profile {
        id: [1; 16],
        created_at: 5,
        modified_at: 6,
        details: entered,
    };
    let stored = StoredProfile::from_profile(&profile);
    let view = stored.show(8);
    assert_eq!(view.endpoint_kind, ReldexEndpointKind::ConnectString as i32);
    assert_eq!(
        view.connect_string.as_str(),
        Some("orders.example.internal/ORDERS")
    );
    assert_eq!((view.host.as_str(), view.port), (Some(""), 0));
    assert_eq!(view.service_target_kind, 0);
    assert_eq!(view.service_name_or_sid.as_str(), Some(""));
    assert_eq!(view.auth_kind, ReldexAuthKind::External as i32);
    assert_eq!(view.username.as_str(), Some(""));
    assert_eq!(view.password_storage, 0);
}

#[test]
fn replies_wait_in_order_and_only_the_first_wakes() {
    let mut workspace = TestWorkspace::open();
    assert!(workspace.workspace.push_reply(service_opened(70, None)));
    assert!(!workspace.workspace.push_reply(service_opened(71, None)));
    let waiting =
        reldex_workspace_pending_replies(&mut workspace.boundary, Some(&workspace.workspace));
    assert_eq!(waiting, 2);
    let refused = reldex_workspace_next_reply(
        &mut workspace.boundary,
        Some(&mut workspace.workspace),
        None,
    );
    assert!(refused.is_none(), "a refused call takes nothing");
    workspace.take(70);
    workspace.take(71);
    let none = reldex_workspace_next_reply(
        &mut workspace.boundary,
        Some(&mut workspace.workspace),
        Some(FULL),
    );
    assert!(none.is_none());
}

#[test]
fn history_outcomes_and_ids_cross_and_come_back() {
    let outcomes = [
        HistoryOutcome::Succeeded,
        HistoryOutcome::Failed {
            native_code: Some(942),
        },
        HistoryOutcome::Failed { native_code: None },
        HistoryOutcome::Cancelled,
        HistoryOutcome::TimedOut,
    ];
    for outcome in outcomes {
        let (kind, code, has_code) = split_history_outcome(outcome);
        let back = history_outcome_from_i32(kind as i32, code, has_code);
        assert_eq!(back, Some(outcome));
    }
    assert_eq!(history_outcome_from_i32(9, 0, false), None);
    for id in [0, 1, i64::MAX, -1, i64::MIN] {
        assert_eq!(history_id_from_ffi(history_id_to_ffi(id)), id);
    }
    assert_eq!(history_id_to_ffi(5), 5);
}

#[test]
fn setting_values_cross_and_come_back() {
    let values = [
        SettingValue::Bool(true),
        SettingValue::Count(7),
        SettingValue::TimeLimit(None),
        SettingValue::TimeLimit(Some(30)),
        SettingValue::ByteLimit(Some(1_000_000)),
        SettingValue::EntryLimit(None),
    ];
    for value in values {
        assert_eq!(ReldexSettingValue::from_value(value).to_value(), Some(value));
    }
    let unknown = ReldexSettingValue::from_value(SettingValue::Unrecognized);
    assert_eq!(unknown.kind, ReldexValueKind::Unknown as i32);
    assert_eq!(unknown.to_value(), None);
    for id in 1..=8 {
        let named = ReldexSettingId::from_i32(id).expect("a known number");
        let setting = named.to_setting_id().expect("a setting");
        assert_eq!(ReldexSettingId::from_setting_id(setting) as i32, id);
    }
    assert!(ReldexSettingId::from_i32(9).is_none());
}

#[test]
fn a_layout_is_told_in_pairs() {
    let full = Layout {
        active_worksheet: None,
        active_profile: Some([3; 16]),
        panes: PaneSizes {
            object_browser_width: None,
            result_pane_height: Some(120),
        },
        window: WindowGeometry {
            x: Some(-10),
            y: Some(20),
            width: Some(800),
            height: Some(600),
            maximized: false,
        },
    };
    let flat = ReldexLayout::from_layout(&full);
    assert!(flat.has_window_position && flat.window_x == -10 && flat.window_y == 20);
    assert!(flat.has_window_size && flat.window_width == 800);
    let back = flat.to_layout(&no_id(), &Ok([3; 16])).expect("in order");
    assert_eq!(back.active_profile, full.active_profile);
    assert_eq!(back.window.height, Some(600));
    assert_eq!(back.panes.result_pane_height, Some(120));

    let mut half = full;
    half.window.y = None;
    let flat_half = ReldexLayout::from_layout(&half);
    assert!(flat_half.has_window_position, "one coordinate is enough");
    assert_eq!((flat_half.window_x, flat_half.window_y), (-10, 0));
    assert!(
        flat.to_layout(&no_id(), &no_id()).is_err(),
        "an active profile needs a valid id"
    );
}

#[test]
fn a_secret_is_wiped_when_it_is_let_go() {
    let mut secret = Secret::new("tiger");
    let copy = secret.copy();
    secret.wipe();
    let mut boundary = Boundary::new();
    let wiped = reldex_ffi::connect::ReldexSecret::new(&mut boundary.live, secret);
    let kept = reldex_ffi::connect::ReldexSecret::new(&mut boundary.live, copy);
    let shown = reldex_secret_expose(&mut boundary, Some(&wiped));
    assert_ne!(shown.as_str(), Some("tiger"));
    let shown = reldex_secret_expose(&mut boundary, Some(&kept));
    assert_eq!(shown.as_str(), Some("tiger"));
    assert_eq!(boundary.live.misc_objects, 2);

    let mut kept = kept;
    boundary.enter_waker();
    assert!(!reldex_secret_release(&mut boundary, Some(&mut kept)));
    boundary.leave_waker();
    let shown = reldex_secret_expose(&mut boundary, Some(&kept));
    assert_eq!(shown.as_str(), Some("tiger"), "a refused call wipes nothing");
    assert!(reldex_secret_release(&mut boundary, Some(&mut kept)));
    assert_eq!(kept.secret().expose(), [0; 5]);
    assert!(!reldex_secret_release(&mut boundary, None));
    assert_eq!(boundary.live.misc_objects, 1);
}
