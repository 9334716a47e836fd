//! Connection profiles: what a caller enters, what the store holds, and what a
//! caller is shown.
//!
//! The types with a text parameter exist once for text and once for what it
//! says: `ProfileDetails<String>` is a value, `ProfileDetails<Seq<char>>` its
//! model.

use vstd::prelude::*;

use crate::counters::{next_count, Kind, LiveCounters};
use crate::error::{DbError, ErrorKind, ErrorModel, ReldexErrorKind};
use crate::status::Boundary;
use crate::strings::{OwnedStr, ReldexStr};

verus! {

/// Milliseconds since 1970 as they are handed out: none below zero.
pub open spec fn shown_millis(millis: i64) -> u64 {
    if millis < 0 {
        0
    } else {
        millis as u64
    }
}

/// Milliseconds since 1970 as they are handed out.
pub fn millis_to_ffi(millis: i64) -> (shown: u64)
    ensures
        shown == shown_millis(millis),
{
    if millis < 0 {
        0
    } else {
        millis as u64
    }
}

/// Which database a profile connects to.
#[derive(Debug, Clone, Copy, PartialEq, Eq, Structural)]
pub enum DatabaseType {
    Oracle,
}

/// Which database a profile connects to, by number.
#[derive(Debug, Clone, Copy, PartialEq, Eq, Structural)]
pub enum ReldexDatabaseType {
    /// A type this header does not know.
    Unknown,
    /// Oracle Database, through the thin driver.
    Oracle,
}

/// A profile's environment.
#[derive(Debug, Clone)]
pub enum Environment<T> {
    Development,
    Test,
    Uat,
    Staging,
    Production,
    /// One the user named.
    Custom(T),
    /// One this library predates.
    Unrecognized,
}

/// A profile's environment, by number.
#[derive(Debug, Clone, Copy, PartialEq, Eq, Structural)]
pub enum ReldexEnvironmentKind {
    /// A kind this header does not know.
    Unknown,
    Development,
    Test,
    Uat,
    Staging,
    Production,
    /// A user-named environment, with a label.
    Custom,
}

/// Which service of a host a profile connects to.
#[derive(Debug, Clone)]
pub enum ServiceTarget<T> {
    ServiceName(T),
    /// A system identifier.
    Sid(T),
    /// A kind this library predates.
    Unrecognized,
}

/// Whether a target is a service name or a SID, by number.
#[derive(Debug, Clone, Copy, PartialEq, Eq, Structural)]
pub enum ReldexServiceTargetKind {
    /// A kind this header does not know.
    Unknown,
    ServiceName,
    Sid,
}

/// Where a profile connects to.
#[derive(Debug, Clone)]
pub enum ProfileEndpoint<T> {
    HostPort { host: T, port: u16, target: ServiceTarget<T> },
    /// A complete connect string or descriptor.
    ConnectString(T),
    /// A kind this library predates.
    Unrecognized,
}

/// How an endpoint is shaped, by number.
#[derive(Debug, Clone, Copy, PartialEq, Eq, Structural)]
pub enum ReldexEndpointKind {
    /// A kind this header does not know.
    Unknown,
    /// Host, port, and a service name or SID.
    HostPort,
    /// A complete connect string or descriptor.
    ConnectString,
}

/// Where a profile's password is kept.
#[derive(Debug, Clone, Copy, PartialEq, Eq, Structural)]
pub enum PasswordStorage {
    CredentialStore,
    PromptEachTime,
    /// A kind this library predates.
    Unrecognized,
}

/// Where a profile's password is kept, by number.
#[derive(Debug, Clone, Copy, PartialEq, Eq, Structural)]
pub enum ReldexPasswordStorageKind {
    /// A kind this header does not know.
    Unknown,
    /// The credential store holds it.
    CredentialStore,
    /// The user is asked at every connect.
    PromptEachTime,
}

/// How a session authenticates.
#[derive(Debug, Clone)]
pub enum Authentication<T> {
    Password { username: T, storage: PasswordStorage },
    /// By the operating system or another external mechanism.
    External,
    /// A kind this library predates.
    Unrecognized,
}

/// How a session authenticates, by number.
#[derive(Debug, Clone, Copy, PartialEq, Eq, Structural)]
pub enum ReldexAuthKind {
    /// A kind this header does not know.
    Unknown,
    /// A user name and a password, which is never carried here.
    Password,
    External,
}

/// Whether the transport is encrypted.
#[derive(Debug, Clone, Copy, PartialEq, Eq, Structural)]
pub enum Transport {
    Plain,
    Tls,
    /// A kind this library predates.
    Unrecognized,
}

/// Whether the transport is encrypted, by number.
#[derive(Debug, Clone, Copy, PartialEq, Eq, Structural)]
pub enum ReldexTransportKind {
    /// A kind this header does not know.
    Unknown,
    /// Plain TCP.
    Plain,
    /// TLS required.
    Tls,
}

/// The administrative role a session opens with.
#[derive(Debug, Clone, Copy, PartialEq, Eq, Structural)]
pub enum SessionRole {
    Normal,
    SysDba,
    SysOper,
}

/// The administrative role a session opens with, by number.
#[derive(Debug, Clone, Copy, PartialEq, Eq, Structural)]
pub enum ReldexSessionRoleKind {
    /// A role this header does not know.
    Unknown,
    /// An ordinary session.
    Normal,
    /// The highest administrative role.
    SysDba,
    /// The restricted operator role.
    SysOper,
}

impl ReldexSessionRoleKind {
    /// The number's role, of one the store names.
    pub open spec fn of(role: SessionRole) -> Self {
        match role {
            SessionRole::Normal => ReldexSessionRoleKind::Normal,
            SessionRole::SysDba => ReldexSessionRoleKind::SysDba,
            SessionRole::SysOper => ReldexSessionRoleKind::SysOper,
        }
    }

    /// The number's role, of one the store names.
    pub fn from_role(role: SessionRole) -> (kind: Self)
        ensures
            kind == Self::of(role),
    {
        match role {
            SessionRole::Normal => ReldexSessionRoleKind::Normal,
            SessionRole::SysDba => ReldexSessionRoleKind::SysDba,
            SessionRole::SysOper => ReldexSessionRoleKind::SysOper,
        }
    }

    /// The role a caller means: an unknown one is an ordinary session.
    pub fn to_role(self) -> (role: SessionRole)
        ensures
            role == role_of(self as i32),
    {
        match self {
            ReldexSessionRoleKind::SysDba => SessionRole::SysDba,
            ReldexSessionRoleKind::SysOper => SessionRole::SysOper,
            ReldexSessionRoleKind::Unknown => SessionRole::Normal,
            ReldexSessionRoleKind::Normal => SessionRole::Normal,
        }
    }
}

/// The role a caller's number means: an ordinary session where it names none.
pub open spec fn role_of(value: i32) -> SessionRole {
    if value == ReldexSessionRoleKind::SysDba as i32 {
        SessionRole::SysDba
    } else if value == ReldexSessionRoleKind::SysOper as i32 {
        SessionRole::SysOper
    } else {
        SessionRole::Normal
    }
}

/// How the transport is secured.
#[derive(Debug, Clone)]
pub struct TlsOptions<T> {
    pub transport: Transport,
    /// A directory of certificate authorities to trust.
    pub ca_directory: Option<T>,
    /// Whether a certificate pin that cannot be enforced is let pass.
    pub allow_unenforced_certificate_pin: bool,
}

/// Everything about a profile that the user edits.
#[derive(Debug, Clone)]
pub struct ProfileDetails<T> {
    pub name: T,
    pub database: DatabaseType,
    pub environment: Environment<T>,
    /// Whether the production indicator shows for this profile.
    pub treat_as_production: bool,
    pub endpoint: ProfileEndpoint<T>,
    pub authentication: Authentication<T>,
    pub role: SessionRole,
    pub tls: TlsOptions<T>,
}

/// A stored profile. Its times are milliseconds since 1970. A directory of
/// certificate authorities is there only where its name is text.
#[derive(Debug, Clone)]
pub struct Profile<T> {
    pub id: [u8; 16],
    pub created_at: i64,
    pub modified_at: i64,
    pub details: ProfileDetails<T>,
}

impl View for Environment<String> {
    type V = Environment<Seq<char>>;

    open spec fn view(&self) -> Environment<Seq<char>> {
        match self {
            Environment::Development => Environment::Development,
            Environment::Test => Environment::Test,
            Environment::Uat => Environment::Uat,
            Environment::Staging => Environment::Staging,
            Environment::Production => Environment::Production,
            Environment::Custom(label) => Environment::Custom(label@),
            Environment::Unrecognized => Environment::Unrecognized,
        }
    }
}

impl View for ServiceTarget<String> {
    type V = ServiceTarget<Seq<char>>;

    open spec fn view(&self) -> ServiceTarget<Seq<char>> {
        match self {
            ServiceTarget::ServiceName(name) => ServiceTarget::ServiceName(name@),
            ServiceTarget::Sid(sid) => ServiceTarget::Sid(sid@),
            ServiceTarget::Unrecognized => ServiceTarget::Unrecognized,
        }
    }
}

impl View for ProfileEndpoint<String> {
    type V = ProfileEndpoint<Seq<char>>;

    open spec fn view(&self) -> ProfileEndpoint<Seq<char>> {
        match self {
            ProfileEndpoint::HostPort { host, port, target } => ProfileEndpoint::HostPort {
                host: host@,
                port: *port,
                target: target@,
            },
            ProfileEndpoint::ConnectString(text) => ProfileEndpoint::ConnectString(text@),
            ProfileEndpoint::Unrecognized => ProfileEndpoint::Unrecognized,
        }
    }
}

impl View for Authentication<String> {
    type V = Authentication<Seq<char>>;

    open spec fn view(&self) -> Authentication<Seq<char>> {
        match self {
            Authentication::Password { username, storage } => Authentication::Password {
                username: username@,
                storage: *storage,
            },
            Authentication::External => Authentication::External,
            Authentication::Unrecognized => Authentication::Unrecognized,
        }
    }
}

impl View for TlsOptions<String> {
    type V = TlsOptions<Seq<char>>;

    open spec fn view(&self) -> TlsOptions<Seq<char>> {
        TlsOptions {
            transport: self.transport,
            ca_directory: match self.ca_directory {
                Some(directory) => Some(directory@),
                None => None,
            },
            allow_unenforced_certificate_pin: self.allow_unenforced_certificate_pin,
        }
    }
}

impl View for ProfileDetails<String> {
    type V = ProfileDetails<Seq<char>>;

    open spec fn view(&self) -> ProfileDetails<Seq<char>> {
        ProfileDetails {
            name: self.name@,
            database: self.database,
            environment: self.environment@,
            treat_as_production: self.treat_as_production,
            endpoint: self.endpoint@,
            authentication: self.authentication@,
            role: self.role,
            tls: self.tls@,
        }
    }
}

impl View for Profile<String> {
    type V = Profile<Seq<char>>;

    open spec fn view(&self) -> Profile<Seq<char>> {
        Profile {
            id: self.id,
            created_at: self.created_at,
            modified_at: self.modified_at,
            details: self.details@,
        }
    }
}

/// Everything about a profile that the user edits, flat, as a caller passes it.
#[derive(Debug, Clone, Copy)]
pub struct ReldexProfileDetails<'a> {
    pub name: ReldexStr<'a>,
    /// A [`ReldexDatabaseType`].
    pub database_type: i32,
    /// A [`ReldexEnvironmentKind`].
    pub environment: i32,
    /// The label of a custom environment.
    pub environment_label: ReldexStr<'a>,
    pub treat_as_production: bool,
    /// A [`ReldexEndpointKind`].
    pub endpoint_kind: i32,
    /// With host and port.
    pub host: ReldexStr<'a>,
    /// With host and port.
    pub port: u16,
    /// A [`ReldexServiceTargetKind`], with host and port.
    pub service_target_kind: i32,
    /// With host and port.
    pub service_name_or_sid: ReldexStr<'a>,
    /// With a connect string.
    pub connect_string: ReldexStr<'a>,
    /// A [`ReldexAuthKind`].
    pub auth_kind: i32,
    /// With a password.
    pub username: ReldexStr<'a>,
    /// A [`ReldexPasswordStorageKind`], with a password.
    pub password_storage: i32,
    /// A [`ReldexSessionRoleKind`].
    pub role: i32,
    /// A [`ReldexTransportKind`].
    pub transport: i32,
    /// A directory of certificate authorities to trust, or empty for none.
    pub ca_directory: ReldexStr<'a>,
    pub allow_unenforced_certificate_pin: bool,
}

impl<'a> ReldexProfileDetails<'a> {
    /// Whether every string has the bytes it declares.
    pub open spec fn readable(self) -> bool {
        &&& self.name.readable()
        &&& self.environment_label.readable()
        &&& self.host.readable()
        &&& self.service_name_or_sid.readable()
        &&& self.connect_string.readable()
        &&& self.username.readable()
        &&& self.ca_directory.readable()
    }

    /// The first string that is no text, by its field's name.
    pub open spec fn unreadable_field(self) -> Option<Seq<char>> {
        if self.name.text() is None {
            Some("name"@)
        } else if self.environment_label.text() is None {
            Some("environment_label"@)
        } else if self.host.text() is None {
            Some("host"@)
        } else if self.service_name_or_sid.text() is None {
            Some("service_name_or_sid"@)
        } else if self.connect_string.text() is None {
            Some("connect_string"@)
        } else if self.username.text() is None {
            Some("username"@)
        } else if self.ca_directory.text() is None {
            Some("ca_directory"@)
        } else {
            None
        }
    }
}

/// The environment a caller means, where its number names one.
pub open spec fn environment_of(kind: i32, label: Seq<char>) -> Option<Environment<Seq<char>>> {
    if kind == ReldexEnvironmentKind::Development as i32 {
        Some(Environment::Development)
    } else if kind == ReldexEnvironmentKind::Test as i32 {
        Some(Environment::Test)
    } else if kind == ReldexEnvironmentKind::Uat as i32 {
        Some(Environment::Uat)
    } else if kind == ReldexEnvironmentKind::Staging as i32 {
        Some(Environment::Staging)
    } else if kind == ReldexEnvironmentKind::Production as i32 {
        Some(Environment::Production)
    } else if kind == ReldexEnvironmentKind::Custom as i32 {
        Some(Environment::Custom(label))
    } else {
        None
    }
}

/// The target a caller means, where its number names one.
pub open spec fn target_of(kind: i32, text: Seq<char>) -> Option<ServiceTarget<Seq<char>>> {
    if kind == ReldexServiceTargetKind::ServiceName as i32 {
        Some(ServiceTarget::ServiceName(text))
    } else if kind == ReldexServiceTargetKind::Sid as i32 {
        Some(ServiceTarget::Sid(text))
    } else {
        None
    }
}

/// The endpoint a caller means, or what is wrong with it.
pub open spec fn endpoint_of(details: ReldexProfileDetails) -> Result<
    ProfileEndpoint<Seq<char>>,
    Seq<char>,
> {
    if details.endpoint_kind == ReldexEndpointKind::HostPort as i32 {
        match target_of(details.service_target_kind, details.service_name_or_sid.text()->0) {
            Some(target) => Ok(
                ProfileEndpoint::HostPort {
                    host: details.host.text()->0,
                    port: details.port,
                    target,
                },
            ),
            None => Err("reldex_workspace: `service_target_kind` is not a kind this build knows"@),
        }
    } else if details.endpoint_kind == ReldexEndpointKind::ConnectString as i32 {
        Ok(ProfileEndpoint::ConnectString(details.connect_string.text()->0))
    } else {
        Err("reldex_workspace: `endpoint_kind` is not a kind this build knows"@)
    }
}

/// The place for a password a caller means, where its number names one.
pub open spec fn storage_of(kind: i32) -> Option<PasswordStorage> {
    if kind == ReldexPasswordStorageKind::CredentialStore as i32 {
        Some(PasswordStorage::CredentialStore)
    } else if kind == ReldexPasswordStorageKind::PromptEachTime as i32 {
        Some(PasswordStorage::PromptEachTime)
    } else {
        None
    }
}

/// The authentication a caller means, or what is wrong with it.
pub open spec fn authentication_of(details: ReldexProfileDetails) -> Result<
    Authentication<Seq<char>>,
    Seq<char>,
> {
    if details.auth_kind == ReldexAuthKind::Password as i32 {
        match storage_of(details.password_storage) {
            Some(storage) => Ok(
                Authentication::Password { username: details.username.text()->0, storage },
            ),
            None => Err("reldex_workspace: `password_storage` is not a kind this build knows"@),
        }
    } else if details.auth_kind == ReldexAuthKind::External as i32 {
        Ok(Authentication::External)
    } else {
        Err("reldex_workspace: `auth_kind` is not a kind this build knows"@)
    }
}

/// The transport a caller means: plain where its number names none.
pub open spec fn transport_of(value: i32) -> Transport {
    if value == ReldexTransportKind::Tls as i32 {
        Transport::Tls
    } else {
        Transport::Plain
    }
}

/// The directory a caller means: none where it is empty.
pub open spec fn directory_of(text: Seq<char>) -> Option<Seq<char>> {
    if text.len() == 0 {
        None
    } else {
        Some(text)
    }
}

/// What a caller entered, or the first thing that is wrong with it: a string
/// that is no text, the database, the environment, the endpoint, the
/// authentication.
pub open spec fn entered(details: ReldexProfileDetails) -> Result<
    ProfileDetails<Seq<char>>,
    Seq<char>,
> {
    if details.unreadable_field() is Some {
        Err("reldex_workspace: `"@ + details.unreadable_field()->0 + "` is not valid UTF-8"@)
    } else if details.database_type != ReldexDatabaseType::Oracle as i32 {
        Err("reldex_workspace: `database_type` is not a database type this build knows"@)
    } else if environment_of(details.environment, details.environment_label.text()->0) is None {
        Err("reldex_workspace: `environment` is not an environment this build knows"@)
    } else if endpoint_of(details) is Err {
        Err(endpoint_of(details)->Err_0)
    } else if authentication_of(details) is Err {
        Err(authentication_of(details)->Err_0)
    } else {
        Ok(
            ProfileDetails {
                name: details.name.text()->0,
                database: DatabaseType::Oracle,
                environment: environment_of(
                    details.environment,
                    details.environment_label.text()->0,
                )->0,
                treat_as_production: details.treat_as_production,
                endpoint: endpoint_of(details)->Ok_0,
                authentication: authentication_of(details)->Ok_0,
                role: role_of(details.role),
                tls: TlsOptions {
                    transport: transport_of(details.transport),
                    ca_directory: directory_of(details.ca_directory.text()->0),
                    allow_unenforced_certificate_pin: details.allow_unenforced_certificate_pin,
                },
            },
        )
    }
}

/// Refused input.
fn configuration_error(message: &str) -> (error: DbError)
    ensures
        error@ == ErrorModel::plain(ReldexErrorKind::Configuration, message@),
{
    DbError::new(ErrorKind::Configuration, message.to_owned())
}

/// The text of a field, or that it is none.
fn field_text<'a>(string: ReldexStr<'a>, field: &str) -> (text: Result<&'a str, DbError>)
    requires
        string.readable(),
    ensures
        match text {
            Ok(text) => string.text() == Some(text@),
            Err(error) => {
                &&& string.text() is None
                &&& error@ == ErrorModel::plain(
                    ReldexErrorKind::Configuration,
                    "reldex_workspace: `"@ + field@ + "` is not valid UTF-8"@,
                )
            },
        },
{
    match string.as_str() {
        Some(text) => Ok(text),
        None => {
            let mut message = String::from_str("reldex_workspace: `");
            message.append(field);
            message.append("` is not valid UTF-8");
            Err(DbError::new(ErrorKind::Configuration, message))
        },
    }
}

/// The environment a caller means.
fn read_environment(kind: i32, label: &str) -> (environment: Option<Environment<String>>)
    ensures
        match environment {
            Some(environment) => environment_of(kind, label@) == Some(environment@),
            None => environment_of(kind, label@) is None,
        },
{
    if kind == ReldexEnvironmentKind::Development as i32 {
        Some(Environment::Development)
    } else if kind == ReldexEnvironmentKind::Test as i32 {
        Some(Environment::Test)
    } else if kind == ReldexEnvironmentKind::Uat as i32 {
        Some(Environment::Uat)
    } else if kind == ReldexEnvironmentKind::Staging as i32 {
        Some(Environment::Staging)
    } else if kind == ReldexEnvironmentKind::Production as i32 {
        Some(Environment::Production)
    } else if kind == ReldexEnvironmentKind::Custom as i32 {
        Some(Environment::Custom(label.to_owned()))
    } else {
        None
    }
}

/// The endpoint a caller means.
fn read_endpoint(details: &ReldexProfileDetails<'_>, host: &str, service: &str, connect: &str) -> (
endpoint: Result<ProfileEndpoint<String>, DbError>)
    requires
        details.host.text() == Some(host@),
        details.service_name_or_sid.text() == Some(service@),
        details.connect_string.text() == Some(connect@),
    ensures
        match endpoint {
            Ok(endpoint) => endpoint_of(*details) == Ok::<_, Seq<char>>(endpoint@),
            Err(error) => {
                &&& endpoint_of(*details) is Err
                &&& error@ == ErrorModel::plain(
                    ReldexErrorKind::Configuration,
                    endpoint_of(*details)->Err_0,
                )
            },
        },
{
    if details.endpoint_kind == ReldexEndpointKind::HostPort as i32 {
        let target = if details.service_target_kind == ReldexServiceTargetKind::ServiceName as i32 {
            ServiceTarget::ServiceName(service.to_owned())
        } else if details.service_target_kind == ReldexServiceTargetKind::Sid as i32 {
            ServiceTarget::Sid(service.to_owned())
        } else {
            return Err(
                configuration_error(
                    "reldex_workspace: `service_target_kind` is not a kind this build knows",
                ),
            );
        };
        Ok(ProfileEndpoint::HostPort { host: host.to_owned(), port: details.port, target })
    } else if details.endpoint_kind == ReldexEndpointKind::ConnectString as i32 {
        Ok(ProfileEndpoint::ConnectString(connect.to_owned()))
    } else {
        Err(configuration_error("reldex_workspace: `endpoint_kind` is not a kind this build knows"))
    }
}

/// The authentication a caller means.
fn read_authentication(details: &ReldexProfileDetails<'_>, username: &str) -> (authentication:
    Result<Authentication<String>, DbError>)
    requires
        details.username.text() == Some(username@),
    ensures
        match authentication {
            Ok(authentication) => authentication_of(*details) == Ok::<_, Seq<char>>(
                authentication@,
            ),
            Err(error) => {
                &&& authentication_of(*details) is Err
                &&& error@ == ErrorModel::plain(
                    ReldexErrorKind::Configuration,
                    authentication_of(*details)->Err_0,
                )
            },
        },
{
    if details.auth_kind == ReldexAuthKind::Password as i32 {
        let storage = if details.password_storage
            == ReldexPasswordStorageKind::CredentialStore as i32 {
            PasswordStorage::CredentialStore
        } else if details.password_storage == ReldexPasswordStorageKind::PromptEachTime as i32 {
            PasswordStorage::PromptEachTime
        } else {
            return Err(
                configuration_error(
                    "reldex_workspace: `password_storage` is not a kind this build knows",
                ),
            );
        };
        Ok(Authentication::Password { username: username.to_owned(), storage })
    } else if details.auth_kind == ReldexAuthKind::External as i32 {
        Ok(Authentication::External)
    } else {
        Err(configuration_error("reldex_workspace: `auth_kind` is not a kind this build knows"))
    }
}

/// Reads what a caller entered.
pub fn build_profile_details(details: &ReldexProfileDetails<'_>) -> (built: Result<
    ProfileDetails<String>,
    DbError,
>)
    requires
        details.readable(),
    ensures
        match built {
            Ok(built) => entered(*details) == Ok::<_, Seq<char>>(built@),
            Err(error) => {
                &&& entered(*details) is Err
                &&& error@ == ErrorModel::plain(
                    ReldexErrorKind::Configuration,
                    entered(*details)->Err_0,
                )
            },
        },
{
    let name = match field_text(details.name, "name") {
        Ok(text) => text,
        Err(error) => return Err(error),
    };
    let environment_label = match field_text(details.environment_label, "environment_label") {
        Ok(text) => text,
        Err(error) => return Err(error),
    };
    let host = match field_text(details.host, "host") {
        Ok(text) => text,
        Err(error) => return Err(error),
    };
    let service_name_or_sid = match field_text(details.service_name_or_sid, "service_name_or_sid") {
        Ok(text) => text,
        Err(error) => return Err(error),
    };
    let connect_string = match field_text(details.connect_string, "connect_string") {
        Ok(text) => text,
        Err(error) => return Err(error),
    };
    let username = match field_text(details.username, "username") {
        Ok(text) => text,
        Err(error) => return Err(error),
    };
    let ca_directory = match field_text(details.ca_directory, "ca_directory") {
        Ok(text) => text,
        Err(error) => return Err(error),
    };

    if details.database_type != ReldexDatabaseType::Oracle as i32 {
        return Err(
            configuration_error(
                "reldex_workspace: `database_type` is not a database type this build knows",
            ),
        );
    }
    let environment = match read_environment(details.environment, environment_label) {
        Some(environment) => environment,
        None => return Err(
            configuration_error(
                "reldex_workspace: `environment` is not an environment this build knows",
            ),
        ),
    };
    let endpoint = match read_endpoint(details, host, service_name_or_sid, connect_string) {
        Ok(endpoint) => endpoint,
        Err(error) => return Err(error),
    };
    let authentication = match read_authentication(details, username) {
        Ok(authentication) => authentication,
        Err(error) => return Err(error),
    };
    let transport = if details.transport == ReldexTransportKind::Tls as i32 {
        Transport::Tls
    } else {
        Transport::Plain
    };
    let role_kind = if details.role == ReldexSessionRoleKind::SysDba as i32 {
        ReldexSessionRoleKind::SysDba
    } else if details.role == ReldexSessionRoleKind::SysOper as i32 {
        ReldexSessionRoleKind::SysOper
    } else {
        ReldexSessionRoleKind::Normal
    };
    Ok(
        ProfileDetails {
            name: name.to_owned(),
            database: DatabaseType::Oracle,
            environment,
            treat_as_production: details.treat_as_production,
            endpoint,
            authentication,
            role: role_kind.to_role(),
            tls: TlsOptions {
                transport,
                ca_directory: if ca_directory.is_empty() {
                    None
                } else {
                    Some(ca_directory.to_owned())
                },
                allow_unenforced_certificate_pin: details.allow_unenforced_certificate_pin,
            },
        },
    )
}

/// One profile as a caller is shown it: flat, every kind by its number, and
/// what does not belong to a kind empty or zero.
#[derive(Debug)]
pub struct StoredProfile<T> {
    pub id: [u8; 16],
    pub created_at: u64,
    pub updated_at: u64,
    pub name: T,
    pub database_type: i32,
    pub environment: i32,
    pub environment_label: T,
    pub treat_as_production: bool,
    pub endpoint_kind: i32,
    pub host: T,
    pub port: u16,
    pub service_target_kind: i32,
    pub service_name_or_sid: T,
    pub connect_string: T,
    pub auth_kind: i32,
    pub username: T,
    pub password_storage: i32,
    pub role: i32,
    pub transport: i32,
    pub ca_directory: T,
    pub allow_unenforced_certificate_pin: bool,
}

impl View for StoredProfile<OwnedStr> {
    type V = StoredProfile<Seq<char>>;

    open spec fn view(&self) -> StoredProfile<Seq<char>> {
        StoredProfile {
            id: self.id,
            created_at: self.created_at,
            updated_at: self.updated_at,
            name: self.name@,
            database_type: self.database_type,
            environment: self.environment,
            environment_label: self.environment_label@,
            treat_as_production: self.treat_as_production,
            endpoint_kind: self.endpoint_kind,
            host: self.host@,
            port: self.port,
            service_target_kind: self.service_target_kind,
            service_name_or_sid: self.service_name_or_sid@,
            connect_string: self.connect_string@,
            auth_kind: self.auth_kind,
            username: self.username@,
            password_storage: self.password_storage,
            role: self.role,
            transport: self.transport,
            ca_directory: self.ca_directory@,
            allow_unenforced_certificate_pin: self.allow_unenforced_certificate_pin,
        }
    }
}

/// An environment's number and label.
pub open spec fn shown_environment(environment: Environment<Seq<char>>) -> (
    ReldexEnvironmentKind,
    Seq<char>,
) {
    match environment {
        Environment::Development => (ReldexEnvironmentKind::Development, Seq::empty()),
        Environment::Test => (ReldexEnvironmentKind::Test, Seq::empty()),
        Environment::Uat => (ReldexEnvironmentKind::Uat, Seq::empty()),
        Environment::Staging => (ReldexEnvironmentKind::Staging, Seq::empty()),
        Environment::Production => (ReldexEnvironmentKind::Production, Seq::empty()),
        Environment::Custom(label) => (ReldexEnvironmentKind::Custom, label),
        Environment::Unrecognized => (ReldexEnvironmentKind::Unknown, Seq::empty()),
    }
}

/// A target's number and name.
pub open spec fn shown_target(target: ServiceTarget<Seq<char>>) -> (
    ReldexServiceTargetKind,
    Seq<char>,
) {
    match target {
        ServiceTarget::ServiceName(name) => (ReldexServiceTargetKind::ServiceName, name),
        ServiceTarget::Sid(sid) => (ReldexServiceTargetKind::Sid, sid),
        ServiceTarget::Unrecognized => (ReldexServiceTargetKind::Unknown, Seq::empty()),
    }
}

/// A storage's number.
pub open spec fn shown_storage(storage: PasswordStorage) -> ReldexPasswordStorageKind {
    match storage {
        PasswordStorage::CredentialStore => ReldexPasswordStorageKind::CredentialStore,
        PasswordStorage::PromptEachTime => ReldexPasswordStorageKind::PromptEachTime,
        PasswordStorage::Unrecognized => ReldexPasswordStorageKind::Unknown,
    }
}

/// A transport's number.
pub open spec fn shown_transport(transport: Transport) -> ReldexTransportKind {
    match transport {
        Transport::Plain => ReldexTransportKind::Plain,
        Transport::Tls => ReldexTransportKind::Tls,
        Transport::Unrecognized => ReldexTransportKind::Unknown,
    }
}

/// An endpoint, flat.
pub struct FlatEndpoint<T> {
    pub kind: ReldexEndpointKind,
    pub host: T,
    pub port: u16,
    pub target: ReldexServiceTargetKind,
    pub service: T,
    pub connect_string: T,
}

impl View for FlatEndpoint<String> {
    type V = FlatEndpoint<Seq<char>>;

    open spec fn view(&self) -> FlatEndpoint<Seq<char>> {
        FlatEndpoint {
            kind: self.kind,
            host: self.host@,
            port: self.port,
            target: self.target,
            service: self.service@,
            connect_string: self.connect_string@,
        }
    }
}

/// An endpoint, flat.
pub open spec fn shown_endpoint(endpoint: ProfileEndpoint<Seq<char>>) -> FlatEndpoint<Seq<char>> {
    let nothing = FlatEndpoint {
        kind: ReldexEndpointKind::Unknown,
        host: Seq::<char>::empty(),
        port: 0,
        target: ReldexServiceTargetKind::Unknown,
        service: Seq::<char>::empty(),
        connect_string: Seq::<char>::empty(),
    };
    match endpoint {
        ProfileEndpoint::HostPort { host, port, target } => FlatEndpoint {
            kind: ReldexEndpointKind::HostPort,
            host,
            port,
            target: shown_target(target).0,
            service: shown_target(target).1,
            ..nothing
        },
        ProfileEndpoint::ConnectString(text) => FlatEndpoint {
            kind: ReldexEndpointKind::ConnectString,
            connect_string: text,
            ..nothing
        },
        ProfileEndpoint::Unrecognized => nothing,
    }
}

/// An authentication's numbers and user name.
pub open spec fn shown_authentication(authentication: Authentication<Seq<char>>) -> (
    ReldexAuthKind,
    Seq<char>,
    ReldexPasswordStorageKind,
) {
    match authentication {
        Authentication::Password { username, storage } => (
            ReldexAuthKind::Password,
            username,
            shown_storage(storage),
        ),
        Authentication::External => (
            ReldexAuthKind::External,
            Seq::empty(),
            ReldexPasswordStorageKind::Unknown,
        ),
        Authentication::Unrecognized => (
            ReldexAuthKind::Unknown,
            Seq::empty(),
            ReldexPasswordStorageKind::Unknown,
        ),
    }
}

/// A profile as a caller is shown it.
pub open spec fn shown(profile: Profile<Seq<char>>) -> StoredProfile<Seq<char>> {
    let details = profile.details;
    let endpoint = shown_endpoint(details.endpoint);
    StoredProfile {
        id: profile.id,
        created_at: shown_millis(profile.created_at),
        updated_at: shown_millis(profile.modified_at),
        name: details.name,
        database_type: ReldexDatabaseType::Oracle as i32,
        environment: shown_environment(details.environment).0 as i32,
        environment_label: shown_environment(details.environment).1,
        treat_as_production: details.treat_as_production,
        endpoint_kind: endpoint.kind as i32,
        host: endpoint.host,
        port: endpoint.port,
        service_target_kind: endpoint.target as i32,
        service_name_or_sid: endpoint.service,
        connect_string: endpoint.connect_string,
        auth_kind: shown_authentication(details.authentication).0 as i32,
        username: shown_authentication(details.authentication).1,
        password_storage: shown_authentication(details.authentication).2 as i32,
        role: ReldexSessionRoleKind::of(details.role) as i32,
        transport: shown_transport(details.tls.transport) as i32,
        ca_directory: match details.tls.ca_directory {
            Some(directory) => directory,
            None => Seq::empty(),
        },
        allow_unenforced_certificate_pin: details.tls.allow_unenforced_certificate_pin,
    }
}

/// An environment's number and label.
fn flat_environment(environment: &Environment<String>) -> (flat: (ReldexEnvironmentKind, String))
    ensures
        (flat.0, flat.1@) == shown_environment(environment@),
{
    match environment {
        Environment::Development => (ReldexEnvironmentKind::Development, String::new()),
        Environment::Test => (ReldexEnvironmentKind::Test, String::new()),
        Environment::Uat => (ReldexEnvironmentKind::Uat, String::new()),
        Environment::Staging => (ReldexEnvironmentKind::Staging, String::new()),
        Environment::Production => (ReldexEnvironmentKind::Production, String::new()),
        Environment::Custom(label) => (ReldexEnvironmentKind::Custom, label.clone()),
        Environment::Unrecognized => (ReldexEnvironmentKind::Unknown, String::new()),
    }
}

/// An endpoint, flat.
fn flat_endpoint(endpoint: &ProfileEndpoint<String>) -> (flat: FlatEndpoint<String>)
    ensures
        flat@ == shown_endpoint(endpoint@),
{
    match endpoint {
        ProfileEndpoint::HostPort { host, port, target } => {
            let (target, service) = match target {
                ServiceTarget::ServiceName(name) => (
                    ReldexServiceTargetKind::ServiceName,
                    name.clone(),
                ),
                ServiceTarget::Sid(sid) => (ReldexServiceTargetKind::Sid, sid.clone()),
                ServiceTarget::Unrecognized => (ReldexServiceTargetKind::Unknown, String::new()),
            };
            FlatEndpoint {
                kind: ReldexEndpointKind::HostPort,
                host: host.clone(),
                port: *port,
                target,
                service,
                connect_string: String::new(),
            }
        },
        ProfileEndpoint::ConnectString(text) => FlatEndpoint {
            kind: ReldexEndpointKind::ConnectString,
            host: String::new(),
            port: 0,
            target: ReldexServiceTargetKind::Unknown,
            service: String::new(),
            connect_string: text.clone(),
        },
        ProfileEndpoint::Unrecognized => FlatEndpoint {
            kind: ReldexEndpointKind::Unknown,
            host: String::new(),
            port: 0,
            target: ReldexServiceTargetKind::Unknown,
            service: String::new(),
            connect_string: String::new(),
        },
    }
}

/// An authentication's numbers and user name.
fn flat_authentication(authentication: &Authentication<String>) -> (flat: (
    ReldexAuthKind,
    String,
    ReldexPasswordStorageKind,
))
    ensures
        (flat.0, flat.1@, flat.2) == shown_authentication(authentication@),
{
    match authentication {
        Authentication::Password { username, storage } => {
            let storage = match storage {
                PasswordStorage::CredentialStore => ReldexPasswordStorageKind::CredentialStore,
                PasswordStorage::PromptEachTime => ReldexPasswordStorageKind::PromptEachTime,
                PasswordStorage::Unrecognized => ReldexPasswordStorageKind::Unknown,
            };
            (ReldexAuthKind::Password, username.clone(), storage)
        },
        Authentication::External => (
            ReldexAuthKind::External,
            String::new(),
            ReldexPasswordStorageKind::Unknown,
        ),
        Authentication::Unrecognized => (
            ReldexAuthKind::Unknown,
            String::new(),
            ReldexPasswordStorageKind::Unknown,
        ),
    }
}

impl StoredProfile<OwnedStr> {
    /// A profile as a caller is shown it.
    pub fn from_profile(profile: &Profile<String>) -> (stored: Self)
        ensures
            stored@ == shown(profile@),
    {
        let details = &profile.details;
        let (environment, environment_label) = flat_environment(&details.environment);
        let endpoint = flat_endpoint(&details.endpoint);
        let (auth_kind, username, password_storage) = flat_authentication(&details.authentication);
        let transport = match details.tls.transport {
            Transport::Plain => ReldexTransportKind::Plain,
            Transport::Tls => ReldexTransportKind::Tls,
            Transport::Unrecognized => ReldexTransportKind::Unknown,
        };
        let ca_directory = match &details.tls.ca_directory {
            Some(directory) => directory.clone(),
            None => String::new(),
        };
        StoredProfile {
            id: profile.id,
            created_at: millis_to_ffi(profile.created_at),
            updated_at: millis_to_ffi(profile.modified_at),
            name: OwnedStr::new(details.name.clone()),
            database_type: ReldexDatabaseType::Oracle as i32,
            environment: environment as i32,
            environment_label: OwnedStr::new(environment_label),
            treat_as_production: details.treat_as_production,
            endpoint_kind: endpoint.kind as i32,
            host: OwnedStr::new(endpoint.host),
            port: endpoint.port,
            service_target_kind: endpoint.target as i32,
            service_name_or_sid: OwnedStr::new(endpoint.service),
            connect_string: OwnedStr::new(endpoint.connect_string),
            auth_kind: auth_kind as i32,
            username: OwnedStr::new(username),
            password_storage: password_storage as i32,
            role: ReldexSessionRoleKind::from_role(details.role) as i32,
            transport: transport as i32,
            ca_directory: OwnedStr::new(ca_directory),
            allow_unenforced_certificate_pin: details.tls.allow_unenforced_certificate_pin,
        }
    }

    /// The profile's view, `valid` bytes of it being valid.
    pub fn show(&self, valid: u32) -> (view: ReldexProfileView<'_>)
        ensures
            view.struct_size == valid,
            view.shows(self@),
    {
        ReldexProfileView {
            struct_size: valid,
            id: self.id,
            created_at: self.created_at,
            updated_at: self.updated_at,
            name: self.name.as_reldex_str(),
            database_type: self.database_type,
            environment: self.environment,
            environment_label: self.environment_label.as_reldex_str(),
            treat_as_production: self.treat_as_production,
            endpoint_kind: self.endpoint_kind,
            host: self.host.as_reldex_str(),
            port: self.port,
            service_target_kind: self.service_target_kind,
            service_name_or_sid: self.service_name_or_sid.as_reldex_str(),
            connect_string: self.connect_string.as_reldex_str(),
            auth_kind: self.auth_kind,
            username: self.username.as_reldex_str(),
            password_storage: self.password_storage,
            role: self.role,
            transport: self.transport,
            ca_directory: self.ca_directory.as_reldex_str(),
            allow_unenforced_certificate_pin: self.allow_unenforced_certificate_pin,
        }
    }
}

/// A profile that was entered is shown as it was entered: what belongs to the
/// kinds that were chosen is what the caller passed, and the rest is empty.
pub proof fn a_profile_shows_what_was_entered(
    details: ReldexProfileDetails,
    profile: Profile<Seq<char>>,
)
    requires
        entered(details) == Ok::<_, Seq<char>>(profile.details),
    ensures
        ({
            let shown = shown(profile);
            &&& Some(shown.name) == details.name.text()
            &&& shown.database_type == details.database_type
            &&& shown.environment == details.environment
            &&& Some(shown.environment_label) == if details.environment
                == ReldexEnvironmentKind::Custom as i32 {
                details.environment_label.text()
            } else {
                Some(Seq::empty())
            }
            &&& shown.treat_as_production == details.treat_as_production
            &&& shown.endpoint_kind == details.endpoint_kind
            &&& shown.endpoint_kind == ReldexEndpointKind::HostPort as i32 ==> {
                &&& Some(shown.host) == details.host.text()
                &&& shown.port == details.port
                &&& shown.service_target_kind == details.service_target_kind
                &&& Some(shown.service_name_or_sid) == details.service_name_or_sid.text()
                &&& shown.connect_string == Seq::<char>::empty()
            }
            &&& shown.endpoint_kind == ReldexEndpointKind::ConnectString as i32 ==> {
                &&& Some(shown.connect_string) == details.connect_string.text()
                &&& shown.host == Seq::<char>::empty()
                &&& shown.port == 0
                &&& shown.service_target_kind == ReldexServiceTargetKind::Unknown as i32
                &&& shown.service_name_or_sid == Seq::<char>::empty()
            }
            &&& shown.auth_kind == details.auth_kind
            &&& shown.auth_kind == ReldexAuthKind::Password as i32 ==> {
                &&& Some(shown.username) == details.username.text()
                &&& shown.password_storage == details.password_storage
            }
            &&& shown.auth_kind != ReldexAuthKind::Password as i32 ==> {
                &&& shown.username == Seq::<char>::empty()
                &&& shown.password_storage == ReldexPasswordStorageKind::Unknown as i32
            }
            &&& shown.role == ReldexSessionRoleKind::of(role_of(details.role)) as i32
            &&& shown.transport == shown_transport(transport_of(details.transport)) as i32
            &&& Some(shown.ca_directory) == details.ca_directory.text()
            &&& shown.allow_unenforced_certificate_pin == details.allow_unenforced_certificate_pin
        }),
{
    if let Some(directory) = details.ca_directory.text() {
        assert(directory.len() == 0 ==> directory =~= Seq::empty());
    }
}

/// One stored profile, every string borrowed from the list it came from.
#[derive(Debug, Clone, Copy)]
pub struct ReldexProfileView<'a> {
    /// How many bytes of it are valid.
    pub struct_size: u32,
    pub id: [u8; 16],
    /// Milliseconds since 1970.
    pub created_at: u64,
    /// Milliseconds since 1970.
    pub updated_at: u64,
    pub name: ReldexStr<'a>,
    /// A [`ReldexDatabaseType`].
    pub database_type: i32,
    /// A [`ReldexEnvironmentKind`].
    pub environment: i32,
    pub environment_label: ReldexStr<'a>,
    pub treat_as_production: bool,
    /// A [`ReldexEndpointKind`].
    pub endpoint_kind: i32,
    pub host: ReldexStr<'a>,
    pub port: u16,
    /// A [`ReldexServiceTargetKind`].
    pub service_target_kind: i32,
    pub service_name_or_sid: ReldexStr<'a>,
    pub connect_string: ReldexStr<'a>,
    /// A [`ReldexAuthKind`].
    pub auth_kind: i32,
    pub username: ReldexStr<'a>,
    /// A [`ReldexPasswordStorageKind`].
    pub password_storage: i32,
    /// A [`ReldexSessionRoleKind`].
    pub role: i32,
    /// A [`ReldexTransportKind`].
    pub transport: i32,
    pub ca_directory: ReldexStr<'a>,
    pub allow_unenforced_certificate_pin: bool,
}

impl<'a> ReldexProfileView<'a> {
    /// Whether this shows `profile`.
    pub open spec fn shows(self, profile: StoredProfile<Seq<char>>) -> bool {
        &&& self.id == profile.id
        &&& self.created_at == profile.created_at
        &&& self.updated_at == profile.updated_at
        &&& self.name.carries(profile.name)
        &&& self.database_type == profile.database_type
        &&& self.environment == profile.environment
        &&& self.environment_label.carries(profile.environment_label)
        &&& self.treat_as_production == profile.treat_as_production
        &&& self.endpoint_kind == profile.endpoint_kind
        &&& self.host.carries(profile.host)
        &&& self.port == profile.port
        &&& self.service_target_kind == profile.service_target_kind
        &&& self.service_name_or_sid.carries(profile.service_name_or_sid)
        &&& self.connect_string.carries(profile.connect_string)
        &&& self.auth_kind == profile.auth_kind
        &&& self.username.carries(profile.username)
        &&& self.password_storage == profile.password_storage
        &&& self.role == profile.role
        &&& self.transport == profile.transport
        &&& self.ca_directory.carries(profile.ca_directory)
        &&& self.allow_unenforced_certificate_pin == profile.allow_unenforced_certificate_pin
    }
}

/// A list of profiles, owned by the caller from the moment the reply that
/// carries it is drained.
#[derive(Debug)]
pub struct ReldexProfileList {
    profiles: Vec<StoredProfile<OwnedStr>>,
}

/// The profiles of a list as a caller is shown them.
pub open spec fn shown_profiles(profiles: Seq<Profile<String>>) -> Seq<StoredProfile<Seq<char>>> {
    profiles.map_values(|profile: Profile<String>| shown(profile@))
}

impl View for ReldexProfileList {
    type V = Seq<StoredProfile<Seq<char>>>;

    closed spec fn view(&self) -> Seq<StoredProfile<Seq<char>>> {
        self.profiles@.map_values(|profile: StoredProfile<OwnedStr>| profile@)
    }
}

impl ReldexProfileList {
    /// Takes profiles across, counting the object that carries them.
    pub fn new(live: &mut LiveCounters, profiles: &Vec<Profile<String>>) -> (list: Self)
        ensures
            list@ == shown_profiles(profiles@),
            *final(live) == old(live).plus(Kind::WorkspaceObject),
    {
        live.created(Kind::WorkspaceObject);
        let mut stored: Vec<StoredProfile<OwnedStr>> = Vec::new();
        let mut index: usize = 0;
        while index < profiles.len()
            invariant
                index <= profiles@.len(),
                stored@.len() == index,
                forall|i: int| 0 <= i < index ==> (#[trigger] stored@[i])@ == shown(profiles@[i]@),
            decreases profiles@.len() - index,
        {
            stored.push(StoredProfile::from_profile(&profiles[index]));
            index += 1;
        }
        let list = ReldexProfileList { profiles: stored };
        assert(list@ =~= shown_profiles(profiles@));
        list
    }
}

/// How many profiles there are.
pub fn reldex_profile_list_count(
    boundary: &mut Boundary,
    list: Option<&ReldexProfileList>,
) -> (count: usize)
    ensures
        old(boundary)@.in_waker ==> count == 0 && final(boundary)@ == old(boundary)@.refused(),
        !old(boundary)@.in_waker ==> {
            &&& count == match list {
                Some(list) => list@.len(),
                None => 0,
            }
            &&& final(boundary)@ == old(boundary)@
        },
{
    if boundary.refuse_reentrant() {
        return 0;
    }
    match list {
        Some(list) => list.profiles.len(),
        None => 0,
    }
}

/// Shows profile `index`. `out` is how many bytes the caller's struct takes, or
/// nothing where it was refused. Nothing is shown where there is no such profile
/// or no place for it.
pub fn reldex_profile_list_get<'a>(
    boundary: &mut Boundary,
    list: Option<&'a ReldexProfileList>,
    index: usize,
    out: Option<u32>,
) -> (view: Option<ReldexProfileView<'a>>)
    ensures
        old(boundary)@.in_waker ==> view is None && final(boundary)@ == old(boundary)@.refused(),
        !old(boundary)@.in_waker ==> {
            &&& final(boundary)@ == old(boundary)@
            &&& match (list, out) {
                (Some(list), Some(valid)) => if index < list@.len() {
                    view matches Some(view) && view.struct_size == valid && view.shows(
                        list@[index as int],
                    )
                } else {
                    view is None
                },
                _ => view is None,
            }
        },
{
    if boundary.refuse_reentrant() {
        return None;
    }
    match (list, out) {
        (Some(list), Some(valid)) => if index < list.profiles.len() {
            Some(list.profiles[index].show(valid))
        } else {
            None
        },
        _ => None,
    }
}

/// Releases a list. Nothing to release is no failure; a refused call leaves the
/// list with the caller.
pub fn reldex_profile_list_release(
    boundary: &mut Boundary,
    list: Option<ReldexProfileList>,
) -> (kept: Option<ReldexProfileList>)
    ensures
        old(boundary)@.in_waker ==> kept == list && final(boundary)@ == old(boundary)@.refused(),
        !old(boundary)@.in_waker ==> kept is None && final(boundary)@ == if list is Some {
            old(boundary)@.minus(Kind::WorkspaceObject)
        } else {
            old(boundary)@
        },
{
    if boundary.refuse_reentrant() {
        return list;
    }
    if list.is_some() {
        boundary.live.destroyed(Kind::WorkspaceObject);
    }
    None
}

/// Details that are let through are the ones that were entered, each number
/// standing for what it names. They are let through exactly where every text can
/// be read and every number that has to name something does.
pub proof fn details_are_taken_as_entered(
    details: ReldexProfileDetails<'_>,
    built: Result<ProfileDetails<String>, DbError>,
)
    requires
        call_ensures(build_profile_details, (&details,), built),
    ensures
        built is Ok <==> {
            &&& details.name.text() is Some
            &&& details.environment_label.text() is Some
            &&& details.host.text() is Some
            &&& details.service_name_or_sid.text() is Some
            &&& details.connect_string.text() is Some
            &&& details.username.text() is Some
            &&& details.ca_directory.text() is Some
            &&& details.database_type == 1
            &&& 1 <= details.environment <= 6
            &&& 1 <= details.endpoint_kind <= 2
            &&& details.endpoint_kind == 1 ==> 1 <= details.service_target_kind <= 2
            &&& 1 <= details.auth_kind <= 2
            &&& details.auth_kind == 1 ==> 1 <= details.password_storage <= 2
        },
        built matches Err(error) ==> error@.kind == ReldexErrorKind::Configuration,
        built matches Ok(built) ==> {
            &&& details.name.text() == Some(built.name@)
            &&& built.environment is Development <==> details.environment == 1
            &&& built.environment is Test <==> details.environment == 2
            &&& built.environment is Uat <==> details.environment == 3
            &&& built.environment is Staging <==> details.environment == 4
            &&& built.environment is Production <==> details.environment == 5
            &&& built.environment is Custom <==> details.environment == 6
            &&& built.environment matches Environment::Custom(label)
                ==> details.environment_label.text() == Some(label@)
            &&& built.treat_as_production == details.treat_as_production
            &&& built.endpoint is HostPort <==> details.endpoint_kind == 1
            &&& built.endpoint is ConnectString <==> details.endpoint_kind == 2
            &&& built.endpoint matches ProfileEndpoint::HostPort { host, port, target } ==> {
                &&& details.host.text() == Some(host@)
                &&& port == details.port
                &&& target is ServiceName <==> details.service_target_kind == 1
                &&& target is Sid <==> details.service_target_kind == 2
                &&& target matches ServiceTarget::ServiceName(name)
                    ==> details.service_name_or_sid.text() == Some(name@)
                &&& target matches ServiceTarget::Sid(sid) ==> details.service_name_or_sid.text()
                    == Some(sid@)
            }
            &&& built.endpoint matches ProfileEndpoint::ConnectString(text)
                ==> details.connect_string.text() == Some(text@)
            &&& built.authentication is Password <==> details.auth_kind == 1
            &&& built.authentication is External <==> details.auth_kind == 2
            &&& built.authentication matches Authentication::Password { username, storage } ==> {
                &&& details.username.text() == Some(username@)
                &&& storage == PasswordStorage::CredentialStore <==> details.password_storage == 1
                &&& storage == PasswordStorage::PromptEachTime <==> details.password_storage == 2
            }
            &&& built.role == SessionRole::SysDba <==> details.role == 2
            &&& built.role == SessionRole::SysOper <==> details.role == 3
            &&& built.role == SessionRole::Normal <==> details.role != 2 && details.role != 3
            &&& built.tls.transport == Transport::Tls <==> details.transport == 2
            &&& built.tls.transport == Transport::Plain <==> details.transport != 2
            &&& built.tls.ca_directory is Some <==> details.ca_directory.text()->0.len() > 0
            &&& built.tls.ca_directory matches Some(directory) ==> details.ca_directory.text()
                == Some(directory@)
            &&& built.tls.allow_unenforced_certificate_pin
                == details.allow_unenforced_certificate_pin
        },
{
    if let Ok(built) = built {
        assert(built@.name == built.name@);
        assert(built@.environment == built.environment@);
        assert(built@.endpoint == built.endpoint@);
        assert(built@.authentication == built.authentication@);
        assert(built@.tls == built.tls@);
    }
}

/// Profiles are shown one by one, in the order they came in, each with what the
/// store holds of it: a time before 1970 as zero, what there is only one way to
/// say by its number, and what does not belong to the profile's kind as nothing.
pub proof fn a_profile_is_shown_as_it_was_kept(
    live: &mut LiveCounters,
    profiles: Vec<Profile<String>>,
    list: ReldexProfileList,
    boundary: &mut Boundary,
    index: usize,
    valid: u32,
    view: Option<ReldexProfileView<'_>>,
    count: usize,
)
    requires
        call_ensures(ReldexProfileList::new, (live, &profiles), list),
        !old(boundary)@.in_waker,
        call_ensures(reldex_profile_list_count, (boundary, Some(&list)), count),
        call_ensures(reldex_profile_list_get, (boundary, Some(&list), index, Some(valid)), view),
    ensures
        count == profiles@.len(),
        view is Some <==> index < profiles@.len(),
        view matches Some(view) ==> {
            let kept = profiles@[index as int];
            let details = kept.details;
            let none = Some(Seq::<char>::empty());
            &&& view.struct_size == valid
            &&& view.id == kept.id
            &&& kept.created_at >= 0 ==> view.created_at == kept.created_at
            &&& kept.created_at < 0 ==> view.created_at == 0
            &&& kept.modified_at >= 0 ==> view.updated_at == kept.modified_at
            &&& kept.modified_at < 0 ==> view.updated_at == 0
            &&& view.name.text() == Some(details.name@)
            &&& view.database_type == 1
            &&& view.environment == 1 <==> details.environment is Development
            &&& view.environment == 2 <==> details.environment is Test
            &&& view.environment == 3 <==> details.environment is Uat
            &&& view.environment == 4 <==> details.environment is Staging
            &&& view.environment == 5 <==> details.environment is Production
            &&& view.environment == 6 <==> details.environment is Custom
            &&& details.environment matches Environment::Custom(label)
                ==> view.environment_label.text() == Some(label@)
            &&& details.environment !is Custom ==> view.environment_label.text() == none
            &&& view.treat_as_production == details.treat_as_production
            &&& view.endpoint_kind == 1 <==> details.endpoint is HostPort
            &&& view.endpoint_kind == 2 <==> details.endpoint is ConnectString
            &&& details.endpoint matches ProfileEndpoint::HostPort { host, port, target } ==> {
                &&& view.host.text() == Some(host@)
                &&& view.port == port
                &&& view.service_target_kind == 1 <==> target is ServiceName
                &&& view.service_target_kind == 2 <==> target is Sid
                &&& target matches ServiceTarget::ServiceName(name)
                    ==> view.service_name_or_sid.text() == Some(name@)
                &&& target matches ServiceTarget::Sid(sid) ==> view.service_name_or_sid.text()
                    == Some(sid@)
                &&& view.connect_string.text() == none
            }
            &&& details.endpoint matches ProfileEndpoint::ConnectString(text) ==> {
                &&& view.connect_string.text() == Some(text@)
                &&& view.host.text() == none
                &&& view.port == 0
                &&& view.service_name_or_sid.text() == none
            }
            &&& view.auth_kind == 1 <==> details.authentication is Password
            &&& view.auth_kind == 2 <==> details.authentication is External
            &&& details.authentication matches Authentication::Password { username, storage } ==> {
                &&& view.username.text() == Some(username@)
                &&& view.password_storage == 1 <==> storage == PasswordStorage::CredentialStore
                &&& view.password_storage == 2 <==> storage == PasswordStorage::PromptEachTime
            }
            &&& details.authentication !is Password ==> view.username.text() == none
                && view.password_storage == 0
            &&& view.role == 1 <==> details.role == SessionRole::Normal
            &&& view.role == 2 <==> details.role == SessionRole::SysDba
            &&& view.role == 3 <==> details.role == SessionRole::SysOper
            &&& view.transport == 1 <==> details.tls.transport == Transport::Plain
            &&& view.transport == 2 <==> details.tls.transport == Transport::Tls
            &&& details.tls.ca_directory matches Some(directory) ==> view.ca_directory.text()
                == Some(directory@)
            &&& details.tls.ca_directory is None ==> view.ca_directory.text() == none
            &&& view.allow_unenforced_certificate_pin
                == details.tls.allow_unenforced_certificate_pin
        },
{
    if index < profiles@.len() {
        assert(list@[index as int] == shown(profiles@[index as int]@));
    }
}

/// A list is counted from when it is taken in until it is released; a refused
/// release leaves it with its caller.
pub proof fn a_list_is_counted_until_released(
    live: &mut LiveCounters,
    profiles: Vec<Profile<String>>,
    list: ReldexProfileList,
    boundary: &mut Boundary,
    kept: Option<ReldexProfileList>,
)
    requires
        call_ensures(ReldexProfileList::new, (live, &profiles), list),
        call_ensures(reldex_profile_list_release, (boundary, Some(list)), kept),
    ensures
        *final(live) == (LiveCounters {
            misc_objects: next_count(old(live).misc_objects),
            ..*old(live)
        }),
        !old(boundary)@.in_waker ==> {
            &&& kept is None
            &&& old(boundary)@.live == *final(live) ==> final(boundary)@.live == *old(live)
            &&& final(boundary)@.last_error == old(boundary)@.last_error
        },
        old(boundary)@.in_waker ==> {
            &&& kept == Some(list)
            &&& final(boundary)@.live.misc_objects == old(boundary)@.live.misc_objects
        },
{
}

} // verus!
