//! What a profile becomes when it is connected to: the driver's extensions, the
//! summary a caller is shown of the connection parameters, and the password.

use vstd::prelude::*;
use vstd::utf8::encode_utf8;

use crate::counters::{next_count, Kind, LiveCounters};
use crate::error::{DbError, ErrorKind, ErrorModel, ReldexErrorKind};
use crate::profile::{ReldexEndpointKind, ReldexSessionRoleKind, ReldexTransportKind, SessionRole};
use crate::status::Boundary;
use crate::strings::{OwnedStr, ReldexStr};

verus! {

/// A driver extension's value.
#[derive(Debug)]
pub enum ExtensionValue<T> {
    Flag(bool),
    Text(T),
    /// A kind of value this library predates.
    Unrecognized,
}

/// The extensions of the Oracle driver that are set, each under its own key.
#[derive(Debug)]
pub struct Extensions<T> {
    /// Whether a connect may take as long as it takes.
    pub connect_timeout_unbounded: Option<ExtensionValue<T>>,
    /// Whether trigger DDL is rewritten.
    pub rewrite_trigger_ddl: Option<ExtensionValue<T>>,
    /// Whether a certificate name that cannot be enforced is let pass.
    pub allow_unenforced_server_cert_dn: Option<ExtensionValue<T>>,
    /// A directory of certificate authorities to trust.
    pub wallet_dir: Option<ExtensionValue<T>>,
}

/// A directory of certificate authorities.
#[derive(Debug)]
pub enum CaDirectory<T> {
    Absent,
    /// Its name is no text.
    Unreadable,
    Named(T),
}

/// What a profile and its settings ask of the driver.
#[derive(Debug)]
pub struct DriverOptions<T> {
    pub connect_without_limit: bool,
    pub rewrite_trigger_ddl: bool,
    pub allow_unenforced_certificate_pin: bool,
    pub ca_directory: CaDirectory<T>,
}

impl View for ExtensionValue<String> {
    type V = ExtensionValue<Seq<char>>;

    open spec fn view(&self) -> ExtensionValue<Seq<char>> {
        match self {
            ExtensionValue::Flag(flag) => ExtensionValue::Flag(*flag),
            ExtensionValue::Text(text) => ExtensionValue::Text(text@),
            ExtensionValue::Unrecognized => ExtensionValue::Unrecognized,
        }
    }
}

/// What an extension says, where it is set.
pub open spec fn extension_model(value: Option<ExtensionValue<String>>) -> Option<
    ExtensionValue<Seq<char>>,
> {
    match value {
        Some(value) => Some(value@),
        None => None,
    }
}

impl View for Extensions<String> {
    type V = Extensions<Seq<char>>;

    open spec fn view(&self) -> Extensions<Seq<char>> {
        Extensions {
            connect_timeout_unbounded: extension_model(self.connect_timeout_unbounded),
            rewrite_trigger_ddl: extension_model(self.rewrite_trigger_ddl),
            allow_unenforced_server_cert_dn: extension_model(self.allow_unenforced_server_cert_dn),
            wallet_dir: extension_model(self.wallet_dir),
        }
    }
}

impl View for CaDirectory<String> {
    type V = CaDirectory<Seq<char>>;

    open spec fn view(&self) -> CaDirectory<Seq<char>> {
        match self {
            CaDirectory::Absent => CaDirectory::Absent,
            CaDirectory::Unreadable => CaDirectory::Unreadable,
            CaDirectory::Named(name) => CaDirectory::Named(name@),
        }
    }
}

impl View for DriverOptions<String> {
    type V = DriverOptions<Seq<char>>;

    open spec fn view(&self) -> DriverOptions<Seq<char>> {
        DriverOptions {
            connect_without_limit: self.connect_without_limit,
            rewrite_trigger_ddl: self.rewrite_trigger_ddl,
            allow_unenforced_certificate_pin: self.allow_unenforced_certificate_pin,
            ca_directory: self.ca_directory@,
        }
    }
}

/// The extensions that `options` set: the three flags always, the directory
/// where there is one.
pub open spec fn bound(options: DriverOptions<Seq<char>>) -> Extensions<Seq<char>> {
    Extensions {
        connect_timeout_unbounded: Some(ExtensionValue::Flag(options.connect_without_limit)),
        rewrite_trigger_ddl: Some(ExtensionValue::Flag(options.rewrite_trigger_ddl)),
        allow_unenforced_server_cert_dn: Some(
            ExtensionValue::Flag(options.allow_unenforced_certificate_pin),
        ),
        wallet_dir: match options.ca_directory {
            CaDirectory::Named(name) => Some(ExtensionValue::Text(name)),
            _ => None,
        },
    }
}

/// Binds what a profile asks to the Oracle driver's extensions. A directory
/// whose name is no text is refused.
pub fn oracle_extensions(options: &DriverOptions<String>) -> (extensions: Result<
    Extensions<String>,
    DbError,
>)
    ensures
        match extensions {
            Ok(extensions) => {
                &&& options.ca_directory !is Unreadable
                &&& extensions@ == bound(options@)
            },
            Err(error) => {
                &&& options.ca_directory is Unreadable
                &&& error@ == ErrorModel::plain(
                    ReldexErrorKind::Configuration,
                    "the profile's CA directory is not valid Unicode"@,
                )
            },
        },
{
    let wallet_dir = match &options.ca_directory {
        CaDirectory::Absent => None,
        CaDirectory::Unreadable => return Err(
            DbError::new(
                ErrorKind::Configuration,
                "the profile's CA directory is not valid Unicode".to_owned(),
            ),
        ),
        CaDirectory::Named(name) => Some(ExtensionValue::Text(name.clone())),
    };
    Ok(
        Extensions {
            connect_timeout_unbounded: Some(ExtensionValue::Flag(options.connect_without_limit)),
            rewrite_trigger_ddl: Some(ExtensionValue::Flag(options.rewrite_trigger_ddl)),
            allow_unenforced_server_cert_dn: Some(
                ExtensionValue::Flag(options.allow_unenforced_certificate_pin),
            ),
            wallet_dir,
        },
    )
}

/// Where a connection goes.
#[derive(Debug)]
pub enum Endpoint<T> {
    HostPort { host: T, port: u16, service: T },
    ConnectString(T),
    /// A kind this library predates.
    Unrecognized,
}

/// Whether the connection is encrypted.
#[derive(Debug, Clone, Copy, PartialEq, Eq, Structural)]
pub enum TlsMode {
    Disabled,
    Required,
    /// A mode this library predates.
    Unrecognized,
}

/// The connection parameters of a profile.
#[derive(Debug)]
pub struct ConnectionParams<T> {
    pub endpoint: Endpoint<T>,
    pub tls: TlsMode,
    /// Whole seconds.
    pub connect_timeout: Option<u64>,
    pub role: SessionRole,
    pub extensions: Extensions<T>,
}

impl View for Endpoint<String> {
    type V = Endpoint<Seq<char>>;

    open spec fn view(&self) -> Endpoint<Seq<char>> {
        match self {
            Endpoint::HostPort { host, port, service } => Endpoint::HostPort {
                host: host@,
                port: *port,
                service: service@,
            },
            Endpoint::ConnectString(text) => Endpoint::ConnectString(text@),
            Endpoint::Unrecognized => Endpoint::Unrecognized,
        }
    }
}

impl View for ConnectionParams<String> {
    type V = ConnectionParams<Seq<char>>;

    open spec fn view(&self) -> ConnectionParams<Seq<char>> {
        ConnectionParams {
            endpoint: self.endpoint@,
            tls: self.tls,
            connect_timeout: self.connect_timeout,
            role: self.role,
            extensions: self.extensions@,
        }
    }
}

/// Connection parameters as a caller is shown them.
pub struct ConnectSummary<T> {
    pub endpoint_kind: i32,
    pub host: T,
    pub port: u16,
    pub service: T,
    pub connect_string: T,
    pub tls_mode: i32,
    pub has_connect_timeout: bool,
    pub connect_timeout_seconds: u32,
    pub role: i32,
    pub rewrite_trigger_ddl: bool,
    pub connect_without_limit: bool,
    pub allow_unenforced_certificate_pin: bool,
    pub ca_directory: T,
}

/// Whether an extension is a flag that is on.
pub open spec fn flag_of(value: Option<ExtensionValue<Seq<char>>>) -> bool {
    value matches Some(ExtensionValue::Flag(flag)) && flag
}

/// The text of an extension; empty where it is none.
pub open spec fn text_of(value: Option<ExtensionValue<Seq<char>>>) -> Seq<char> {
    match value {
        Some(ExtensionValue::Text(text)) => text,
        _ => Seq::empty(),
    }
}

/// Seconds as they are handed out: at most what the field holds.
pub open spec fn shown_seconds(seconds: u64) -> u32 {
    if seconds > u32::MAX {
        u32::MAX
    } else {
        seconds as u32
    }
}

/// Connection parameters as a caller is shown them.
pub open spec fn summarised(params: ConnectionParams<Seq<char>>) -> ConnectSummary<Seq<char>> {
    ConnectSummary {
        endpoint_kind: match params.endpoint {
            Endpoint::HostPort { host, port, service } => ReldexEndpointKind::HostPort,
            Endpoint::ConnectString(text) => ReldexEndpointKind::ConnectString,
            Endpoint::Unrecognized => ReldexEndpointKind::Unknown,
        } as i32,
        host: match params.endpoint {
            Endpoint::HostPort { host, port, service } => host,
            _ => Seq::empty(),
        },
        port: match params.endpoint {
            Endpoint::HostPort { host, port, service } => port,
            _ => 0,
        },
        service: match params.endpoint {
            Endpoint::HostPort { host, port, service } => service,
            _ => Seq::empty(),
        },
        connect_string: match params.endpoint {
            Endpoint::ConnectString(text) => text,
            _ => Seq::empty(),
        },
        tls_mode: match params.tls {
            TlsMode::Required => ReldexTransportKind::Tls,
            _ => ReldexTransportKind::Plain,
        } as i32,
        has_connect_timeout: params.connect_timeout is Some,
        connect_timeout_seconds: match params.connect_timeout {
            Some(seconds) => shown_seconds(seconds),
            None => 0,
        },
        role: ReldexSessionRoleKind::of(params.role) as i32,
        rewrite_trigger_ddl: flag_of(params.extensions.rewrite_trigger_ddl),
        connect_without_limit: flag_of(params.extensions.connect_timeout_unbounded),
        allow_unenforced_certificate_pin: flag_of(
            params.extensions.allow_unenforced_server_cert_dn,
        ),
        ca_directory: text_of(params.extensions.wallet_dir),
    }
}

/// A summary shows the options that the Oracle driver was bound with.
pub proof fn a_summary_shows_the_bound_options(
    options: DriverOptions<Seq<char>>,
    params: ConnectionParams<Seq<char>>,
)
    requires
        options.ca_directory !is Unreadable,
        params.extensions == bound(options),
    ensures
        summarised(params).connect_without_limit == options.connect_without_limit,
        summarised(params).rewrite_trigger_ddl == options.rewrite_trigger_ddl,
        summarised(params).allow_unenforced_certificate_pin
            == options.allow_unenforced_certificate_pin,
        summarised(params).ca_directory == match options.ca_directory {
            CaDirectory::Named(name) => name,
            _ => Seq::empty(),
        },
{
}

/// The connection parameters of a profile, owned by the caller from the moment
/// the reply that carries them is drained.
#[derive(Debug)]
pub struct ReldexConnectSummary {
    endpoint_kind: i32,
    host: OwnedStr,
    port: u16,
    service: OwnedStr,
    connect_string: OwnedStr,
    tls_mode: i32,
    has_connect_timeout: bool,
    connect_timeout_seconds: u32,
    role: i32,
    rewrite_trigger_ddl: bool,
    connect_without_limit: bool,
    allow_unenforced_certificate_pin: bool,
    ca_directory: OwnedStr,
}

impl View for ReldexConnectSummary {
    type V = ConnectSummary<Seq<char>>;

    closed spec fn view(&self) -> ConnectSummary<Seq<char>> {
        ConnectSummary {
            endpoint_kind: self.endpoint_kind,
            host: self.host@,
            port: self.port,
            service: self.service@,
            connect_string: self.connect_string@,
            tls_mode: self.tls_mode,
            has_connect_timeout: self.has_connect_timeout,
            connect_timeout_seconds: self.connect_timeout_seconds,
            role: self.role,
            rewrite_trigger_ddl: self.rewrite_trigger_ddl,
            connect_without_limit: self.connect_without_limit,
            allow_unenforced_certificate_pin: self.allow_unenforced_certificate_pin,
            ca_directory: self.ca_directory@,
        }
    }
}

/// Whether an extension is a flag that is on.
fn flag(value: &Option<ExtensionValue<String>>) -> (on: bool)
    ensures
        on == flag_of(extension_model(*value)),
{
    match value {
        Some(ExtensionValue::Flag(on)) => *on,
        _ => false,
    }
}

impl ReldexConnectSummary {
    /// Takes connection parameters across, counting the object that carries
    /// them.
    pub fn new(live: &mut LiveCounters, params: &ConnectionParams<String>) -> (summary: Self)
        ensures
            summary@ == summarised(params@),
            *final(live) == old(live).plus(Kind::WorkspaceObject),
    {
        live.created(Kind::WorkspaceObject);
        let (endpoint_kind, host, port, service, connect_string): (
            ReldexEndpointKind,
            String,
            u16,
            String,
            String,
        ) = match &params.endpoint {
            Endpoint::HostPort { host, port, service } => (
                ReldexEndpointKind::HostPort,
                host.clone(),
                *port,
                service.clone(),
                String::new(),
            ),
            Endpoint::ConnectString(text) => (
                ReldexEndpointKind::ConnectString,
                String::new(),
                0,
                String::new(),
                text.clone(),
            ),
            Endpoint::Unrecognized => (
                ReldexEndpointKind::Unknown,
                String::new(),
                0,
                String::new(),
                String::new(),
            ),
        };
        let ca_directory = match &params.extensions.wallet_dir {
            Some(ExtensionValue::Text(text)) => text.clone(),
            _ => String::new(),
        };
        let tls_mode = match params.tls {
            TlsMode::Required => ReldexTransportKind::Tls,
            _ => ReldexTransportKind::Plain,
        };
        let connect_timeout_seconds: u32 = match params.connect_timeout {
            Some(seconds) => if seconds > u32::MAX as u64 {
                u32::MAX
            } else {
                seconds as u32
            },
            None => 0,
        };
        ReldexConnectSummary {
            endpoint_kind: endpoint_kind as i32,
            host: OwnedStr::new(host),
            port,
            service: OwnedStr::new(service),
            connect_string: OwnedStr::new(connect_string),
            tls_mode: tls_mode as i32,
            has_connect_timeout: params.connect_timeout.is_some(),
            connect_timeout_seconds,
            role: ReldexSessionRoleKind::from_role(params.role) as i32,
            rewrite_trigger_ddl: flag(&params.extensions.rewrite_trigger_ddl),
            connect_without_limit: flag(&params.extensions.connect_timeout_unbounded),
            allow_unenforced_certificate_pin: flag(
                &params.extensions.allow_unenforced_server_cert_dn,
            ),
            ca_directory: OwnedStr::new(ca_directory),
        }
    }
}

/// Connection parameters, every string borrowed from the summary they came
/// from.
#[derive(Debug, Clone, Copy)]
pub struct ReldexConnectSummaryView<'a> {
    /// How many bytes of it are valid.
    pub struct_size: u32,
    /// A [`ReldexEndpointKind`].
    pub endpoint_kind: i32,
    /// With host and port.
    pub host: ReldexStr<'a>,
    /// With host and port.
    pub port: u16,
    /// With host and port.
    pub service: ReldexStr<'a>,
    /// With a connect string, which a SID becomes too.
    pub connect_string: ReldexStr<'a>,
    /// A [`ReldexTransportKind`].
    pub tls_mode: i32,
    /// Whether a connect timeout is armed.
    pub has_connect_timeout: bool,
    pub connect_timeout_seconds: u32,
    /// A [`ReldexSessionRoleKind`].
    pub role: i32,
    pub rewrite_trigger_ddl: bool,
    pub connect_without_limit: bool,
    pub allow_unenforced_certificate_pin: bool,
    /// A directory of certificate authorities, or empty.
    pub ca_directory: ReldexStr<'a>,
}

impl<'a> ReldexConnectSummaryView<'a> {
    /// Whether this shows `summary`.
    pub open spec fn shows(self, summary: ConnectSummary<Seq<char>>) -> bool {
        &&& self.endpoint_kind == summary.endpoint_kind
        &&& self.host.carries(summary.host)
        &&& self.port == summary.port
        &&& self.service.carries(summary.service)
        &&& self.connect_string.carries(summary.connect_string)
        &&& self.tls_mode == summary.tls_mode
        &&& self.has_connect_timeout == summary.has_connect_timeout
        &&& self.connect_timeout_seconds == summary.connect_timeout_seconds
        &&& self.role == summary.role
        &&& self.rewrite_trigger_ddl == summary.rewrite_trigger_ddl
        &&& self.connect_without_limit == summary.connect_without_limit
        &&& self.allow_unenforced_certificate_pin == summary.allow_unenforced_certificate_pin
        &&& self.ca_directory.carries(summary.ca_directory)
    }
}

/// Shows a summary. `out` is how many bytes the caller's struct takes, or
/// nothing where it was refused.
pub fn reldex_connect_summary_view<'a>(
    boundary: &mut Boundary,
    summary: Option<&'a ReldexConnectSummary>,
    out: Option<u32>,
) -> (view: Option<ReldexConnectSummaryView<'a>>)
    ensures
        old(boundary)@.in_waker ==> view is None && final(boundary)@ == old(boundary)@.refused(),
        !old(boundary)@.in_waker ==> {
            &&& final(boundary)@ == old(boundary)@
            &&& match (summary, out) {
                (Some(summary), Some(valid)) => view matches Some(view) && view.struct_size == valid
                    && view.shows(summary@),
                _ => view is None,
            }
        },
{
    if boundary.refuse_reentrant() {
        return None;
    }
    match (summary, out) {
        (Some(summary), Some(valid)) => Some(
            ReldexConnectSummaryView {
                struct_size: valid,
                endpoint_kind: summary.endpoint_kind,
                host: summary.host.as_reldex_str(),
                port: summary.port,
                service: summary.service.as_reldex_str(),
                connect_string: summary.connect_string.as_reldex_str(),
                tls_mode: summary.tls_mode,
                has_connect_timeout: summary.has_connect_timeout,
                connect_timeout_seconds: summary.connect_timeout_seconds,
                role: summary.role,
                rewrite_trigger_ddl: summary.rewrite_trigger_ddl,
                connect_without_limit: summary.connect_without_limit,
                allow_unenforced_certificate_pin: summary.allow_unenforced_certificate_pin,
                ca_directory: summary.ca_directory.as_reldex_str(),
            },
        ),
        _ => None,
    }
}

/// Releases a summary. Nothing to release is no failure; a refused call leaves
/// the summary with the caller.
pub fn reldex_connect_summary_release(
    boundary: &mut Boundary,
    summary: Option<ReldexConnectSummary>,
) -> (kept: Option<ReldexConnectSummary>)
    ensures
        old(boundary)@.in_waker ==> kept == summary && final(boundary)@ == old(
            boundary,
        )@.refused(),
        !old(boundary)@.in_waker ==> kept is None && final(boundary)@ == if summary is Some {
            old(boundary)@.minus(Kind::WorkspaceObject)
        } else {
            old(boundary)@
        },
{
    if boundary.refuse_reentrant() {
        return summary;
    }
    if summary.is_some() {
        boundary.live.destroyed(Kind::WorkspaceObject);
    }
    None
}

/// A password, as UTF-8. It has no terminating NUL: a second buffer for one
/// would have to be wiped as well.
pub struct Secret {
    bytes: Vec<u8>,
}

impl View for Secret {
    type V = Seq<u8>;

    closed spec fn view(&self) -> Seq<u8> {
        self.bytes@
    }
}

impl Secret {
    /// Takes a password in.
    pub fn new(text: &str) -> (secret: Self)
        ensures
            secret@ == encode_utf8(text@),
    {
        let bytes = text.as_bytes();
        Secret { bytes: vstd::slice::slice_to_vec(bytes) }
    }

    /// The same password once more.
    pub fn copy(&self) -> (secret: Self)
        ensures
            secret@ == self@,
    {
        let bytes: &[u8] = self.bytes.as_slice();
        Secret { bytes: vstd::slice::slice_to_vec(bytes) }
    }

    /// The password's bytes.
    pub fn expose(&self) -> (bytes: &[u8])
        ensures
            bytes@ == self@,
    {
        self.bytes.as_slice()
    }

    /// Overwrites every byte with zero.
    pub fn wipe(&mut self)
        ensures
            final(self)@ == Seq::new(old(self)@.len(), |i: int| 0u8),
    {
        let total: usize = self.bytes.len();
        let mut index: usize = 0;
        while index < total
            invariant
                index <= total,
                total == self.bytes@.len(),
                total == old(self)@.len(),
                forall|i: int| 0 <= i < index ==> self.bytes@[i] == 0,
            decreases total - index,
        {
            self.bytes.set(index, 0);
            index += 1;
        }
        assert(self.bytes@ =~= Seq::new(old(self)@.len(), |i: int| 0u8));
    }
}

/// Lets go of a password, where there is one, once it is wiped.
pub(crate) fn forget(secret: Option<Secret>) {
    if let Some(secret) = secret {
        let mut secret = secret;
        secret.wipe();
    }
}

/// A password handed to the caller, who releases it.
pub struct ReldexSecret {
    secret: Secret,
}

impl View for ReldexSecret {
    type V = Seq<u8>;

    closed spec fn view(&self) -> Seq<u8> {
        self.secret@
    }
}

impl ReldexSecret {
    /// Takes a password across, counting the object that carries it.
    pub fn new(live: &mut LiveCounters, secret: Secret) -> (crossed: Self)
        ensures
            crossed@ == secret@,
            *final(live) == old(live).plus(Kind::WorkspaceObject),
    {
        live.created(Kind::WorkspaceObject);
        ReldexSecret { secret }
    }

    /// The password once more, for a connect: the caller keeps this one.
    pub fn secret(&self) -> (secret: Secret)
        ensures
            secret@ == self@,
    {
        self.secret.copy()
    }
}

/// Borrows a password, until it is released. It is not NUL-terminated.
pub fn reldex_secret_expose<'a>(
    boundary: &mut Boundary,
    secret: Option<&'a ReldexSecret>,
) -> (text: ReldexStr<'a>)
    ensures
        old(boundary)@.in_waker ==> {
            &&& text.carries(Seq::empty())
            &&& final(boundary)@ == old(boundary)@.refused()
        },
        !old(boundary)@.in_waker ==> {
            &&& final(boundary)@ == old(boundary)@
            &&& match secret {
                None => text.carries(Seq::empty()),
                Some(secret) => text.readable() && text.bytes() == Some(secret@),
            }
        },
{
    if boundary.refuse_reentrant() {
        return ReldexStr::empty();
    }
    match secret {
        None => ReldexStr::empty(),
        Some(secret) => {
            let bytes: &'a [u8] = secret.secret.expose();
            let len: usize = bytes.len();
            let text = ReldexStr { ptr: Some(bytes), len };
            assert(bytes@.take(len as int) =~= bytes@);
            assert(len == 0 ==> bytes@ =~= Seq::empty());
            text
        },
    }
}

/// Releases a password, wiping its bytes: what the caller then drops is all
/// zero. The answer is whether it is to be dropped; a refused call leaves the
/// password as it is.
pub fn reldex_secret_release(boundary: &mut Boundary, secret: Option<&mut ReldexSecret>) -> (
    released: bool)
    ensures
        released == (!old(boundary)@.in_waker && secret is Some),
        final(boundary)@ == if old(boundary)@.in_waker {
            old(boundary)@.refused()
        } else if secret is Some {
            old(boundary)@.minus(Kind::WorkspaceObject)
        } else {
            old(boundary)@
        },
        secret matches Some(secret) ==> final(secret)@ == if released {
            Seq::new(secret@.len(), |i: int| 0u8)
        } else {
            secret@
        },
{
    if boundary.refuse_reentrant() {
        return false;
    }
    match secret {
        None => false,
        Some(secret) => {
            secret.secret.wipe();
            boundary.live.destroyed(Kind::WorkspaceObject);
            true
        },
    }
}

/// Why the user has to be asked for a password. The text of a failure is the
/// store's own.
#[derive(Debug)]
pub enum PromptReason {
    PromptEachTime,
    StoreUnavailable,
    NotStored,
    StoreFailed(CredentialError),
    /// A reason this library predates.
    Unrecognized,
}

/// Where a password comes from.
pub enum PasswordSource {
    FromStore(Secret),
    PromptRequired(PromptReason),
    NotNeeded,
}

/// Where a resolved password came from.
///
/// `0` is reserved for a kind the caller's header predates.
#[derive(Debug, Clone, Copy, PartialEq, Eq, Structural)]
pub enum ReldexPasswordSourceKind {
    /// A kind this header does not know.
    Unknown,
    /// The credential store held it.
    FromStore,
    /// The user must be asked.
    PromptRequired,
    /// The profile authenticates without a password.
    NotNeeded,
}

/// Why the user must be asked for the password.
#[derive(Debug, Clone, Copy, PartialEq, Eq, Structural)]
pub enum ReldexPromptReasonKind {
    /// A reason this header does not know, or not applicable.
    Unknown,
    /// The profile says so.
    PromptEachTime,
    /// No usable credential store.
    StoreUnavailable,
    /// The store holds nothing for this profile.
    NotStored,
    /// The store failed; the reply's error says how.
    StoreFailed,
}

impl ReldexPromptReasonKind {
    /// A reason's number.
    pub open spec fn of(reason: PromptReason) -> Self {
        match reason {
            PromptReason::PromptEachTime => ReldexPromptReasonKind::PromptEachTime,
            PromptReason::StoreUnavailable => ReldexPromptReasonKind::StoreUnavailable,
            PromptReason::NotStored => ReldexPromptReasonKind::NotStored,
            PromptReason::StoreFailed(error) => ReldexPromptReasonKind::StoreFailed,
            PromptReason::Unrecognized => ReldexPromptReasonKind::Unknown,
        }
    }
}

/// A failure of the credential store, with its own words.
#[derive(Debug)]
pub struct CredentialError {
    /// The store holds nothing under that key.
    pub not_found: bool,
    pub text: String,
}

/// A failure of the credential store behind `prefix`: one that found nothing is
/// the input's fault, any other the store's.
pub open spec fn credential_failure(prefix: Seq<char>, error: CredentialError) -> ErrorModel {
    ErrorModel::plain(
        if error.not_found {
            ReldexErrorKind::Configuration
        } else {
            ReldexErrorKind::Other
        },
        prefix + ": "@ + error.text@,
    )
}

/// A failure of the credential store behind `prefix`.
pub fn credential_error(prefix: &str, error: &CredentialError) -> (failure: DbError)
    ensures
        failure@ == credential_failure(prefix@, *error),
{
    let mut text = String::from_str(prefix);
    text.append(": ");
    text.append(error.text.as_str());
    let kind = if error.not_found {
        ErrorKind::Configuration
    } else {
        ErrorKind::Other
    };
    DbError::new(kind, text)
}

/// A driver is handed exactly the options that the profile's settings came to; a
/// certificate directory only where there is one, and one that is no text is the
/// profile's fault.
pub proof fn a_driver_gets_the_options_that_were_set(
    options: DriverOptions<String>,
    extensions: Result<Extensions<String>, DbError>,
)
    requires
        call_ensures(oracle_extensions, (&options,), extensions),
    ensures
        extensions is Err <==> options.ca_directory is Unreadable,
        extensions matches Err(error) ==> error@.kind == ReldexErrorKind::Configuration,
        extensions matches Ok(given) ==> {
            &&& given@.connect_timeout_unbounded matches Some(ExtensionValue::Flag(on)) && on
                == options.connect_without_limit
            &&& given@.rewrite_trigger_ddl matches Some(ExtensionValue::Flag(on)) && on
                == options.rewrite_trigger_ddl
            &&& given@.allow_unenforced_server_cert_dn matches Some(ExtensionValue::Flag(on)) && on
                == options.allow_unenforced_certificate_pin
            &&& given@.wallet_dir is Some <==> options.ca_directory is Named
            &&& options.ca_directory matches CaDirectory::Named(name) ==> given@.wallet_dir == Some(
                ExtensionValue::Text(name@),
            )
        },
{
}

/// A summary shows the parameters it was made of: where the connection goes, over
/// which transport, how long it may take and as whom, by number, and the options
/// of the driver. A limit that does not fit is shown as the largest that does.
pub proof fn a_summary_shows_its_parameters(
    live: &mut LiveCounters,
    params: ConnectionParams<String>,
    summary: ReldexConnectSummary,
    boundary: &mut Boundary,
    valid: u32,
    view: Option<ReldexConnectSummaryView<'_>>,
)
    requires
        call_ensures(ReldexConnectSummary::new, (live, &params), summary),
        !old(boundary)@.in_waker,
        call_ensures(reldex_connect_summary_view, (boundary, Some(&summary), Some(valid)), view),
    ensures
        view is Some,
        ({
            let view = view->0;
            let none = Some(Seq::<char>::empty());
            &&& view.struct_size == valid
            &&& view.endpoint_kind == 1 <==> params.endpoint is HostPort
            &&& view.endpoint_kind == 2 <==> params.endpoint is ConnectString
            &&& params.endpoint matches Endpoint::HostPort { host, port, service } ==> {
                &&& view.host.text() == Some(host@)
                &&& view.port == port
                &&& view.service.text() == Some(service@)
                &&& view.connect_string.text() == none
            }
            &&& params.endpoint matches Endpoint::ConnectString(text) ==> {
                &&& view.connect_string.text() == Some(text@)
                &&& view.host.text() == none
                &&& view.port == 0
                &&& view.service.text() == none
            }
            &&& view.tls_mode == 2 <==> params.tls == TlsMode::Required
            &&& view.tls_mode == 1 <==> params.tls != TlsMode::Required
            &&& view.has_connect_timeout <==> params.connect_timeout is Some
            &&& params.connect_timeout is None ==> view.connect_timeout_seconds == 0
            &&& params.connect_timeout matches Some(seconds) ==> {
                &&& seconds <= u32::MAX ==> view.connect_timeout_seconds == seconds
                &&& seconds > u32::MAX ==> view.connect_timeout_seconds == u32::MAX
            }
            &&& view.role == 1 <==> params.role == SessionRole::Normal
            &&& view.role == 2 <==> params.role == SessionRole::SysDba
            &&& view.role == 3 <==> params.role == SessionRole::SysOper
            &&& view.rewrite_trigger_ddl <==> params.extensions.rewrite_trigger_ddl == Some(
                ExtensionValue::<String>::Flag(true),
            )
            &&& view.connect_without_limit <==> params.extensions.connect_timeout_unbounded == Some(
                ExtensionValue::<String>::Flag(true),
            )
            &&& view.allow_unenforced_certificate_pin
                <==> params.extensions.allow_unenforced_server_cert_dn == Some(
                ExtensionValue::<String>::Flag(true),
            )
            &&& params.extensions.wallet_dir matches Some(ExtensionValue::Text(directory))
                ==> view.ca_directory.text() == Some(directory@)
            &&& params.extensions.wallet_dir is None ==> view.ca_directory.text() == none
        }),
{
}

/// A password crosses byte for byte, and is there until it is released; a released
/// one holds nothing but zeros.
pub proof fn a_password_crosses_as_it_is(
    text: &str,
    secret: Secret,
    live: &mut LiveCounters,
    crossed: ReldexSecret,
    taken: Secret,
    boundary: &mut Boundary,
    shown: ReldexStr<'_>,
)
    requires
        call_ensures(Secret::new, (text,), secret),
        call_ensures(ReldexSecret::new, (live, secret), crossed),
        call_ensures(ReldexSecret::secret, (&crossed,), taken),
        !old(boundary)@.in_waker,
        call_ensures(reldex_secret_expose, (boundary, Some(&crossed)), shown),
    ensures
        shown.bytes() == Some(encode_utf8(text@)),
        taken@ == encode_utf8(text@),
        final(boundary)@ == old(boundary)@,
{
}

/// A released password is overwritten, and counted no more; a call that is refused
/// leaves it as it was.
pub proof fn a_released_password_is_gone(
    boundary: &mut Boundary,
    secret: Option<&mut ReldexSecret>,
    released: bool,
)
    requires
        call_ensures(reldex_secret_release, (boundary, secret), released),
    ensures
        released <==> !old(boundary)@.in_waker && secret is Some,
        secret matches Some(secret) ==> {
            &&& final(secret)@.len() == secret@.len()
            &&& released ==> forall|i: int|
                0 <= i < secret@.len() ==> #[trigger] final(secret)@[i] == 0
            &&& !released ==> final(secret)@ == secret@
        },
{
}

/// A failure of the credential store is told in its own words; where the store
/// found nothing it is the input's fault, and the store's otherwise.
pub proof fn a_credential_failure_is_told_in_its_words(
    prefix: &str,
    error: CredentialError,
    failure: DbError,
)
    requires
        call_ensures(credential_error, (prefix, &error), failure),
    ensures
        failure@.message == prefix@ + ": "@ + error.text@,
        failure@.kind == ReldexErrorKind::Configuration <==> error.not_found,
        failure@.kind == ReldexErrorKind::Other <==> !error.not_found,
        failure@.native_code is None,
{
}

/// A summary is counted from when it is taken in until it is released; a refused
/// release leaves it with its caller.
pub proof fn a_summary_is_counted_until_released(
    live: &mut LiveCounters,
    params: ConnectionParams<String>,
    summary: ReldexConnectSummary,
    boundary: &mut Boundary,
    kept: Option<ReldexConnectSummary>,
)
    requires
        call_ensures(ReldexConnectSummary::new, (live, &params), summary),
        call_ensures(reldex_connect_summary_release, (boundary, Some(summary)), kept),
    ensures
        *final(live) == (LiveCounters {
            misc_objects: next_count(old(live).misc_objects),
            ..*old(live)
        }),
        !old(boundary)@.in_waker ==> {
            &&& kept is None
            &&& old(boundary)@.live == *final(live) ==> final(boundary)@.live == *old(live)
            &&& final(boundary)@.last_error == old(boundary)@.last_error
        },
        old(boundary)@.in_waker ==> {
            &&& kept == Some(summary)
            &&& final(boundary)@.live.misc_objects == old(boundary)@.live.misc_objects
        },
{
}

} // verus!
