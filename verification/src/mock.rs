//! The mock driver's scripted world: which statements it answers and how, and
//! the gates a test parks a session at.

use vstd::prelude::*;

use crate::error::{ErrorKind, ErrorModel, SqlPosition};
use crate::hub::ReldexHub;
use crate::session::{set_unknown_session, unknown_session, without_hub, CancelKind,
    ReldexSessionId, StatementKind};
use crate::status::{Boundary, ReldexStatus};
use crate::strings::ReldexStr;

verus! {

/// Which driver a session is opened against.
///
/// `0` is reserved for a kind the caller's header predates.
#[derive(Debug, Clone, Copy, PartialEq, Eq, Structural)]
pub enum ReldexDriverKind {
    /// A driver this header does not know, or none requested.
    Unknown,
    /// The in-process mock driver: no database, deterministic.
    Mock,
}

/// Which scripted world a mock session connects to.
#[derive(Debug, Clone, Copy, PartialEq, Eq, Structural)]
pub enum ReldexMockScenario {
    /// A scenario this header does not know.
    Unknown,
    /// A world with a lazily generated result, a statement that blocks, one that
    /// fails with a native code and a position, and one that panics inside the
    /// driver; see [`ReldexMockStatement`].
    S14,
}

/// A statement the [`ReldexMockScenario::S14`] world answers.
#[derive(Debug, Clone, Copy, PartialEq, Eq, Structural)]
pub enum ReldexMockStatement {
    /// A statement this header does not know.
    Unknown,
    /// The generated result.
    GeneratedQuery,
    /// Blocks the session's worker until released.
    Block,
    /// Fails with `ORA-00942` at line 1, column 15.
    Failing,
    /// Panics inside the driver call.
    Panicking,
    /// One row of data manipulation, which opens a transaction.
    Dml,
    /// The same contained driver panic as `Panicking`, under its own text.
    PumpPanic,
    /// A result set with columns and no rows.
    EmptyQuery,
    /// A block that prints three lines of server output, the last one reported
    /// as having arrived as invalid UTF-8.
    ServerOutput,
    /// Loses the connection mid-statement.
    LoseSession,
}

/// A failure the mock world can script for every connect or every ping.
#[derive(Debug, Clone, Copy, PartialEq, Eq, Structural)]
pub enum ReldexMockFailure {
    /// The call succeeds.
    NoFailure,
    /// `ORA-01017`, an authentication failure.
    Authentication,
    /// `ORA-12541`, nothing listening at the endpoint.
    Unreachable,
    /// `ORA-03113`, the connection lost.
    Lost,
}

/// How a mock session's scripted world is parameterised. Zero means the default
/// in every field.
#[derive(Debug, Clone, Copy)]
pub struct ReldexMockScenarioConfig {
    /// A [`ReldexMockScenario`]; `0` selects [`ReldexMockScenario::S14`].
    pub scenario: i32,
    /// How many rows the generated query produces. `0` means 1,000.
    pub rows: u64,
    /// Mixed into the generated values; `0` is a valid seed.
    pub seed: u64,
    /// Simulated cost of each fetch, in microseconds. `0` means none.
    pub per_fetch_latency_us: u64,
    /// Extra simulated cost before the first batch, in microseconds. `0` means
    /// none.
    pub first_batch_latency_us: u64,
    /// How long the blocking statement blocks, in milliseconds. `0` means until
    /// it is released or cancelled.
    pub block_duration_ms: u64,
    /// A [`ReldexMockFailure`] every connect fails with.
    pub connect_failure: i32,
    /// A [`ReldexMockFailure`] every ping fails with.
    pub ping_failure: i32,
    /// Parks every connect until it is released.
    pub block_connect: bool,
}

impl ReldexMockScenarioConfig {
    /// The default world: 1,000 rows, no latency, a block that waits to be
    /// released.
    pub open spec fn default_world() -> Self {
        ReldexMockScenarioConfig {
            scenario: ReldexMockScenario::S14 as i32,
            rows: 0,
            seed: 0,
            per_fetch_latency_us: 0,
            first_batch_latency_us: 0,
            block_duration_ms: 0,
            connect_failure: ReldexMockFailure::NoFailure as i32,
            ping_failure: ReldexMockFailure::NoFailure as i32,
            block_connect: false,
        }
    }
}

impl Default for ReldexMockScenarioConfig {
    fn default() -> (config: Self)
        ensures
            config == Self::default_world(),
    {
        ReldexMockScenarioConfig {
            scenario: ReldexMockScenario::S14 as i32,
            rows: 0,
            seed: 0,
            per_fetch_latency_us: 0,
            first_batch_latency_us: 0,
            block_duration_ms: 0,
            connect_failure: ReldexMockFailure::NoFailure as i32,
            ping_failure: ReldexMockFailure::NoFailure as i32,
            block_connect: false,
        }
    }
}

/// How a session is opened.
#[derive(Debug, Clone, Copy)]
pub struct ReldexOpenOptions {
    /// A [`ReldexDriverKind`]. Only the mock is accepted.
    pub driver: i32,
    /// The scripted world, when `driver` is the mock.
    pub mock: ReldexMockScenarioConfig,
}

impl ReldexOpenOptions {
    /// The mock driver with its default world.
    pub open spec fn default_options() -> Self {
        ReldexOpenOptions {
            driver: ReldexDriverKind::Mock as i32,
            mock: ReldexMockScenarioConfig::default_world(),
        }
    }
}

impl Default for ReldexOpenOptions {
    fn default() -> (options: Self)
        ensures
            options == Self::default_options(),
    {
        ReldexOpenOptions {
            driver: ReldexDriverKind::Mock as i32,
            mock: ReldexMockScenarioConfig::default(),
        }
    }
}

/// The text of the statement with number `kind`; empty for a number that is
/// none.
pub open spec fn statement_text(kind: i32) -> Seq<char> {
    if kind == ReldexMockStatement::GeneratedQuery as i32 {
        "SELECT * FROM reldex_generated"@
    } else if kind == ReldexMockStatement::Block as i32 {
        "BEGIN reldex_block; END;"@
    } else if kind == ReldexMockStatement::Failing as i32 {
        "SELECT * FROM reldex_missing"@
    } else if kind == ReldexMockStatement::Panicking as i32 {
        "SELECT reldex_panic FROM dual"@
    } else if kind == ReldexMockStatement::Dml as i32 {
        "UPDATE reldex_rows SET n = n + 1"@
    } else if kind == ReldexMockStatement::PumpPanic as i32 {
        "BEGIN reldex_pump_panic; END;"@
    } else if kind == ReldexMockStatement::EmptyQuery as i32 {
        "SELECT * FROM reldex_generated WHERE 1 = 0"@
    } else if kind == ReldexMockStatement::ServerOutput as i32 {
        "BEGIN reldex_put_line; END;"@
    } else if kind == ReldexMockStatement::LoseSession as i32 {
        "SELECT reldex_lost FROM dual"@
    } else {
        Seq::empty()
    }
}

/// Hands out an ASCII text that carries its NUL.
fn with_nul(text: &'static str) -> (string: ReldexStr<'static>)
    requires
        vstd::utf8::is_ascii_chars(text@),
        text@.len() > 0,
        text@.last() == '\0',
    ensures
        string.carries(text@.drop_last()),
{
    let len: usize = text.as_bytes().len();
    proof {
        let shown = text@.drop_last();
        vstd::utf8::is_ascii_chars_encode_utf8(text@);
        vstd::utf8::is_ascii_chars_encode_utf8(shown);
        let bytes = vstd::utf8::encode_utf8(text@);
        assert(bytes[text@.len() - 1] == text@[text@.len() - 1] as u8);
        assert(bytes.take(len - 1) =~= vstd::utf8::encode_utf8(shown)) by {
            assert forall|i: int| 0 <= i < len - 1 implies bytes[i] == #[trigger] vstd::utf8::encode_utf8(
                shown,
            )[i] by {
                assert(shown[i] == text@[i]);
            }
        }
        vstd::utf8::encode_utf8_valid_utf8(shown);
        vstd::utf8::encode_utf8_decode_utf8(shown);
        assert(len == 1 ==> vstd::utf8::encode_utf8(shown) =~= Seq::empty());
    }
    ReldexStr::borrow_nul_terminated(text, len - 1)
}

/// The text of one of the scenario's statements, or the empty string for a kind
/// this build does not know.
pub fn reldex_mock_statement(boundary: &mut Boundary, kind: i32) -> (text: ReldexStr<'static>)
    ensures
        old(boundary)@.in_waker ==> {
            &&& text.carries(Seq::empty())
            &&& final(boundary)@ == old(boundary)@.refused()
        },
        !old(boundary)@.in_waker ==> {
            &&& text.carries(statement_text(kind))
            &&& final(boundary)@ == old(boundary)@
        },
{
    if boundary.refuse_reentrant() {
        return ReldexStr::empty();
    }
    if kind == ReldexMockStatement::GeneratedQuery as i32 {
        proof {
            reveal_strlit("SELECT * FROM reldex_generated\0");
            reveal_strlit("SELECT * FROM reldex_generated");
            assert("SELECT * FROM reldex_generated\0"@.drop_last() =~= "SELECT * FROM reldex_generated"@);
        }
        with_nul("SELECT * FROM reldex_generated\0")
    } else if kind == ReldexMockStatement::Block as i32 {
        proof {
            reveal_strlit("BEGIN reldex_block; END;\0");
            reveal_strlit("BEGIN reldex_block; END;");
            assert("BEGIN reldex_block; END;\0"@.drop_last() =~= "BEGIN reldex_block; END;"@);
        }
        with_nul("BEGIN reldex_block; END;\0")
    } else if kind == ReldexMockStatement::Failing as i32 {
        proof {
            reveal_strlit("SELECT * FROM reldex_missing\0");
            reveal_strlit("SELECT * FROM reldex_missing");
            assert("SELECT * FROM reldex_missing\0"@.drop_last() =~= "SELECT * FROM reldex_missing"@);
        }
        with_nul("SELECT * FROM reldex_missing\0")
    } else if kind == ReldexMockStatement::Panicking as i32 {
        proof {
            reveal_strlit("SELECT reldex_panic FROM dual\0");
            reveal_strlit("SELECT reldex_panic FROM dual");
            assert("SELECT reldex_panic FROM dual\0"@.drop_last() =~= "SELECT reldex_panic FROM dual"@);
        }
        with_nul("SELECT reldex_panic FROM dual\0")
    } else if kind == ReldexMockStatement::Dml as i32 {
        proof {
            reveal_strlit("UPDATE reldex_rows SET n = n + 1\0");
            reveal_strlit("UPDATE reldex_rows SET n = n + 1");
            assert("UPDATE reldex_rows SET n = n + 1\0"@.drop_last() =~= "UPDATE reldex_rows SET n = n + 1"@);
        }
        with_nul("UPDATE reldex_rows SET n = n + 1\0")
    } else if kind == ReldexMockStatement::PumpPanic as i32 {
        proof {
            reveal_strlit("BEGIN reldex_pump_panic; END;\0");
            reveal_strlit("BEGIN reldex_pump_panic; END;");
            assert("BEGIN reldex_pump_panic; END;\0"@.drop_last() =~= "BEGIN reldex_pump_panic; END;"@);
        }
        with_nul("BEGIN reldex_pump_panic; END;\0")
    } else if kind == ReldexMockStatement::EmptyQuery as i32 {
        proof {
            reveal_strlit("SELECT * FROM reldex_generated WHERE 1 = 0\0");
            reveal_strlit("SELECT * FROM reldex_generated WHERE 1 = 0");
            assert("SELECT * FROM reldex_generated WHERE 1 = 0\0"@.drop_last() =~= "SELECT * FROM reldex_generated WHERE 1 = 0"@);
        }
        with_nul("SELECT * FROM reldex_generated WHERE 1 = 0\0")
    } else if kind == ReldexMockStatement::ServerOutput as i32 {
        proof {
            reveal_strlit("BEGIN reldex_put_line; END;\0");
            reveal_strlit("BEGIN reldex_put_line; END;");
            assert("BEGIN reldex_put_line; END;\0"@.drop_last() =~= "BEGIN reldex_put_line; END;"@);
        }
        with_nul("BEGIN reldex_put_line; END;\0")
    } else if kind == ReldexMockStatement::LoseSession as i32 {
        proof {
            reveal_strlit("SELECT reldex_lost FROM dual\0");
            reveal_strlit("SELECT reldex_lost FROM dual");
            assert("SELECT reldex_lost FROM dual\0"@.drop_last() =~= "SELECT reldex_lost FROM dual"@);
        }
        with_nul("SELECT reldex_lost FROM dual\0")
    } else {
        ReldexStr::empty()
    }
}

/// A failure the mock reports, with the native code a real server would give.
#[derive(Debug, Clone, Copy)]
pub struct ScriptedError {
    pub kind: ErrorKind,
    pub message: &'static str,
    pub native_code: i32,
    pub native_message: &'static str,
    pub position: Option<SqlPosition>,
}

/// A result set that is generated as it is fetched.
#[derive(Debug, Clone, Copy)]
pub struct GeneratedQuery {
    pub rows: u64,
    pub seed: u64,
    pub per_fetch_latency_us: Option<u64>,
    pub first_batch_latency_us: Option<u64>,
}

/// What the mock's driver can do.
#[derive(Debug, Clone, Copy)]
pub struct MockCapabilities {
    /// How it interrupts a statement.
    pub cancel: CancelKind,
    pub savepoints: bool,
    /// Whether it reports its transaction state exactly.
    pub exact_transaction_state: bool,
    /// Whether it streams large objects.
    pub lob_streaming: bool,
    /// Whether its errors say where in the statement they are.
    pub error_position: bool,
}

/// The world a mock session connects to: what its driver can do, and what each
/// statement does.
#[derive(Debug, Clone, Copy)]
pub struct MockWorld {
    pub capabilities: MockCapabilities,
    pub connect_string: &'static str,
    pub generated_sql: &'static str,
    pub generated: GeneratedQuery,
    pub empty_sql: &'static str,
    pub empty: GeneratedQuery,
    pub block_sql: &'static str,
    /// Milliseconds after which the blocking statement is released by itself.
    pub release_after_ms: Option<u64>,
    pub failing_sql: &'static str,
    pub failing: ScriptedError,
    pub panicking_sql: &'static str,
    pub pump_panic_sql: &'static str,
    pub panic_message: &'static str,
    pub output_sql: &'static str,
    pub output_kind: StatementKind,
    pub output_rows: Option<u64>,
    /// Whether the statement with output opens a transaction.
    pub output_opens_transaction: bool,
    pub output_lines: (&'static str, &'static str, &'static str),
    /// How many of the output lines are reported as invalid UTF-8.
    pub output_invalid_lines: u32,
    pub lose_sql: &'static str,
    pub lost: ScriptedError,
    pub dml_sql: &'static str,
    pub dml_rows: u64,
    pub connect_failure: Option<ScriptedError>,
    pub ping_failure: Option<ScriptedError>,
    /// Whether every connect is parked until released.
    pub block_connect: bool,
}

/// A duration setting, where zero means none.
pub open spec fn nonzero(value: u64) -> Option<u64> {
    if value > 0 {
        Some(value)
    } else {
        None
    }
}

/// A failure whose message is the server's own.
pub open spec fn server_error(kind: ErrorKind, code: i32, message: &'static str) -> ScriptedError {
    ScriptedError {
        kind,
        message,
        native_code: code,
        native_message: message,
        position: None,
    }
}

/// The connection lost mid-operation.
pub open spec fn lost_error() -> ScriptedError {
    server_error(
        ErrorKind::NetworkLost,
        3113,
        "ORA-03113: end-of-file on communication channel",
    )
}

/// The failure with number `failure`; none for none, and for a number this
/// build does not know.
pub open spec fn failure_of(failure: i32) -> Option<ScriptedError> {
    if failure == ReldexMockFailure::Authentication as i32 {
        Some(
            server_error(
                ErrorKind::Authentication,
                1017,
                "ORA-01017: invalid username/password; logon denied",
            ),
        )
    } else if failure == ReldexMockFailure::Unreachable as i32 {
        Some(server_error(ErrorKind::Connection, 12541, "ORA-12541: TNS:no listener"))
    } else if failure == ReldexMockFailure::Lost as i32 {
        Some(lost_error())
    } else {
        None
    }
}

/// The scripted error for a [`ReldexMockFailure`] value.
pub fn scripted_failure(failure: i32) -> (error: Option<ScriptedError>)
    ensures
        error == failure_of(failure),
{
    let (kind, code, message): (ErrorKind, i32, &'static str) = if failure
        == ReldexMockFailure::Authentication as i32 {
        (
            ErrorKind::Authentication,
            1017,
            "ORA-01017: invalid username/password; logon denied",
        )
    } else if failure == ReldexMockFailure::Unreachable as i32 {
        (ErrorKind::Connection, 12541, "ORA-12541: TNS:no listener")
    } else if failure == ReldexMockFailure::Lost as i32 {
        (ErrorKind::NetworkLost, 3113, "ORA-03113: end-of-file on communication channel")
    } else {
        return None;
    };
    Some(
        ScriptedError {
            kind,
            message,
            native_code: code,
            native_message: message,
            position: None,
        },
    )
}

/// What the mock's driver can do: everything, so that a cancel reaches a
/// statement that blocks.
pub open spec fn every_capability() -> MockCapabilities {
    MockCapabilities {
        cancel: CancelKind::Native,
        savepoints: true,
        exact_transaction_state: true,
        lob_streaming: true,
        error_position: true,
    }
}

/// The world a configuration describes.
pub open spec fn world_of(config: ReldexMockScenarioConfig) -> MockWorld {
    MockWorld {
        capabilities: every_capability(),
        connect_string: "mock",
        generated_sql: "SELECT * FROM reldex_generated",
        generated: GeneratedQuery {
            rows: if config.rows == 0 {
                1000
            } else {
                config.rows
            },
            seed: config.seed,
            per_fetch_latency_us: nonzero(config.per_fetch_latency_us),
            first_batch_latency_us: nonzero(config.first_batch_latency_us),
        },
        empty_sql: "SELECT * FROM reldex_generated WHERE 1 = 0",
        empty: GeneratedQuery {
            rows: 0,
            seed: config.seed,
            per_fetch_latency_us: None,
            first_batch_latency_us: None,
        },
        block_sql: "BEGIN reldex_block; END;",
        release_after_ms: nonzero(config.block_duration_ms),
        failing_sql: "SELECT * FROM reldex_missing",
        failing: ScriptedError {
            kind: ErrorKind::Syntax,
            message: "table or view does not exist",
            native_code: 942,
            native_message: "ORA-00942: table or view does not exist",
            position: Some(SqlPosition { char_offset: None, line: Some(1), column: Some(15) }),
        },
        panicking_sql: "SELECT reldex_panic FROM dual",
        pump_panic_sql: "BEGIN reldex_pump_panic; END;",
        panic_message: "reldex-ffi mock scenario: a deliberate driver panic",
        output_sql: "BEGIN reldex_put_line; END;",
        output_kind: StatementKind::PlSqlBlock,
        output_rows: None,
        output_opens_transaction: false,
        output_lines: (
            "reldex: first line",
            "",
            "reldex: \u{FFFD} arrived as invalid UTF-8",
        ),
        output_invalid_lines: 1,
        lose_sql: "SELECT reldex_lost FROM dual",
        lost: lost_error(),
        dml_sql: "UPDATE reldex_rows SET n = n + 1",
        dml_rows: 1,
        connect_failure: failure_of(config.connect_failure),
        ping_failure: failure_of(config.ping_failure),
        block_connect: config.block_connect,
    }
}

/// Whether a session can be opened with `options`: only the mock, and only a
/// scenario it has.
pub open spec fn openable(options: ReldexOpenOptions) -> bool {
    &&& options.driver == ReldexDriverKind::Mock as i32
    &&& options.mock.scenario == 0 || options.mock.scenario == ReldexMockScenario::S14 as i32
}

/// A duration setting, where zero means none.
fn nonzero_setting(value: u64) -> (setting: Option<u64>)
    ensures
        setting == nonzero(value),
{
    if value > 0 {
        Some(value)
    } else {
        None
    }
}

/// Describes the driver a session should open against.
pub fn build_driver(options: &ReldexOpenOptions) -> (world: Result<MockWorld, ReldexStatus>)
    ensures
        world == if openable(*options) {
            Ok::<MockWorld, ReldexStatus>(world_of(options.mock))
        } else {
            Err::<MockWorld, ReldexStatus>(ReldexStatus::InvalidArgument)
        },
{
    if options.driver != ReldexDriverKind::Mock as i32 {
        return Err(ReldexStatus::InvalidArgument);
    }
    let config = options.mock;
    if config.scenario != 0 && config.scenario != ReldexMockScenario::S14 as i32 {
        return Err(ReldexStatus::InvalidArgument);
    }
    let lost = ScriptedError {
        kind: ErrorKind::NetworkLost,
        message: "ORA-03113: end-of-file on communication channel",
        native_code: 3113,
        native_message: "ORA-03113: end-of-file on communication channel",
        position: None,
    };
    let capabilities = MockCapabilities {
        cancel: CancelKind::Native,
        savepoints: true,
        exact_transaction_state: true,
        lob_streaming: true,
        error_position: true,
    };
    Ok(
        MockWorld {
            capabilities,
            connect_string: "mock",
            generated_sql: "SELECT * FROM reldex_generated",
            generated: GeneratedQuery {
                rows: if config.rows == 0 {
                    1000
                } else {
                    config.rows
                },
                seed: config.seed,
                per_fetch_latency_us: nonzero_setting(config.per_fetch_latency_us),
                first_batch_latency_us: nonzero_setting(config.first_batch_latency_us),
            },
            empty_sql: "SELECT * FROM reldex_generated WHERE 1 = 0",
            empty: GeneratedQuery {
                rows: 0,
                seed: config.seed,
                per_fetch_latency_us: None,
                first_batch_latency_us: None,
            },
            block_sql: "BEGIN reldex_block; END;",
            release_after_ms: nonzero_setting(config.block_duration_ms),
            failing_sql: "SELECT * FROM reldex_missing",
            failing: ScriptedError {
                kind: ErrorKind::Syntax,
                message: "table or view does not exist",
                native_code: 942,
                native_message: "ORA-00942: table or view does not exist",
                position: Some(SqlPosition { char_offset: None, line: Some(1), column: Some(15) }),
            },
            panicking_sql: "SELECT reldex_panic FROM dual",
            pump_panic_sql: "BEGIN reldex_pump_panic; END;",
            panic_message: "reldex-ffi mock scenario: a deliberate driver panic",
            output_sql: "BEGIN reldex_put_line; END;",
            output_kind: StatementKind::PlSqlBlock,
            output_rows: None,
            output_opens_transaction: false,
            output_lines: (
                "reldex: first line",
                "",
                "reldex: \u{FFFD} arrived as invalid UTF-8",
            ),
            output_invalid_lines: 1,
            lose_sql: "SELECT reldex_lost FROM dual",
            lost,
            dml_sql: "UPDATE reldex_rows SET n = n + 1",
            dml_rows: 1,
            connect_failure: scripted_failure(config.connect_failure),
            ping_failure: scripted_failure(config.ping_failure),
            block_connect: config.block_connect,
        },
    )
}

/// Every statement the scenario names is one its world answers, under the text
/// a caller is handed.
pub proof fn the_world_answers_every_statement(config: ReldexMockScenarioConfig)
    ensures
        ({
            let world = world_of(config);
            &&& statement_text(ReldexMockStatement::GeneratedQuery as i32) == world.generated_sql@
            &&& statement_text(ReldexMockStatement::EmptyQuery as i32) == world.empty_sql@
            &&& statement_text(ReldexMockStatement::Block as i32) == world.block_sql@
            &&& statement_text(ReldexMockStatement::Failing as i32) == world.failing_sql@
            &&& statement_text(ReldexMockStatement::Panicking as i32) == world.panicking_sql@
            &&& statement_text(ReldexMockStatement::PumpPanic as i32) == world.pump_panic_sql@
            &&& statement_text(ReldexMockStatement::Dml as i32) == world.dml_sql@
            &&& statement_text(ReldexMockStatement::ServerOutput as i32) == world.output_sql@
            &&& statement_text(ReldexMockStatement::LoseSession as i32) == world.lose_sql@
        }),
{
}

/// What a caller is told whose session has nothing to release.
pub open spec fn nothing_to_release() -> ErrorModel {
    ErrorModel::argument(
        "reldex_mock_release_block: the session's driver has no statement or connect to release"@,
    )
}

/// Whether a session's parked statement and parked connect may be released. They
/// are, once and for all, where the answer is okay.
pub fn reldex_mock_release_block(
    boundary: &mut Boundary,
    hub: Option<&ReldexHub>,
    session: ReldexSessionId,
) -> (status: ReldexStatus)
    ensures
        old(boundary)@.in_waker ==> {
            &&& status == ReldexStatus::Reentrant
            &&& final(boundary)@ == old(boundary)@.refused()
        },
        !old(boundary)@.in_waker ==> match hub {
            None => {
                &&& status == ReldexStatus::InvalidArgument
                &&& final(boundary)@ == without_hub(old(boundary)@)
            },
            Some(hub) => if !hub@.sessions.contains_key(session) {
                &&& status == ReldexStatus::NotFound
                &&& final(boundary)@ == old(boundary)@.failed(unknown_session(session))
            } else if !hub@.sessions[session].block && !hub@.sessions[session].connect_block {
                &&& status == ReldexStatus::InvalidState
                &&& final(boundary)@ == old(boundary)@.failed(nothing_to_release())
            } else {
                &&& status == ReldexStatus::Okay
                &&& final(boundary)@ == old(boundary)@
            },
        },
{
    if boundary.refuse_reentrant() {
        return ReldexStatus::Reentrant;
    }
    let hub = match hub {
        None => return boundary.set_last_argument_error("the hub pointer is null or unaligned"),
        Some(hub) => hub,
    };
    match hub.sessions.get(session) {
        None => set_unknown_session(boundary, session),
        Some(entry) => if !entry.block && !entry.connect_block {
            boundary.set_last_argument_error(
                "reldex_mock_release_block: the session's driver has no statement or connect to release",
            );
            ReldexStatus::InvalidState
        } else {
            ReldexStatus::Okay
        },
    }
}

/// A caller is handed the very text that the scripted world answers, for each
/// number that names a statement, and nothing for any other number.
pub proof fn a_statement_is_answered_under_its_number(
    boundary: &mut Boundary,
    kind: i32,
    text: ReldexStr<'_>,
    options: ReldexOpenOptions,
    world: Result<MockWorld, ReldexStatus>,
)
    requires
        !old(boundary)@.in_waker,
        call_ensures(reldex_mock_statement, (boundary, kind), text),
        call_ensures(build_driver, (&options,), world),
        world is Ok,
    ensures
        kind == 1 ==> text.text() == Some(world->Ok_0.generated_sql@),
        kind == 2 ==> text.text() == Some(world->Ok_0.block_sql@),
        kind == 3 ==> text.text() == Some(world->Ok_0.failing_sql@),
        kind == 4 ==> text.text() == Some(world->Ok_0.panicking_sql@),
        kind == 5 ==> text.text() == Some(world->Ok_0.dml_sql@),
        kind == 6 ==> text.text() == Some(world->Ok_0.pump_panic_sql@),
        kind == 7 ==> text.text() == Some(world->Ok_0.empty_sql@),
        kind == 8 ==> text.text() == Some(world->Ok_0.output_sql@),
        kind == 9 ==> text.text() == Some(world->Ok_0.lose_sql@),
        !(1 <= kind <= 9) ==> text.text() == Some(Seq::<char>::empty()),
{
}

/// No two of the scripted world's statements have the same text: each is answered
/// in one way.
pub proof fn statements_are_told_apart(
    options: ReldexOpenOptions,
    world: Result<MockWorld, ReldexStatus>,
)
    requires
        call_ensures(build_driver, (&options,), world),
        world is Ok,
    ensures
        ({
            let world = world->Ok_0;
            let texts = seq![
                world.generated_sql@,
                world.block_sql@,
                world.failing_sql@,
                world.panicking_sql@,
                world.dml_sql@,
                world.pump_panic_sql@,
                world.empty_sql@,
                world.output_sql@,
                world.lose_sql@,
            ];
            texts.no_duplicates()
        }),
{
    reveal_strlit("SELECT * FROM reldex_generated");
    reveal_strlit("BEGIN reldex_block; END;");
    reveal_strlit("SELECT * FROM reldex_missing");
    reveal_strlit("SELECT reldex_panic FROM dual");
    reveal_strlit("UPDATE reldex_rows SET n = n + 1");
    reveal_strlit("BEGIN reldex_pump_panic; END;");
    reveal_strlit("SELECT * FROM reldex_generated WHERE 1 = 0");
    reveal_strlit("BEGIN reldex_put_line; END;");
    reveal_strlit("SELECT reldex_lost FROM dual");
    let world = world->Ok_0;
    assert(world.failing_sql@[7] == '*' && world.lose_sql@[7] == 'r');
    assert(world.panicking_sql@[0] == 'S' && world.pump_panic_sql@[0] == 'B');
    let texts = seq![
        world.generated_sql@,
        world.block_sql@,
        world.failing_sql@,
        world.panicking_sql@,
        world.dml_sql@,
        world.pump_panic_sql@,
        world.empty_sql@,
        world.output_sql@,
        world.lose_sql@,
    ];
    let lens: Seq<nat> = seq![30, 24, 28, 29, 32, 29, 42, 27, 28];
    assert(forall|i: int| 0 <= i < 9 ==> (#[trigger] texts[i]).len() == lens[i]);
}

/// The world is scripted as its caller configured it: as many rows as asked, a
/// thousand where nothing is asked, out of the seed that was given; a delay or a
/// limit only where one above zero was given; a connect or a ping fails as its own
/// number says. Any other driver or scenario is refused.
pub proof fn a_world_is_scripted_as_configured(
    options: ReldexOpenOptions,
    world: Result<MockWorld, ReldexStatus>,
    connect: Option<ScriptedError>,
    ping: Option<ScriptedError>,
)
    requires
        call_ensures(build_driver, (&options,), world),
        call_ensures(scripted_failure, (options.mock.connect_failure,), connect),
        call_ensures(scripted_failure, (options.mock.ping_failure,), ping),
    ensures
        world is Ok <==> options.driver == 1 && (options.mock.scenario == 0 || options.mock.scenario
            == 1),
        world matches Err(status) ==> status == ReldexStatus::InvalidArgument,
        world matches Ok(world) ==> {
            let config = options.mock;
            &&& config.rows > 0 ==> world.generated.rows == config.rows
            &&& config.rows == 0 ==> world.generated.rows == 1000
            &&& world.generated.seed == config.seed
            &&& world.empty.rows == 0
            &&& world.empty.seed == config.seed
            &&& world.generated.per_fetch_latency_us is Some <==> config.per_fetch_latency_us > 0
            &&& world.generated.per_fetch_latency_us matches Some(latency) ==> latency
                == config.per_fetch_latency_us
            &&& world.generated.first_batch_latency_us is Some <==> config.first_batch_latency_us
                > 0
            &&& world.generated.first_batch_latency_us matches Some(latency) ==> latency
                == config.first_batch_latency_us
            &&& world.release_after_ms is Some <==> config.block_duration_ms > 0
            &&& world.release_after_ms matches Some(duration) ==> duration
                == config.block_duration_ms
            &&& world.block_connect == config.block_connect
            &&& world.connect_failure == connect
            &&& world.ping_failure == ping
            &&& world.failing.kind == ErrorKind::Syntax
            &&& world.lost.kind == ErrorKind::NetworkLost
            &&& world.dml_rows == 1
            &&& world.capabilities.cancel == CancelKind::Native
            &&& world.capabilities.savepoints
            &&& world.capabilities.exact_transaction_state
        },
{
}

/// A scripted failure is the one its number names, told by the server's own code
/// and words; any other number is no failure.
pub proof fn a_scripted_failure_is_known_by_its_number(failure: i32, error: Option<ScriptedError>)
    requires
        call_ensures(scripted_failure, (failure,), error),
    ensures
        error is Some <==> 1 <= failure <= 3,
        error matches Some(error) ==> {
            &&& failure == 1 <==> error.kind == ErrorKind::Authentication
            &&& failure == 2 <==> error.kind == ErrorKind::Connection
            &&& failure == 3 <==> error.kind == ErrorKind::NetworkLost
            &&& failure == 1 <==> error.native_code == 1017
            &&& failure == 2 <==> error.native_code == 12541
            &&& failure == 3 <==> error.native_code == 3113
            &&& error.message@ == error.native_message@
            &&& error.position is None
        },
{
}

/// A session is released exactly where the hub has it and something of it is
/// parked: its statement or its connect.
pub proof fn only_what_is_parked_is_released(
    boundary: &mut Boundary,
    hub: ReldexHub,
    session: ReldexSessionId,
    status: ReldexStatus,
)
    requires
        !old(boundary)@.in_waker,
        call_ensures(reldex_mock_release_block, (boundary, Some(&hub), session), status),
    ensures
        status == ReldexStatus::Okay <==> hub@.sessions.contains_key(session) && (
        hub@.sessions[session].block || hub@.sessions[session].connect_block),
        status == ReldexStatus::NotFound <==> !hub@.sessions.contains_key(session),
        status == ReldexStatus::Okay ==> final(boundary)@ == old(boundary)@,
{
}

/// Options that nobody filled in open the mock driver, with a world that fails
/// nothing and delays nothing.
pub proof fn fresh_options_open_an_untroubled_world(
    options: ReldexOpenOptions,
    world: Result<MockWorld, ReldexStatus>,
)
    requires
        call_ensures(ReldexOpenOptions::default, (), options),
        call_ensures(build_driver, (&options,), world),
    ensures
        world is Ok,
        world->Ok_0.connect_failure is None && world->Ok_0.ping_failure is None,
        !world->Ok_0.block_connect,
        world->Ok_0.generated.rows == 1000,
        world->Ok_0.generated.per_fetch_latency_us is None,
        world->Ok_0.generated.first_batch_latency_us is None,
        world->Ok_0.release_after_ms is None,
{
}

/// The scripted statements end as they are meant to: the failing one as a missing
/// table at its place in the text, the lost one as a lost connection, and the
/// printing one with its lines, one of them damaged.
pub proof fn scripted_statements_end_as_scripted(
    options: ReldexOpenOptions,
    world: Result<MockWorld, ReldexStatus>,
)
    requires
        call_ensures(build_driver, (&options,), world),
        world is Ok,
    ensures
        ({
            let world = world->Ok_0;
            &&& world.failing.kind == ErrorKind::Syntax
            &&& world.failing.native_code == 942
            &&& world.failing.position is Some
            &&& world.failing.position->0.line == Some(1u32)
            &&& world.failing.position->0.column == Some(15u32)
            &&& world.failing.position->0.char_offset is None
            &&& world.lost.kind == ErrorKind::NetworkLost
            &&& world.lost.native_code == 3113
            &&& world.output_rows is None
            &&& !world.output_opens_transaction
            &&& world.output_invalid_lines == 1
            &&& world.output_lines.1@ == ""@
            &&& world.output_kind == StatementKind::PlSqlBlock
            &&& world.empty.per_fetch_latency_us is None
            &&& world.empty.first_batch_latency_us is None
        }),
{
}

} // verus!
