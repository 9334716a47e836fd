//! Settings as they cross the boundary: by number, by level, and with a value
//! flattened to one shape for every kind.

use vstd::prelude::*;

use crate::error::{DbError, ErrorKind, ErrorModel, ReldexErrorKind};

verus! {

/// A setting, as the store names it.
#[derive(Debug, Clone, Copy, PartialEq, Eq, Structural)]
pub enum SettingId {
    ConnectTimeout,
    RewriteTriggerDdl,
    StatementTimeLimit,
    FetchRows,
    FetchesInFlight,
    ServerOutputEnabled,
    ServerOutputBuffer,
    HistoryMaxEntriesPerProfile,
    /// A setting this library predates.
    Unrecognized,
}

/// A setting, by the stable number it has here.
///
/// `0` is reserved for a setting the caller's header predates.
#[derive(Debug, Clone, Copy, PartialEq, Eq, Structural)]
pub enum ReldexSettingId {
    /// A setting this header does not know.
    Unknown,
    ConnectTimeout,
    RewriteTriggerDdl,
    StatementTimeLimit,
    FetchRows,
    FetchesInFlight,
    ServerOutputEnabled,
    ServerOutputBuffer,
    HistoryMaxEntriesPerProfile,
}

impl ReldexSettingId {
    /// The stable number's setting, of one the store names.
    pub open spec fn of(id: SettingId) -> Self {
        match id {
            SettingId::ConnectTimeout => ReldexSettingId::ConnectTimeout,
            SettingId::RewriteTriggerDdl => ReldexSettingId::RewriteTriggerDdl,
            SettingId::StatementTimeLimit => ReldexSettingId::StatementTimeLimit,
            SettingId::FetchRows => ReldexSettingId::FetchRows,
            SettingId::FetchesInFlight => ReldexSettingId::FetchesInFlight,
            SettingId::ServerOutputEnabled => ReldexSettingId::ServerOutputEnabled,
            SettingId::ServerOutputBuffer => ReldexSettingId::ServerOutputBuffer,
            SettingId::HistoryMaxEntriesPerProfile => ReldexSettingId::HistoryMaxEntriesPerProfile,
            SettingId::Unrecognized => ReldexSettingId::Unknown,
        }
    }

    /// The setting with the number `value`.
    pub fn from_i32(value: i32) -> (id: Option<Self>)
        ensures
            match id {
                Some(id) => id as i32 == value && id != ReldexSettingId::Unknown,
                None => !(1 <= value <= 8),
            },
    {
        if value == ReldexSettingId::ConnectTimeout as i32 {
            Some(ReldexSettingId::ConnectTimeout)
        } else if value == ReldexSettingId::RewriteTriggerDdl as i32 {
            Some(ReldexSettingId::RewriteTriggerDdl)
        } else if value == ReldexSettingId::StatementTimeLimit as i32 {
            Some(ReldexSettingId::StatementTimeLimit)
        } else if value == ReldexSettingId::FetchRows as i32 {
            Some(ReldexSettingId::FetchRows)
        } else if value == ReldexSettingId::FetchesInFlight as i32 {
            Some(ReldexSettingId::FetchesInFlight)
        } else if value == ReldexSettingId::ServerOutputEnabled as i32 {
            Some(ReldexSettingId::ServerOutputEnabled)
        } else if value == ReldexSettingId::ServerOutputBuffer as i32 {
            Some(ReldexSettingId::ServerOutputBuffer)
        } else if value == ReldexSettingId::HistoryMaxEntriesPerProfile as i32 {
            Some(ReldexSettingId::HistoryMaxEntriesPerProfile)
        } else {
            None
        }
    }

    /// What the store calls this setting; nothing for the reserved number.
    pub fn to_setting_id(self) -> (id: Option<SettingId>)
        ensures
            match id {
                Some(id) => ReldexSettingId::of(id) == self && id != SettingId::Unrecognized,
                None => self == ReldexSettingId::Unknown,
            },
    {
        match self {
            ReldexSettingId::Unknown => None,
            ReldexSettingId::ConnectTimeout => Some(SettingId::ConnectTimeout),
            ReldexSettingId::RewriteTriggerDdl => Some(SettingId::RewriteTriggerDdl),
            ReldexSettingId::StatementTimeLimit => Some(SettingId::StatementTimeLimit),
            ReldexSettingId::FetchRows => Some(SettingId::FetchRows),
            ReldexSettingId::FetchesInFlight => Some(SettingId::FetchesInFlight),
            ReldexSettingId::ServerOutputEnabled => Some(SettingId::ServerOutputEnabled),
            ReldexSettingId::ServerOutputBuffer => Some(SettingId::ServerOutputBuffer),
            ReldexSettingId::HistoryMaxEntriesPerProfile => Some(
                SettingId::HistoryMaxEntriesPerProfile,
            ),
        }
    }

    /// The stable number's setting, of one the store names.
    pub fn from_setting_id(id: SettingId) -> (stable: Self)
        ensures
            stable == Self::of(id),
    {
        match id {
            SettingId::ConnectTimeout => ReldexSettingId::ConnectTimeout,
            SettingId::RewriteTriggerDdl => ReldexSettingId::RewriteTriggerDdl,
            SettingId::StatementTimeLimit => ReldexSettingId::StatementTimeLimit,
            SettingId::FetchRows => ReldexSettingId::FetchRows,
            SettingId::FetchesInFlight => ReldexSettingId::FetchesInFlight,
            SettingId::ServerOutputEnabled => ReldexSettingId::ServerOutputEnabled,
            SettingId::ServerOutputBuffer => ReldexSettingId::ServerOutputBuffer,
            SettingId::HistoryMaxEntriesPerProfile => ReldexSettingId::HistoryMaxEntriesPerProfile,
            SettingId::Unrecognized => ReldexSettingId::Unknown,
        }
    }
}

/// The setting a caller's number names, where it names one.
pub open spec fn setting_of(value: i32) -> Option<SettingId> {
    if value == ReldexSettingId::ConnectTimeout as i32 {
        Some(SettingId::ConnectTimeout)
    } else if value == ReldexSettingId::RewriteTriggerDdl as i32 {
        Some(SettingId::RewriteTriggerDdl)
    } else if value == ReldexSettingId::StatementTimeLimit as i32 {
        Some(SettingId::StatementTimeLimit)
    } else if value == ReldexSettingId::FetchRows as i32 {
        Some(SettingId::FetchRows)
    } else if value == ReldexSettingId::FetchesInFlight as i32 {
        Some(SettingId::FetchesInFlight)
    } else if value == ReldexSettingId::ServerOutputEnabled as i32 {
        Some(SettingId::ServerOutputEnabled)
    } else if value == ReldexSettingId::ServerOutputBuffer as i32 {
        Some(SettingId::ServerOutputBuffer)
    } else if value == ReldexSettingId::HistoryMaxEntriesPerProfile as i32 {
        Some(SettingId::HistoryMaxEntriesPerProfile)
    } else {
        None
    }
}

/// The setting a caller's number names, where it names one.
pub fn named_setting(value: i32) -> (id: Option<SettingId>)
    ensures
        id == setting_of(value),
{
    match ReldexSettingId::from_i32(value) {
        Some(id) => id.to_setting_id(),
        None => None,
    }
}

/// A setting's number names that setting again.
pub proof fn setting_number_round_trip(id: SettingId)
    requires
        id != SettingId::Unrecognized,
    ensures
        setting_of(ReldexSettingId::of(id) as i32) == Some(id),
{
}

/// Where a setting's value comes from, as the store says it.
#[derive(Debug, Clone, Copy, PartialEq, Eq, Structural)]
pub enum Level {
    BuiltIn,
    Application,
    Profile,
    Worksheet,
    /// A level this library predates.
    Unrecognized,
}

/// A level a setting resolves at or is set at.
///
/// `0` is reserved for a level the caller's header predates. The built-in
/// default is a source, never a place to set or clear a value.
#[derive(Debug, Clone, Copy, PartialEq, Eq, Structural)]
pub enum ReldexSettingLevel {
    /// A level this header does not know.
    Unknown,
    /// The built-in default.
    BuiltIn,
    /// The application-wide default.
    Application,
    /// One connection profile's override.
    Profile,
    /// One worksheet's override.
    Worksheet,
}

impl ReldexSettingLevel {
    /// The stable level of a reported one.
    pub open spec fn of(level: Level) -> Self {
        match level {
            Level::BuiltIn => ReldexSettingLevel::BuiltIn,
            Level::Application => ReldexSettingLevel::Application,
            Level::Profile => ReldexSettingLevel::Profile,
            Level::Worksheet => ReldexSettingLevel::Worksheet,
            Level::Unrecognized => ReldexSettingLevel::Unknown,
        }
    }

    /// The stable level of a reported one.
    pub fn from_level(level: Level) -> (stable: Self)
        ensures
            stable == Self::of(level),
    {
        match level {
            Level::BuiltIn => ReldexSettingLevel::BuiltIn,
            Level::Application => ReldexSettingLevel::Application,
            Level::Profile => ReldexSettingLevel::Profile,
            Level::Worksheet => ReldexSettingLevel::Worksheet,
            Level::Unrecognized => ReldexSettingLevel::Unknown,
        }
    }
}

/// A place a value can be set at. The ids are those of a profile and of a
/// worksheet.
#[derive(Debug, Clone, Copy)]
pub enum Scope {
    Application,
    Profile([u8; 16]),
    Worksheet([u8; 16]),
}

/// The scope a caller names, or what is wrong with it. `profile` and
/// `worksheet` are the caller's id as an id of either kind, or how the store
/// words that it is none.
pub open spec fn scope_of(
    level: i32,
    profile: Result<[u8; 16], String>,
    worksheet: Result<[u8; 16], String>,
) -> Result<Scope, Seq<char>> {
    if level == ReldexSettingLevel::Application as i32 {
        Ok(Scope::Application)
    } else if level == ReldexSettingLevel::Profile as i32 {
        match profile {
            Ok(id) => Ok(Scope::Profile(id)),
            Err(why) => Err("scope profile id: "@ + why@),
        }
    } else if level == ReldexSettingLevel::Worksheet as i32 {
        match worksheet {
            Ok(id) => Ok(Scope::Worksheet(id)),
            Err(why) => Err("scope worksheet id: "@ + why@),
        }
    } else {
        Err("the setting level must be Application, Profile or Worksheet"@)
    }
}

/// Reads a scope. Neither the built-in default nor an unknown level is one.
pub fn parse_scope(
    level: i32,
    profile: &Result<[u8; 16], String>,
    worksheet: &Result<[u8; 16], String>,
) -> (scope: Result<Scope, DbError>)
    ensures
        match scope {
            Ok(scope) => scope_of(level, *profile, *worksheet) == Ok::<Scope, Seq<char>>(scope),
            Err(error) => {
                &&& scope_of(level, *profile, *worksheet) is Err
                &&& error@ == ErrorModel::plain(
                    ReldexErrorKind::Configuration,
                    scope_of(level, *profile, *worksheet)->Err_0,
                )
            },
        },
{
    if level == ReldexSettingLevel::Application as i32 {
        Ok(Scope::Application)
    } else if level == ReldexSettingLevel::Profile as i32 {
        match profile {
            Ok(id) => Ok(Scope::Profile(*id)),
            Err(why) => Err(worded("scope profile id: ", why)),
        }
    } else if level == ReldexSettingLevel::Worksheet as i32 {
        match worksheet {
            Ok(id) => Ok(Scope::Worksheet(*id)),
            Err(why) => Err(worded("scope worksheet id: ", why)),
        }
    } else {
        Err(
            DbError::new(
                ErrorKind::Configuration,
                "the setting level must be Application, Profile or Worksheet".to_owned(),
            ),
        )
    }
}

/// Refused input, worded as the store does behind `prefix`.
pub(crate) fn worded(prefix: &str, why: &String) -> (error: DbError)
    ensures
        error@ == ErrorModel::plain(ReldexErrorKind::Configuration, prefix@ + why@),
{
    let mut text = String::from_str(prefix);
    text.append(why.as_str());
    DbError::new(ErrorKind::Configuration, text)
}

/// A setting's value. The numbers of the three limits are above zero.
#[derive(Debug, Clone, Copy, PartialEq, Eq, Structural)]
pub enum SettingValue {
    Bool(bool),
    Count(u32),
    /// Seconds, or no limit.
    TimeLimit(Option<u32>),
    /// Bytes, or no limit.
    ByteLimit(Option<u32>),
    /// Entries, or no limit.
    EntryLimit(Option<u32>),
    /// A kind of value this library predates.
    Unrecognized,
}

impl SettingValue {
    /// Whether a limit's number, where it has one, is above zero.
    pub open spec fn wf(self) -> bool {
        match self {
            SettingValue::TimeLimit(Some(number)) => number > 0,
            SettingValue::ByteLimit(Some(number)) => number > 0,
            SettingValue::EntryLimit(Some(number)) => number > 0,
            _ => true,
        }
    }
}

/// Which of a value's fields is meaningful.
///
/// `0` is reserved for a kind the caller's header predates.
#[derive(Debug, Clone, Copy, PartialEq, Eq, Structural)]
pub enum ReldexValueKind {
    /// A kind this header does not know.
    Unknown,
    Bool,
    TimeLimit,
    Count,
    ByteLimit,
    EntryLimit,
}

impl ReldexValueKind {
    /// The kind with the number `value`.
    pub fn from_i32_checked(value: i32) -> (kind: Option<Self>)
        ensures
            match kind {
                Some(kind) => kind as i32 == value && kind != ReldexValueKind::Unknown,
                None => !(1 <= value <= 5),
            },
    {
        if value == ReldexValueKind::Bool as i32 {
            Some(ReldexValueKind::Bool)
        } else if value == ReldexValueKind::TimeLimit as i32 {
            Some(ReldexValueKind::TimeLimit)
        } else if value == ReldexValueKind::Count as i32 {
            Some(ReldexValueKind::Count)
        } else if value == ReldexValueKind::ByteLimit as i32 {
            Some(ReldexValueKind::ByteLimit)
        } else if value == ReldexValueKind::EntryLimit as i32 {
            Some(ReldexValueKind::EntryLimit)
        } else {
            None
        }
    }
}

/// A setting's value, flattened to one shape. Only the fields that belong to
/// `kind` are meaningful; the others are zero.
#[derive(Debug, Clone, Copy, PartialEq, Eq, Structural)]
pub struct ReldexSettingValue {
    /// A [`ReldexValueKind`].
    pub kind: i32,
    pub bool_value: bool,
    pub count_value: u32,
    /// For the three limits: there is none.
    pub no_limit: bool,
    /// Seconds, bytes or entries, for the three limits, where there is one.
    pub number_value: u32,
}

/// The limit that flattened fields mean; nothing where they mean none, as a
/// number of zero does.
pub open spec fn limit_of(no_limit: bool, number: u32) -> Option<Option<u32>> {
    if no_limit {
        Some(None)
    } else if number > 0 {
        Some(Some(number))
    } else {
        None
    }
}

impl ReldexSettingValue {
    /// No value at all.
    pub open spec fn nothing() -> Self {
        ReldexSettingValue {
            kind: ReldexValueKind::Unknown as i32,
            bool_value: false,
            count_value: 0,
            no_limit: false,
            number_value: 0,
        }
    }

    /// A limit of the kind `kind`.
    pub open spec fn limit(kind: ReldexValueKind, limit: Option<u32>) -> Self {
        ReldexSettingValue {
            kind: kind as i32,
            no_limit: limit is None,
            number_value: match limit {
                Some(number) => number,
                None => 0,
            },
            ..Self::nothing()
        }
    }

    /// A value, flattened.
    pub open spec fn of(value: SettingValue) -> Self {
        match value {
            SettingValue::Bool(value) => ReldexSettingValue {
                kind: ReldexValueKind::Bool as i32,
                bool_value: value,
                ..Self::nothing()
            },
            SettingValue::Count(value) => ReldexSettingValue {
                kind: ReldexValueKind::Count as i32,
                count_value: value,
                ..Self::nothing()
            },
            SettingValue::TimeLimit(limit) => Self::limit(ReldexValueKind::TimeLimit, limit),
            SettingValue::ByteLimit(limit) => Self::limit(ReldexValueKind::ByteLimit, limit),
            SettingValue::EntryLimit(limit) => Self::limit(ReldexValueKind::EntryLimit, limit),
            SettingValue::Unrecognized => Self::nothing(),
        }
    }

    /// The value that these fields mean, where they mean one.
    pub open spec fn meant(self) -> Option<SettingValue> {
        if self.kind == ReldexValueKind::Bool as i32 {
            Some(SettingValue::Bool(self.bool_value))
        } else if self.kind == ReldexValueKind::Count as i32 {
            Some(SettingValue::Count(self.count_value))
        } else if self.kind == ReldexValueKind::TimeLimit as i32 {
            match limit_of(self.no_limit, self.number_value) {
                Some(limit) => Some(SettingValue::TimeLimit(limit)),
                None => None,
            }
        } else if self.kind == ReldexValueKind::ByteLimit as i32 {
            match limit_of(self.no_limit, self.number_value) {
                Some(limit) => Some(SettingValue::ByteLimit(limit)),
                None => None,
            }
        } else if self.kind == ReldexValueKind::EntryLimit as i32 {
            match limit_of(self.no_limit, self.number_value) {
                Some(limit) => Some(SettingValue::EntryLimit(limit)),
                None => None,
            }
        } else {
            None
        }
    }

    /// A limit of the kind `kind`.
    fn from_limit(kind: ReldexValueKind, limit: Option<u32>) -> (flat: Self)
        ensures
            flat == Self::limit(kind, limit),
    {
        let mut flat = ReldexSettingValue::default();
        flat.kind = kind as i32;
        match limit {
            None => {
                flat.no_limit = true;
            },
            Some(number) => {
                flat.number_value = number;
            },
        }
        flat
    }

    /// A value, flattened.
    pub fn from_value(value: SettingValue) -> (flat: Self)
        ensures
            flat == Self::of(value),
    {
        let mut flat = ReldexSettingValue::default();
        match value {
            SettingValue::Bool(value) => {
                flat.kind = ReldexValueKind::Bool as i32;
                flat.bool_value = value;
            },
            SettingValue::Count(value) => {
                flat.kind = ReldexValueKind::Count as i32;
                flat.count_value = value;
            },
            SettingValue::TimeLimit(limit) => {
                flat = Self::from_limit(ReldexValueKind::TimeLimit, limit);
            },
            SettingValue::ByteLimit(limit) => {
                flat = Self::from_limit(ReldexValueKind::ByteLimit, limit);
            },
            SettingValue::EntryLimit(limit) => {
                flat = Self::from_limit(ReldexValueKind::EntryLimit, limit);
            },
            SettingValue::Unrecognized => {},
        }
        flat
    }

    /// The limit that the flattened fields mean.
    fn to_limit(self) -> (limit: Option<Option<u32>>)
        ensures
            limit == limit_of(self.no_limit, self.number_value),
    {
        if self.no_limit {
            Some(None)
        } else if self.number_value > 0 {
            Some(Some(self.number_value))
        } else {
            None
        }
    }

    /// The value that these fields mean, where they mean one.
    pub fn to_value(self) -> (value: Option<SettingValue>)
        ensures
            value == self.meant(),
    {
        match ReldexValueKind::from_i32_checked(self.kind) {
            None => None,
            Some(ReldexValueKind::Unknown) => None,
            Some(ReldexValueKind::Bool) => Some(SettingValue::Bool(self.bool_value)),
            Some(ReldexValueKind::Count) => Some(SettingValue::Count(self.count_value)),
            Some(ReldexValueKind::TimeLimit) => match self.to_limit() {
                Some(limit) => Some(SettingValue::TimeLimit(limit)),
                None => None,
            },
            Some(ReldexValueKind::ByteLimit) => match self.to_limit() {
                Some(limit) => Some(SettingValue::ByteLimit(limit)),
                None => None,
            },
            Some(ReldexValueKind::EntryLimit) => match self.to_limit() {
                Some(limit) => Some(SettingValue::EntryLimit(limit)),
                None => None,
            },
        }
    }
}

impl Default for ReldexSettingValue {
    fn default() -> (value: Self)
        ensures
            value == Self::nothing(),
    {
        ReldexSettingValue {
            kind: ReldexValueKind::Unknown as i32,
            bool_value: false,
            count_value: 0,
            no_limit: false,
            number_value: 0,
        }
    }
}

/// A value that is flattened and read back is the same value.
pub proof fn setting_value_round_trip(value: SettingValue)
    requires
        value.wf(),
        value != SettingValue::Unrecognized,
    ensures
        ReldexSettingValue::of(value).meant() == Some(value),
{
}

/// A value that is read is well formed: no limit of zero gets in.
pub proof fn values_read_are_well_formed(flat: ReldexSettingValue)
    ensures
        flat.meant() matches Some(value) ==> value.wf() && value != SettingValue::Unrecognized,
{
}

/// A scope is the level its caller named, with the caller's own id of that kind:
/// the number of the application names the application and nothing else does,
/// that of a profile names that profile, and that of a worksheet that worksheet.
/// An id that is none, and every other number, is refused.
pub proof fn a_scope_is_the_level_its_caller_named(
    level: i32,
    profile: &Result<[u8; 16], String>,
    worksheet: &Result<[u8; 16], String>,
    scope: Result<Scope, DbError>,
)
    requires
        call_ensures(parse_scope, (level, profile, worksheet), scope),
    ensures
        scope matches Ok(Scope::Application) <==> level == 2,
        level == 3 ==> match *profile {
            Ok(id) => scope matches Ok(Scope::Profile(named)) && named == id,
            Err(why) => scope matches Err(error) && error@.message == "scope profile id: "@ + why@,
        },
        level == 4 ==> match *worksheet {
            Ok(id) => scope matches Ok(Scope::Worksheet(named)) && named == id,
            Err(why) => scope matches Err(error) && error@.message == "scope worksheet id: "@
                + why@,
        },
        scope matches Ok(Scope::Profile(id)) ==> level == 3 && *profile == Ok::<_, String>(id),
        scope matches Ok(Scope::Worksheet(id)) ==> level == 4 && *worksheet == Ok::<_, String>(id),
        !(2 <= level <= 4) ==> scope is Err,
        scope matches Err(error) ==> error@.kind == ReldexErrorKind::Configuration,
{
}

/// A setting is the one its number stands for, in both directions, and no other
/// number names one.
pub proof fn a_setting_is_known_by_its_number(
    number: i32,
    named: Option<SettingId>,
    id: SettingId,
    stable: ReldexSettingId,
)
    requires
        call_ensures(named_setting, (number,), named),
        call_ensures(ReldexSettingId::from_setting_id, (id,), stable),
    ensures
        named is Some <==> 1 <= number <= 8,
        named == Some(SettingId::ConnectTimeout) <==> number == 1,
        named == Some(SettingId::RewriteTriggerDdl) <==> number == 2,
        named == Some(SettingId::StatementTimeLimit) <==> number == 3,
        named == Some(SettingId::FetchRows) <==> number == 4,
        named == Some(SettingId::FetchesInFlight) <==> number == 5,
        named == Some(SettingId::ServerOutputEnabled) <==> number == 6,
        named == Some(SettingId::ServerOutputBuffer) <==> number == 7,
        named == Some(SettingId::HistoryMaxEntriesPerProfile) <==> number == 8,
        named == Some(id) <==> stable as i32 == number && id !is Unrecognized,
        stable as i32 == 0 <==> id is Unrecognized,
{
}

/// The level a value came from is told by its own number.
pub proof fn a_level_is_told_by_its_number(level: Level, stable: ReldexSettingLevel)
    requires
        call_ensures(ReldexSettingLevel::from_level, (level,), stable),
    ensures
        stable as i32 == 1 <==> level is BuiltIn,
        stable as i32 == 2 <==> level is Application,
        stable as i32 == 3 <==> level is Profile,
        stable as i32 == 4 <==> level is Worksheet,
        stable as i32 == 0 <==> level is Unrecognized,
{
}

/// A value that a caller passes is read by its kind alone: the flag of a flag, the
/// count of a count, and the number of a limit, or no limit where it says so. A
/// limit of zero, and a kind that is none, is no value.
pub proof fn a_value_is_read_by_its_kind(flat: ReldexSettingValue, value: Option<SettingValue>)
    requires
        call_ensures(ReldexSettingValue::to_value, (flat,), value),
    ensures
        flat.kind == 1 <==> (value matches Some(SettingValue::Bool(set))),
        value matches Some(SettingValue::Bool(set)) ==> set == flat.bool_value,
        flat.kind == 3 <==> (value matches Some(SettingValue::Count(count))),
        value matches Some(SettingValue::Count(count)) ==> count == flat.count_value,
        value matches Some(SettingValue::TimeLimit(limit)) ==> flat.kind == 2 && (limit is None
            <==> flat.no_limit) && (limit matches Some(number) ==> number == flat.number_value),
        value matches Some(SettingValue::ByteLimit(limit)) ==> flat.kind == 4 && (limit is None
            <==> flat.no_limit) && (limit matches Some(number) ==> number == flat.number_value),
        value matches Some(SettingValue::EntryLimit(limit)) ==> flat.kind == 5 && (limit is None
            <==> flat.no_limit) && (limit matches Some(number) ==> number == flat.number_value),
        (flat.kind == 2 || flat.kind == 4 || flat.kind == 5) ==> (value is None <==> !flat.no_limit
            && flat.number_value == 0),
        !(1 <= flat.kind <= 5) ==> value is None,
        value != Some(SettingValue::Unrecognized),
{
}

/// A value is shown by its kind, its own field carrying it and every other field
/// empty.
pub proof fn a_value_is_shown_by_its_kind(value: SettingValue, flat: ReldexSettingValue)
    requires
        call_ensures(ReldexSettingValue::from_value, (value,), flat),
    ensures
        flat.kind == 1 <==> value is Bool,
        flat.kind == 2 <==> value is TimeLimit,
        flat.kind == 3 <==> value is Count,
        flat.kind == 4 <==> value is ByteLimit,
        flat.kind == 5 <==> value is EntryLimit,
        flat.kind == 0 <==> value is Unrecognized,
        value matches SettingValue::Bool(set) ==> flat.bool_value == set,
        value !is Bool ==> !flat.bool_value,
        value matches SettingValue::Count(count) ==> flat.count_value == count,
        value !is Count ==> flat.count_value == 0,
        value matches SettingValue::TimeLimit(limit) ==> (flat.no_limit <==> limit is None) && (
        limit matches Some(number) ==> flat.number_value == number),
        value matches SettingValue::ByteLimit(limit) ==> (flat.no_limit <==> limit is None) && (
        limit matches Some(number) ==> flat.number_value == number),
        value matches SettingValue::EntryLimit(limit) ==> (flat.no_limit <==> limit is None) && (
        limit matches Some(number) ==> flat.number_value == number),
{
}

} // verus!
