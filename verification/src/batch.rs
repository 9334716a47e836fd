//! Fetched batches: columns in memory, their description, and the fixed-width
//! copies a caller reads numbers and timestamps from.

use std::sync::Arc;

use vstd::prelude::*;

use crate::counters::{next_count, Kind, LiveCounters};
use crate::error::{DbError, ErrorModel};
use crate::slots::{
    delimits, encoded, end_to_end, slot_between_offsets, ByteSlots, TextSlots,
};
use crate::status::{Boundary, ReldexStatus};
use crate::strings::{OwnedStr, ReldexStr};
use crate::text::{decimal, push_decimal};

verus! {

/// The storage family of a column, as the driver reports it.
#[derive(Debug, Clone, Copy, PartialEq, Eq, Structural)]
pub enum ColumnKind {
    Boolean,
    Number,
    Float,
    Double,
    Text,
    Bytes,
    Timestamp,
    Json,
    Lob,
    Unsupported,
    /// A family this library predates.
    Unrecognized,
}

/// The storage family of a column, which decides which fields of
/// [`ReldexColumnView`] are set.
///
/// `0` is reserved for a kind the caller's header predates.
#[derive(Debug, Clone, Copy, PartialEq, Eq, Structural)]
pub enum ReldexColumnKind {
    /// A kind this header does not know.
    Unknown,
    /// `fixed` holds booleans.
    Boolean,
    /// Exact decimals: `fixed` holds [`ReldexNumber`]s.
    Number,
    /// `fixed` holds the bits of single-precision numbers.
    Float,
    /// `fixed` holds the bits of double-precision numbers.
    Double,
    /// UTF-8 text: `data` and `offsets`, borrowed.
    Text,
    /// Raw bytes: `data` and `offsets`, borrowed.
    Bytes,
    /// Dates and timestamps: `fixed` holds [`ReldexTimestamp`]s.
    Timestamp,
    /// JSON text: `data` and `offsets`, borrowed.
    Json,
    /// An unread large object. No data crosses: a row that is not NULL reads as
    /// taken, which is not NULL and must not be shown as one.
    Lob,
    /// A type that cannot be represented, rendered by the driver as best-effort
    /// text: `data` and `offsets`, borrowed.
    Unsupported,
}

impl ReldexColumnKind {
    /// The stable family of a reported one.
    pub open spec fn of(kind: ColumnKind) -> Self {
        match kind {
            ColumnKind::Boolean => ReldexColumnKind::Boolean,
            ColumnKind::Number => ReldexColumnKind::Number,
            ColumnKind::Float => ReldexColumnKind::Float,
            ColumnKind::Double => ReldexColumnKind::Double,
            ColumnKind::Text => ReldexColumnKind::Text,
            ColumnKind::Bytes => ReldexColumnKind::Bytes,
            ColumnKind::Timestamp => ReldexColumnKind::Timestamp,
            ColumnKind::Json => ReldexColumnKind::Json,
            ColumnKind::Lob => ReldexColumnKind::Lob,
            ColumnKind::Unsupported => ReldexColumnKind::Unsupported,
            ColumnKind::Unrecognized => ReldexColumnKind::Unknown,
        }
    }

    /// The stable family of a reported one.
    pub fn from_column_kind(kind: ColumnKind) -> (stable: Self)
        ensures
            stable == Self::of(kind),
    {
        match kind {
            ColumnKind::Boolean => ReldexColumnKind::Boolean,
            ColumnKind::Number => ReldexColumnKind::Number,
            ColumnKind::Float => ReldexColumnKind::Float,
            ColumnKind::Double => ReldexColumnKind::Double,
            ColumnKind::Text => ReldexColumnKind::Text,
            ColumnKind::Bytes => ReldexColumnKind::Bytes,
            ColumnKind::Timestamp => ReldexColumnKind::Timestamp,
            ColumnKind::Json => ReldexColumnKind::Json,
            ColumnKind::Lob => ReldexColumnKind::Lob,
            ColumnKind::Unsupported => ReldexColumnKind::Unsupported,
            ColumnKind::Unrecognized => ReldexColumnKind::Unknown,
        }
    }
}

/// Whether a column accepts NULLs, when the server said.
#[derive(Debug, Clone, Copy, PartialEq, Eq, Structural)]
pub enum ReldexNullable {
    /// The driver did not report it. Not the same as "NOT NULL".
    Unknown,
    /// The column accepts NULLs.
    Yes,
    /// The column does not.
    No,
}

impl ReldexNullable {
    /// What a driver's report means.
    pub open spec fn of(nullable: Option<bool>) -> Self {
        match nullable {
            Some(true) => ReldexNullable::Yes,
            Some(false) => ReldexNullable::No,
            None => ReldexNullable::Unknown,
        }
    }
}

/// How many significant digits a [`ReldexNumber`] carries.
pub const RELDEX_NUMBER_MAX_DIGITS: usize = 40;

/// How many bytes one [`ReldexNumber`] takes in a caller's array.
pub const NUMBER_STRIDE: usize = 46;

/// How many bytes one [`ReldexTimestamp`] takes in a caller's array.
pub const TIMESTAMP_STRIDE: usize = 16;

/// An exact decimal, as the driver reports it: digit values, most significant
/// first.
#[derive(Debug)]
pub struct Number {
    pub digits: Vec<u8>,
    pub exponent: i16,
    pub negative: bool,
}

/// An exact decimal with room for a fixed number of digits.
///
/// The value is `±0.d₁…dₙ × 10^exponent`.
#[derive(Debug, Clone, Copy)]
pub struct ReldexNumber {
    /// Significant digit values, most significant first. Positions at or past
    /// `digit_count` are zero.
    pub digits: [u8; RELDEX_NUMBER_MAX_DIGITS],
    /// How many of `digits` are significant. Zero means the value is zero.
    pub digit_count: u8,
    /// The decimal exponent.
    pub exponent: i16,
    /// Whether the value is negative.
    pub negative: bool,
}

/// How many digits of `count` a [`ReldexNumber`] has room for.
pub open spec fn kept_digits(count: nat) -> nat {
    if count < RELDEX_NUMBER_MAX_DIGITS {
        count
    } else {
        RELDEX_NUMBER_MAX_DIGITS as nat
    }
}

impl ReldexNumber {
    /// Whether this is the fixed-width copy of `value`.
    pub open spec fn mirrors(self, value: Number) -> bool {
        &&& self.digit_count == kept_digits(value.digits@.len())
        &&& self.digits@ == Seq::new(
            RELDEX_NUMBER_MAX_DIGITS as nat,
            |i: int|
                if i < value.digits@.len() {
                    value.digits@[i]
                } else {
                    0
                },
        )
        &&& self.exponent == value.exponent
        &&& self.negative == value.negative
    }

    /// The fixed-width copy of `value`.
    pub fn from_number(value: &Number) -> (copy: Self)
        ensures
            copy.mirrors(*value),
    {
        let mut digits: [u8; RELDEX_NUMBER_MAX_DIGITS] = [0u8; RELDEX_NUMBER_MAX_DIGITS];
        let count: usize = if value.digits.len() < RELDEX_NUMBER_MAX_DIGITS {
            value.digits.len()
        } else {
            RELDEX_NUMBER_MAX_DIGITS
        };
        let mut index: usize = 0;
        while index < count
            invariant
                index <= count,
                count == kept_digits(value.digits@.len()),
                forall|i: int|
                    0 <= i < RELDEX_NUMBER_MAX_DIGITS ==> #[trigger] digits@[i] == (if i < index {
                        value.digits@[i]
                    } else {
                        0
                    }),
            decreases count - index,
        {
            digits[index] = value.digits[index];
            index += 1;
        }
        assert(digits@ =~= Seq::new(
            RELDEX_NUMBER_MAX_DIGITS as nat,
            |i: int|
                if i < value.digits@.len() {
                    value.digits@[i]
                } else {
                    0
                },
        ));
        ReldexNumber {
            digits,
            digit_count: count as u8,
            exponent: value.exponent,
            negative: value.negative,
        }
    }
}

/// A date or timestamp, as the driver reports it.
#[derive(Debug, Clone, Copy)]
pub struct Timestamp {
    pub nanosecond: u32,
    pub year: i16,
    /// Minutes east of UTC, when the value has a zone.
    pub zone_offset_minutes: Option<i16>,
    pub month: u8,
    pub day: u8,
    pub hour: u8,
    pub minute: u8,
    pub second: u8,
}

/// A date or timestamp of fixed width.
#[derive(Debug, Clone, Copy)]
pub struct ReldexTimestamp {
    /// Nanoseconds within the second.
    pub nanosecond: u32,
    /// Proleptic year; negative years are BC in astronomical numbering.
    pub year: i16,
    /// Minutes east of UTC, when `has_zone`.
    pub zone_offset_minutes: i16,
    /// 1-12.
    pub month: u8,
    /// 1-31.
    pub day: u8,
    /// 0-23.
    pub hour: u8,
    /// 0-59.
    pub minute: u8,
    /// 0-59.
    pub second: u8,
    /// Whether `zone_offset_minutes` is meaningful. A date has no zone.
    pub has_zone: bool,
}

impl ReldexTimestamp {
    /// The fixed-width copy of `value`.
    pub open spec fn of(value: Timestamp) -> Self {
        ReldexTimestamp {
            nanosecond: value.nanosecond,
            year: value.year,
            zone_offset_minutes: match value.zone_offset_minutes {
                Some(minutes) => minutes,
                None => 0,
            },
            month: value.month,
            day: value.day,
            hour: value.hour,
            minute: value.minute,
            second: value.second,
            has_zone: value.zone_offset_minutes is Some,
        }
    }

    /// The fixed-width copy of `value`.
    pub fn from_timestamp(value: &Timestamp) -> (copy: Self)
        ensures
            copy == Self::of(*value),
    {
        ReldexTimestamp {
            nanosecond: value.nanosecond,
            year: value.year,
            zone_offset_minutes: match value.zone_offset_minutes {
                Some(minutes) => minutes,
                None => 0,
            },
            month: value.month,
            day: value.day,
            hour: value.hour,
            minute: value.minute,
            second: value.second,
            has_zone: value.zone_offset_minutes.is_some(),
        }
    }
}

/// The values of one column. Numbers and timestamps come with their canonical
/// rendering, one text for each row.
#[allow(inconsistent_fields)]
pub enum ColumnData {
    Boolean(Vec<bool>),
    Number { values: Vec<Number>, canonical: TextSlots },
    Float { bits: Vec<u32>, canonical: TextSlots },
    Double { bits: Vec<u64>, canonical: TextSlots },
    Text(TextSlots),
    Bytes(ByteSlots),
    Timestamp { values: Vec<Timestamp>, canonical: TextSlots },
    Json(TextSlots),
    /// Unread large objects, this many.
    Lob(usize),
    Unsupported(TextSlots),
    /// Values of a family this library predates, this many.
    Unrecognized(usize),
}

impl ColumnData {
    /// How many rows there are.
    pub open spec fn rows(self) -> nat {
        match self {
            ColumnData::Boolean(values) => values@.len(),
            ColumnData::Number { values, .. } => values@.len(),
            ColumnData::Float { bits, .. } => bits@.len(),
            ColumnData::Double { bits, .. } => bits@.len(),
            ColumnData::Text(texts) => texts@.len(),
            ColumnData::Bytes(values) => values@.len(),
            ColumnData::Timestamp { values, .. } => values@.len(),
            ColumnData::Json(texts) => texts@.len(),
            ColumnData::Lob(count) => count as nat,
            ColumnData::Unsupported(texts) => texts@.len(),
            ColumnData::Unrecognized(count) => count as nat,
        }
    }

    /// Whether every rendered value has its rendering.
    pub open spec fn wf(self) -> bool {
        match self {
            ColumnData::Number { values, canonical } => canonical@.len() == values@.len(),
            ColumnData::Float { bits, canonical } => canonical@.len() == bits@.len(),
            ColumnData::Double { bits, canonical } => canonical@.len() == bits@.len(),
            ColumnData::Timestamp { values, canonical } => canonical@.len() == values@.len(),
            _ => true,
        }
    }

    /// The storage family.
    pub open spec fn family(self) -> ColumnKind {
        match self {
            ColumnData::Boolean(_) => ColumnKind::Boolean,
            ColumnData::Number { .. } => ColumnKind::Number,
            ColumnData::Float { .. } => ColumnKind::Float,
            ColumnData::Double { .. } => ColumnKind::Double,
            ColumnData::Text(_) => ColumnKind::Text,
            ColumnData::Bytes(_) => ColumnKind::Bytes,
            ColumnData::Timestamp { .. } => ColumnKind::Timestamp,
            ColumnData::Json(_) => ColumnKind::Json,
            ColumnData::Lob(_) => ColumnKind::Lob,
            ColumnData::Unsupported(_) => ColumnKind::Unsupported,
            ColumnData::Unrecognized(_) => ColumnKind::Unrecognized,
        }
    }
}

/// One column of a fetched batch.
pub struct Column {
    /// Row `i` is bit `i % 64` of word `i / 64`, set when the row is NULL. A
    /// row without a word is not NULL.
    pub nulls: Vec<u64>,
    pub data: ColumnData,
}

/// Whether row `row` is NULL.
pub open spec fn is_null(nulls: Seq<u64>, row: int) -> bool {
    row / 64 < nulls.len() && (nulls[row / 64] >> ((row % 64) as u64)) & 1 == 1
}

/// What one cell holds, by what it says.
pub enum ValueModel {
    Null,
    Taken,
    Boolean(bool),
    Number(Seq<char>),
    Float(Seq<char>),
    Double(Seq<char>),
    Text(Seq<char>),
    Json(Seq<char>),
    Unsupported(Seq<char>),
    Bytes(Seq<u8>),
    Timestamp(Seq<char>),
    Unrecognized,
}

/// What one cell holds. Numbers and timestamps are their canonical renderings.
#[derive(Debug, Clone, Copy)]
pub enum ValueRef<'a> {
    Null,
    Taken,
    Boolean(bool),
    Number(&'a str),
    Float(&'a str),
    Double(&'a str),
    Text(&'a str),
    Json(&'a str),
    Unsupported(&'a str),
    Bytes(&'a [u8]),
    Timestamp(&'a str),
    /// A value this library predates.
    Unrecognized,
}

impl View for ValueRef<'_> {
    type V = ValueModel;

    open spec fn view(&self) -> ValueModel {
        match *self {
            ValueRef::Null => ValueModel::Null,
            ValueRef::Taken => ValueModel::Taken,
            ValueRef::Boolean(value) => ValueModel::Boolean(value),
            ValueRef::Number(text) => ValueModel::Number(text@),
            ValueRef::Float(text) => ValueModel::Float(text@),
            ValueRef::Double(text) => ValueModel::Double(text@),
            ValueRef::Text(text) => ValueModel::Text(text@),
            ValueRef::Json(text) => ValueModel::Json(text@),
            ValueRef::Unsupported(text) => ValueModel::Unsupported(text@),
            ValueRef::Bytes(bytes) => ValueModel::Bytes(bytes@),
            ValueRef::Timestamp(text) => ValueModel::Timestamp(text@),
            ValueRef::Unrecognized => ValueModel::Unrecognized,
        }
    }
}

impl Column {
    /// What row `row` holds.
    pub open spec fn cell(self, row: int) -> ValueModel {
        if is_null(self.nulls@, row) {
            ValueModel::Null
        } else {
            match self.data {
                ColumnData::Boolean(values) => ValueModel::Boolean(values@[row]),
                ColumnData::Number { canonical, .. } => ValueModel::Number(canonical@[row]),
                ColumnData::Float { canonical, .. } => ValueModel::Float(canonical@[row]),
                ColumnData::Double { canonical, .. } => ValueModel::Double(canonical@[row]),
                ColumnData::Text(texts) => ValueModel::Text(texts@[row]),
                ColumnData::Bytes(values) => ValueModel::Bytes(values@[row]),
                ColumnData::Timestamp { canonical, .. } => ValueModel::Timestamp(canonical@[row]),
                ColumnData::Json(texts) => ValueModel::Json(texts@[row]),
                ColumnData::Lob(_) => ValueModel::Taken,
                ColumnData::Unsupported(texts) => ValueModel::Unsupported(texts@[row]),
                ColumnData::Unrecognized(_) => ValueModel::Unrecognized,
            }
        }
    }

    /// The storage family.
    pub fn kind(&self) -> (kind: ColumnKind)
        ensures
            kind == self.data.family(),
    {
        match &self.data {
            ColumnData::Boolean(_) => ColumnKind::Boolean,
            ColumnData::Number { .. } => ColumnKind::Number,
            ColumnData::Float { .. } => ColumnKind::Float,
            ColumnData::Double { .. } => ColumnKind::Double,
            ColumnData::Text(_) => ColumnKind::Text,
            ColumnData::Bytes(_) => ColumnKind::Bytes,
            ColumnData::Timestamp { .. } => ColumnKind::Timestamp,
            ColumnData::Json(_) => ColumnKind::Json,
            ColumnData::Lob(_) => ColumnKind::Lob,
            ColumnData::Unsupported(_) => ColumnKind::Unsupported,
            ColumnData::Unrecognized(_) => ColumnKind::Unrecognized,
        }
    }

    /// What row `row` holds.
    pub fn value(&self, row: usize) -> (value: ValueRef<'_>)
        requires
            self.data.wf(),
            row < self.data.rows(),
        ensures
            value@ == self.cell(row as int),
    {
        let word: usize = row / 64;
        if word < self.nulls.len() && (self.nulls[word] >> ((row % 64) as u64)) & 1 == 1 {
            return ValueRef::Null;
        }
        match &self.data {
            ColumnData::Boolean(values) => ValueRef::Boolean(values[row]),
            ColumnData::Number { canonical, .. } => ValueRef::Number(canonical.get(row)),
            ColumnData::Float { canonical, .. } => ValueRef::Float(canonical.get(row)),
            ColumnData::Double { canonical, .. } => ValueRef::Double(canonical.get(row)),
            ColumnData::Text(texts) => ValueRef::Text(texts.get(row)),
            ColumnData::Bytes(values) => ValueRef::Bytes(values.get(row)),
            ColumnData::Timestamp { canonical, .. } => ValueRef::Timestamp(canonical.get(row)),
            ColumnData::Json(texts) => ValueRef::Json(texts.get(row)),
            ColumnData::Lob(_) => ValueRef::Taken,
            ColumnData::Unsupported(texts) => ValueRef::Unsupported(texts.get(row)),
            ColumnData::Unrecognized(_) => ValueRef::Unrecognized,
        }
    }
}

/// Rows of a result set, column by column.
pub struct FetchedBatch {
    pub row_count: usize,
    pub columns: Vec<Column>,
}

impl FetchedBatch {
    /// Whether every column has a value for every row.
    pub open spec fn wf(self) -> bool {
        forall|i: int|
            0 <= i < self.columns@.len() ==> {
                let column = #[trigger] self.columns@[i];
                column.data.wf() && column.data.rows() == self.row_count
            }
    }
}

/// What a result says about one of its columns.
#[derive(Debug)]
pub struct ColumnMetadata {
    pub name: String,
    /// The storage family of the declared type.
    pub declared: ColumnKind,
    pub nullable: Option<bool>,
    pub precision: Option<i32>,
    pub scale: Option<i32>,
    pub max_size_bytes: Option<u32>,
    /// The server's own type name, when the driver reported one.
    pub native_type_name: Option<String>,
}

/// What a column description says.
#[verifier::ext_equal]
pub struct ColumnModel {
    pub name: Seq<char>,
    pub declared: ColumnKind,
    pub nullable: Option<bool>,
    pub precision: Option<i32>,
    pub scale: Option<i32>,
    pub max_size_bytes: Option<u32>,
    pub native_type_name: Option<Seq<char>>,
}

impl View for ColumnMetadata {
    type V = ColumnModel;

    open spec fn view(&self) -> ColumnModel {
        ColumnModel {
            name: self.name@,
            declared: self.declared,
            nullable: self.nullable,
            precision: self.precision,
            scale: self.scale,
            max_size_bytes: self.max_size_bytes,
            native_type_name: match self.native_type_name {
                Some(name) => Some(name@),
                None => None,
            },
        }
    }
}

/// One column of a result, its names ready to be handed out.
#[derive(Debug)]
struct ResultColumn {
    name: OwnedStr,
    declared: ColumnKind,
    nullable: Option<bool>,
    precision: Option<i32>,
    scale: Option<i32>,
    max_size_bytes: Option<u32>,
    native_type_name: Option<OwnedStr>,
}

impl ResultColumn {
    spec fn model(self) -> ColumnModel {
        ColumnModel {
            name: self.name@,
            declared: self.declared,
            nullable: self.nullable,
            precision: self.precision,
            scale: self.scale,
            max_size_bytes: self.max_size_bytes,
            native_type_name: match self.native_type_name {
                Some(name) => Some(name@),
                None => None,
            },
        }
    }

    /// Describes the column as one that is stored as `kind`.
    fn describe(&self, kind: ColumnKind) -> (info: ReldexColumnInfo<'_>)
        ensures
            info.describes(kind, Some(self.model())),
    {
        ReldexColumnInfo {
            struct_size: 0,
            kind: ReldexColumnKind::from_column_kind(kind) as i32,
            nullable: match self.nullable {
                Some(true) => ReldexNullable::Yes as i32,
                Some(false) => ReldexNullable::No as i32,
                None => ReldexNullable::Unknown as i32,
            },
            precision: match self.precision {
                Some(precision) => precision,
                None => 0,
            },
            scale: match self.scale {
                Some(scale) => scale,
                None => 0,
            },
            max_size_bytes: match self.max_size_bytes {
                Some(size) => size,
                None => 0,
            },
            has_precision: self.precision.is_some(),
            has_scale: self.scale.is_some(),
            has_max_size_bytes: self.max_size_bytes.is_some(),
            name: self.name.as_reldex_str(),
            native_type_name: match &self.native_type_name {
                Some(name) => name.as_reldex_str(),
                None => ReldexStr::empty(),
            },
        }
    }
}

/// The columns of one result, shared by everything that describes it.
#[derive(Debug)]
pub struct ResultColumns {
    columns: Vec<ResultColumn>,
}

impl View for ResultColumns {
    type V = Seq<ColumnModel>;

    closed spec fn view(&self) -> Seq<ColumnModel> {
        self.columns@.map_values(|column: ResultColumn| column.model())
    }
}

/// What descriptions say.
pub open spec fn column_models(columns: Seq<ColumnMetadata>) -> Seq<ColumnModel> {
    columns.map_values(|column: ColumnMetadata| column@)
}

impl ResultColumns {
    /// Takes the description of a result in.
    pub fn new(columns: Vec<ColumnMetadata>) -> (shared: Arc<Self>)
        ensures
            shared@ == column_models(columns@),
    {
        let ghost all = columns@;
        let mut rest = columns;
        let mut kept: Vec<ResultColumn> = Vec::new();
        let mut reversed: Vec<ResultColumn> = Vec::new();
        assert(all.take(all.len() as int) =~= all);
        while rest.len() > 0
            invariant
                rest@ == all.take(rest@.len() as int),
                rest@.len() + reversed@.len() == all.len(),
                forall|i: int|
                    0 <= i < reversed@.len() ==> (#[trigger] reversed@[i]).model() == all[all.len()
                        - 1 - i]@,
            decreases rest@.len(),
        {
            if let Some(column) = rest.pop() {
                assert(rest@ =~= all.take(rest@.len() as int));
                let native_type_name = match column.native_type_name {
                    Some(name) => Some(OwnedStr::new(name)),
                    None => None,
                };
                reversed.push(
                    ResultColumn {
                        name: OwnedStr::new(column.name),
                        declared: column.declared,
                        nullable: column.nullable,
                        precision: column.precision,
                        scale: column.scale,
                        max_size_bytes: column.max_size_bytes,
                        native_type_name,
                    },
                );
            }
        }
        while reversed.len() > 0
            invariant
                kept@.len() + reversed@.len() == all.len(),
                forall|i: int|
                    0 <= i < reversed@.len() ==> (#[trigger] reversed@[i]).model() == all[all.len()
                        - 1 - i]@,
                forall|i: int|
                    0 <= i < kept@.len() ==> (#[trigger] kept@[i]).model() == all[i]@,
            decreases reversed@.len(),
        {
            let ghost before = reversed@;
            if let Some(column) = reversed.pop() {
                assert(before[before.len() - 1].model() == all[all.len() - before.len()]@);
                kept.push(column);
            }
        }
        let shared = ResultColumns { columns: kept };
        assert(shared@ =~= column_models(all));
        Arc::new(shared)
    }

    /// How many columns the result has.
    pub fn len(&self) -> (len: usize)
        ensures
            len == self@.len(),
    {
        self.columns.len()
    }

    /// Describes column `index` by its declared type.
    pub fn info(&self, index: usize) -> (info: Option<ReldexColumnInfo<'_>>)
        ensures
            info is Some <==> index < self@.len(),
            info matches Some(info) ==> info.describes(
                self@[index as int].declared,
                Some(self@[index as int]),
            ),
    {
        if index < self.columns.len() {
            Some(self.columns[index].describe(self.columns[index].declared))
        } else {
            None
        }
    }
}

/// What a column is, as opposed to how it is stored: the header a grid puts
/// above it.
#[derive(Debug, Clone, Copy)]
pub struct ReldexColumnInfo<'a> {
    /// How many bytes of the description are valid.
    pub struct_size: u32,
    /// A [`ReldexColumnKind`].
    pub kind: i32,
    /// A [`ReldexNullable`].
    pub nullable: i32,
    /// Declared precision, when `has_precision`.
    pub precision: i32,
    /// Declared scale, when `has_scale`. May be negative.
    pub scale: i32,
    /// Declared maximum size in bytes, when `has_max_size_bytes`.
    pub max_size_bytes: u32,
    /// Whether `precision` is set.
    pub has_precision: bool,
    /// Whether `scale` is set.
    pub has_scale: bool,
    /// Whether `max_size_bytes` is set.
    pub has_max_size_bytes: bool,
    /// The column's name, as the server gave it.
    pub name: ReldexStr<'a>,
    /// The server's own type name, or empty.
    pub native_type_name: ReldexStr<'a>,
}

/// The number behind an optional one, zero where there is none.
pub open spec fn signed_or_zero(value: Option<i32>) -> i32 {
    match value {
        Some(value) => value,
        None => 0,
    }
}

impl ReldexColumnInfo<'_> {
    /// Whether this describes a column of family `kind` of which the result
    /// says `column`, or nothing.
    pub open spec fn describes(self, kind: ColumnKind, column: Option<ColumnModel>) -> bool {
        let nothing = ColumnModel {
            name: Seq::empty(),
            declared: kind,
            nullable: None,
            precision: None,
            scale: None,
            max_size_bytes: None,
            native_type_name: None,
        };
        let column = match column {
            Some(column) => column,
            None => nothing,
        };
        &&& self.kind == ReldexColumnKind::of(kind) as i32
        &&& self.nullable == ReldexNullable::of(column.nullable) as i32
        &&& self.precision == signed_or_zero(column.precision)
        &&& self.has_precision == column.precision is Some
        &&& self.scale == signed_or_zero(column.scale)
        &&& self.has_scale == column.scale is Some
        &&& self.max_size_bytes == crate::error::or_zero(column.max_size_bytes)
        &&& self.has_max_size_bytes == column.max_size_bytes is Some
        &&& self.name.carries(column.name)
        &&& self.native_type_name.carries(crate::error::or_empty(column.native_type_name))
    }
}

/// The array a fixed-width column is read from.
#[derive(Debug, Clone, Copy)]
pub enum FixedColumn<'a> {
    Booleans(&'a [bool]),
    Floats(&'a [u32]),
    Doubles(&'a [u64]),
    Numbers(&'a [ReldexNumber]),
    Timestamps(&'a [ReldexTimestamp]),
}

/// What one column of a batch looks like in memory. Everything is borrowed from
/// the batch; which parts are set depends on `kind`.
#[derive(Debug, Clone, Copy)]
pub struct ReldexColumnView<'a> {
    /// How many bytes of the view are valid.
    pub struct_size: u32,
    /// A [`ReldexColumnKind`].
    pub kind: i32,
    /// How many rows the column holds. The same for every column of a batch.
    pub row_count: usize,
    /// The NULL bitmap: row `i` is bit `i % 64` of word `i / 64`, set when the
    /// row is NULL. Absent only when `null_word_count` is 0.
    pub null_bits: Option<&'a [u64]>,
    /// How many words `null_bits` covers.
    pub null_word_count: usize,
    /// The one contiguous value buffer of text, JSON, bytes and unsupported
    /// values.
    pub data: Option<&'a [u8]>,
    /// How many bytes `data` covers.
    pub data_len: usize,
    /// `row_count + 1` byte offsets into `data`.
    pub offsets: Option<&'a [usize]>,
    /// The array of a fixed-width column.
    pub fixed: Option<FixedColumn<'a>>,
    /// The size of one element of `fixed`.
    pub fixed_stride: usize,
    /// How many elements `fixed` covers; equals `row_count`.
    pub fixed_len: usize,
}

impl ReldexColumnView<'_> {
    /// Whether the view has neither a value buffer nor an array.
    pub open spec fn without_values(self) -> bool {
        self.data is None && self.data_len == 0 && self.offsets is None && self.without_array()
    }

    /// Whether the view has no array.
    pub open spec fn without_array(self) -> bool {
        self.fixed is None && self.fixed_stride == 0 && self.fixed_len == 0
    }

    /// Whether the value buffer holds `values` and nothing else is set.
    pub open spec fn buffers(self, values: Seq<Seq<u8>>) -> bool {
        &&& self.data matches Some(data) && data@ == end_to_end(values) && self.data_len
            == data@.len()
        &&& self.offsets matches Some(offsets) && delimits(offsets@, values)
        &&& self.without_array()
    }

    /// Whether only an array of `len` elements of `stride` bytes is set.
    pub open spec fn fixed_array(self, stride: usize, len: nat) -> bool {
        &&& self.data is None && self.data_len == 0 && self.offsets is None
        &&& self.fixed_stride == stride && self.fixed_len == len
    }

    /// Whether the view shows `column`.
    pub open spec fn shows(self, column: Column) -> bool {
        &&& self.kind == ReldexColumnKind::of(column.data.family()) as i32
        &&& self.row_count == column.data.rows()
        &&& self.null_word_count == column.nulls@.len()
        &&& match self.null_bits {
            None => column.nulls@.len() == 0,
            Some(words) => column.nulls@.len() > 0 && words@ == column.nulls@,
        }
        &&& match column.data {
            ColumnData::Text(texts) => self.buffers(encoded(texts@)),
            ColumnData::Json(texts) => self.buffers(encoded(texts@)),
            ColumnData::Unsupported(texts) => self.buffers(encoded(texts@)),
            ColumnData::Bytes(values) => self.buffers(values@),
            ColumnData::Boolean(values) => {
                &&& self.fixed_array(1, values@.len())
                &&& self.fixed matches Some(FixedColumn::Booleans(array)) && array@ == values@
            },
            ColumnData::Float { bits, .. } => {
                &&& self.fixed_array(4, bits@.len())
                &&& self.fixed matches Some(FixedColumn::Floats(array)) && array@ == bits@
            },
            ColumnData::Double { bits, .. } => {
                &&& self.fixed_array(8, bits@.len())
                &&& self.fixed matches Some(FixedColumn::Doubles(array)) && array@ == bits@
            },
            ColumnData::Number { values, .. } => {
                &&& self.fixed_array(NUMBER_STRIDE, values@.len())
                &&& self.fixed matches Some(FixedColumn::Numbers(array)) && number_copies(
                    array@,
                    values@,
                )
            },
            ColumnData::Timestamp { values, .. } => {
                &&& self.fixed_array(TIMESTAMP_STRIDE, values@.len())
                &&& self.fixed matches Some(FixedColumn::Timestamps(array)) && timestamp_copies(
                    array@,
                    values@,
                )
            },
            ColumnData::Lob(_) => self.without_values(),
            ColumnData::Unrecognized(_) => self.without_values(),
        }
    }
}

/// Whether `copies` are the fixed-width copies of `values`.
pub open spec fn number_copies(copies: Seq<ReldexNumber>, values: Seq<Number>) -> bool {
    &&& copies.len() == values.len()
    &&& forall|i: int| 0 <= i < copies.len() ==> (#[trigger] copies[i]).mirrors(values[i])
}

/// Whether `copies` are the fixed-width copies of `values`.
pub open spec fn timestamp_copies(copies: Seq<ReldexTimestamp>, values: Seq<Timestamp>) -> bool {
    copies == values.map_values(|value: Timestamp| ReldexTimestamp::of(value))
}

/// The fixed-width copy of a column, built once and kept with the batch.
enum Mirror {
    Numbers(Vec<ReldexNumber>),
    Timestamps(Vec<ReldexTimestamp>),
}

impl Mirror {
    /// Whether this is the copy of `data`.
    spec fn mirrors(self, data: ColumnData) -> bool {
        match (self, data) {
            (Mirror::Numbers(copies), ColumnData::Number { values, .. }) => number_copies(
                copies@,
                values@,
            ),
            (Mirror::Timestamps(copies), ColumnData::Timestamp { values, .. }) => timestamp_copies(
                copies@,
                values@,
            ),
            _ => false,
        }
    }

    /// The copy of a column that needs one.
    fn build(data: &ColumnData) -> (mirror: Option<Mirror>)
        ensures
            mirror is Some <==> data is Number || data is Timestamp,
            mirror matches Some(mirror) ==> mirror.mirrors(*data),
    {
        match data {
            ColumnData::Number { values, .. } => {
                let mut copies: Vec<ReldexNumber> = Vec::new();
                let mut index: usize = 0;
                while index < values.len()
                    invariant
                        index <= values@.len(),
                        number_copies(copies@, values@.take(index as int)),
                    decreases values@.len() - index,
                {
                    copies.push(ReldexNumber::from_number(&values[index]));
                    index += 1;
                }
                assert(values@.take(index as int) =~= values@);
                Some(Mirror::Numbers(copies))
            },
            ColumnData::Timestamp { values, .. } => {
                let mut copies: Vec<ReldexTimestamp> = Vec::new();
                let mut index: usize = 0;
                assert(copies@ =~= values@.take(0).map_values(
                    |value: Timestamp| ReldexTimestamp::of(value),
                ));
                while index < values.len()
                    invariant
                        index <= values@.len(),
                        timestamp_copies(copies@, values@.take(index as int)),
                    decreases values@.len() - index,
                {
                    copies.push(ReldexTimestamp::from_timestamp(&values[index]));
                    index += 1;
                    assert(copies@ =~= values@.take(index as int).map_values(
                        |value: Timestamp| ReldexTimestamp::of(value),
                    ));
                }
                assert(values@.take(index as int) =~= values@);
                Some(Mirror::Timestamps(copies))
            },
            _ => None,
        }
    }
}

/// One fetched batch, owned by the caller from the moment its event is handed
/// out until it is released.
pub struct ReldexBatch {
    batch: FetchedBatch,
    columns: Arc<ResultColumns>,
    mirrors: Vec<Option<Mirror>>,
}

impl ReldexBatch {
    /// The rows.
    pub closed spec fn table(&self) -> FetchedBatch {
        self.batch
    }

    /// What the result says about its columns.
    pub closed spec fn described(&self) -> Seq<ColumnModel> {
        self.columns@
    }

    /// Whether the rows are complete and every copy that was built is one.
    pub closed spec fn wf(&self) -> bool {
        &&& self.batch.wf()
        &&& self.mirrors@.len() == self.batch.columns@.len()
        &&& forall|i: int|
            0 <= i < self.mirrors@.len() ==> (#[trigger] self.mirrors@[i] matches Some(mirror)
                ==> mirror.mirrors(self.batch.columns@[i].data))
    }

    /// Takes fetched rows in, counting the object that holds them.
    pub fn new(live: &mut LiveCounters, batch: FetchedBatch, columns: Arc<ResultColumns>) -> (
        owned: Self)
        requires
            batch.wf(),
        ensures
            owned.wf(),
            owned.table() == batch,
            owned.described() == columns@,
            *final(live) == old(live).plus(Kind::Batch),
    {
        live.created(Kind::Batch);
        let mut mirrors: Vec<Option<Mirror>> = Vec::new();
        while mirrors.len() < batch.columns.len()
            invariant
                mirrors@.len() <= batch.columns@.len(),
                forall|i: int| 0 <= i < mirrors@.len() ==> #[trigger] mirrors@[i] is None,
            decreases batch.columns@.len() - mirrors@.len(),
        {
            mirrors.push(None);
        }
        ReldexBatch { batch, columns, mirrors }
    }

    /// The rows.
    pub fn rows(&self) -> (rows: &FetchedBatch)
        requires
            self.wf(),
        ensures
            *rows == self.table(),
            rows.wf(),
    {
        &self.batch
    }

    /// Builds the fixed-width copy of column `index`, once, where it needs one.
    fn mirror_of(&mut self, index: usize)
        requires
            old(self).wf(),
        ensures
            final(self).wf(),
            final(self).table() == old(self).table(),
            final(self).described() == old(self).described(),
            index < final(self).batch.columns@.len() && (
            final(self).batch.columns@[index as int].data is Number
                || final(self).batch.columns@[index as int].data is Timestamp)
                ==> final(self).mirrors@[index as int] is Some,
    {
        if index < self.mirrors.len() && self.mirrors[index].is_none() {
            let mirror = Mirror::build(&self.batch.columns[index].data);
            self.mirrors.set(index, mirror);
        }
    }

    /// Shows column `index`.
    fn view_of(&self, index: usize) -> (view: Option<ReldexColumnView<'_>>)
        requires
            self.wf(),
            index < self.batch.columns@.len() && (
            self.batch.columns@[index as int].data is Number
                || self.batch.columns@[index as int].data is Timestamp)
                ==> self.mirrors@[index as int] is Some,
        ensures
            view is Some <==> index < self.table().columns@.len(),
            view matches Some(view) ==> view.shows(self.table().columns@[index as int]),
    {
        if index >= self.batch.columns.len() {
            return None;
        }
        let column = &self.batch.columns[index];
        assert(column.data.rows() == self.batch.row_count);
        let mut view = ReldexColumnView {
            struct_size: 0,
            kind: ReldexColumnKind::from_column_kind(column.kind()) as i32,
            row_count: self.batch.row_count,
            null_bits: if column.nulls.len() == 0 {
                None
            } else {
                Some(column.nulls.as_slice())
            },
            null_word_count: column.nulls.len(),
            data: None,
            data_len: 0,
            offsets: None,
            fixed: None,
            fixed_stride: 0,
            fixed_len: 0,
        };
        match &column.data {
            ColumnData::Text(texts) | ColumnData::Json(texts) | ColumnData::Unsupported(texts) => {
                view.data = Some(texts.buffer());
                view.data_len = texts.buffer().len();
                view.offsets = Some(texts.offsets());
            },
            ColumnData::Bytes(values) => {
                view.data = Some(values.buffer());
                view.data_len = values.buffer().len();
                view.offsets = Some(values.offsets());
            },
            ColumnData::Boolean(values) => {
                view.fixed = Some(FixedColumn::Booleans(values.as_slice()));
                view.fixed_stride = 1;
                view.fixed_len = values.len();
            },
            ColumnData::Float { bits, .. } => {
                view.fixed = Some(FixedColumn::Floats(bits.as_slice()));
                view.fixed_stride = 4;
                view.fixed_len = bits.len();
            },
            ColumnData::Double { bits, .. } => {
                view.fixed = Some(FixedColumn::Doubles(bits.as_slice()));
                view.fixed_stride = 8;
                view.fixed_len = bits.len();
            },
            ColumnData::Number { .. } => {
                if let Some(Mirror::Numbers(copies)) = &self.mirrors[index] {
                    view.fixed = Some(FixedColumn::Numbers(copies.as_slice()));
                    view.fixed_stride = NUMBER_STRIDE;
                    view.fixed_len = copies.len();
                }
            },
            ColumnData::Timestamp { .. } => {
                if let Some(Mirror::Timestamps(copies)) = &self.mirrors[index] {
                    view.fixed = Some(FixedColumn::Timestamps(copies.as_slice()));
                    view.fixed_stride = TIMESTAMP_STRIDE;
                    view.fixed_len = copies.len();
                }
            },
            ColumnData::Lob(_) | ColumnData::Unrecognized(_) => {},
        }
        Some(view)
    }

    /// Describes column `index` by how it is stored.
    fn info_of(&self, index: usize) -> (info: Option<ReldexColumnInfo<'_>>)
        ensures
            info is Some <==> index < self.table().columns@.len(),
            info matches Some(info) ==> info.describes(
                self.table().columns@[index as int].data.family(),
                if index < self.described().len() {
                    Some(self.described()[index as int])
                } else {
                    None
                },
            ),
    {
        if index >= self.batch.columns.len() {
            return None;
        }
        let kind = self.batch.columns[index].kind();
        if index < self.columns.columns.len() {
            return Some(self.columns.columns[index].describe(kind));
        }
        Some(
            ReldexColumnInfo {
                struct_size: 0,
                kind: ReldexColumnKind::from_column_kind(kind) as i32,
                nullable: ReldexNullable::Unknown as i32,
                precision: 0,
                scale: 0,
                max_size_bytes: 0,
                has_precision: false,
                has_scale: false,
                has_max_size_bytes: false,
                name: ReldexStr::empty(),
                native_type_name: ReldexStr::empty(),
            },
        )
    }
}

/// How many rows the batch holds. Zero means the result is exhausted.
pub fn reldex_batch_row_count(boundary: &mut Boundary, batch: Option<&ReldexBatch>) -> (
    count: usize)
    requires
        batch matches Some(batch) ==> batch.wf(),
    ensures
        old(boundary)@.in_waker ==> count == 0 && final(boundary)@ == old(boundary)@.refused(),
        !old(boundary)@.in_waker ==> {
            &&& count == match batch {
                Some(batch) => batch.table().row_count,
                None => 0,
            }
            &&& final(boundary)@ == old(boundary)@
        },
{
    if boundary.refuse_reentrant() {
        return 0;
    }
    match batch {
        Some(batch) => batch.rows().row_count,
        None => 0,
    }
}

/// How many columns the batch holds.
pub fn reldex_batch_column_count(boundary: &mut Boundary, batch: Option<&ReldexBatch>) -> (
    count: usize)
    requires
        batch matches Some(batch) ==> batch.wf(),
    ensures
        old(boundary)@.in_waker ==> count == 0 && final(boundary)@ == old(boundary)@.refused(),
        !old(boundary)@.in_waker ==> {
            &&& count == match batch {
                Some(batch) => batch.table().columns@.len(),
                None => 0,
            }
            &&& final(boundary)@ == old(boundary)@
        },
{
    if boundary.refuse_reentrant() {
        return 0;
    }
    match batch {
        Some(batch) => batch.rows().columns.len(),
        None => 0,
    }
}

/// What a caller is told who asks for column `column` of `count`.
pub open spec fn no_such_column(function: Seq<char>, column: usize, count: nat) -> ErrorModel {
    ErrorModel::internal(
        "reldex-ffi: "@ + function + ": column "@ + decimal(column as nat)
            + " is out of range; the batch has "@ + decimal(count),
    )
}

/// Records that column `column` of `count` does not exist.
pub(crate) fn set_last_column_error(
    boundary: &mut Boundary,
    function: &str,
    column: usize,
    count: usize,
) -> (status: ReldexStatus)
    ensures
        status == ReldexStatus::NotFound,
        final(boundary)@ == old(boundary)@.failed(
            no_such_column(function@, column, count as nat),
        ),
{
    let mut text = String::from_str("reldex-ffi: ");
    text.append(function);
    text.append(": column ");
    push_decimal(&mut text, column as u64);
    text.append(" is out of range; the batch has ");
    push_decimal(&mut text, count as u64);
    boundary.set_last_error(DbError::internal(text));
    ReldexStatus::NotFound
}

/// Describes column `column`: its name, declared type and storage kind. `out`
/// is how many bytes the caller's struct takes, or nothing where it was
/// refused.
pub fn reldex_batch_column_info<'a>(
    boundary: &mut Boundary,
    batch: Option<&'a ReldexBatch>,
    column: usize,
    out: Option<u32>,
) -> (info: Result<ReldexColumnInfo<'a>, ReldexStatus>)
    ensures
        old(boundary)@.in_waker ==> {
            &&& info == Err::<ReldexColumnInfo<'a>, _>(ReldexStatus::Reentrant)
            &&& final(boundary)@ == old(boundary)@.refused()
        },
        !old(boundary)@.in_waker ==> match batch {
            None => {
                &&& info == Err::<ReldexColumnInfo<'a>, _>(ReldexStatus::InvalidArgument)
                &&& final(boundary)@ == old(boundary)@.argument_error(
                    "reldex_batch_column_info: `batch` is null"@,
                )
            },
            Some(batch) => if column >= batch.table().columns@.len() {
                &&& info == Err::<ReldexColumnInfo<'a>, _>(ReldexStatus::NotFound)
                &&& final(boundary)@ == old(boundary)@.failed(
                    no_such_column(
                        "reldex_batch_column_info"@,
                        column,
                        batch.table().columns@.len(),
                    ),
                )
            } else {
                match out {
                    None => {
                        &&& info == Err::<ReldexColumnInfo<'a>, _>(ReldexStatus::InvalidArgument)
                        &&& final(boundary)@ == old(boundary)@.argument_error(
                            "reldex_batch_column_info: `out` is null, unaligned, or too small"@,
                        )
                    },
                    Some(valid) => {
                        &&& info matches Ok(info) && info.struct_size == valid && info.describes(
                            batch.table().columns@[column as int].data.family(),
                            if column < batch.described().len() {
                                Some(batch.described()[column as int])
                            } else {
                                None
                            },
                        )
                        &&& final(boundary)@ == old(boundary)@
                    },
                }
            },
        },
{
    if boundary.refuse_reentrant() {
        return Err(ReldexStatus::Reentrant);
    }
    let batch = match batch {
        None => return Err(
            boundary.set_last_argument_error("reldex_batch_column_info: `batch` is null"),
        ),
        Some(batch) => batch,
    };
    let info = match batch.info_of(column) {
        None => return Err(
            set_last_column_error(
                boundary,
                "reldex_batch_column_info",
                column,
                batch.batch.columns.len(),
            ),
        ),
        Some(info) => info,
    };
    match out {
        None => Err(
            boundary.set_last_argument_error(
                "reldex_batch_column_info: `out` is null, unaligned, or too small",
            ),
        ),
        Some(valid) => Ok(ReldexColumnInfo { struct_size: valid, ..info }),
    }
}

/// Shows column `column`'s memory: one call for each column of a batch. `out`
/// is how many bytes the caller's struct takes, or nothing where it was
/// refused.
pub fn reldex_batch_column<'a>(
    boundary: &mut Boundary,
    batch: Option<&'a mut ReldexBatch>,
    column: usize,
    out: Option<u32>,
) -> (view: Result<ReldexColumnView<'a>, ReldexStatus>)
    requires
        batch matches Some(batch) ==> batch.wf(),
    ensures
        batch matches Some(batch) ==> {
            &&& final(batch).wf()
            &&& final(batch).table() == batch.table()
            &&& final(batch).described() == batch.described()
        },
        old(boundary)@.in_waker ==> {
            &&& view == Err::<ReldexColumnView<'a>, _>(ReldexStatus::Reentrant)
            &&& final(boundary)@ == old(boundary)@.refused()
        },
        !old(boundary)@.in_waker ==> match batch {
            None => {
                &&& view == Err::<ReldexColumnView<'a>, _>(ReldexStatus::InvalidArgument)
                &&& final(boundary)@ == old(boundary)@.argument_error(
                    "reldex_batch_column: `batch` is null"@,
                )
            },
            Some(batch) => if column >= batch.table().columns@.len() {
                &&& view == Err::<ReldexColumnView<'a>, _>(ReldexStatus::NotFound)
                &&& final(boundary)@ == old(boundary)@.failed(
                    no_such_column("reldex_batch_column"@, column, batch.table().columns@.len()),
                )
            } else {
                match out {
                    None => {
                        &&& view == Err::<ReldexColumnView<'a>, _>(ReldexStatus::InvalidArgument)
                        &&& final(boundary)@ == old(boundary)@.argument_error(
                            "reldex_batch_column: `out` is null, unaligned, or too small"@,
                        )
                    },
                    Some(valid) => {
                        &&& view matches Ok(view) && view.struct_size == valid && view.shows(
                            batch.table().columns@[column as int],
                        )
                        &&& final(boundary)@ == old(boundary)@
                    },
                }
            },
        },
{
    if boundary.refuse_reentrant() {
        return Err(ReldexStatus::Reentrant);
    }
    let batch = match batch {
        None => return Err(
            boundary.set_last_argument_error("reldex_batch_column: `batch` is null"),
        ),
        Some(batch) => batch,
    };
    batch.mirror_of(column);
    let count: usize = batch.batch.columns.len();
    let shown: &'a ReldexBatch = &*batch;
    let view = match shown.view_of(column) {
        None => return Err(set_last_column_error(boundary, "reldex_batch_column", column, count)),
        Some(view) => view,
    };
    match out {
        None => Err(
            boundary.set_last_argument_error(
                "reldex_batch_column: `out` is null, unaligned, or too small",
            ),
        ),
        Some(valid) => Ok(ReldexColumnView { struct_size: valid, ..view }),
    }
}

/// Releases a batch. Nothing to release is no failure; a refused call leaves
/// the batch with the caller.
pub fn reldex_batch_release(boundary: &mut Boundary, batch: Option<ReldexBatch>) -> (kept: Option<
    ReldexBatch,
>)
    ensures
        old(boundary)@.in_waker ==> kept == batch && final(boundary)@ == old(boundary)@.refused(),
        !old(boundary)@.in_waker ==> kept is None && final(boundary)@ == if batch is Some {
            old(boundary)@.minus(Kind::Batch)
        } else {
            old(boundary)@
        },
{
    if boundary.refuse_reentrant() {
        return batch;
    }
    if batch.is_some() {
        boundary.live.destroyed(Kind::Batch);
    }
    None
}

/// A family of values has one number, and a number names one family.
pub proof fn a_family_is_known_by_its_number(kind: ColumnKind, stable: ReldexColumnKind)
    requires
        call_ensures(ReldexColumnKind::from_column_kind, (kind,), stable),
    ensures
        kind == ColumnKind::Boolean <==> stable as i32 == 1,
        kind == ColumnKind::Number <==> stable as i32 == 2,
        kind == ColumnKind::Float <==> stable as i32 == 3,
        kind == ColumnKind::Double <==> stable as i32 == 4,
        kind == ColumnKind::Text <==> stable as i32 == 5,
        kind == ColumnKind::Bytes <==> stable as i32 == 6,
        kind == ColumnKind::Timestamp <==> stable as i32 == 7,
        kind == ColumnKind::Json <==> stable as i32 == 8,
        kind == ColumnKind::Lob <==> stable as i32 == 9,
        kind == ColumnKind::Unsupported <==> stable as i32 == 10,
        kind == ColumnKind::Unrecognized <==> stable as i32 == 0,
{
}

/// The fixed-width copy of a number has its sign, its exponent and its digits in
/// their order, as far as there is room, and zeros behind them. Two numbers that
/// fit and have the same copy are the same number.
pub proof fn a_number_is_copied_digit_for_digit(value: Number, copy: ReldexNumber)
    requires
        call_ensures(ReldexNumber::from_number, (&value,), copy),
    ensures
        copy.negative == value.negative,
        copy.exponent == value.exponent,
        copy.digit_count <= value.digits@.len(),
        copy.digit_count <= 40,
        value.digits@.len() <= 40 ==> copy.digit_count == value.digits@.len(),
        value.digits@.len() > 40 ==> copy.digit_count == 40,
        forall|i: int|
            0 <= i < copy.digit_count ==> #[trigger] copy.digits@[i] == value.digits@[i],
        forall|i: int| copy.digit_count <= i < 40 ==> #[trigger] copy.digits@[i] == 0,
{
}

/// The fixed-width copy of a timestamp has its date, its time and its zone; a value
/// without a zone is not one at UTC.
pub proof fn a_timestamp_is_copied_field_for_field(value: Timestamp, copy: ReldexTimestamp)
    requires
        call_ensures(ReldexTimestamp::from_timestamp, (&value,), copy),
    ensures
        copy.year == value.year,
        copy.month == value.month,
        copy.day == value.day,
        copy.hour == value.hour,
        copy.minute == value.minute,
        copy.second == value.second,
        copy.nanosecond == value.nanosecond,
        copy.has_zone <==> value.zone_offset_minutes is Some,
        value.zone_offset_minutes matches Some(minutes) ==> copy.zone_offset_minutes == minutes,
        value.zone_offset_minutes is None ==> copy.zone_offset_minutes == 0,
{
}

/// A cell reads as NULL exactly where its bit says so, whatever is stored there;
/// any other cell reads as the value of its own row, in its column's family. A
/// large object that was not read is no NULL.
pub proof fn a_cell_is_its_rows_value(column: Column, row: usize, value: ValueRef<'_>)
    requires
        column.data.wf(),
        row < column.data.rows(),
        call_ensures(Column::value, (&column, row), value),
    ensures
        value is Null <==> {
            &&& row / 64 < column.nulls@.len()
            &&& (column.nulls@[row as int / 64] >> ((row % 64) as u64)) & 1 == 1
        },
        value !is Null ==> match column.data {
            ColumnData::Boolean(values) => value matches ValueRef::Boolean(shown) && shown
                == values@[row as int],
            ColumnData::Number { values, canonical } => value matches ValueRef::Number(shown)
                && shown@ == canonical@[row as int],
            ColumnData::Float { bits, canonical } => value matches ValueRef::Float(shown) && shown@
                == canonical@[row as int],
            ColumnData::Double { bits, canonical } => value matches ValueRef::Double(shown)
                && shown@ == canonical@[row as int],
            ColumnData::Text(texts) => value matches ValueRef::Text(shown) && shown@
                == texts@[row as int],
            ColumnData::Bytes(values) => value matches ValueRef::Bytes(shown) && shown@
                == values@[row as int],
            ColumnData::Timestamp { values, canonical } => value matches ValueRef::Timestamp(shown)
                && shown@ == canonical@[row as int],
            ColumnData::Json(texts) => value matches ValueRef::Json(shown) && shown@
                == texts@[row as int],
            ColumnData::Lob(count) => value is Taken,
            ColumnData::Unsupported(texts) => value matches ValueRef::Unsupported(shown) && shown@
                == texts@[row as int],
            ColumnData::Unrecognized(count) => value is Unrecognized,
        },
{
}

/// The columns of a result are kept in their order, each with everything that the
/// driver said of it.
pub proof fn columns_are_kept_in_order(columns: Vec<ColumnMetadata>, shared: Arc<ResultColumns>)
    requires
        call_ensures(ResultColumns::new, (columns,), shared),
    ensures
        shared@.len() == columns@.len(),
        forall|i: int|
            0 <= i < columns@.len() ==> {
                let kept = #[trigger] shared@[i];
                let given = columns@[i];
                &&& kept.name == given.name@
                &&& kept.declared == given.declared
                &&& kept.nullable == given.nullable
                &&& kept.precision == given.precision
                &&& kept.scale == given.scale
                &&& kept.max_size_bytes == given.max_size_bytes
                &&& kept.native_type_name is Some <==> given.native_type_name is Some
                &&& given.native_type_name matches Some(name) ==> kept.native_type_name->0 == name@
            },
{
    assert forall|i: int| 0 <= i < columns@.len() implies #[trigger] shared@[i] == columns@[i]@ by {
        assert(shared@[i] == column_models(columns@)[i]);
    }
}

/// A column that was described is told as it was: by its name, by what the server
/// said of NULLs, by its precision, scale and size, each marked as there or not,
/// and by the server's name of its type.
pub proof fn a_column_is_told_as_described(
    columns: ResultColumns,
    index: usize,
    info: Option<ReldexColumnInfo<'_>>,
)
    requires
        call_ensures(ResultColumns::info, (&columns, index), info),
    ensures
        info is Some <==> index < columns@.len(),
        info matches Some(info) ==> {
            let column = columns@[index as int];
            &&& info.name.text() == Some(column.name)
            &&& info.kind == 0 <==> column.declared == ColumnKind::Unrecognized
            &&& info.kind == 1 <==> column.declared == ColumnKind::Boolean
            &&& info.kind == 2 <==> column.declared == ColumnKind::Number
            &&& info.kind == 3 <==> column.declared == ColumnKind::Float
            &&& info.kind == 4 <==> column.declared == ColumnKind::Double
            &&& info.kind == 5 <==> column.declared == ColumnKind::Text
            &&& info.kind == 6 <==> column.declared == ColumnKind::Bytes
            &&& info.kind == 7 <==> column.declared == ColumnKind::Timestamp
            &&& info.kind == 8 <==> column.declared == ColumnKind::Json
            &&& info.kind == 9 <==> column.declared == ColumnKind::Lob
            &&& info.kind == 10 <==> column.declared == ColumnKind::Unsupported
            &&& info.nullable == 0 <==> column.nullable is None
            &&& info.nullable == 1 <==> column.nullable == Some(true)
            &&& info.nullable == 2 <==> column.nullable == Some(false)
            &&& info.has_precision <==> column.precision is Some
            &&& column.precision matches Some(precision) ==> info.precision == precision
            &&& info.has_scale <==> column.scale is Some
            &&& column.scale matches Some(scale) ==> info.scale == scale
            &&& info.has_max_size_bytes <==> column.max_size_bytes is Some
            &&& column.max_size_bytes matches Some(size) ==> info.max_size_bytes == size
            &&& column.native_type_name matches Some(name) ==> info.native_type_name.text() == Some(
                name,
            )
            &&& column.native_type_name is None ==> info.native_type_name.text() == Some(
                Seq::<char>::empty(),
            )
        },
{
}

/// What a batch says of a column is what the result says of the column in the same
/// place, in the family that the column's own values have. Nothing is said of a
/// column behind the last.
pub proof fn a_batch_tells_its_columns(
    boundary: &mut Boundary,
    batch: ReldexBatch,
    column: usize,
    valid: u32,
    info: Result<ReldexColumnInfo<'_>, ReldexStatus>,
)
    requires
        !old(boundary)@.in_waker,
        call_ensures(reldex_batch_column_info, (boundary, Some(&batch), column, Some(valid)), info),
    ensures
        info is Ok <==> column < batch.table().columns@.len(),
        info matches Err(status) ==> status == ReldexStatus::NotFound,
        info matches Ok(info) ==> {
            let family = batch.table().columns@[column as int].data.family();
            &&& info.struct_size == valid
            &&& info.kind == ReldexColumnKind::of(family) as i32
            &&& column < batch.described().len() ==> {
                let told = batch.described()[column as int];
                &&& info.name.text() == Some(told.name)
                &&& info.has_precision <==> told.precision is Some
                &&& told.precision matches Some(precision) ==> info.precision == precision
                &&& info.has_scale <==> told.scale is Some
                &&& told.scale matches Some(scale) ==> info.scale == scale
                &&& info.nullable == 1 <==> told.nullable == Some(true)
                &&& info.nullable == 2 <==> told.nullable == Some(false)
            }
            &&& column >= batch.described().len() ==> {
                &&& info.name.text() == Some(Seq::<char>::empty())
                &&& info.nullable == 0
                &&& !info.has_precision && !info.has_scale && !info.has_max_size_bytes
            }
        },
{
}

/// A column is handed out row for row: the words that mark its NULLs, and its
/// values in the form of their family. Texts and bytes are handed out end to end
/// with where each one begins and ends; booleans and binary numbers as they are;
/// decimals and timestamps as copies of fixed width.
pub proof fn a_column_is_handed_out_row_for_row(
    boundary: &mut Boundary,
    batch: Option<&mut ReldexBatch>,
    column: usize,
    valid: u32,
    view: Result<ReldexColumnView<'_>, ReldexStatus>,
)
    requires
        !old(boundary)@.in_waker,
        batch matches Some(batch) && batch.wf(),
        call_ensures(reldex_batch_column, (boundary, batch, column, Some(valid)), view),
    ensures
        view is Ok <==> column < batch->0.table().columns@.len(),
        view matches Err(status) ==> status == ReldexStatus::NotFound,
        view matches Ok(view) ==> {
            let given = batch->0.table().columns@[column as int];
            &&& view.struct_size == valid
            &&& view.row_count == given.data.rows()
            &&& view.null_word_count == given.nulls@.len()
            &&& view.null_bits is Some <==> given.nulls@.len() > 0
            &&& view.null_bits matches Some(words) ==> words@ == given.nulls@
            &&& given.data is Boolean <==> view.kind == 1
            &&& given.data is Number <==> view.kind == 2
            &&& given.data is Float <==> view.kind == 3
            &&& given.data is Double <==> view.kind == 4
            &&& given.data is Text <==> view.kind == 5
            &&& given.data is Bytes <==> view.kind == 6
            &&& given.data is Timestamp <==> view.kind == 7
            &&& given.data is Json <==> view.kind == 8
            &&& given.data is Lob <==> view.kind == 9
            &&& given.data is Unsupported <==> view.kind == 10
            &&& view.fixed is Some <==> given.data is Boolean || given.data is Number
                || given.data is Float || given.data is Double || given.data is Timestamp
            &&& view.data is Some <==> given.data is Text || given.data is Bytes
                || given.data is Json || given.data is Unsupported
            &&& view.offsets is Some <==> view.data is Some
            &&& view.fixed is Some ==> view.fixed_len == given.data.rows()
            &&& view.fixed is None ==> view.fixed_len == 0 && view.fixed_stride == 0
            &&& view.offsets matches Some(offsets) ==> offsets@.len() == given.data.rows() + 1
            &&& given.data matches ColumnData::Boolean(values) ==> (
            view.fixed matches Some(FixedColumn::Booleans(shown)) && shown@ == values@
                && view.fixed_stride == 1)
            &&& given.data matches ColumnData::Float { bits, canonical } ==> (
            view.fixed matches Some(FixedColumn::Floats(shown)) && shown@ == bits@
                && view.fixed_stride == 4)
            &&& given.data matches ColumnData::Double { bits, canonical } ==> (
            view.fixed matches Some(FixedColumn::Doubles(shown)) && shown@ == bits@
                && view.fixed_stride == 8)
            &&& given.data matches ColumnData::Number { values, canonical } ==> {
                &&& view.fixed_stride == 46
                &&& view.fixed matches Some(FixedColumn::Numbers(shown)) && shown@.len()
                    == values@.len() && forall|i: int|
                    0 <= i < values@.len() ==> {
                        let copy = #[trigger] shown@[i];
                        &&& copy.negative == values@[i].negative
                        &&& copy.exponent == values@[i].exponent
                        &&& values@[i].digits@.len() <= 40 ==> copy.digit_count
                            == values@[i].digits@.len() && copy.digits@.take(
                            copy.digit_count as int,
                        ) =~= values@[i].digits@
                    }
            }
            &&& given.data matches ColumnData::Timestamp { values, canonical } ==> {
                &&& view.fixed_stride == 16
                &&& view.fixed matches Some(FixedColumn::Timestamps(shown)) && shown@.len()
                    == values@.len() && forall|i: int|
                    0 <= i < values@.len() ==> {
                        let copy = #[trigger] shown@[i];
                        &&& copy.year == values@[i].year
                        &&& copy.month == values@[i].month
                        &&& copy.day == values@[i].day
                        &&& copy.hour == values@[i].hour
                        &&& copy.minute == values@[i].minute
                        &&& copy.second == values@[i].second
                        &&& copy.nanosecond == values@[i].nanosecond
                        &&& copy.has_zone <==> values@[i].zone_offset_minutes is Some
                        &&& values@[i].zone_offset_minutes matches Some(minutes)
                            ==> copy.zone_offset_minutes == minutes
                    }
            }
            &&& given.data matches ColumnData::Bytes(values) ==> forall|i: int|
                #![trigger values@[i]]
                0 <= i < values@.len() ==> view.data->0@.subrange(
                    view.offsets->0@[i] as int,
                    view.offsets->0@[i + 1] as int,
                ) =~= values@[i]
            &&& given.data matches ColumnData::Text(texts) ==> forall|i: int|
                #![trigger texts@[i]]
                0 <= i < texts@.len() ==> view.data->0@.subrange(
                    view.offsets->0@[i] as int,
                    view.offsets->0@[i + 1] as int,
                ) =~= vstd::utf8::encode_utf8(texts@[i])
        },
{
    if let Ok(view) = view {
        let given = batch->0.table().columns@[column as int];
        if let ColumnData::Bytes(values) = given.data {
            assert forall|i: int|
                #![trigger values@[i]]
                0 <= i < values@.len() implies view.data->0@.subrange(
                view.offsets->0@[i] as int,
                view.offsets->0@[i + 1] as int,
            ) =~= values@[i] by {
                slot_between_offsets(view.offsets->0@, values@, i);
            }
        }
        if let ColumnData::Text(texts) = given.data {
            assert forall|i: int|
                #![trigger texts@[i]]
                0 <= i < texts@.len() implies view.data->0@.subrange(
                view.offsets->0@[i] as int,
                view.offsets->0@[i + 1] as int,
            ) =~= vstd::utf8::encode_utf8(texts@[i]) by {
                slot_between_offsets(view.offsets->0@, encoded(texts@), i);
            }
        }
    }
}

/// A batch has the rows and columns that were fetched, and none where there is no
/// batch; a batch that was released is counted no more.
pub proof fn a_batch_has_what_was_fetched(
    live: &mut LiveCounters,
    fetched: FetchedBatch,
    columns: Arc<ResultColumns>,
    batch: ReldexBatch,
    boundary: &mut Boundary,
    rows: usize,
    width: usize,
)
    requires
        call_ensures(ReldexBatch::new, (live, fetched, columns), batch),
        !old(boundary)@.in_waker,
        call_ensures(reldex_batch_row_count, (boundary, Some(&batch)), rows),
        call_ensures(reldex_batch_column_count, (boundary, Some(&batch)), width),
    ensures
        rows == fetched.row_count,
        width == fetched.columns@.len(),
        batch.described() == columns@,
        forall|i: int|
            0 <= i < fetched.columns@.len() ==> #[trigger] batch.table().columns@[i]
                == fetched.columns@[i],
{
}

/// A batch is counted from when it is taken in until it is released, among the
/// batches and nowhere else; a refused release leaves it with its caller.
pub proof fn a_batch_is_counted_until_released(
    live: &mut LiveCounters,
    fetched: FetchedBatch,
    columns: Arc<ResultColumns>,
    batch: ReldexBatch,
    boundary: &mut Boundary,
    kept: Option<ReldexBatch>,
)
    requires
        call_ensures(ReldexBatch::new, (live, fetched, columns), batch),
        call_ensures(reldex_batch_release, (boundary, Some(batch)), kept),
    ensures
        *final(live) == (LiveCounters {
            batches: next_count(old(live).batches),
            ..*old(live)
        }),
        !old(boundary)@.in_waker ==> {
            &&& kept is None
            &&& old(boundary)@.live == *final(live) ==> final(boundary)@.live == *old(live)
            &&& final(boundary)@.last_error == old(boundary)@.last_error
        },
        old(boundary)@.in_waker ==> {
            &&& kept == Some(batch)
            &&& final(boundary)@.live.batches == old(boundary)@.live.batches
        },
{
}

/// A column that a batch does not have is told by its number, and by how many
/// columns there are; nothing is handed out for it.
pub proof fn a_missing_column_is_named(
    boundary: &mut Boundary,
    batch: ReldexBatch,
    column: usize,
    out: Option<u32>,
    info: Result<ReldexColumnInfo<'_>, ReldexStatus>,
)
    requires
        !old(boundary)@.in_waker,
        column >= batch.table().columns@.len(),
        call_ensures(reldex_batch_column_info, (boundary, Some(&batch), column, out), info),
    ensures
        info == Err::<ReldexColumnInfo<'_>, _>(ReldexStatus::NotFound),
        final(boundary)@.last_error is Some,
        final(boundary)@.last_error->0.message =~= "reldex-ffi: "@ + "reldex_batch_column_info"@
            + ": column "@ + decimal(column as nat) + " is out of range; the batch has "@ + decimal(
            batch.table().columns@.len(),
        ),
{
}

} // verus!
