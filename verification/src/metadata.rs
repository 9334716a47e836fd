//! Metadata queries: a vendor-neutral request is read and checked, a catalog
//! prepares a statement for it, and the caller reads the statement's text and
//! its declared columns. Nothing here runs the statement.

use std::sync::Arc;

use vstd::prelude::*;

use crate::batch::{column_models, ColumnMetadata, ColumnModel, ReldexColumnInfo, ResultColumns};
use crate::counters::Kind;
use crate::error::{DbError, ErrorModel, NativeError, ReldexError, ReldexErrorKind};
use crate::status::{Boundary, ReldexStatus};
use crate::strings::{InParam, OwnedStr, ReldexStr};
use crate::text::{decimal, push_decimal};

verus! {

/// What a metadata request asks for.
///
/// `0` is reserved for a value the caller's header predates.
#[derive(Debug, Clone, Copy, PartialEq, Eq, Structural)]
pub enum ReldexMetadataRequestKind {
    /// A value this header does not know.
    Unknown,
    Schemas,
    ObjectsOfKind,
    ColumnsOf,
}

/// One of the object groups besides schemas.
#[derive(Debug, Clone, Copy, PartialEq, Eq, Structural)]
pub enum MetadataObjectKind {
    Tables,
    Views,
    Packages,
    PackageBodies,
    Procedures,
    Functions,
    Triggers,
    Sequences,
    Synonyms,
}

/// One of the object groups besides schemas, by number.
///
/// `0` is reserved for a value the caller's header predates.
#[derive(Debug, Clone, Copy, PartialEq, Eq, Structural)]
pub enum ReldexMetadataObjectKind {
    /// A value this header does not know.
    Unknown,
    Tables,
    Views,
    Packages,
    PackageBodies,
    Procedures,
    Functions,
    Triggers,
    Sequences,
    Synonyms,
}

/// The object group a number names, where it names one.
pub open spec fn object_kind_of(value: i32) -> Option<MetadataObjectKind> {
    if value == ReldexMetadataObjectKind::Tables as i32 {
        Some(MetadataObjectKind::Tables)
    } else if value == ReldexMetadataObjectKind::Views as i32 {
        Some(MetadataObjectKind::Views)
    } else if value == ReldexMetadataObjectKind::Packages as i32 {
        Some(MetadataObjectKind::Packages)
    } else if value == ReldexMetadataObjectKind::PackageBodies as i32 {
        Some(MetadataObjectKind::PackageBodies)
    } else if value == ReldexMetadataObjectKind::Procedures as i32 {
        Some(MetadataObjectKind::Procedures)
    } else if value == ReldexMetadataObjectKind::Functions as i32 {
        Some(MetadataObjectKind::Functions)
    } else if value == ReldexMetadataObjectKind::Triggers as i32 {
        Some(MetadataObjectKind::Triggers)
    } else if value == ReldexMetadataObjectKind::Sequences as i32 {
        Some(MetadataObjectKind::Sequences)
    } else if value == ReldexMetadataObjectKind::Synonyms as i32 {
        Some(MetadataObjectKind::Synonyms)
    } else {
        None
    }
}

impl ReldexMetadataObjectKind {
    /// The group behind a number's name; nothing behind the reserved one.
    pub fn to_object_kind(self) -> (kind: Option<MetadataObjectKind>)
        ensures
            kind == object_kind_of(self as i32),
    {
        match self {
            ReldexMetadataObjectKind::Unknown => None,
            ReldexMetadataObjectKind::Tables => Some(MetadataObjectKind::Tables),
            ReldexMetadataObjectKind::Views => Some(MetadataObjectKind::Views),
            ReldexMetadataObjectKind::Packages => Some(MetadataObjectKind::Packages),
            ReldexMetadataObjectKind::PackageBodies => Some(MetadataObjectKind::PackageBodies),
            ReldexMetadataObjectKind::Procedures => Some(MetadataObjectKind::Procedures),
            ReldexMetadataObjectKind::Functions => Some(MetadataObjectKind::Functions),
            ReldexMetadataObjectKind::Triggers => Some(MetadataObjectKind::Triggers),
            ReldexMetadataObjectKind::Sequences => Some(MetadataObjectKind::Sequences),
            ReldexMetadataObjectKind::Synonyms => Some(MetadataObjectKind::Synonyms),
        }
    }

    /// The group with the number `value`.
    pub fn from_i32(value: i32) -> (kind: Option<Self>)
        ensures
            match kind {
                Some(kind) => kind as i32 == value && kind != ReldexMetadataObjectKind::Unknown,
                None => object_kind_of(value) is None,
            },
    {
        match value {
            1 => Some(ReldexMetadataObjectKind::Tables),
            2 => Some(ReldexMetadataObjectKind::Views),
            3 => Some(ReldexMetadataObjectKind::Packages),
            4 => Some(ReldexMetadataObjectKind::PackageBodies),
            5 => Some(ReldexMetadataObjectKind::Procedures),
            6 => Some(ReldexMetadataObjectKind::Functions),
            7 => Some(ReldexMetadataObjectKind::Triggers),
            8 => Some(ReldexMetadataObjectKind::Sequences),
            9 => Some(ReldexMetadataObjectKind::Synonyms),
            _ => None,
        }
    }
}

/// A metadata request, as a caller passes it.
#[derive(Debug, Clone, Copy)]
pub struct ReldexMetadataRequest<'a> {
    /// A [`ReldexMetadataRequestKind`].
    pub kind: i32,
    /// A [`ReldexMetadataObjectKind`], for objects of a kind.
    pub object_kind: i32,
    /// The schema to list, or the one that owns the table.
    pub schema: ReldexStr<'a>,
    /// The table or view to describe.
    pub table: ReldexStr<'a>,
    /// Part of a name to look for, for schemas and objects.
    pub name_filter: ReldexStr<'a>,
    pub has_name_filter: bool,
    /// How many rows to report at most, for schemas and objects; above zero.
    pub limit: u32,
}

/// What a request asks a catalog for. The type with text is a value, the one
/// with sequences of characters its model.
#[derive(Debug)]
#[allow(inconsistent_fields)]
pub enum MetadataRequest<T> {
    Schemas { limit: u32, name_filter: Option<T> },
    ObjectsOfKind { schema: T, kind: MetadataObjectKind, limit: u32, name_filter: Option<T> },
    ColumnsOf { schema: T, table: T },
}

/// What an optional text says.
pub open spec fn optional_text(text: Option<String>) -> Option<Seq<char>> {
    match text {
        Some(text) => Some(text@),
        None => None,
    }
}

impl View for MetadataRequest<String> {
    type V = MetadataRequest<Seq<char>>;

    open spec fn view(&self) -> MetadataRequest<Seq<char>> {
        match self {
            MetadataRequest::Schemas { limit, name_filter } => MetadataRequest::Schemas {
                limit: *limit,
                name_filter: optional_text(*name_filter),
            },
            MetadataRequest::ObjectsOfKind {
                schema,
                kind,
                limit,
                name_filter,
            } => MetadataRequest::ObjectsOfKind {
                schema: schema@,
                kind: *kind,
                limit: *limit,
                name_filter: optional_text(*name_filter),
            },
            MetadataRequest::ColumnsOf { schema, table } => MetadataRequest::ColumnsOf {
                schema: schema@,
                table: table@,
            },
        }
    }
}

impl<'a> ReldexMetadataRequest<'a> {
    /// Whether every string has the bytes it declares.
    pub open spec fn readable(self) -> bool {
        &&& self.schema.readable()
        &&& self.table.readable()
        &&& self.name_filter.readable()
    }

    /// The filter a caller means, where there is one and it is text.
    pub open spec fn filter(self) -> Result<Option<Seq<char>>, Seq<char>> {
        if !self.has_name_filter {
            Ok(None)
        } else if self.name_filter.text() is None {
            Err("reldex_metadata_prepare: `name_filter` is not valid UTF-8"@)
        } else {
            Ok(self.name_filter.text())
        }
    }

    /// What a caller asks for, or the first thing that is wrong with it. A field
    /// that does not belong to the kind of request is not looked at.
    pub open spec fn meant(self) -> Result<MetadataRequest<Seq<char>>, Seq<char>> {
        if self.kind == ReldexMetadataRequestKind::Schemas as i32 {
            if self.limit == 0 {
                Err("reldex_metadata_prepare: `limit` must be above zero"@)
            } else {
                match self.filter() {
                    Ok(name_filter) => Ok(
                        MetadataRequest::Schemas { limit: self.limit, name_filter },
                    ),
                    Err(message) => Err(message),
                }
            }
        } else if self.kind == ReldexMetadataRequestKind::ObjectsOfKind as i32 {
            if self.schema.text() is None {
                Err("reldex_metadata_prepare: `schema` is not valid UTF-8"@)
            } else if object_kind_of(self.object_kind) is None {
                Err(
                    "reldex_metadata_prepare: `object_kind` is not a ReldexMetadataObjectKind this build knows"@,
                )
            } else if self.limit == 0 {
                Err("reldex_metadata_prepare: `limit` must be above zero"@)
            } else {
                match self.filter() {
                    Ok(name_filter) => Ok(
                        MetadataRequest::ObjectsOfKind {
                            schema: self.schema.text()->0,
                            kind: object_kind_of(self.object_kind)->0,
                            limit: self.limit,
                            name_filter,
                        },
                    ),
                    Err(message) => Err(message),
                }
            }
        } else if self.kind == ReldexMetadataRequestKind::ColumnsOf as i32 {
            if self.schema.text() is None || self.table.text() is None {
                Err("reldex_metadata_prepare: `schema`/`table` are not valid UTF-8"@)
            } else {
                Ok(
                    MetadataRequest::ColumnsOf {
                        schema: self.schema.text()->0,
                        table: self.table.text()->0,
                    },
                )
            }
        } else {
            Err(
                "reldex_metadata_prepare: `kind` is not a ReldexMetadataRequestKind this build knows"@,
            )
        }
    }
}

/// Reads the filter of a request.
fn read_filter(boundary: &mut Boundary, request: &ReldexMetadataRequest<'_>) -> (filter: Result<
    Option<String>,
    ReldexStatus,
>)
    requires
        request.readable(),
    ensures
        match filter {
            Ok(filter) => {
                &&& request.filter() == Ok::<_, Seq<char>>(optional_text(filter))
                &&& final(boundary)@ == old(boundary)@
            },
            Err(status) => {
                &&& status == ReldexStatus::InvalidArgument
                &&& request.filter() is Err
                &&& final(boundary)@ == old(boundary)@.argument_error(request.filter()->Err_0)
            },
        },
{
    if !request.has_name_filter {
        return Ok(None);
    }
    match request.name_filter.as_str() {
        Some(filter) => Ok(Some(filter.to_owned())),
        None => Err(
            boundary.set_last_argument_error(
                "reldex_metadata_prepare: `name_filter` is not valid UTF-8",
            ),
        ),
    }
}

/// Reads a request, or records what is wrong with it.
pub fn build_request(boundary: &mut Boundary, request: &ReldexMetadataRequest<'_>) -> (built: Result<
    MetadataRequest<String>,
    ReldexStatus,
>)
    requires
        request.readable(),
    ensures
        match built {
            Ok(built) => {
                &&& request.meant() == Ok::<_, Seq<char>>(built@)
                &&& final(boundary)@ == old(boundary)@
            },
            Err(status) => {
                &&& status == ReldexStatus::InvalidArgument
                &&& request.meant() is Err
                &&& final(boundary)@ == old(boundary)@.argument_error(request.meant()->Err_0)
            },
        },
{
    if request.kind == ReldexMetadataRequestKind::Schemas as i32 {
        if request.limit == 0 {
            return Err(
                boundary.set_last_argument_error(
                    "reldex_metadata_prepare: `limit` must be above zero",
                ),
            );
        }
        match read_filter(boundary, request) {
            Ok(name_filter) => Ok(MetadataRequest::Schemas { limit: request.limit, name_filter }),
            Err(status) => Err(status),
        }
    } else if request.kind == ReldexMetadataRequestKind::ObjectsOfKind as i32 {
        let schema = match request.schema.as_str() {
            Some(schema) => schema,
            None => return Err(
                boundary.set_last_argument_error(
                    "reldex_metadata_prepare: `schema` is not valid UTF-8",
                ),
            ),
        };
        let kind = match ReldexMetadataObjectKind::from_i32(request.object_kind) {
            Some(kind) => kind.to_object_kind(),
            None => None,
        };
        let kind = match kind {
            Some(kind) => kind,
            None => return Err(
                boundary.set_last_argument_error(
                    "reldex_metadata_prepare: `object_kind` is not a ReldexMetadataObjectKind this build knows",
                ),
            ),
        };
        if request.limit == 0 {
            return Err(
                boundary.set_last_argument_error(
                    "reldex_metadata_prepare: `limit` must be above zero",
                ),
            );
        }
        match read_filter(boundary, request) {
            Ok(name_filter) => Ok(
                MetadataRequest::ObjectsOfKind {
                    schema: schema.to_owned(),
                    kind,
                    limit: request.limit,
                    name_filter,
                },
            ),
            Err(status) => Err(status),
        }
    } else if request.kind == ReldexMetadataRequestKind::ColumnsOf as i32 {
        match (request.schema.as_str(), request.table.as_str()) {
            (Some(schema), Some(table)) => Ok(
                MetadataRequest::ColumnsOf { schema: schema.to_owned(), table: table.to_owned() },
            ),
            _ => Err(
                boundary.set_last_argument_error(
                    "reldex_metadata_prepare: `schema`/`table` are not valid UTF-8",
                ),
            ),
        }
    } else {
        Err(
            boundary.set_last_argument_error(
                "reldex_metadata_prepare: `kind` is not a ReldexMetadataRequestKind this build knows",
            ),
        )
    }
}

/// A request that is let through asks for at least one row, where it asks for
/// rows at all: no catalog is handed a limit of zero.
pub proof fn prepared_limits_are_above_zero(request: ReldexMetadataRequest<'_>)
    ensures
        request.meant() matches Ok(MetadataRequest::Schemas { limit, name_filter }) ==> limit > 0,
        request.meant() matches Ok(
            MetadataRequest::ObjectsOfKind { schema, kind, limit, name_filter },
        ) ==> limit > 0,
{
}

/// The values a statement is to be bound with.
#[derive(Debug, Clone, Copy, PartialEq, Eq, Structural)]
pub enum Binds {
    Unbound,
    /// This many, by position.
    Positional(usize),
    /// This many, by name.
    Named(usize),
    /// A kind this library predates.
    Unrecognized,
}

impl Binds {
    /// How many there are; none where that cannot be told.
    pub open spec fn count(self) -> usize {
        match self {
            Binds::Positional(count) => count,
            Binds::Named(count) => count,
            _ => 0,
        }
    }
}

/// What a catalog prepared.
#[derive(Debug)]
pub struct PreparedMetadata {
    pub sql: String,
    pub binds: Binds,
    pub columns: Vec<ColumnMetadata>,
}

/// A prepared statement, owned by the caller.
pub struct ReldexMetadataQuery {
    sql: OwnedStr,
    columns: Arc<ResultColumns>,
    bind_count: usize,
}

/// What a prepared statement says.
#[verifier::ext_equal]
pub struct QueryModel {
    pub sql: Seq<char>,
    pub columns: Seq<ColumnModel>,
    pub bind_count: usize,
}

impl View for ReldexMetadataQuery {
    type V = QueryModel;

    closed spec fn view(&self) -> QueryModel {
        QueryModel { sql: self.sql@, columns: self.columns@, bind_count: self.bind_count }
    }
}

/// Reads what is to be prepared. `out_aligned` is whether the place for the
/// query is null or aligned.
pub fn reldex_metadata_prepare(
    boundary: &mut Boundary,
    request: InParam<ReldexMetadataRequest<'_>>,
    out_aligned: bool,
) -> (answer: Result<MetadataRequest<String>, ReldexStatus>)
    requires
        request matches InParam::Given(request) ==> request.readable(),
    ensures
        old(boundary)@.in_waker ==> {
            &&& answer == Err::<MetadataRequest<String>, _>(ReldexStatus::Reentrant)
            &&& final(boundary)@ == old(boundary)@.refused()
        },
        !old(boundary)@.in_waker ==> match request {
            InParam::Given(request) => if !out_aligned {
                &&& answer == Err::<MetadataRequest<String>, _>(ReldexStatus::InvalidArgument)
                &&& final(boundary)@ == old(boundary)@.argument_error(
                    "reldex_metadata_prepare: `out` is unaligned"@,
                )
            } else {
                match request.meant() {
                    Ok(meant) => {
                        &&& answer matches Ok(built) && built@ == meant
                        &&& final(boundary)@ == old(boundary)@
                    },
                    Err(message) => {
                        &&& answer == Err::<MetadataRequest<String>, _>(
                            ReldexStatus::InvalidArgument,
                        )
                        &&& final(boundary)@ == old(boundary)@.argument_error(message)
                    },
                }
            },
            _ => {
                &&& answer == Err::<MetadataRequest<String>, _>(ReldexStatus::InvalidArgument)
                &&& final(boundary)@ == old(boundary)@.argument_error(
                    "reldex_metadata_prepare: `request` is null, unaligned, or its struct_size is too small"@,
                )
            },
        },
{
    if boundary.refuse_reentrant() {
        return Err(ReldexStatus::Reentrant);
    }
    let request = match request {
        InParam::Given(request) => request,
        _ => return Err(
            boundary.set_last_argument_error(
                "reldex_metadata_prepare: `request` is null, unaligned, or its struct_size is too small",
            ),
        ),
    };
    if !out_aligned {
        return Err(
            boundary.set_last_argument_error("reldex_metadata_prepare: `out` is unaligned"),
        );
    }
    build_request(boundary, &request)
}

/// Ends a preparation: `prepared` is what the catalog made of the request. A
/// caller without a place for the query only learns that there could be one.
pub fn finish_prepare(
    boundary: &mut Boundary,
    prepared: Result<PreparedMetadata, DbError>,
    keep: bool,
) -> (answer: Result<Option<ReldexMetadataQuery>, ReldexStatus>)
    ensures
        match prepared {
            Err(error) => {
                &&& answer == Err::<Option<ReldexMetadataQuery>, _>(ReldexStatus::Error)
                &&& final(boundary)@ == old(boundary)@.failed(error@)
            },
            Ok(prepared) => if keep {
                &&& answer matches Ok(Some(query)) && query@ == (QueryModel {
                    sql: prepared.sql@,
                    columns: column_models(prepared.columns@),
                    bind_count: prepared.binds.count(),
                })
                &&& final(boundary)@ == old(boundary)@.plus(Kind::WorkspaceObject)
            } else {
                &&& answer == Ok::<_, ReldexStatus>(None::<ReldexMetadataQuery>)
                &&& final(boundary)@ == old(boundary)@
            },
        },
{
    let prepared = match prepared {
        Ok(prepared) => prepared,
        Err(error) => {
            boundary.set_last_error(error);
            return Err(ReldexStatus::Error);
        },
    };
    if !keep {
        return Ok(None);
    }
    let bind_count: usize = match prepared.binds {
        Binds::Unbound => 0,
        Binds::Positional(count) => count,
        Binds::Named(count) => count,
        Binds::Unrecognized => 0,
    };
    boundary.live.created(Kind::WorkspaceObject);
    Ok(
        Some(
            ReldexMetadataQuery {
                sql: OwnedStr::new(prepared.sql),
                columns: ResultColumns::new(prepared.columns),
                bind_count,
            },
        ),
    )
}

/// The text of a prepared statement.
pub fn reldex_metadata_query_sql<'a>(
    boundary: &mut Boundary,
    query: Option<&'a ReldexMetadataQuery>,
) -> (sql: ReldexStr<'a>)
    ensures
        old(boundary)@.in_waker ==> {
            &&& sql.carries(Seq::empty())
            &&& final(boundary)@ == old(boundary)@.refused()
        },
        !old(boundary)@.in_waker ==> {
            &&& final(boundary)@ == old(boundary)@
            &&& sql.carries(
                match query {
                    Some(query) => query@.sql,
                    None => Seq::empty(),
                },
            )
        },
{
    if boundary.refuse_reentrant() {
        return ReldexStr::empty();
    }
    match query {
        Some(query) => query.sql.as_reldex_str(),
        None => ReldexStr::empty(),
    }
}

/// How many values a prepared statement is to be bound with.
pub fn reldex_metadata_query_bind_count(
    boundary: &mut Boundary,
    query: Option<&ReldexMetadataQuery>,
) -> (count: usize)
    ensures
        old(boundary)@.in_waker ==> count == 0 && final(boundary)@ == old(boundary)@.refused(),
        !old(boundary)@.in_waker ==> {
            &&& count == match query {
                Some(query) => query@.bind_count,
                None => 0,
            }
            &&& final(boundary)@ == old(boundary)@
        },
{
    if boundary.refuse_reentrant() {
        return 0;
    }
    match query {
        Some(query) => query.bind_count,
        None => 0,
    }
}

/// How many columns a prepared statement's result has.
pub fn reldex_metadata_query_column_count(
    boundary: &mut Boundary,
    query: Option<&ReldexMetadataQuery>,
) -> (count: usize)
    ensures
        old(boundary)@.in_waker ==> count == 0 && final(boundary)@ == old(boundary)@.refused(),
        !old(boundary)@.in_waker ==> {
            &&& count == match query {
                Some(query) => query@.columns.len(),
                None => 0,
            }
            &&& final(boundary)@ == old(boundary)@
        },
{
    if boundary.refuse_reentrant() {
        return 0;
    }
    match query {
        Some(query) => query.columns.len(),
        None => 0,
    }
}

/// What a caller is told who asks for a column a statement does not have.
pub open spec fn no_query_column(column: usize, count: nat) -> ErrorModel {
    ErrorModel::internal(
        "reldex-ffi: reldex_metadata_query_column: column "@ + decimal(column as nat)
            + " is out of range; the contract has "@ + decimal(count) + " columns"@,
    )
}

/// Describes column `index` of a prepared statement's result. `out` is how many
/// bytes the caller's struct takes, or nothing where it was refused.
pub fn reldex_metadata_query_column<'a>(
    boundary: &mut Boundary,
    query: Option<&'a ReldexMetadataQuery>,
    index: usize,
    out: Option<u32>,
) -> (info: Result<ReldexColumnInfo<'a>, ReldexStatus>)
    ensures
        old(boundary)@.in_waker ==> {
            &&& info == Err::<ReldexColumnInfo<'a>, _>(ReldexStatus::Reentrant)
            &&& final(boundary)@ == old(boundary)@.refused()
        },
        !old(boundary)@.in_waker ==> match query {
            None => {
                &&& info == Err::<ReldexColumnInfo<'a>, _>(ReldexStatus::InvalidArgument)
                &&& final(boundary)@ == old(boundary)@.argument_error(
                    "reldex_metadata_query_column: `query` is null"@,
                )
            },
            Some(query) => if index >= query@.columns.len() {
                &&& info == Err::<ReldexColumnInfo<'a>, _>(ReldexStatus::NotFound)
                &&& final(boundary)@ == old(boundary)@.failed(
                    no_query_column(index, query@.columns.len()),
                )
            } else {
                match out {
                    None => {
                        &&& info == Err::<ReldexColumnInfo<'a>, _>(ReldexStatus::InvalidArgument)
                        &&& final(boundary)@ == old(boundary)@.argument_error(
                            "reldex_metadata_query_column: `out` is null, unaligned, or too small"@,
                        )
                    },
                    Some(valid) => {
                        let column = query@.columns[index as int];
                        &&& info matches Ok(info) && info.struct_size == valid && info.describes(
                            column.declared,
                            Some(column),
                        )
                        &&& final(boundary)@ == old(boundary)@
                    },
                }
            },
        },
{
    if boundary.refuse_reentrant() {
        return Err(ReldexStatus::Reentrant);
    }
    let query = match query {
        None => return Err(
            boundary.set_last_argument_error("reldex_metadata_query_column: `query` is null"),
        ),
        Some(query) => query,
    };
    let info = match query.columns.info(index) {
        None => {
            let mut text = String::from_str("reldex-ffi: reldex_metadata_query_column: column ");
            push_decimal(&mut text, index as u64);
            text.append(" is out of range; the contract has ");
            push_decimal(&mut text, query.columns.len() as u64);
            text.append(" columns");
            boundary.set_last_error(DbError::internal(text));
            return Err(ReldexStatus::NotFound);
        },
        Some(info) => info,
    };
    match out {
        None => Err(
            boundary.set_last_argument_error(
                "reldex_metadata_query_column: `out` is null, unaligned, or too small",
            ),
        ),
        Some(valid) => Ok(ReldexColumnInfo { struct_size: valid, ..info }),
    }
}

/// What is wrong with an error that is to be classified anew.
pub open spec fn wrong_error(
    query: Option<&ReldexMetadataQuery>,
    kind: i32,
    message: ReldexStr<'_>,
) -> Option<Seq<char>> {
    if query is None {
        Some("reldex_metadata_query_reclassify_error: `query` is null"@)
    } else if !(1 <= kind <= ReldexErrorKind::Other as i32) {
        Some(
            "reldex_metadata_query_reclassify_error: `kind_in` is not a ReldexErrorKind this build accepts as input"@,
        )
    } else if message.text() is None {
        Some("reldex_metadata_query_reclassify_error: `message_in` is not valid UTF-8"@)
    } else {
        None
    }
}

/// Makes the error that the query's classifier is to look at. Where there is
/// none, the last error says why.
pub fn reldex_metadata_query_reclassify_error(
    boundary: &mut Boundary,
    query: Option<&ReldexMetadataQuery>,
    kind_in: i32,
    native_code_in: i32,
    has_native_code_in: bool,
    message_in: ReldexStr<'_>,
) -> (built: Option<DbError>)
    requires
        message_in.readable(),
    ensures
        old(boundary)@.in_waker ==> built is None && final(boundary)@ == old(boundary)@.refused(),
        !old(boundary)@.in_waker ==> match wrong_error(query, kind_in, message_in) {
            Some(message) => {
                &&& built is None
                &&& final(boundary)@ == old(boundary)@.argument_error(message)
            },
            None => {
                &&& final(boundary)@ == old(boundary)@
                &&& built matches Some(error) && {
                    &&& error@.kind as i32 == kind_in
                    &&& error@ == (ErrorModel {
                        native_code: if has_native_code_in {
                            Some(native_code_in)
                        } else {
                            None
                        },
                        native_message: if has_native_code_in {
                            Some(Seq::empty())
                        } else {
                            None
                        },
                        ..ErrorModel::plain(error@.kind, message_in.text()->0)
                    })
                }
            },
        },
{
    if boundary.refuse_reentrant() {
        return None;
    }
    if query.is_none() {
        boundary.set_last_argument_error("reldex_metadata_query_reclassify_error: `query` is null");
        return None;
    }
    let kind = match ReldexErrorKind::from_i32(kind_in) {
        Some(kind) => kind.to_error_kind(),
        None => None,
    };
    let kind = match kind {
        Some(kind) => kind,
        None => {
            boundary.set_last_argument_error(
                "reldex_metadata_query_reclassify_error: `kind_in` is not a ReldexErrorKind this build accepts as input",
            );
            return None;
        },
    };
    let message = match message_in.as_str() {
        Some(message) => message,
        None => {
            boundary.set_last_argument_error(
                "reldex_metadata_query_reclassify_error: `message_in` is not valid UTF-8",
            );
            return None;
        },
    };
    let mut built = DbError::new(kind, message.to_owned());
    if has_native_code_in {
        built.native = Some(NativeError { code: native_code_in, message: String::new() });
    }
    Some(built)
}

/// Ends a classification: `corrected` is what the classifier made of the error,
/// where it made anything else of it.
pub fn finish_reclassify(boundary: &mut Boundary, built: DbError, corrected: Option<DbError>) -> (
error: ReldexError)
    ensures
        error@ == match corrected {
            Some(corrected) => corrected@,
            None => built@,
        },
        final(boundary)@ == old(boundary)@.plus(Kind::Error),
{
    let error = match corrected {
        Some(corrected) => corrected,
        None => built,
    };
    ReldexError::from_db_error(&mut boundary.live, &error)
}

/// Releases a prepared statement. Nothing to release is no failure; a refused
/// call leaves the statement with the caller.
pub fn reldex_metadata_query_release(
    boundary: &mut Boundary,
    query: Option<ReldexMetadataQuery>,
) -> (kept: Option<ReldexMetadataQuery>)
    ensures
        old(boundary)@.in_waker ==> kept == query && final(boundary)@ == old(boundary)@.refused(),
        !old(boundary)@.in_waker ==> kept is None && final(boundary)@ == if query is Some {
            old(boundary)@.minus(Kind::WorkspaceObject)
        } else {
            old(boundary)@
        },
{
    if boundary.refuse_reentrant() {
        return query;
    }
    if query.is_some() {
        boundary.live.destroyed(Kind::WorkspaceObject);
    }
    None
}

/// A number that names a group of objects names that group and no other.
pub proof fn a_group_is_known_by_its_number(
    value: i32,
    named: Option<ReldexMetadataObjectKind>,
    kind: Option<MetadataObjectKind>,
)
    requires
        call_ensures(ReldexMetadataObjectKind::from_i32, (value,), named),
        named matches Some(named) ==> call_ensures(
            ReldexMetadataObjectKind::to_object_kind,
            (named,),
            kind,
        ),
        named is None ==> kind is None,
    ensures
        kind is Some <==> 1 <= value <= 9,
        value == 1 <==> kind == Some(MetadataObjectKind::Tables),
        value == 2 <==> kind == Some(MetadataObjectKind::Views),
        value == 3 <==> kind == Some(MetadataObjectKind::Packages),
        value == 4 <==> kind == Some(MetadataObjectKind::PackageBodies),
        value == 5 <==> kind == Some(MetadataObjectKind::Procedures),
        value == 6 <==> kind == Some(MetadataObjectKind::Functions),
        value == 7 <==> kind == Some(MetadataObjectKind::Triggers),
        value == 8 <==> kind == Some(MetadataObjectKind::Sequences),
        value == 9 <==> kind == Some(MetadataObjectKind::Synonyms),
{
}

/// A request that is let through carries what its caller gave: the limit, the
/// schema, the table and the group as they were passed, and the filter exactly
/// where the caller says that there is one. It is let through exactly where its
/// number is known and what belongs to it can be read; a refused one is an
/// argument error.
pub proof fn a_request_carries_what_its_caller_gave(
    boundary: &mut Boundary,
    request: ReldexMetadataRequest<'_>,
    built: Result<MetadataRequest<String>, ReldexStatus>,
)
    requires
        call_ensures(build_request, (boundary, &request), built),
    ensures
        built matches Ok(MetadataRequest::Schemas { limit, name_filter }) ==> {
            &&& request.kind == 1
            &&& limit == request.limit
            &&& limit > 0
            &&& name_filter is Some <==> request.has_name_filter
            &&& name_filter matches Some(filter) ==> request.name_filter.text() == Some(filter@)
        },
        built matches Ok(MetadataRequest::ObjectsOfKind { schema, kind, limit, name_filter }) ==> {
            &&& request.kind == 2
            &&& request.schema.text() == Some(schema@)
            &&& kind == MetadataObjectKind::Tables <==> request.object_kind == 1
            &&& kind == MetadataObjectKind::Views <==> request.object_kind == 2
            &&& kind == MetadataObjectKind::Packages <==> request.object_kind == 3
            &&& kind == MetadataObjectKind::PackageBodies <==> request.object_kind == 4
            &&& kind == MetadataObjectKind::Procedures <==> request.object_kind == 5
            &&& kind == MetadataObjectKind::Functions <==> request.object_kind == 6
            &&& kind == MetadataObjectKind::Triggers <==> request.object_kind == 7
            &&& kind == MetadataObjectKind::Sequences <==> request.object_kind == 8
            &&& kind == MetadataObjectKind::Synonyms <==> request.object_kind == 9
            &&& limit == request.limit
            &&& limit > 0
            &&& name_filter is Some <==> request.has_name_filter
            &&& name_filter matches Some(filter) ==> request.name_filter.text() == Some(filter@)
        },
        built matches Ok(MetadataRequest::ColumnsOf { schema, table }) ==> {
            &&& request.kind == 3
            &&& request.schema.text() == Some(schema@)
            &&& request.table.text() == Some(table@)
        },
        request.kind == 1 ==> (built is Ok <==> {
            &&& request.limit > 0
            &&& request.has_name_filter ==> request.name_filter.text() is Some
        }),
        request.kind == 2 ==> (built is Ok <==> {
            &&& request.schema.text() is Some
            &&& 1 <= request.object_kind <= 9
            &&& request.limit > 0
            &&& request.has_name_filter ==> request.name_filter.text() is Some
        }),
        request.kind == 3 ==> (built is Ok <==> request.schema.text() is Some
            && request.table.text() is Some),
        !(1 <= request.kind <= 3) ==> built is Err,
        built matches Err(status) ==> status == ReldexStatus::InvalidArgument,
        built is Ok ==> final(boundary)@ == old(boundary)@,
        final(boundary)@.in_waker == old(boundary)@.in_waker,
{
}

/// What prepares a request builds the very one that its caller's struct describes.
/// A call from a waker, a struct that cannot be read and a place that cannot be
/// written to are refused before anything is built.
pub proof fn a_prepared_request_is_the_callers(
    boundary: &mut Boundary,
    request: InParam<ReldexMetadataRequest<'_>>,
    out_aligned: bool,
    answer: Result<MetadataRequest<String>, ReldexStatus>,
)
    requires
        call_ensures(reldex_metadata_prepare, (boundary, request, out_aligned), answer),
    ensures
        answer == Err::<MetadataRequest<String>, _>(ReldexStatus::Reentrant) <==> old(
            boundary,
        )@.in_waker,
        answer is Ok ==> request is Given && out_aligned && final(boundary)@ == old(boundary)@,
        answer matches Ok(MetadataRequest::Schemas { limit, name_filter }) ==> {
            let given = request->Given_0;
            &&& given.kind == 1
            &&& limit == given.limit
            &&& name_filter is Some <==> given.has_name_filter
            &&& name_filter matches Some(filter) ==> given.name_filter.text() == Some(filter@)
        },
        answer matches Ok(MetadataRequest::ObjectsOfKind { schema, kind, limit, name_filter }) ==> {
            let given = request->Given_0;
            &&& given.kind == 2
            &&& given.schema.text() == Some(schema@)
            &&& kind as i32 + 1 == given.object_kind
            &&& limit == given.limit
            &&& name_filter is Some <==> given.has_name_filter
            &&& name_filter matches Some(filter) ==> given.name_filter.text() == Some(filter@)
        },
        answer matches Ok(MetadataRequest::ColumnsOf { schema, table }) ==> {
            let given = request->Given_0;
            &&& given.kind == 3
            &&& given.schema.text() == Some(schema@)
            &&& given.table.text() == Some(table@)
        },
        request matches InParam::Given(given) ==> (!old(boundary)@.in_waker && out_aligned
            && given.schema.text() is Some && given.table.text() is Some
            && given.name_filter.text() is Some && given.limit > 0 && 1 <= given.object_kind <= 9
            && 1 <= given.kind <= 3 ==> answer is Ok),
{
}

/// A prepared query is kept as the catalog gave it: its text, its columns one by
/// one, and how many values it binds, by position or by name. A catalog's failure
/// is recorded in its own words.
pub proof fn a_prepared_query_is_kept_as_given(
    boundary: &mut Boundary,
    prepared: Result<PreparedMetadata, DbError>,
    keep: bool,
    answer: Result<Option<ReldexMetadataQuery>, ReldexStatus>,
)
    requires
        call_ensures(finish_prepare, (boundary, prepared, keep), answer),
    ensures
        prepared is Err <==> answer is Err,
        prepared matches Err(error) ==> {
            &&& answer->Err_0 == ReldexStatus::Error
            &&& final(boundary)@.last_error == Some(error@)
        },
        prepared is Ok ==> {
            &&& answer->Ok_0 is Some <==> keep
            &&& final(boundary)@.last_error == old(boundary)@.last_error
            &&& !keep ==> final(boundary)@ == old(boundary)@
        },
        prepared matches Ok(given) ==> (answer matches Ok(Some(query)) ==> {
            &&& query@.sql == given.sql@
            &&& query@.columns.len() == given.columns@.len()
            &&& forall|i: int|
                0 <= i < given.columns@.len() ==> #[trigger] query@.columns[i]
                    == given.columns@[i]@
            &&& given.binds matches Binds::Positional(count) ==> query@.bind_count == count
            &&& given.binds matches Binds::Named(count) ==> query@.bind_count == count
            &&& given.binds is Unbound || given.binds is Unrecognized ==> query@.bind_count == 0
        }),
{
}

/// A query hands out the text it was prepared with, how many values it binds and
/// how many columns it has; nothing where there is no query.
pub proof fn a_query_is_read_back(
    boundary: &mut Boundary,
    query: Option<&ReldexMetadataQuery>,
    sql: ReldexStr<'_>,
    binds: usize,
    columns: usize,
)
    requires
        !old(boundary)@.in_waker,
        call_ensures(reldex_metadata_query_sql, (boundary, query), sql),
        call_ensures(reldex_metadata_query_bind_count, (boundary, query), binds),
        call_ensures(reldex_metadata_query_column_count, (boundary, query), columns),
    ensures
        query matches Some(query) ==> {
            &&& sql.text() == Some(query@.sql)
            &&& binds == query@.bind_count
            &&& columns == query@.columns.len()
        },
        query is None ==> {
            &&& sql.text() == Some(Seq::<char>::empty())
            &&& binds == 0
            &&& columns == 0
        },
        final(boundary)@ == old(boundary)@,
{
}

/// A failure of a catalog's statement is rebuilt as its caller reports it: its
/// category by number, its message, and its native code where there is one.
pub proof fn a_reported_failure_is_rebuilt(
    boundary: &mut Boundary,
    query: Option<&ReldexMetadataQuery>,
    kind_in: i32,
    native_code_in: i32,
    has_native_code_in: bool,
    message_in: ReldexStr<'_>,
    built: Option<DbError>,
)
    requires
        !old(boundary)@.in_waker,
        call_ensures(
            reldex_metadata_query_reclassify_error,
            (boundary, query, kind_in, native_code_in, has_native_code_in, message_in),
            built,
        ),
    ensures
        built is Some <==> query is Some && 1 <= kind_in <= ReldexErrorKind::Other as i32
            && message_in.text() is Some,
        built matches Some(error) ==> {
            &&& error@.kind as i32 == kind_in
            &&& message_in.text() == Some(error@.message)
            &&& error@.native_code is Some <==> has_native_code_in
            &&& has_native_code_in ==> error@.native_code == Some(native_code_in)
            &&& final(boundary)@ == old(boundary)@
        },
{
}

/// The catalog's correction of a failure is the one that is told, and the failure
/// itself where the catalog has none.
pub proof fn a_correction_is_what_is_told(
    boundary: &mut Boundary,
    built: DbError,
    corrected: Option<DbError>,
    error: ReldexError,
)
    requires
        call_ensures(finish_reclassify, (boundary, built, corrected), error),
    ensures
        corrected matches Some(corrected) ==> error@ == corrected@,
        corrected is None ==> error@ == built@,
{
}

/// A column of a prepared query is told as the catalog declared it; nothing is
/// told of a column behind the last, or of no query.
pub proof fn a_querys_column_is_told_as_declared(
    boundary: &mut Boundary,
    query: Option<&ReldexMetadataQuery>,
    index: usize,
    valid: u32,
    info: Result<ReldexColumnInfo<'_>, ReldexStatus>,
)
    requires
        !old(boundary)@.in_waker,
        call_ensures(reldex_metadata_query_column, (boundary, query, index, Some(valid)), info),
    ensures
        info is Ok <==> query is Some && index < query->0@.columns.len(),
        query is None ==> info->Err_0 == ReldexStatus::InvalidArgument,
        query is Some && info is Err ==> info->Err_0 == ReldexStatus::NotFound,
        info matches Ok(info) ==> {
            let declared = query->0@.columns[index as int];
            &&& info.struct_size == valid
            &&& info.name.text() == Some(declared.name)
            &&& info.nullable == 1 <==> declared.nullable == Some(true)
            &&& info.nullable == 2 <==> declared.nullable == Some(false)
            &&& info.has_precision <==> declared.precision is Some
            &&& declared.precision matches Some(precision) ==> info.precision == precision
            &&& info.has_scale <==> declared.scale is Some
            &&& declared.scale matches Some(scale) ==> info.scale == scale
            &&& final(boundary)@ == old(boundary)@
        },
{
}

/// A query that is kept is counted until it is released; a refused release leaves
/// it with its caller.
pub proof fn a_query_is_counted_until_released(
    before: &mut Boundary,
    prepared: PreparedMetadata,
    answer: Result<Option<ReldexMetadataQuery>, ReldexStatus>,
    boundary: &mut Boundary,
    kept: Option<ReldexMetadataQuery>,
)
    requires
        call_ensures(finish_prepare, (before, Ok(prepared), true), answer),
        call_ensures(reldex_metadata_query_release, (boundary, answer->Ok_0), kept),
    ensures
        old(before)@.live.misc_objects < usize::MAX ==> final(before)@.live.misc_objects == old(
            before,
        )@.live.misc_objects + 1,
        !old(boundary)@.in_waker ==> {
            &&& kept is None
            &&& old(boundary)@.live == final(before)@.live ==> final(boundary)@.live == old(
                before,
            )@.live
        },
        old(boundary)@.in_waker ==> kept == answer->Ok_0,
{
}

/// A column that a query does not have is told by its number, and by how many
/// columns there are.
pub proof fn a_missing_column_is_named(
    boundary: &mut Boundary,
    query: ReldexMetadataQuery,
    index: usize,
    out: Option<u32>,
    info: Result<ReldexColumnInfo<'_>, ReldexStatus>,
)
    requires
        !old(boundary)@.in_waker,
        index >= query@.columns.len(),
        call_ensures(reldex_metadata_query_column, (boundary, Some(&query), index, out), info),
    ensures
        info == Err::<ReldexColumnInfo<'_>, _>(ReldexStatus::NotFound),
        final(boundary)@.last_error is Some,
        final(boundary)@.last_error->0.message
            =~= "reldex-ffi: reldex_metadata_query_column: column "@ + decimal(index as nat)
            + " is out of range; the contract has "@ + decimal(query@.columns.len())
            + " columns"@,
{
}

} // verus!
