//! Metadata requests and the statements prepared for them.

use reldex_ffi::batch::{ColumnKind, ColumnMetadata};
use reldex_ffi::error::{reldex_error_free, DbError, ErrorKind, ReldexErrorKind};
use reldex_ffi::metadata::{
    finish_prepare, finish_reclassify, reldex_metadata_prepare, reldex_metadata_query_bind_count,
    reldex_metadata_query_column, reldex_metadata_query_column_count,
    reldex_metadata_query_reclassify_error, reldex_metadata_query_release,
    reldex_metadata_query_sql, Binds, MetadataObjectKind, MetadataRequest, PreparedMetadata,
    ReldexMetadataObjectKind, ReldexMetadataQuery, ReldexMetadataRequest,
    ReldexMetadataRequestKind,
};
use reldex_ffi::status::{Boundary, ReldexStatus};
use reldex_ffi::strings::{InParam, ReldexStr};

fn str_of(text: &str) -> ReldexStr<'_> {
    ReldexStr {
        ptr: Some(text.as_bytes()),
        len: text.len(),
    }
}

fn schemas(limit: u32) -> ReldexMetadataRequest<'static> {
    ReldexMetadataRequest {
        kind: ReldexMetadataRequestKind::Schemas as i32,
        object_kind: 0,
        schema: ReldexStr::empty(),
        table: ReldexStr::empty(),
        name_filter: ReldexStr::empty(),
        has_name_filter: false,
        limit,
    }
}

/// A catalog that answers the schemas request.
fn catalog(request: &MetadataRequest<String>) -> Result<PreparedMetadata, DbError> {
    match request {
        MetadataRequest::Schemas { .. } => Ok(PreparedMetadata {
            sql: "SELECT username FROM ALL_USERS FETCH FIRST :1 ROWS ONLY".to_owned(),
            binds: Binds::Positional(1),
            columns: vec![ColumnMetadata {
                name: "name".to_owned(),
                declared: ColumnKind::Text,
                nullable: Some(false),
                precision: None,
                scale: None,
                max_size_bytes: Some(128),
                native_type_name: None,
            }],
        }),
        _ => Err(DbError::new(ErrorKind::Unsupported, "not here".to_owned())),
    }
}

fn prepared(boundary: &mut Boundary) -> ReldexMetadataQuery {
    let built = reldex_metadata_prepare(boundary, InParam::Given(schemas(100)), true)
        .expect("the request is in order");
    finish_prepare(boundary, catalog(&built), true)
        .expect("the catalog answers")
        .expect("there is a place for it")
}

fn refusal(boundary: &mut Boundary, request: ReldexMetadataRequest<'_>) -> String {
    let status = reldex_metadata_prepare(boundary, InParam::Given(request), true).err();
    assert_eq!(status, Some(ReldexStatus::InvalidArgument));
    let error = boundary.take_last_error().expect("a refused call records why");
    error.message().to_owned()
}

#[test]
fn a_schemas_request_prepares_a_statement_with_binds_and_columns() {
    let mut boundary = Boundary::new();
    let query = prepared(&mut boundary);
    assert_eq!(boundary.live.misc_objects, 1);

    let sql = reldex_metadata_query_sql(&mut boundary, Some(&query));
    let sql_text = sql
        .as_str()
        .expect("the prepared statement's SQL is valid UTF-8");
    assert!(sql_text.contains("ALL_USERS"));
    assert!(reldex_metadata_query_bind_count(&mut boundary, Some(&query)) > 0);
    let columns = reldex_metadata_query_column_count(&mut boundary, Some(&query));
    assert!(columns > 0);
    let info =
        reldex_metadata_query_column(&mut boundary, Some(&query), 0, Some(72)).expect("a column");
    assert_eq!(info.name.as_str(), Some("name"));

    let built = reldex_metadata_query_reclassify_error(
        &mut boundary,
        Some(&query),
        ReldexErrorKind::Other as i32,
        123,
        true,
        str_of("no such object"),
    )
    .expect("an error to classify");
    assert_eq!(built.native.as_ref().map(|native| native.code), Some(123));
    let error = finish_reclassify(&mut boundary, built, None);
    assert_eq!(error.kind(), ReldexErrorKind::Other);
    assert_eq!(error.message(), "no such object");
    assert!(reldex_error_free(&mut boundary, Some(error)).is_none());

    assert!(reldex_metadata_query_release(&mut boundary, Some(query)).is_none());
    assert_eq!(boundary.live.misc_objects, 0);
    assert_eq!(boundary.live.errors, 0);
}

#[test]
fn an_unknown_request_kind_is_refused() {
    let mut boundary = Boundary::new();
    let mut request = schemas(1);
    request.kind = 0;
    let message = refusal(&mut boundary, request);
    assert_eq!(
        message,
        "reldex-ffi: reldex_metadata_prepare: `kind` is not a ReldexMetadataRequestKind this build knows"
    );
}

#[test]
fn a_request_is_refused_by_the_first_thing_wrong_with_it() {
    let mut boundary = Boundary::new();
    assert!(refusal(&mut boundary, schemas(0)).ends_with("`limit` must be above zero"));

    let mut filtered = schemas(1);
    filtered.has_name_filter = true;
    filtered.name_filter = ReldexStr {
        ptr: Some(b"\xff"),
        len: 1,
    };
    assert!(refusal(&mut boundary, filtered).ends_with("`name_filter` is not valid UTF-8"));
    filtered.has_name_filter = false;
    assert!(
        reldex_metadata_prepare(&mut boundary, InParam::Given(filtered), true).is_ok(),
        "a filter that does not apply is not looked at"
    );

    let mut objects = schemas(0);
    objects.kind = ReldexMetadataRequestKind::ObjectsOfKind as i32;
    objects.object_kind = 10;
    assert!(refusal(&mut boundary, objects).contains("`object_kind`"));
    objects.object_kind = ReldexMetadataObjectKind::Synonyms as i32;
    assert!(refusal(&mut boundary, objects).contains("`limit`"));
    objects.schema = ReldexStr { ptr: None, len: 4 };
    assert!(refusal(&mut boundary, objects).contains("`schema` is not valid UTF-8"));

    let mut columns = schemas(0);
    columns.kind = ReldexMetadataRequestKind::ColumnsOf as i32;
    columns.table = ReldexStr { ptr: None, len: 4 };
    assert!(refusal(&mut boundary, columns).contains("`schema`/`table`"));

    let status = reldex_metadata_prepare(&mut boundary, InParam::Null, true).err();
    assert_eq!(status, Some(ReldexStatus::InvalidArgument));
    let status = reldex_metadata_prepare(&mut boundary, InParam::Given(schemas(1)), false).err();
    assert_eq!(status, Some(ReldexStatus::InvalidArgument));
}

#[test]
fn objects_and_columns_are_asked_for_by_name() {
    let mut boundary = Boundary::new();
    let mut objects = schemas(50);
    objects.kind = ReldexMetadataRequestKind::ObjectsOfKind as i32;
    objects.object_kind = ReldexMetadataObjectKind::PackageBodies as i32;
    objects.schema = str_of("HR");
    objects.name_filter = str_of("emp");
    objects.has_name_filter = true;
    let built = reldex_metadata_prepare(&mut boundary, InParam::Given(objects), true);
    let Ok(MetadataRequest::ObjectsOfKind {
        schema,
        kind,
        limit,
        name_filter,
    }) = built
    else {
        panic!("objects of a kind");
    };
    assert_eq!(schema, "HR");
    assert_eq!(kind, MetadataObjectKind::PackageBodies);
    assert_eq!(limit, 50);
    assert_eq!(name_filter.as_deref(), Some("emp"));

    let mut columns = schemas(0);
    columns.kind = ReldexMetadataRequestKind::ColumnsOf as i32;
    columns.schema = str_of("HR");
    columns.table = str_of("EMPLOYEES");
    let built = reldex_metadata_prepare(&mut boundary, InParam::Given(columns), true);
    let Ok(MetadataRequest::ColumnsOf { schema, table }) = &built else {
        panic!("columns of a table");
    };
    assert_eq!((schema.as_str(), table.as_str()), ("HR", "EMPLOYEES"));
    let failed = finish_prepare(&mut boundary, catalog(&built.expect("as above")), true).err();
    assert_eq!(failed, Some(ReldexStatus::Error));
    let error = boundary.take_last_error().expect("the catalog's own error");
    assert_eq!(error.kind(), ReldexErrorKind::Unsupported);
}

#[test]
fn a_query_without_a_place_is_not_kept() {
    let mut boundary = Boundary::new();
    let built = reldex_metadata_prepare(&mut boundary, InParam::Given(schemas(1)), true)
        .expect("the request is in order");
    let kept = finish_prepare(&mut boundary, catalog(&built), false).expect("answered");
    assert!(kept.is_none());
    assert_eq!(boundary.live.misc_objects, 0);
}

#[test]
fn a_query_answers_for_its_own_columns_only() {
    let mut boundary = Boundary::new();
    let query = prepared(&mut boundary);
    let missing = reldex_metadata_query_column(&mut boundary, Some(&query), 1, Some(72)).err();
    assert_eq!(missing, Some(ReldexStatus::NotFound));
    let error = boundary.take_last_error().expect("a failed call says why");
    assert_eq!(
        error.message(),
        "reldex-ffi: reldex_metadata_query_column: column 1 is out of range; the contract has 1 columns"
    );
    let nowhere = reldex_metadata_query_column(&mut boundary, Some(&query), 0, None).err();
    assert_eq!(nowhere, Some(ReldexStatus::InvalidArgument));
    let nothing = reldex_metadata_query_column(&mut boundary, None, 0, Some(72)).err();
    assert_eq!(nothing, Some(ReldexStatus::InvalidArgument));
    assert_eq!(reldex_metadata_query_bind_count(&mut boundary, None), 0);
    assert_eq!(
        reldex_metadata_query_sql(&mut boundary, None).as_str(),
        Some("")
    );
}

#[test]
fn an_error_is_classified_anew_or_refused() {
    let mut boundary = Boundary::new();
    let query = prepared(&mut boundary);
    for kind in [0, 16, -1] {
        let built = reldex_metadata_query_reclassify_error(
            &mut boundary,
            Some(&query),
            kind,
            0,
            false,
            str_of("text"),
        );
        assert!(built.is_none());
        assert!(boundary.take_last_error().is_some());
    }
    let built = reldex_metadata_query_reclassify_error(
        &mut boundary,
        None,
        ReldexErrorKind::Other as i32,
        0,
        false,
        str_of("text"),
    );
    assert!(built.is_none());
    let built = reldex_metadata_query_reclassify_error(
        &mut boundary,
        Some(&query),
        ReldexErrorKind::Syntax as i32,
        942,
        false,
        str_of("text"),
    )
    .expect("an error to classify");
    assert!(built.native.is_none(), "a code that is not there is not read");
    let corrected = DbError::new(ErrorKind::Permission, "not yours".to_owned());
    let error = finish_reclassify(&mut boundary, built, Some(corrected));
    assert_eq!(error.kind(), ReldexErrorKind::Permission);
    assert_eq!(error.message(), "not yours");
}

#[test]
fn object_kinds_have_stable_numbers() {
    let kinds = [
        MetadataObjectKind::Tables,
        MetadataObjectKind::Views,
        MetadataObjectKind::Packages,
        MetadataObjectKind::PackageBodies,
        MetadataObjectKind::Procedures,
        MetadataObjectKind::Functions,
        MetadataObjectKind::Triggers,
        MetadataObjectKind::Sequences,
        MetadataObjectKind::Synonyms,
    ];
    for (index, kind) in kinds.into_iter().enumerate() {
        let read = ReldexMetadataObjectKind::from_i32(index as i32 + 1).expect("a known number");
        assert_eq!(read.to_object_kind(), Some(kind));
    }
    assert!(ReldexMetadataObjectKind::from_i32(0).is_none());
    assert!(ReldexMetadataObjectKind::Unknown.to_object_kind().is_none());
}
