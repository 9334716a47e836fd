//! Batches as a caller reads them, and the texts rendered from them.

use reldex_ffi::batch::{
    reldex_batch_column, reldex_batch_column_count, reldex_batch_column_info,
    reldex_batch_release, reldex_batch_row_count, Column, ColumnData, ColumnKind, ColumnMetadata,
    FetchedBatch, FixedColumn, Number, ReldexBatch, ReldexColumnKind, ReldexNullable, ReldexNumber,
    ResultColumns, Timestamp,
};
use reldex_ffi::format::{
    reldex_batch_format_column, reldex_text_arena_clear, reldex_text_arena_count,
    reldex_text_arena_create, reldex_text_arena_release, reldex_text_arena_view,
    ReldexFormatOptions, ReldexTextArena, ReldexTimestampStyle,
};
use reldex_ffi::slots::{ByteSlots, TextSlots};
use reldex_ffi::status::{Boundary, ReldexStatus};
use reldex_ffi::strings::{InParam, ReldexStr};

fn texts(values: &[&str]) -> TextSlots {
    let mut slots = TextSlots::new();
    for value in values {
        slots = slots.push(value);
    }
    slots
}

fn described(name: &str, declared: ColumnKind) -> ColumnMetadata {
    ColumnMetadata {
        name: name.to_owned(),
        declared,
        nullable: Some(true),
        precision: Some(10),
        scale: Some(-2),
        max_size_bytes: None,
        native_type_name: Some("NUMBER".to_owned()),
    }
}

/// Three rows: text with a NULL, numbers, bytes, timestamps, and large objects.
fn batch(boundary: &mut Boundary) -> ReldexBatch {
    let bytes = ByteSlots::new()
        .push(&[0x0a, 0xff])
        .push(&[])
        .push(&[0x01]);
    let numbers = vec![
        Number {
            digits: vec![1, 2, 3, 4, 5, 6, 7, 2, 5],
            exponent: 7,
            negative: false,
        },
        Number {
            digits: vec![],
            exponent: 0,
            negative: false,
        },
        Number {
            digits: vec![5],
            exponent: 0,
            negative: true,
        },
    ];
    let stamp = Timestamp {
        nanosecond: 0,
        year: 2026,
        zone_offset_minutes: Some(420),
        month: 1,
        day: 2,
        hour: 13,
        minute: 45,
        second: 30,
    };
    let canonical = "2026-01-02T13:45:30+07:00";
    let rows = FetchedBatch {
        row_count: 3,
        columns: vec![
            Column {
                nulls: vec![0b010],
                data: ColumnData::Text(texts(&["one", "", "\u{e01}"])),
            },
            Column {
                nulls: vec![],
                data: ColumnData::Number {
                    values: numbers,
                    canonical: texts(&["1234567.25", "0", "-0.5"]),
                },
            },
            Column {
                nulls: vec![0],
                data: ColumnData::Bytes(bytes),
            },
            Column {
                nulls: vec![0],
                data: ColumnData::Timestamp {
                    values: vec![stamp, stamp, stamp],
                    canonical: texts(&[canonical, canonical, canonical]),
                },
            },
            Column {
                nulls: vec![0b100],
                data: ColumnData::Lob(3),
            },
            Column {
                nulls: vec![],
                data: ColumnData::Boolean(vec![true, false, true]),
            },
        ],
    };
    let columns = ResultColumns::new(vec![
        described("name", ColumnKind::Text),
        described("amount", ColumnKind::Number),
    ]);
    ReldexBatch::new(&mut boundary.live, rows, columns)
}

fn shown(boundary: &mut Boundary, arena: &ReldexTextArena) -> Vec<String> {
    let view = reldex_text_arena_view(boundary, Some(arena), Some(40)).expect("a view");
    assert_eq!(view.offsets.len(), view.count + 1);
    (0..view.count)
        .map(|index| {
            let bytes = &view.data[view.offsets[index]..view.offsets[index + 1]];
            String::from_utf8(bytes.to_vec()).expect("utf-8")
        })
        .collect()
}

#[test]
fn a_batch_is_counted_and_measured() {
    let mut boundary = Boundary::new();
    let rows = batch(&mut boundary);
    assert_eq!(boundary.live.batches, 1);
    assert_eq!(reldex_batch_row_count(&mut boundary, Some(&rows)), 3);
    assert_eq!(reldex_batch_column_count(&mut boundary, Some(&rows)), 6);
    assert_eq!(reldex_batch_row_count(&mut boundary, None), 0);
    assert!(reldex_batch_release(&mut boundary, Some(rows)).is_none());
    assert_eq!(boundary.live.batches, 0);
}

#[test]
fn a_column_is_described_by_its_result_and_else_by_its_storage() {
    let mut boundary = Boundary::new();
    let rows = batch(&mut boundary);
    let info = reldex_batch_column_info(&mut boundary, Some(&rows), 1, Some(72)).expect("a column");
    assert_eq!(info.struct_size, 72);
    assert_eq!(info.name.as_str(), Some("amount"));
    assert_eq!(info.kind, ReldexColumnKind::Number as i32);
    assert_eq!(info.nullable, ReldexNullable::Yes as i32);
    assert!(info.has_precision && info.precision == 10);
    assert!(info.has_scale && info.scale == -2);
    assert!(!info.has_max_size_bytes);
    assert_eq!(info.native_type_name.as_str(), Some("NUMBER"));

    let plain = reldex_batch_column_info(&mut boundary, Some(&rows), 2, Some(72)).expect("a column");
    assert_eq!(plain.kind, ReldexColumnKind::Bytes as i32);
    assert_eq!(plain.name.as_str(), Some(""));
    assert_eq!(plain.nullable, ReldexNullable::Unknown as i32);

    let missing = reldex_batch_column_info(&mut boundary, Some(&rows), 6, Some(72)).err();
    assert_eq!(missing, Some(ReldexStatus::NotFound));
    assert!(boundary.last_error.is_some(), "a failed call says why");
}

#[test]
fn text_is_read_between_its_offsets_and_nulls_from_the_bitmap() {
    let mut boundary = Boundary::new();
    let mut rows = batch(&mut boundary);
    let view = reldex_batch_column(&mut boundary, Some(&mut rows), 0, Some(96)).expect("a view");
    assert_eq!(view.kind, ReldexColumnKind::Text as i32);
    assert_eq!(view.row_count, 3);
    let data = view.data.expect("a buffer");
    let offsets = view.offsets.expect("offsets");
    assert_eq!(offsets, &[0, 3, 3, 6]);
    assert_eq!(&data[offsets[0]..offsets[1]], b"one");
    let bits = view.null_bits.expect("a bitmap");
    assert_eq!((bits[0] >> 1) & 1, 1, "the second row is NULL");
    assert_eq!(bits[0] & 1, 0);
    assert!(view.fixed.is_none());
}

#[test]
fn numbers_are_read_from_a_fixed_width_array() {
    let mut boundary = Boundary::new();
    let mut rows = batch(&mut boundary);
    let view = reldex_batch_column(&mut boundary, Some(&mut rows), 1, Some(96)).expect("a view");
    assert_eq!(view.kind, ReldexColumnKind::Number as i32);
    assert_eq!(view.fixed_len, 3);
    assert!(view.data.is_none());
    let Some(FixedColumn::Numbers(numbers)) = view.fixed else {
        panic!("numbers");
    };
    assert_eq!(numbers[0].digit_count, 9);
    assert_eq!(&numbers[0].digits[..9], &[1, 2, 3, 4, 5, 6, 7, 2, 5]);
    assert_eq!(numbers[0].digits[9], 0);
    assert_eq!(numbers[0].exponent, 7);
    assert_eq!(numbers[1].digit_count, 0, "zero has no digits");
    assert!(numbers[2].negative);
}

#[test]
fn a_number_with_too_many_digits_keeps_the_first_ones() {
    let long = Number {
        digits: vec![9; 45],
        exponent: 45,
        negative: false,
    };
    let copy = ReldexNumber::from_number(&long);
    assert_eq!(copy.digit_count, 40);
    assert_eq!(copy.digits, [9; 40]);
}

#[test]
fn a_column_view_is_refused_by_what_is_missing() {
    let mut boundary = Boundary::new();
    let mut rows = batch(&mut boundary);
    assert_eq!(
        reldex_batch_column(&mut boundary, None, 0, Some(96)).err(),
        Some(ReldexStatus::InvalidArgument)
    );
    assert_eq!(
        reldex_batch_column(&mut boundary, Some(&mut rows), 9, Some(96)).err(),
        Some(ReldexStatus::NotFound)
    );
    assert_eq!(
        reldex_batch_column(&mut boundary, Some(&mut rows), 0, None).err(),
        Some(ReldexStatus::InvalidArgument)
    );
    boundary.enter_waker();
    assert_eq!(
        reldex_batch_column(&mut boundary, Some(&mut rows), 0, Some(96)).err(),
        Some(ReldexStatus::Reentrant)
    );
}

#[test]
fn a_column_is_rendered_into_an_arena() {
    let mut boundary = Boundary::new();
    let rows = batch(&mut boundary);
    let mut arena = reldex_text_arena_create(&mut boundary).expect("an arena");
    assert_eq!(boundary.live.arenas, 1);
    let mut options = ReldexFormatOptions::default();
    options.grouping_separator = ',' as u32;
    options.null_text = ReldexStr {
        ptr: Some(b"(null)"),
        len: 6,
    };
    let status = reldex_batch_format_column(
        &mut boundary,
        Some(&rows),
        0,
        0,
        100,
        InParam::Given(options),
        Some(&mut arena),
    );
    assert_eq!(status, ReldexStatus::Okay);
    assert_eq!(shown(&mut boundary, &arena), ["one", "(null)", "\u{e01}"]);

    let status = reldex_batch_format_column(
        &mut boundary,
        Some(&rows),
        1,
        0,
        2,
        InParam::Given(options),
        Some(&mut arena),
    );
    assert_eq!(status, ReldexStatus::Okay);
    assert_eq!(
        shown(&mut boundary, &arena)[3..],
        ["1,234,567.25", "0"],
        "texts are put behind those that are there"
    );
    assert_eq!(reldex_text_arena_count(&mut boundary, Some(&arena)), 5);
    let before = reldex_text_arena_view(&mut boundary, Some(&arena), Some(40)).expect("a view");
    let buffers = (before.data.as_ptr() as usize, before.offsets.as_ptr() as usize);
    reldex_text_arena_clear(&mut boundary, Some(&mut arena));
    assert_eq!(reldex_text_arena_count(&mut boundary, Some(&arena)), 0);
    assert!(shown(&mut boundary, &arena).is_empty());
    let status = reldex_batch_format_column(
        &mut boundary,
        Some(&rows),
        0,
        0,
        100,
        InParam::Given(options),
        Some(&mut arena),
    );
    assert_eq!(status, ReldexStatus::Okay);
    assert_eq!(shown(&mut boundary, &arena), ["one", "(null)", "\u{e01}"]);
    let after = reldex_text_arena_view(&mut boundary, Some(&arena), Some(40)).expect("a view");
    assert_eq!(
        (after.data.as_ptr() as usize, after.offsets.as_ptr() as usize),
        buffers,
        "the next window goes where the last one was"
    );
    assert!(reldex_text_arena_release(&mut boundary, Some(arena)).is_none());
    assert_eq!(boundary.live.arenas, 0);
}

#[test]
fn every_kind_of_cell_has_its_rendering() {
    let mut boundary = Boundary::new();
    let rows = batch(&mut boundary);
    let mut arena = reldex_text_arena_create(&mut boundary).expect("an arena");
    for column in 2..6 {
        let status = reldex_batch_format_column(
            &mut boundary,
            Some(&rows),
            column,
            0,
            3,
            InParam::Null,
            Some(&mut arena),
        );
        assert_eq!(status, ReldexStatus::Okay);
    }
    assert_eq!(
        shown(&mut boundary, &arena),
        [
            "0AFF",
            "",
            "01",
            "2026-01-02T13:45:30+07:00",
            "2026-01-02T13:45:30+07:00",
            "2026-01-02T13:45:30+07:00",
            "[LOB]",
            "[LOB]",
            "",
            "true",
            "false",
            "true",
        ]
    );
}

#[test]
fn a_zeroed_options_struct_means_the_defaults() {
    let mut boundary = Boundary::new();
    let rows = batch(&mut boundary);
    let mut arena = reldex_text_arena_create(&mut boundary).expect("an arena");
    let zeroed = ReldexFormatOptions {
        decimal_separator: 0,
        grouping_separator: 0,
        grouping_size: 0,
        timestamp_style: 0,
        bytes_style: 0,
        max_fraction_digits: 0,
        max_bytes_rendered: 0,
        null_text: ReldexStr { ptr: None, len: 0 },
        taken_text: ReldexStr { ptr: None, len: 0 },
    };
    for column in [1, 4] {
        let status = reldex_batch_format_column(
            &mut boundary,
            Some(&rows),
            column,
            0,
            1,
            InParam::Given(zeroed),
            Some(&mut arena),
        );
        assert_eq!(status, ReldexStatus::Okay);
    }
    assert_eq!(shown(&mut boundary, &arena), ["1234567.25", "[LOB]"]);
}

#[test]
fn rows_past_the_end_of_a_batch_are_left_out() {
    let mut boundary = Boundary::new();
    let rows = batch(&mut boundary);
    let mut arena = reldex_text_arena_create(&mut boundary).expect("an arena");
    for (start, count) in [(2, 5), (3, 1), (usize::MAX, usize::MAX)] {
        let status = reldex_batch_format_column(
            &mut boundary,
            Some(&rows),
            5,
            start,
            count,
            InParam::Null,
            Some(&mut arena),
        );
        assert_eq!(status, ReldexStatus::Okay);
    }
    assert_eq!(shown(&mut boundary, &arena), ["true"]);
}

#[test]
fn a_rendering_is_refused_by_what_is_missing() {
    let mut boundary = Boundary::new();
    let rows = batch(&mut boundary);
    let mut arena = reldex_text_arena_create(&mut boundary).expect("an arena");
    assert_eq!(
        reldex_batch_format_column(&mut boundary, None, 0, 0, 1, InParam::Null, Some(&mut arena)),
        ReldexStatus::InvalidArgument
    );
    assert_eq!(
        reldex_batch_format_column(&mut boundary, Some(&rows), 0, 0, 1, InParam::Null, None),
        ReldexStatus::InvalidArgument
    );
    assert_eq!(
        reldex_batch_format_column(
            &mut boundary,
            Some(&rows),
            0,
            0,
            1,
            InParam::Refused,
            Some(&mut arena)
        ),
        ReldexStatus::InvalidArgument
    );
    assert_eq!(
        reldex_batch_format_column(
            &mut boundary,
            Some(&rows),
            6,
            0,
            1,
            InParam::Null,
            Some(&mut arena)
        ),
        ReldexStatus::NotFound
    );
    let error = boundary.take_last_error().expect("a failed call says why");
    assert!(error.message().contains("column 6"), "{}", error.message());
    assert_eq!(reldex_text_arena_count(&mut boundary, Some(&arena)), 0);
}

#[test]
fn an_empty_arena_still_has_readable_memory() {
    let mut boundary = Boundary::new();
    let arena = reldex_text_arena_create(&mut boundary).expect("an arena");
    let view = reldex_text_arena_view(&mut boundary, Some(&arena), Some(40)).expect("a view");
    assert_eq!(view.data, &[0]);
    assert_eq!(view.data_len, 0);
    assert_eq!(view.offsets, &[0]);
    assert_eq!(
        reldex_text_arena_view(&mut boundary, None, Some(40)).err(),
        Some(ReldexStatus::InvalidArgument)
    );
}

#[test]
fn a_separator_that_is_no_character_falls_back() {
    let mut options = ReldexFormatOptions::default();
    options.decimal_separator = 0xD800;
    options.grouping_separator = 0x11_0000;
    options.timestamp_style = ReldexTimestampStyle::DateOnly as i32;
    let resolved = options.resolve();
    assert_eq!(resolved.decimal, '.');
    assert!(resolved.grouping.is_none());
    options.decimal_separator = 0x66B;
    assert_eq!(options.resolve().decimal, '\u{66b}');
}
