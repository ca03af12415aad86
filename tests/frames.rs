use polars::prelude::{DataFrame, DataType, IntoColumn, NamedFrom, Series};
use tabiew::cells::{bytes_to_string, column_width, matching_rows, CellValue, GetSheetSections, TuiWidths};
use tabiew::infer::{lossless_choice, SafeInferSchema};

fn text_frame(columns: &[(&str, &[&str])]) -> DataFrame {
    DataFrame::new(
        columns
            .iter()
            .map(|(name, values)| Series::new((*name).into(), *values).into_column())
            .collect(),
    )
    .unwrap()
}

fn basic_frame() -> DataFrame {
    text_frame(&[
        ("integers", &["1", "2", "3", "4"]),
        ("floats", &["1.1", "2.2", "3.3", "4.4"]),
        ("dates", &["2022-1-1", "2022-1-2", "2022-1-3", "2022-1-4"]),
        ("strings", &["a", "b", "c", "d"]),
    ])
}

#[test]
fn test_infer_schema_safe_basic() {
    let mut df = basic_frame();
    df.safe_infer_schema();

    assert_eq!(df.column("integers").unwrap().dtype(), &DataType::Int64);
    assert_eq!(df.column("floats").unwrap().dtype(), &DataType::Float64);
    assert_eq!(df.column("dates").unwrap().dtype(), &DataType::Date);
    assert_eq!(df.column("strings").unwrap().dtype(), &DataType::String);
}

#[test]
fn polars_ext_test_infer_schema_safe_basic() {
    let mut df = basic_frame();
    df.safe_infer_schema();

    assert_eq!(df.column("integers").unwrap().dtype(), &DataType::Int64);
    assert_eq!(df.column("floats").unwrap().dtype(), &DataType::Float64);
    assert_eq!(df.column("dates").unwrap().dtype(), &DataType::Date);
    assert_eq!(df.column("strings").unwrap().dtype(), &DataType::String);
}

#[test]
fn inference_keeps_columns_with_unparsable_values() {
    let mut df = text_frame(&[("mixed", &["1", "x", "3"]), ("decimals", &["1.5", "2", "2.5"])]);
    df.safe_infer_schema();
    assert_eq!(df.column("mixed").unwrap().dtype(), &DataType::String);
    assert_eq!(df.column("decimals").unwrap().dtype(), &DataType::Float64);
}

#[test]
fn inference_twice_on_integers_changes_nothing() {
    let mut df = text_frame(&[("n", &["10", "20"]), ("s", &["a", "b"])]);
    df.safe_infer_schema();
    let once = df.clone();
    df.safe_infer_schema();
    assert!(df.equals(&once));
    assert_eq!(df.column("n").unwrap().dtype(), &DataType::Int64);
}

#[test]
fn inference_twice_keeps_floats() {
    let mut df = basic_frame();
    df.safe_infer_schema();
    let once = df.clone();
    df.safe_infer_schema();
    assert!(df.equals_missing(&once));
    assert_eq!(df.column("floats").unwrap().dtype(), &DataType::Float64);
}

#[test]
fn inference_leaves_typed_columns_alone() {
    let mut df = DataFrame::new(vec![Series::new("x".into(), [1.5f64, 2.0]).into_column()]).unwrap();
    df.safe_infer_schema();
    assert_eq!(df.column("x").unwrap().dtype(), &DataType::Float64);
}

#[test]
fn lossless_choice_takes_first_exact_mask() {
    let orig = vec![false, true, false];
    let casts = vec![
        Some(vec![true, true, false]),
        None,
        Some(vec![false, true, false]),
        Some(vec![false, true, false]),
    ];
    assert_eq!(lossless_choice(&orig, &casts), Some(2));
    assert_eq!(lossless_choice(&orig, &vec![None, Some(vec![true, true, true])]), None);
    assert_eq!(lossless_choice(&orig, &Vec::new()), None);
}

#[test]
fn hex_dump_of_bytes() {
    let bytes: Vec<u8> = (0u8..18).collect();
    assert_eq!(
        bytes_to_string(&bytes),
        "Blob (Length: 18)\n00:  00 01 02 03 04 05 06 07   08 09 0A 0B 0C 0D 0E 0F\n01:  10 11"
    );
    assert_eq!(bytes_to_string(&Vec::new()), "Blob (Length: 0)\n");
    assert_eq!(bytes_to_string(&vec![255u8, 171]), "Blob (Length: 2)\n00:  FF AB");
}

#[test]
fn cell_texts() {
    assert_eq!(CellValue::Null.single_line(), "");
    assert_eq!(CellValue::Text("x\ny".to_owned()).multi_line(), "x\ny");
    assert_eq!(CellValue::Binary(vec![1, 2, 3]).single_line(), "Blob (Length: 3)");
    assert_eq!(CellValue::Binary(vec![1]).multi_line(), "Blob (Length: 1)\n00:  01");
    assert_eq!(CellValue::Other("3.5".to_owned()).single_line(), "3.5");
}

#[test]
fn cell_fuzzy_matching() {
    assert!(!CellValue::Null.fuzzy_matches(""));
    assert!(CellValue::Text("hello".to_owned()).fuzzy_matches("hlo"));
    assert!(!CellValue::Text("hello".to_owned()).fuzzy_matches("oh"));
    assert!(CellValue::Binary(vec![1]).fuzzy_matches("Blob"));
}

#[test]
fn widths_of_columns() {
    let cells = vec![
        CellValue::Text("ab".to_owned()),
        CellValue::Text("abcd\nlonger second line".to_owned()),
        CellValue::Null,
    ];
    assert_eq!(column_width(&cells, "x"), 4);
    assert_eq!(column_width(&cells, "a long name"), 11);
    assert_eq!(column_width(&vec![CellValue::Text("日本".to_owned())], ""), 4);
    let df = text_frame(&[("id", &["1", "22", "333"]), ("name", &["a", "b", "c"])]);
    assert_eq!(df.tui_widths(), vec![3, 4]);
}

#[test]
fn rows_matching_a_query() {
    let columns = vec![
        vec![CellValue::Text("apple".to_owned()), CellValue::Text("pear".to_owned())],
        vec![CellValue::Null, CellValue::Text("plum".to_owned())],
    ];
    assert_eq!(matching_rows(&columns, 2, "pl"), vec![0, 1]);
    assert_eq!(matching_rows(&columns, 2, "pr"), vec![1]);
    assert_eq!(matching_rows(&columns, 2, "zz"), Vec::<usize>::new());
}

#[test]
fn sheet_sections_of_a_row() {
    let df = text_frame(&[("id", &["1", "2"]), ("name", &["a", "b"])]);
    let sections = df.get_sheet_sections(1);
    assert_eq!(sections.len(), 2);
    assert_eq!(sections[0].header, "id");
    assert_eq!(sections[0].content, "2");
    assert_eq!(sections[1].content, "b");
    assert!(df.get_sheet_sections(5).is_empty());
}
