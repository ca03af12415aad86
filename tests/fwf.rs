use tabiew::args::{Args, InferSchema};
use tabiew::error::AppError;
use tabiew::fwf::{column_names, common_space_indices, infer_widths, parse_width, ReadFwfToDataFrame};

#[test]
fn boundaries_separate_padded_fields() {
    let lines = vec!["AAA  BBB CC".to_owned(), "A    B   CC".to_owned()];
    let candidates = common_space_indices(&lines);
    assert_eq!(candidates, vec![3, 4, 8, 11]);
    let widths = infer_widths(candidates);
    // three fields; the single blank column before CC is no column of its own
    assert_eq!(widths, vec![4, 3, 2]);
}

#[test]
fn no_shared_blank_column_gives_one_column() {
    let lines = vec!["abc def".to_owned(), "abcdefgh".to_owned()];
    let candidates = common_space_indices(&lines);
    assert_eq!(candidates, vec![8]);
    assert_eq!(infer_widths(candidates), vec![8]);
}

#[test]
fn no_lines_no_columns() {
    assert_eq!(common_space_indices(&Vec::new()), Vec::<usize>::new());
    assert_eq!(infer_widths(Vec::new()), Vec::<usize>::new());
}

#[test]
fn explicit_widths_parse() {
    assert_eq!(parse_width("4,3,2"), Ok(vec![4, 3, 2]));
    assert_eq!(parse_width("+7"), Ok(vec![7]));
    assert_eq!(parse_width("4,,2"), Err(AppError::InvalidNumber));
    assert_eq!(parse_width("4,x"), Err(AppError::InvalidNumber));
    assert_eq!(parse_width(""), Err(AppError::InvalidNumber));
}

#[test]
fn reader_settings_from_args() {
    let args = Args {
        widths: String::new(),
        no_header: true,
        separator_length: 1,
        no_flexible_width: false,
        infer_schema: InferSchema::Safe,
    };
    let reader = ReadFwfToDataFrame::try_from_args(&args).unwrap();
    assert!(!reader.has_header);
    assert!(reader.flexible_width);
    assert!(reader.wants_inference());
    let lines = vec!["AAA  BBB CC".to_owned(), "A    B   CC".to_owned()];
    assert_eq!(reader.widths(&lines), Ok(vec![4, 3, 2]));
    let given = ReadFwfToDataFrame { width_str: "5,6".to_owned(), ..reader };
    assert_eq!(given.widths(&lines), Ok(vec![5, 6]));
}

#[test]
fn default_and_header_names() {
    assert_eq!(column_names(false, None, 3), vec!["column_1", "column_2", "column_3"]);
    assert_eq!(column_names(true, None, 2), vec!["column_1", "column_2"]);
    assert_eq!(
        column_names(true, Some(vec![" id ".to_owned(), "name\t".to_owned()]), 5),
        vec!["id", "name"]
    );
}

#[test]
fn text_splits_into_lines() {
    assert_eq!(tabiew::fwf::lines_of("a\nb\r\nc"), vec!["a", "b", "c"]);
    assert_eq!(tabiew::fwf::lines_of("a\n"), vec!["a"]);
    assert_eq!(tabiew::fwf::lines_of(""), Vec::<String>::new());
    assert_eq!(tabiew::fwf::lines_of("\n\nx"), vec!["", "", "x"]);
}

#[test]
fn records_become_trimmed_columns() {
    let records = vec![
        Some(vec!["AAA ".to_owned(), "BBB".to_owned()]),
        None,
        Some(vec![" A".to_owned()]),
    ];
    let columns = tabiew::fwf::records_to_columns(&records, 2);
    assert_eq!(columns, vec![vec!["AAA", "A"], vec!["BBB", ""]]);
}

#[test]
fn fixed_width_text_reads_into_table() {
    let reader = ReadFwfToDataFrame {
        width_str: String::new(),
        has_header: false,
        separator_length: 1,
        flexible_width: true,
        infer_schema: InferSchema::No,
    };
    let df = reader.read_text("AAA  BBB CC\nA    B   CC\n").unwrap();
    assert_eq!(df.shape(), (2, 3));
    assert_eq!(df.get_column_names_str(), vec!["column_1", "column_2", "column_3"]);
    let first = df.column("column_1").unwrap().str().unwrap().get(0);
    assert_eq!(first, Some("AAA"));
    let bad = ReadFwfToDataFrame { width_str: "x".to_owned(), ..reader };
    assert_eq!(bad.read_text("abc").err(), Some(AppError::InvalidNumber));
}

#[test]
fn fixed_width_header_and_inference() {
    let reader = ReadFwfToDataFrame {
        width_str: "3,4".to_owned(),
        has_header: true,
        separator_length: 1,
        flexible_width: true,
        infer_schema: InferSchema::Safe,
    };
    let df = reader.read_text("id  name\n1   ab\n22  cd\n").unwrap();
    assert_eq!(df.get_column_names_str(), vec!["id", "name"]);
    assert_eq!(df.column("id").unwrap().dtype(), &polars::prelude::DataType::Int64);
}

#[test]
fn unreadable_header_is_a_read_error() {
    let reader = ReadFwfToDataFrame {
        width_str: String::new(),
        has_header: true,
        separator_length: 1,
        flexible_width: true,
        infer_schema: InferSchema::No,
    };
    assert_eq!(reader.read_text("").err(), Some(AppError::Read));
}

#[test]
fn lines_that_would_split_inside_a_separator_are_refused() {
    let reader = ReadFwfToDataFrame {
        width_str: "3,1".to_owned(),
        has_header: false,
        separator_length: 2,
        flexible_width: true,
        infer_schema: InferSchema::No,
    };
    assert_eq!(reader.read_text("abcd\n").err(), Some(AppError::Read));
    let wide = ReadFwfToDataFrame { width_str: "1,1".to_owned(), ..reader };
    assert_eq!(wide.read_text("a\u{3000}b\n").err(), Some(AppError::Read));
    let fine = ReadFwfToDataFrame { width_str: "1,1".to_owned(), separator_length: 1, ..wide };
    assert_eq!(fine.read_text("a b\n").unwrap().shape(), (1, 2));
}

#[test]
fn repeated_header_names_are_refused() {
    let reader = ReadFwfToDataFrame {
        width_str: "2,2".to_owned(),
        has_header: true,
        separator_length: 1,
        flexible_width: true,
        infer_schema: InferSchema::No,
    };
    assert_eq!(reader.read_text("ab ab\n1  2\n").err(), Some(AppError::Read));
}

#[test]
fn accented_fields_are_read() {
    let reader = ReadFwfToDataFrame {
        width_str: "2,2".to_owned(),
        has_header: false,
        separator_length: 1,
        flexible_width: true,
        infer_schema: InferSchema::No,
    };
    let df = reader.read_text("é  b\nab cd\n").unwrap();
    assert_eq!(df.shape(), (2, 2));
    assert_eq!(df.column("column_1").unwrap().str().unwrap().get(0), Some("é"));
    assert_eq!(df.column("column_2").unwrap().str().unwrap().get(1), Some("cd"));
}
