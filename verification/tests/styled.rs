use user_error::helper::{decimal_string, decimal_string_signed, default_summary};
use user_error::scrawl_errors::ScrawlErrorKind;
use user_error::sqlite_errors::SqliteErrorKind;
use user_error::stdio_errors::IoErrorKind;
use user_error::style::{RED_BOLD, STYLE_RESET, WHITE_DIM, WHITE_ON_RED_BOLD, YELLOW};
use user_error::UserError;

fn styled_summary(s: &str) -> String {
    format!(
        "{}Error:{} {}{}{}",
        WHITE_ON_RED_BOLD, STYLE_RESET, RED_BOLD, s, STYLE_RESET
    )
}

fn bullet(s: &str) -> String {
    format!("{}-{} {}", YELLOW, STYLE_RESET, s)
}

fn dim(s: &str) -> String {
    format!("{}{}{}", WHITE_DIM, s, STYLE_RESET)
}

#[test]
fn styled_simple_render() {
    let e = UserError::simple("Failed to build project");
    assert_eq!(e.to_string(), styled_summary("Failed to build project"));
}

#[test]
fn styled_hardcoded_render() {
    let e = UserError::hardcoded(
        "Failed to build project",
        &[
            "Database could not be parsed",
            "File \"main.db\" not found",
        ],
        &[
            "Try: touch main.db",
            "This command will create and empty database file the program can use ",
        ],
    );
    let expected = format!(
        "{}\n{}\n{}\n{}\n{}",
        styled_summary("Failed to build project"),
        bullet("Database could not be parsed"),
        bullet("File \"main.db\" not found"),
        dim("Try: touch main.db"),
        dim("This command will create and empty database file the program can use "),
    );
    assert_eq!(e.to_string(), expected);
}

#[test]
fn styled_empty_summary_uses_placeholder() {
    let e = UserError::new(String::new(), Vec::new(), Vec::new());
    assert_eq!(
        e.to_string(),
        styled_summary("The application encountered an unknown error.")
    );
}

#[test]
fn styled_hardcoded_empty_summary_uses_placeholder() {
    let e = UserError::hardcoded("", &[], &[]);
    assert_eq!(
        e.to_string(),
        styled_summary("The application encountered an unknown error.")
    );
}

#[test]
fn styled_simple_empty_summary_uses_placeholder() {
    let e = UserError::simple("");
    assert_eq!(
        e.to_string(),
        styled_summary("The application encountered an unknown error.")
    );
}

#[test]
fn string_error_becomes_summary() {
    let e = UserError::from(String::from("broken"));
    assert_eq!(e.to_string(), styled_summary("broken"));
    assert_eq!(e.reasons(), "");
    assert_eq!(e.subtleties(), "");
}

#[test]
fn str_error_becomes_summary() {
    let e = UserError::from("Failed!");
    assert_eq!(e.to_string(), styled_summary("Failed!"));
}

#[test]
fn empty_string_error_uses_placeholder() {
    let e = UserError::from(String::new());
    assert_eq!(
        e.to_string(),
        styled_summary("The application encountered an unknown error.")
    );
}

#[test]
fn styled_default_uses_placeholder() {
    let e = UserError::default();
    assert_eq!(
        e.to_string(),
        styled_summary("The application encountered an unknown error.")
    );
}

#[test]
fn styled_new_keeps_parts() {
    let e = UserError::new(
        String::from("Failed to build project"),
        vec![String::from("Database could not be parsed")],
        vec![String::from("Try: touch main.db")],
    );
    let expected = format!(
        "{}\n{}\n{}",
        styled_summary("Failed to build project"),
        bullet("Database could not be parsed"),
        dim("Try: touch main.db"),
    );
    assert_eq!(e.to_string(), expected);
}

#[test]
fn styled_update_summary() {
    let mut e = UserError::simple("Failed to build project");
    e.update_summary("Failed to create database");
    assert_eq!(e.to_string(), styled_summary("Failed to create database"));
}

#[test]
fn styled_update_and_push_summary() {
    let mut e = UserError::simple("SQLite has encountered an issue");
    e.update_and_push_summary("Failed to create new project");
    let expected = format!(
        "{}\n{}",
        styled_summary("Failed to create new project"),
        bullet("SQLite has encountered an issue"),
    );
    assert_eq!(e.to_string(), expected);
}

#[test]
fn styled_add_reason_prepends() {
    let mut e = UserError::simple("Failed to process 2 inputs");
    e.add_reason("Failed input #3 with value (-2)");
    e.add_reason("Failed input #5 with value (-1)");
    let expected = format!(
        "{}\n{}\n{}",
        styled_summary("Failed to process 2 inputs"),
        bullet("Failed input #5 with value (-1)"),
        bullet("Failed input #3 with value (-2)"),
    );
    assert_eq!(e.to_string(), expected);
}

#[test]
fn styled_clear_reasons_leaves_no_artifact() {
    let mut e = UserError::hardcoded(
        "Failed to build project",
        &["Reason #1", "Reason #2", "Reason #3"],
        &["Try again?"],
    );
    e.clear_reasons();
    let expected = format!(
        "{}\n{}",
        styled_summary("Failed to build project"),
        dim("Try again?"),
    );
    assert_eq!(e.to_string(), expected);
}

#[test]
fn styled_add_subtly_appends() {
    let mut e = UserError::simple("Failed to build project");
    e.add_subtly("Try: touch /user_data.db");
    e.add_subtly("You may need to ask your administrator to run this command for you");
    let expected = format!(
        "{}\n{}\n{}",
        styled_summary("Failed to build project"),
        dim("Try: touch /user_data.db"),
        dim("You may need to ask your administrator to run this command for you"),
    );
    assert_eq!(e.to_string(), expected);
}

#[test]
fn styled_clear_subtleties_leaves_no_artifact() {
    let mut e = UserError::hardcoded(
        "Failed to build project",
        &["Reasons!"],
        &["Tip #1", "Tip #2", "Tip #3"],
    );
    e.clear_subtleties();
    let expected = format!(
        "{}\n{}",
        styled_summary("Failed to build project"),
        bullet("Reasons!"),
    );
    assert_eq!(e.to_string(), expected);
}

#[test]
fn styled_segment_accessors() {
    let e = UserError::hardcoded("Boom", &["why"], &["hint"]);
    assert_eq!(e.summary(), styled_summary("Boom"));
    assert_eq!(e.reasons(), bullet("why"));
    assert_eq!(e.subtleties(), dim("hint"));
    let bare = UserError::simple("Boom");
    assert_eq!(bare.reasons(), "");
    assert_eq!(bare.subtleties(), "");
}

#[test]
fn io_not_found_message() {
    let ioe = std::io::Error::new(std::io::ErrorKind::NotFound, "gone");
    let e = UserError::from_io_error(&ioe);
    let expected = format!(
        "{}\n{}",
        styled_summary("I/O Error"),
        bullet("File not found"),
    );
    assert_eq!(e.to_string(), expected);
}

#[test]
fn io_invalid_data_carries_subtlety() {
    let e = UserError::from_io_kind(IoErrorKind::InvalidData);
    let expected = format!(
        "{}\n{}\n{}",
        styled_summary("I/O Error"),
        bullet("Invalid or malformed data"),
        dim("For example, a function that reads a file into a string will error with InvalidData if the file's contents are not valid UTF-8"),
    );
    assert_eq!(e.to_string(), expected);
}

#[test]
fn io_unknown_kind_is_unexpected() {
    let ioe = std::io::Error::new(std::io::ErrorKind::Unsupported, "odd");
    let e = UserError::from_io_error(&ioe);
    let expected = format!(
        "{}\n{}",
        styled_summary("I/O Error"),
        bullet("Operation encountered an unexpected error"),
    );
    assert_eq!(e.to_string(), expected);
}

#[test]
fn scrawl_open_editor_message() {
    let raw = scrawl::error::ScrawlError::FailedToOpenEditor(String::from("vim"));
    let e = UserError::from_scrawl_error(raw);
    let expected = format!(
        "{}\n{}",
        styled_summary("Scrawl Error"),
        bullet("Could not open vim as a text editor"),
    );
    assert_eq!(e.to_string(), expected);
}

#[test]
fn scrawl_copy_to_temp_file_message() {
    let raw = scrawl::error::ScrawlError::FailedToCopyToTempFile(String::from("notes.txt"));
    let e = UserError::from_scrawl_error(raw);
    let expected = format!(
        "{}\n{}\n{}",
        styled_summary("Scrawl Error"),
        bullet("Failed to copy the contents of the `notes.txt` to the temporary buffer for editing."),
        dim("Make sure the file exists."),
    );
    assert_eq!(e.to_string(), expected);
}

#[test]
fn scrawl_kind_messages() {
    let e = UserError::from_scrawl_kind(ScrawlErrorKind::CreateTempfile);
    let expected = format!(
        "{}\n{}",
        styled_summary("Scrawl Error"),
        bullet("Could not create a temporary file to use as a buffer"),
    );
    assert_eq!(e.to_string(), expected);

    let e = UserError::from_scrawl_kind(ScrawlErrorKind::CaptureInput);
    let expected = format!(
        "{}\n{}",
        styled_summary("Scrawl Error"),
        bullet("Failed to capture user input."),
    );
    assert_eq!(e.to_string(), expected);
}

#[test]
fn sqlite_failure_with_detail() {
    let e = UserError::from_sqlite_kind(SqliteErrorKind::SqliteFailure {
        detail: Some(String::from("unable to open database file")),
    });
    let expected = format!(
        "{}\n{}\n{}",
        styled_summary("SQLite has encountered an issue"),
        bullet("Underlying SQLite call failed"),
        bullet("unable to open database file"),
    );
    assert_eq!(e.to_string(), expected);
}

#[test]
fn sqlite_failure_without_detail() {
    let e = UserError::from_sqlite_kind(SqliteErrorKind::SqliteFailure { detail: None });
    let expected = format!(
        "{}\n{}",
        styled_summary("SQLite has encountered an issue"),
        bullet("Underlying SQLite call failed"),
    );
    assert_eq!(e.to_string(), expected);
}

#[test]
fn sqlite_invalid_column_index_formats_number() {
    let e = UserError::from_sqlite_kind(SqliteErrorKind::InvalidColumnIndex { column: 42 });
    let expected = format!(
        "{}\n{}",
        styled_summary("SQLite has encountered an issue"),
        bullet("Column index: 42 is out of range for a statement"),
    );
    assert_eq!(e.to_string(), expected);
}

#[test]
fn sqlite_integral_out_of_range_formats_value() {
    let e = UserError::from_sqlite_kind(SqliteErrorKind::IntegralValueOutOfRange {
        column: 3,
        value: -1000,
    });
    let expected = format!(
        "{}\n{}\n{}",
        styled_summary("SQLite has encountered an issue"),
        bullet("Cannot fit integral value '-1000' from column 3 into requested type without overflow"),
        dim("e.g., trying to get the value 1000 into a u8"),
    );
    assert_eq!(e.to_string(), expected);
}

#[test]
fn sqlite_nul_error_quotes_text() {
    let e = UserError::from_sqlite_kind(SqliteErrorKind::NulError {
        text: Some(String::from("ab")),
        position: 2,
    });
    let expected = format!(
        "{}\n{}\n{}\n{}",
        styled_summary("SQLite has encountered an issue"),
        bullet("Failed to convert 'ab' to a C-Compatible String"),
        bullet("'ab' contains a nul byte at position: 2"),
        dim("While strings may contain nul bytes in the middle, C strings can't, as that byte would effectively truncate the string."),
    );
    assert_eq!(e.to_string(), expected);
}

#[test]
fn sqlite_nul_error_without_text() {
    let e = UserError::from_sqlite_kind(SqliteErrorKind::NulError {
        text: None,
        position: 0,
    });
    let expected = format!(
        "{}\n{}\n{}\n{}",
        styled_summary("SQLite has encountered an issue"),
        bullet("Failed to convert String to a C-Compatible String"),
        bullet("String contains a nul byte at position: 0"),
        dim("While strings may contain nul bytes in the middle, C strings can't, as that byte would effectively truncate the string."),
    );
    assert_eq!(e.to_string(), expected);
}

#[test]
fn sqlite_invalid_column_type_message() {
    let e = UserError::from_sqlite_kind(SqliteErrorKind::InvalidColumnType {
        column: 1,
        rust_type: String::from("i64"),
    });
    let expected = format!(
        "{}\n{}",
        styled_summary("SQLite has encountered an issue"),
        bullet("Failed to convert value of column 1 to Rust type i64"),
    );
    assert_eq!(e.to_string(), expected);
}

#[test]
fn decimal_strings() {
    assert_eq!(decimal_string(0), "0");
    assert_eq!(decimal_string(7), "7");
    assert_eq!(decimal_string(10), "10");
    assert_eq!(decimal_string(1234567890), "1234567890");
    assert_eq!(decimal_string(u64::MAX), u64::MAX.to_string());
    assert_eq!(decimal_string_signed(-42), "-42");
    assert_eq!(decimal_string_signed(0), "0");
    assert_eq!(decimal_string_signed(i64::MIN), i64::MIN.to_string());
    assert_eq!(decimal_string_signed(i64::MAX), i64::MAX.to_string());
}

#[test]
fn default_summary_names_the_program() {
    assert_eq!(
        default_summary("archive"),
        "archive encountered an unknown error."
    );
}
