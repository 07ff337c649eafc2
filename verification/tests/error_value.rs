//! Tests of the error value: construction, rendering, and the silent
//! constructor.

use debug_error::DebugError;
use debug_error::Location;
use debug_error::debug_error;
use debug_error::debug_error_with_log;
use debug_error::error_log_text;
use debug_error::u32_to_dec;

#[test]
fn u32_to_dec_exact_values() {
    assert_eq!(u32_to_dec(0), "0");
    assert_eq!(u32_to_dec(7), "7");
    assert_eq!(u32_to_dec(10), "10");
    assert_eq!(u32_to_dec(42), "42");
    assert_eq!(u32_to_dec(100), "100");
    assert_eq!(u32_to_dec(90210), "90210");
    assert_eq!(u32_to_dec(u32::MAX), "4294967295");
}

#[test]
fn location_new_stores_fields_verbatim() {
    let loc = Location::new(String::from("db.rs"), 42, 13);
    assert_eq!(loc.file, "db.rs");
    assert_eq!(loc.line, 42);
    assert_eq!(loc.column, 13);
}

#[test]
fn construct_stores_fields_verbatim() {
    let e = DebugError::new(
        String::from("User not found with ID: 0"),
        Location::new(String::from("db.rs"), 42, 13),
    );
    assert_eq!(e.message, "User not found with ID: 0");
    assert_eq!(e.location.file, "db.rs");
    assert_eq!(e.location.line, 42);
    assert_eq!(e.location.column, 13);
}

#[test]
fn render_formats_message_and_location() {
    let e = DebugError::new(
        String::from("User not found with ID: 0"),
        Location::new(String::from("db.rs"), 42, 13),
    );
    assert_eq!(e.render(), "User not found with ID: 0 at db.rs:42:13");
}

#[test]
fn render_with_empty_message() {
    let e = DebugError::new(String::from(""), Location::new(String::from("lib.rs"), 1, 1));
    assert_eq!(e.render(), " at lib.rs:1:1");
}

#[test]
fn render_with_extreme_line_and_column() {
    let e = DebugError::new(
        String::from("boom"),
        Location::new(String::from("deep/nested/module.rs"), u32::MAX, 0),
    );
    assert_eq!(e.render(), "boom at deep/nested/module.rs:4294967295:0");
}

#[test]
fn render_is_idempotent() {
    let e = DebugError::new(
        String::from("Operation failed due to condition"),
        Location::new(String::from("main.rs"), 35, 17),
    );
    let first = e.render();
    let second = e.render();
    assert_eq!(first, second);
}

#[test]
fn same_message_different_call_sites_differ_in_location() {
    let message = String::from("Operation failed");
    let a = debug_error(message.clone(), Location::new(String::from("db.rs"), 10, 9));
    let b = debug_error(message, Location::new(String::from("db.rs"), 88, 9));
    assert_eq!(a.message, b.message);
    assert_ne!(a.location.line, b.location.line);
    assert_ne!(a.render(), b.render());
}

#[test]
fn silent_constructor_matches_plain_construction() {
    let a = debug_error(
        String::from("Input cannot be empty"),
        Location::new(String::from("validate.rs"), 7, 21),
    );
    let b = DebugError::new(
        String::from("Input cannot be empty"),
        Location::new(String::from("validate.rs"), 7, 21),
    );
    assert_eq!(a.message, b.message);
    assert_eq!(a.location.file, b.location.file);
    assert_eq!(a.location.line, b.location.line);
    assert_eq!(a.location.column, b.location.column);
    assert_eq!(a.render(), b.render());
}

#[test]
fn error_log_text_prefixes_rendered_error() {
    let e = DebugError::new(
        String::from("Database connection timeout"),
        Location::new(String::from("db.rs"), 17, 5),
    );
    assert_eq!(error_log_text(&e), "Error: Database connection timeout at db.rs:17:5");
}

#[test]
fn wrapping_keeps_outer_location() {
    let inner = debug_error(
        String::from("disk full"),
        Location::new(String::from("storage.rs"), 3, 4),
    );
    let mut message = String::from("saving settings failed: ");
    message.push_str(inner.render().as_str());
    let outer = debug_error(message, Location::new(String::from("settings.rs"), 20, 8));
    assert_eq!(
        outer.render(),
        "saving settings failed: disk full at storage.rs:3:4 at settings.rs:20:8",
    );
    assert_eq!(outer.location.file, "settings.rs");
}
