use shoulda::parse_location;

#[test]
fn well_formed_location_splits_at_the_two_last_colons() {
    assert_eq!(
        parse_location("/home/tests/generic.rs:63:5"),
        Some(("/home/tests/generic.rs".to_string(), 63, 5))
    );
}

#[test]
fn windows_drive_colons_stay_in_the_path() {
    assert_eq!(
        parse_location("C:\\work\\lib.rs:7:21"),
        Some(("C:\\work\\lib.rs".to_string(), 7, 21))
    );
}

#[test]
fn malformed_locations_are_rejected() {
    assert_eq!(parse_location(""), None);
    assert_eq!(parse_location("lib.rs"), None);
    assert_eq!(parse_location("lib.rs:12"), None);
    assert_eq!(parse_location("lib.rs:12:"), None);
    assert_eq!(parse_location("lib.rs::34"), None);
    assert_eq!(parse_location(":12:34"), None);
    assert_eq!(parse_location("12:34"), None);
}

#[test]
fn oversized_coordinates_are_rejected() {
    assert_eq!(parse_location("lib.rs:1:99999999999999999999999999"), None);
    assert_eq!(parse_location("lib.rs:99999999999999999999999999:1"), None);
}

#[test]
fn caller_frame_follows_the_last_library_frame() {
    let mut backtrace = String::new();
    backtrace.push_str("   2: runner::raise_failure\n");
    backtrace.push_str("             at /work/runner/lib.rs:28:19\n");
    backtrace.push_str("   3: <i32 as shoulda::matchers::equality::ShouldBeEqual<i32>>::should_be\n");
    backtrace.push_str("             at /work/src/matchers/equality.rs:70:9\n");
    backtrace.push_str(
        "   4: <core::option::Option<i32> as shoulda::matchers::equality::ShouldBeEqual<i32>>::should_be\n",
    );
    backtrace.push_str("             at /work/src/matchers/equality.rs:120:27\n");
    backtrace.push_str("   5: my_suite::checks\n");
    backtrace.push_str("             at /work/tests/checks.rs:9:13\n");
    backtrace.push_str("   6: core::ops::function::FnOnce::call_once\n");
    backtrace.push_str("             at /lib/core/src/ops/function.rs:250:5\n");
    assert_eq!(
        shoulda::locate_caller(&backtrace, "shoulda"),
        Some(("/work/tests/checks.rs".to_string(), 9, 13))
    );
}

#[test]
fn no_library_frame_yields_no_caller() {
    let backtrace = "   5: my_suite::checks\n             at /work/tests/checks.rs:9:13\n";
    assert_eq!(shoulda::locate_caller(backtrace, "shoulda"), None);
}

#[test]
fn library_frame_without_a_caller_below_yields_no_caller() {
    let backtrace = "   3: shoulda::matchers::equality::ShouldBeEqual::should_be\n             at /work/src/matchers/equality.rs:70:9\n";
    assert_eq!(shoulda::locate_caller(backtrace, "shoulda"), None);
}

#[test]
fn coordinates_feed_the_extractor() {
    let text = "fn t() {\n    14.should_be(12);\n}\n";
    let line = "    14.should_be(12);";
    let col = line.find("should_be").unwrap() + 1;
    let location = format!("src/t.rs:2:{}", col);
    let (_, l, c) = parse_location(&location).unwrap();
    assert_eq!(shoulda::extract_subject(text, l, c).unwrap(), "14");
}
