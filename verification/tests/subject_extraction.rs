use shoulda::subject_or_unknown;
use shoulda::ShouldBeEqual;

fn subject_of(line: &str, method: &str) -> Option<String> {
    let col = line.find(method).unwrap() + 1;
    shoulda::extract_subject(line, 1, col)
}

#[test]
fn literal_receiver() {
    assert_eq!(subject_of("    14.should_be(12)", "should_be").unwrap(), "14");
}

#[test]
fn variable_receiver() {
    assert_eq!(subject_of("    i1.should_be(21);", "should_be").unwrap(), "i1");
}

#[test]
fn parenthesized_negative_receiver() {
    assert_eq!(subject_of("    (-3).should_be(-3);", "should_be").unwrap(), "(-3)");
}

#[test]
fn qualified_absent_literal_keeps_annotation() {
    assert_eq!(
        subject_of("    None::<i32>.should_be_some();", "should_be_some").unwrap(),
        "None::<i32>"
    );
}

#[test]
fn unannotated_absent_literal_stays_bare() {
    assert_eq!(subject_of("    None.should_be(12);", "should_be").unwrap(), "None");
}

#[test]
fn macro_invocation_receiver_is_kept_unevaluated() {
    assert_eq!(
        subject_of("    vec![1, 2, 3].should_be_empty();", "should_be_empty").unwrap(),
        "vec![1, 2, 3]"
    );
}

#[test]
fn chained_constructor_receiver() {
    assert_eq!(
        subject_of("    Vec::<i32>::new().should_not_be_empty();", "should_not_be_empty").unwrap(),
        "Vec::<i32>::new()"
    );
}

#[test]
fn chained_call_receiver_is_captured_whole() {
    let line = "    None::<i32>.should_be_some().should_be(14);";
    let col = line.find("should_be(").unwrap() + 1;
    assert_eq!(
        shoulda::extract_subject(line, 1, col).unwrap(),
        "None::<i32>.should_be_some()"
    );
}

#[test]
fn nested_delimiters_are_captured_whole() {
    assert_eq!(
        subject_of("    wrap(vec![1, (2 + 3)]).should_be(9);", "should_be").unwrap(),
        "wrap(vec![1, (2 + 3)])"
    );
}

#[test]
fn receiver_on_a_later_line() {
    let text = "fn t() {\n    let i1 = 21;\n    i1.should_be(21);\n}\n";
    let col = "    i1.should_be(21);".find("should_be").unwrap() + 1;
    assert_eq!(shoulda::extract_subject(text, 3, col).unwrap(), "i1");
}

#[test]
fn multi_line_receiver_keeps_original_whitespace() {
    let text = "    first_of(\n        1, 2,\n    ).should_be(1);";
    let last_line = "    ).should_be(1);";
    let col = last_line.find("should_be").unwrap() + 1;
    assert_eq!(
        shoulda::extract_subject(text, 3, col).unwrap(),
        "first_of(\n        1, 2,\n    )"
    );
}

#[test]
fn missing_coordinates_yield_no_subject() {
    assert_eq!(shoulda::extract_subject("14.should_be(12)", 2, 4), None);
    assert_eq!(shoulda::extract_subject("14.should_be(12)", 1, 200), None);
    assert_eq!(shoulda::extract_subject("14.should_be(12)", 0, 4), None);
    assert_eq!(shoulda::extract_subject("14.should_be(12)", 1, 0), None);
}

#[test]
fn position_without_preceding_dot_yields_no_subject() {
    let line = "    let x = should_be;";
    let col = line.find("should_be").unwrap() + 1;
    assert_eq!(shoulda::extract_subject(line, 1, col), None);
}

#[test]
fn unbalanced_receiver_yields_no_subject() {
    // the closing parenthesis never finds its opening partner
    let line = ")x.should_be(1)";
    let col = line.find("should_be").unwrap() + 1;
    assert_eq!(shoulda::extract_subject(line, 1, col), None);
}

#[test]
fn empty_receiver_yields_no_subject() {
    let line = "    .should_be(1)";
    let col = line.find("should_be").unwrap() + 1;
    assert_eq!(shoulda::extract_subject(line, 1, col), None);
}

#[test]
fn sentinel_subject_when_nothing_can_be_recovered() {
    assert_eq!(subject_or_unknown("", 5, 5), "UNKNOWN");
    let failure = 14.should_be(12).failure().unwrap();
    assert_eq!(
        failure.message(&subject_or_unknown("", 5, 5)),
        "UNKNOWN should be 12 but was 14"
    );
}

#[test]
fn sentinel_subject_when_coordinates_are_recovered() {
    let line = "    14.should_be(12)";
    let col = line.find("should_be").unwrap() + 1;
    assert_eq!(subject_or_unknown(line, 1, col), "14");
}
