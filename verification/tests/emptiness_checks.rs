use shoulda::ShouldBeEmpty;

#[test]
fn succeed() {
    let v1 = Vec::<i32>::new();
    let v2 = vec![1, 2, 3];

    assert!(v1.should_be_empty().passed());
    assert!(v2.should_not_be_empty().passed());

    assert!(Vec::<i32>::new().should_be_empty().passed());
    assert!(vec![1, 2, 3].should_not_be_empty().passed());
}

#[test]
fn should_be_empty_fail() {
    let failure = vec![1, 2, 3].should_be_empty().failure().unwrap();
    let line = "    vec![1, 2, 3].should_be_empty();";
    let col = line.find("should_be_empty").unwrap() + 1;
    let subject = shoulda::extract_subject(line, 1, col).unwrap();
    assert_eq!(subject, "vec![1, 2, 3]");
    assert_eq!(failure.message(&subject), "vec![1, 2, 3] should be empty but was [1, 2, 3]");
}

#[test]
fn should_not_be_empty_fail() {
    let failure = Vec::<i32>::new().should_not_be_empty().failure().unwrap();
    let line = "    Vec::<i32>::new().should_not_be_empty();";
    let col = line.find("should_not_be_empty").unwrap() + 1;
    let subject = shoulda::extract_subject(line, 1, col).unwrap();
    assert_eq!(subject, "Vec::<i32>::new()");
    assert_eq!(failure.message(&subject), "Vec::<i32>::new() should not be empty");
}
