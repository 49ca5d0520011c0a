use shoulda::ShouldBeEqual;
use shoulda::ShouldBeOrdered;
use shoulda::ShouldBeSame;

#[test]
fn generic_success() {
    let i1 = 21;
    let i2 = -3;
    let i3 = 21;
    let i4 = -3;

    assert!(21.should_be(21).passed());
    assert!((-3).should_be(-3).passed());
    assert!(21.should_be(i1).passed());
    assert!((-3).should_be(i2).passed());
    assert!(i1.should_be(21).passed());
    assert!(i2.should_be(-3).passed());

    assert!(i1.should_be(i3).passed());
    assert!(i2.should_be(i4).passed());
    assert!(i1.should_be(&i3).passed());
    assert!(i2.should_be(&i4).passed());

    assert!(21.should_not_be(-3).passed());
    assert!((-3).should_not_be(21).passed());
    assert!(21.should_not_be(i2).passed());
    assert!((-3).should_not_be(i1).passed());
    assert!(i1.should_not_be(-3).passed());
    assert!(i2.should_not_be(21).passed());

    assert!(i1.should_not_be(i2).passed());
    assert!(i2.should_not_be(i1).passed());
    assert!(i1.should_not_be(&i2).passed());
    assert!(i2.should_not_be(&i1).passed());

    assert!(2.should_be_gt(1).passed());
    assert!(2.should_be_ge(1).passed());
    assert!(2.should_be_ge(2).passed());
    assert!(1.should_be_lt(2).passed());
    assert!(1.should_be_le(2).passed());
    assert!(1.should_be_le(1).passed());

    assert!(i1.should_be_same(&i1).passed());
    assert!(i2.should_be_same(&i2).passed());
    assert!(i3.should_be_same(&i3).passed());
    assert!(i4.should_be_same(&i4).passed());

    assert!(i1.should_not_be_same(&i2).passed());
    assert!(i2.should_not_be_same(&i3).passed());
    assert!(i3.should_not_be_same(&i4).passed());
    assert!(i4.should_not_be_same(&i1).passed());
    assert!(i1.should_not_be_same(&i3).passed());
    assert!(i2.should_not_be_same(&i4).passed());
    assert!(i3.should_not_be_same(&i1).passed());
    assert!(i4.should_not_be_same(&i2).passed());
    assert!(i1.should_not_be_same(&i4).passed());
    assert!(i2.should_not_be_same(&i1).passed());
    assert!(i3.should_not_be_same(&i2).passed());
    assert!(i4.should_not_be_same(&i3).passed());
}

#[test]
fn should_be_fail() {
    let failure = 14.should_be(12).failure().unwrap();
    let line = "    14.should_be(12)";
    let col = line.find("should_be").unwrap() + 1;
    let subject = shoulda::extract_subject(line, 1, col).unwrap();
    assert_eq!(subject, "14");
    assert_eq!(failure.message(&subject), "14 should be 12 but was 14");
}

#[test]
fn generic_should_not_be_fail() {
    let failure = 14.should_not_be(14).failure().unwrap();
    let line = "    14.should_not_be(14);";
    let col = line.find("should_not_be").unwrap() + 1;
    let subject = shoulda::extract_subject(line, 1, col).unwrap();
    assert_eq!(subject, "14");
    assert_eq!(failure.message(&subject), "14 should not be 14");
}

#[test]
fn should_be_gt_fail() {
    let failure = 14.should_be_gt(15).failure().unwrap();
    assert_eq!(failure.message("14"), "14 should be greater than 15 but was 14");
}

#[test]
fn should_be_ge_fail() {
    let failure = 14.should_be_ge(15).failure().unwrap();
    assert_eq!(failure.message("14"), "14 should be greater than or equal to 15 but was 14");
}

#[test]
fn should_be_lt_fail() {
    let failure = 14.should_be_lt(13).failure().unwrap();
    assert_eq!(failure.message("14"), "14 should be less than 13 but was 14");
}

#[test]
fn should_be_le_fail() {
    let failure = 14.should_be_le(13).failure().unwrap();
    assert_eq!(failure.message("14"), "14 should be less than or equal to 13 but was 14");
}

#[test]
fn identity_is_not_value_equality() {
    let i1 = 21;
    let i3 = 21;
    assert!(i1.should_be(i3).passed());
    assert!(i1.should_not_be_same(&i3).passed());
    let failure = i1.should_be_same(&i3).failure().unwrap();
    assert_eq!(failure.message("i1"), "i1 should be the same as 21 but was not");
}

#[test]
fn identity_fail_on_aliases() {
    let i1 = 21;
    let failure = i1.should_not_be_same(&i1).failure().unwrap();
    assert_eq!(failure.message("i1"), "i1 should not be the same as 21");
}
