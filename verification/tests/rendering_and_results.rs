use shoulda::Describe;
use shoulda::Expected;
use shoulda::ShouldBeEqual;
use shoulda::ShouldBeOrdered;
use shoulda::ShouldResult;

#[test]
fn integers_render_in_decimal() {
    assert_eq!(0i32.describe(), "0");
    assert_eq!(14i32.describe(), "14");
    assert_eq!((-3i32).describe(), "-3");
    assert_eq!(i32::MIN.describe(), "-2147483648");
    assert_eq!(i32::MAX.describe(), "2147483647");
    assert_eq!(10_000u32.describe(), "10000");
    assert_eq!(u64::MAX.describe(), "18446744073709551615");
    assert_eq!(7usize.describe(), "7");
}

#[test]
fn booleans_render_as_keywords() {
    assert_eq!(true.describe(), "true");
    assert_eq!(false.describe(), "false");
}

#[test]
fn containers_render_structurally() {
    assert_eq!(Some(14).describe(), "Some(14)");
    assert_eq!(None::<i32>.describe(), "None");
    assert_eq!(Some(Some(-3)).describe(), "Some(Some(-3))");
    assert_eq!(Vec::<i32>::new().describe(), "[]");
    assert_eq!(vec![14].describe(), "[14]");
    assert_eq!(vec![1, 2, 3].describe(), "[1, 2, 3]");
    let ok: Result<i32, i32> = Ok(21);
    let err: Result<i32, i32> = Err(-1);
    assert_eq!(ok.describe(), "Ok(21)");
    assert_eq!(err.describe(), "Err(-1)");
}

#[test]
fn expected_adapts_values_and_references() {
    let v: i32 = 14;
    assert_eq!(Expected::<i32>::value(&v), 14);
    assert_eq!(Expected::<i32>::value(&&v), 14);
    // adapting through a reference and through the value agree
    assert_eq!(14.should_be(&v).passed(), 14.should_be(v).passed());
}

#[test]
fn should_be_ok_passes_on_success_variant() {
    let ok: Result<i32, i32> = Ok(21);
    assert!(ok.should_be_ok().passed());
    assert!(!ok.should_be_err().passed());
}

#[test]
fn should_be_err_passes_on_failure_variant() {
    let err: Result<i32, i32> = Err(-1);
    assert!(err.should_be_err().passed());
    assert!(!err.should_be_ok().passed());
}

#[test]
fn result_failures_render_the_whole_value() {
    let err: Result<i32, i32> = Err(-1);
    let failure = err.should_be_ok().failure().unwrap();
    assert_eq!(failure.message("err"), "err should be Ok but was Err(-1)");

    let ok: Result<i32, i32> = Ok(21);
    let failure = ok.should_be_err().failure().unwrap();
    assert_eq!(failure.message("ok"), "ok should be Err but was Ok(21)");
}

#[test]
fn equal_values_pass_and_unequal_fail() {
    assert!(14.should_be(14).passed());
    assert!(!14.should_not_be(14).passed());
    assert!(!14.should_be(12).passed());
    assert!(14.should_not_be(12).passed());
}

#[test]
fn other_builtin_categories_check_alike() {
    assert!(14u64.should_be(14u64).passed());
    let failure = 14u64.should_be_lt(13u64).failure().unwrap();
    assert_eq!(failure.message("14"), "14 should be less than 13 but was 14");
    assert!(true.should_be(true).passed());
    let failure = false.should_be(true).failure().unwrap();
    assert_eq!(failure.message("flag"), "flag should be true but was false");
    assert!(Some(3u64).should_be(3u64).passed());
    assert!(Some(false).should_not_be(true).passed());
}

#[test]
fn present_container_checks_match_direct_checks() {
    // every equality check on Some(v) agrees with the same check on v,
    // message text included
    for v in [-3, 0, 14] {
        for e in [-3, 0, 14] {
            assert_eq!(Some(v).should_be(e).passed(), v.should_be(e).passed());
            assert_eq!(Some(v).should_not_be(e).passed(), v.should_not_be(e).passed());
            let direct = v.should_be(e).failure().map(|f| f.message("s"));
            let wrapped = Some(v).should_be(e).failure().map(|f| f.message("s"));
            assert_eq!(direct, wrapped);
        }
    }
}
