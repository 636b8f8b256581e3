use fmt_expect::unwrap_fmt;

#[test]
fn unwrap_that_some() {
    let opt = Some(1);
    let n = unwrap_fmt(opt, || format!("failed, beep boop."), |text| panic!("{}", text));
    assert_eq!(n, 1);
}

#[test]
#[should_panic(expected = "expected 1, got None")]
fn unwrap_that_none() {
    let opt: Option<i32> = None;
    unwrap_fmt(opt, || format!("expected {}, got {:?}", 1, opt), |text| panic!("{}", text));
}

#[test]
fn unwrap_that_ok() {
    let res: Result<i32, ()> = Ok(1);
    let n = unwrap_fmt(res, || format!("failed, beep boop."), |text| panic!("{}", text));
    assert_eq!(n, 1);
}

#[test]
#[should_panic(expected = "expected 1, got Err(())")]
fn unwrap_that_err() {
    let res: Result<i32, ()> = Err(());
    unwrap_fmt(res, || format!("expected {}, got {:?}", 1, res), |text| panic!("{}", text));
}
