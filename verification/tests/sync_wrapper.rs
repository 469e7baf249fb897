use lnd_grpc::resp_future::SyncWrapper;

#[test]
fn into_inner_returns_the_wrapped_value() {
    let wrapped = SyncWrapper::new(42u32);
    assert_eq!(wrapped.into_inner(), 42);
}

#[test]
fn get_mut_lends_the_wrapped_value() {
    let mut wrapped = SyncWrapper::new(42u32);
    assert_eq!(*wrapped.get_mut(), 42);
}

#[test]
fn a_write_through_get_mut_stays() {
    let mut wrapped = SyncWrapper::new(42u32);
    let value = wrapped.get_mut();
    *value = 0;
    assert_eq!(*wrapped.get_mut(), 0);
    assert_eq!(wrapped.into_inner(), 0);
}

#[test]
fn a_wrapper_holds_what_is_no_copy() {
    let mut wrapped = SyncWrapper::new(vec![String::from("a")]);
    wrapped.get_mut().push(String::from("b"));
    assert_eq!(wrapped.into_inner(), vec![String::from("a"), String::from("b")]);
}
