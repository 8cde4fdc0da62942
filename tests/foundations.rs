use reset_controller::error::{from_result, Error, EINVAL, ENOTSUPP};
use reset_controller::foreign::ForeignStore;
use reset_controller::host::ResetHost;

#[test]
fn errno_of_each_error() {
    assert_eq!(Error::AlreadyRegistered.to_errno(), -EINVAL);
    assert_eq!(Error::NotSupported.to_errno(), -ENOTSUPP);
    assert_eq!(Error::ExternalRejected(-16).to_errno(), -16);
    assert_eq!(Error::ExternalRejected(7).to_errno(), -22);
    assert_eq!(Error::Driver(-5).to_errno(), -5);
    assert_eq!(Error::Driver(-4096).to_errno(), -22);
}

#[test]
fn from_errno_normalizes() {
    assert_eq!(Error::from_errno(-5), Error::Driver(-5));
    assert_eq!(Error::from_errno(-4095), Error::Driver(-4095));
    assert_eq!(Error::from_errno(0), Error::Driver(-22));
    assert_eq!(Error::from_errno(12), Error::Driver(-22));
}

#[test]
fn from_result_passes_payload() {
    assert_eq!(from_result(Ok(17)), 17);
    assert_eq!(from_result(Ok(0)), 0);
    assert_eq!(from_result(Err(Error::NotSupported)), -524);
    assert_eq!(from_result(Err(Error::Driver(-110))), -110);
}

#[test]
fn store_round_trip() {
    let mut store: ForeignStore<String> = ForeignStore::new();
    let a = store.into_foreign(String::from("alpha"));
    let b = store.into_foreign(String::from("beta"));
    assert_ne!(a, b);
    assert_eq!(store.borrow(a), "alpha");
    assert_eq!(store.from_foreign(a), "alpha");
    let c = store.into_foreign(String::from("gamma"));
    assert_ne!(c, a);
    assert_eq!(store.borrow(b), "beta");
    assert_eq!(store.borrow(c), "gamma");
}

#[test]
fn interleaved_borrows_agree() {
    let mut store: ForeignStore<Vec<u8>> = ForeignStore::new();
    let t = store.into_foreign(vec![1, 2, 3]);
    let first = store.borrow(t);
    let second = store.borrow(t);
    assert_eq!(first, second);
    assert_eq!(first.len(), 3);
    assert!(std::ptr::eq(first, second));
}

#[test]
fn host_slots_and_capacity() {
    let mut host: ResetHost<u8> = ResetHost::new(1);
    let d0 = host.add_device(10);
    let d1 = host.add_device(11);
    assert_eq!((d0.id, d1.id), (0, 1));
    assert_eq!(d1.of_node, 11);
    assert_eq!(host.get_drvdata(1), None);
    host.set_drvdata(1, Some(4));
    assert_eq!(host.get_drvdata(1), Some(4));
    let t = host.into_foreign(9);
    assert_eq!(*host.borrow_data(t), 9);
    assert_eq!(host.from_foreign(t), 9);
}
