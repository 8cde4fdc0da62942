use std::sync::atomic::{AtomicI32, Ordering};
use std::sync::Arc;

use reset_controller::error::{Error, ENOMEM, ENOTSUPP};
use reset_controller::host::{OpKind, ResetHost};
use reset_controller::reset::{Adapter, ResetDevice, ResetDriverOps, ResetRegistration};

/// Counts resets; `status` reports the count.
struct Counter;

impl ResetDriverOps for Counter {
    type Data = AtomicI32;

    const HAS_RESET: bool = true;
    const HAS_STATUS: bool = true;

    fn reset(data: &AtomicI32, _id: u64) -> Result<i32, Error> {
        Ok(data.fetch_add(1, Ordering::SeqCst) + 1)
    }

    fn status(data: &AtomicI32, _id: u64) -> Result<i32, Error> {
        Ok(data.load(Ordering::SeqCst))
    }
}

/// Keeps its data behind a shared count; implements nothing.
struct Shared;

impl ResetDriverOps for Shared {
    type Data = Arc<AtomicI32>;
}

/// Fails every deassert with `-EIO`.
struct Faulty;

impl ResetDriverOps for Faulty {
    type Data = AtomicI32;

    const HAS_DEASSERT: bool = true;

    fn deassert(_data: &AtomicI32, _id: u64) -> Result<i32, Error> {
        Err(Error::from_errno(-5))
    }
}

#[test]
fn counter_reset_then_status() {
    let mut host: ResetHost<AtomicI32> = ResetHost::new(4);
    let dev = host.add_device(7);
    let mut reg: ResetRegistration<Counter> = ResetRegistration::new();
    assert_eq!(reg.register(&mut host, &dev, 8, AtomicI32::new(0)), Ok(()));
    let rcdev = reg.handle().unwrap();
    assert_eq!(Adapter::<Counter>::invoke(&host, &rcdev, OpKind::Reset, 3), 1);
    assert_eq!(Adapter::<Counter>::invoke(&host, &rcdev, OpKind::Status, 3), 1);
    let block = reg.control_block();
    assert_eq!(block.nr_resets, 8);
    assert_eq!(block.dev, Some(dev.id));
    assert_eq!(block.of_node, 7);
}

#[test]
fn trampolines_reach_the_same_data() {
    let mut host: ResetHost<AtomicI32> = ResetHost::new(1);
    let dev = host.add_device(0);
    let mut reg: ResetRegistration<Counter> = ResetRegistration::new();
    assert_eq!(reg.register(&mut host, &dev, 2, AtomicI32::new(40)), Ok(()));
    let rcdev = reg.handle().unwrap();
    assert_eq!(Adapter::<Counter>::reset_callback(&host, &rcdev, 0), 41);
    assert_eq!(Adapter::<Counter>::status_callback(&host, &rcdev, 1), 41);
    assert_eq!(Adapter::<Counter>::status_callback(&host, &rcdev, 0), 41);
    assert_eq!(Adapter::<Counter>::reset_callback(&host, &rcdev, 1), 42);
}

#[test]
fn second_register_is_refused() {
    let mut host: ResetHost<AtomicI32> = ResetHost::new(4);
    let dev = host.add_device(3);
    let mut reg: ResetRegistration<Counter> = ResetRegistration::new();
    assert_eq!(reg.register(&mut host, &dev, 8, AtomicI32::new(0)), Ok(()));
    let block = reg.control_block();
    let rcdev = reg.handle().unwrap();
    assert_eq!(
        reg.register(&mut host, &dev, 2, AtomicI32::new(9)),
        Err(Error::AlreadyRegistered)
    );
    assert!(reg.is_registered());
    assert_eq!(reg.control_block(), block);
    assert_eq!(reg.handle(), Some(rcdev));
    assert_eq!(host.get_drvdata(dev.id), Some(0));
    assert_eq!(Adapter::<Counter>::invoke(&host, &rcdev, OpKind::Status, 0), 0);
}

#[test]
fn rejected_register_releases_data() {
    let mut host: ResetHost<Arc<AtomicI32>> = ResetHost::new(0);
    let dev = host.add_device(1);
    let data = Arc::new(AtomicI32::new(0));
    assert_eq!(Arc::strong_count(&data), 1);
    let mut reg: ResetRegistration<Shared> = ResetRegistration::new();
    assert_eq!(
        reg.register(&mut host, &dev, 4, data.clone()),
        Err(Error::ExternalRejected(-ENOMEM))
    );
    assert_eq!(Arc::strong_count(&data), 1);
    assert!(!reg.is_registered());
    assert_eq!(reg.handle(), None);
    assert_eq!(host.get_drvdata(dev.id), None);
}

#[test]
fn retry_after_rejection_succeeds() {
    let mut full: ResetHost<Arc<AtomicI32>> = ResetHost::new(0);
    let dev = full.add_device(1);
    let data = Arc::new(AtomicI32::new(0));
    let mut reg: ResetRegistration<Shared> = ResetRegistration::new();
    assert!(reg.register(&mut full, &dev, 4, data.clone()).is_err());
    let mut roomy: ResetHost<Arc<AtomicI32>> = ResetHost::new(1);
    let dev2 = roomy.add_device(1);
    assert_eq!(reg.register(&mut roomy, &dev2, 4, data.clone()), Ok(()));
    assert_eq!(Arc::strong_count(&data), 2);
    assert!(reg.is_registered());
}

#[test]
fn rejection_restores_earlier_slot() {
    let mut host: ResetHost<AtomicI32> = ResetHost::new(1);
    let dev = host.add_device(0);
    let mut first: ResetRegistration<Counter> = ResetRegistration::new();
    assert_eq!(first.register(&mut host, &dev, 1, AtomicI32::new(5)), Ok(()));
    let mut second: ResetRegistration<Counter> = ResetRegistration::new();
    assert_eq!(
        second.register(&mut host, &dev, 1, AtomicI32::new(9)),
        Err(Error::ExternalRejected(-ENOMEM))
    );
    assert_eq!(host.get_drvdata(dev.id), Some(0));
    let rcdev = first.handle().unwrap();
    assert_eq!(Adapter::<Counter>::invoke(&host, &rcdev, OpKind::Status, 0), 5);
}

#[test]
fn unregister_returns_data() {
    let mut host: ResetHost<Arc<AtomicI32>> = ResetHost::new(2);
    let dev = host.add_device(0);
    let data = Arc::new(AtomicI32::new(3));
    let mut reg: ResetRegistration<Shared> = ResetRegistration::new();
    assert_eq!(reg.register(&mut host, &dev, 1, data.clone()), Ok(()));
    assert_eq!(Arc::strong_count(&data), 2);
    let handle = reg.handle().unwrap().as_ptr();
    assert!(host.controller_live(handle));
    let back = reg.unregister(&mut host).unwrap();
    assert!(Arc::ptr_eq(&back, &data));
    drop(back);
    assert_eq!(Arc::strong_count(&data), 1);
    assert!(!reg.is_registered());
    assert!(!host.controller_live(handle));
    assert_eq!(host.get_drvdata(dev.id), None);
    assert!(reg.unregister(&mut host).is_none());
}

#[test]
fn unsupported_operation_gives_notsupp() {
    let mut host: ResetHost<AtomicI32> = ResetHost::new(1);
    let dev = host.add_device(0);
    let mut reg: ResetRegistration<Counter> = ResetRegistration::new();
    assert_eq!(reg.register(&mut host, &dev, 4, AtomicI32::new(0)), Ok(()));
    let rcdev = reg.handle().unwrap();
    assert_eq!(Adapter::<Counter>::invoke(&host, &rcdev, OpKind::Assert, 0), -ENOTSUPP);
    assert_eq!(Adapter::<Counter>::invoke(&host, &rcdev, OpKind::Deassert, 2), -ENOTSUPP);
    assert_eq!(Adapter::<Counter>::assert_callback(&host, &rcdev, 0), -ENOTSUPP);
    assert_eq!(Adapter::<Counter>::invoke(&host, &rcdev, OpKind::Status, 0), 0);
}

#[test]
fn driver_failure_becomes_errno() {
    let mut host: ResetHost<AtomicI32> = ResetHost::new(1);
    let dev = host.add_device(0);
    let mut reg: ResetRegistration<Faulty> = ResetRegistration::new();
    assert_eq!(reg.register(&mut host, &dev, 4, AtomicI32::new(0)), Ok(()));
    let rcdev = reg.handle().unwrap();
    assert_eq!(Adapter::<Faulty>::invoke(&host, &rcdev, OpKind::Deassert, 1), -5);
    assert_eq!(Adapter::<Faulty>::invoke(&host, &rcdev, OpKind::Reset, 1), -ENOTSUPP);
}

#[test]
fn table_follows_flags() {
    let ops = Adapter::<Counter>::build();
    assert!(ops.reset);
    assert!(!ops.assert_line);
    assert!(!ops.deassert_line);
    assert!(ops.status);
    assert!(ops.present(OpKind::Reset));
    assert!(!ops.present(OpKind::Assert));
    let none = Adapter::<Shared>::build();
    assert!(!none.present(OpKind::Reset));
    assert!(!none.present(OpKind::Assert));
    assert!(!none.present(OpKind::Deassert));
    assert!(!none.present(OpKind::Status));
    let faulty = Adapter::<Faulty>::build();
    assert!(faulty.present(OpKind::Deassert));
    assert!(!faulty.present(OpKind::Status));
}

#[test]
fn default_operations_are_unsupported() {
    let data = Arc::new(AtomicI32::new(0));
    assert_eq!(Shared::reset(&data, 0), Err(Error::NotSupported));
    assert_eq!(Shared::assert_line(&data, 0), Err(Error::NotSupported));
    assert_eq!(Shared::deassert(&data, 0), Err(Error::NotSupported));
    assert_eq!(Shared::status(&data, 0), Err(Error::NotSupported));
}

#[test]
fn new_registration_is_empty() {
    let reg: ResetRegistration<Counter> = ResetRegistration::new();
    assert!(!reg.is_registered());
    assert_eq!(reg.handle(), None);
    let block = reg.control_block();
    assert_eq!(block.dev, None);
    assert_eq!(block.nr_resets, 0);
    assert_eq!(block.ops, None);
}

#[test]
fn reset_device_keeps_pointer() {
    let d = ResetDevice::from_raw(0x1234);
    assert_eq!(d.as_ptr(), 0x1234);
}
