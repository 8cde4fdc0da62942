//! Reset controller drivers: the operations trait, the callback table adapter and
//! the registration object.
use vstd::prelude::*;
use core::marker::PhantomData;
use crate::error::{from_result, result_code, Error, ENOTSUPP};
use crate::host::{ControlBlock, Device, OpKind, ResetControlOps, ResetHost};

verus! {

/// A handle to a control block registered with a [`ResetHost`].
///
/// It only names the block; what the block holds is the host's business.
#[derive(Clone, Copy, Debug, PartialEq, Eq, Structural)]
pub struct ResetDevice {
    ptr: usize,
}

impl ResetDevice {
    /// The raw handle.
    pub closed spec fn spec_ptr(&self) -> usize {
        self.ptr
    }

    /// Wraps a raw handle that the caller knows to name a control block.
    pub fn from_raw(ptr: usize) -> (r: ResetDevice)
        ensures
            r.spec_ptr() == ptr,
    {
        ResetDevice { ptr }
    }

    /// Returns the raw handle.
    pub fn as_ptr(&self) -> (r: usize)
        ensures
            r == self.spec_ptr(),
    {
        self.ptr
    }
}

/// The operations of a reset controller driver.
///
/// Each operation defaults to failing with [`Error::NotSupported`]. A driver that
/// implements one also sets the matching `HAS_*` flag, which decides whether the
/// callback table gets an entry for it.
pub trait ResetDriverOps {
    /// Private data that every operation sees.
    type Data: Send + Sync;

    /// Whether [`ResetDriverOps::reset`] is implemented.
    const HAS_RESET: bool = false;

    /// Whether [`ResetDriverOps::assert_line`] is implemented.
    const HAS_ASSERT: bool = false;

    /// Whether [`ResetDriverOps::deassert`] is implemented.
    const HAS_DEASSERT: bool = false;

    /// Whether [`ResetDriverOps::status`] is implemented.
    const HAS_STATUS: bool = false;

    /// Resets the device behind a self-deasserting line.
    fn reset(data: &Self::Data, id: u64) -> (r: Result<i32, Error>)
        ensures
            !Self::HAS_RESET ==> r == Err::<i32, Error>(Error::NotSupported),
            r matches Ok(v) ==> v >= 0,
        default_ensures
            r == Err::<i32, Error>(Error::NotSupported),
    {
        Err(Error::NotSupported)
    }

    /// Asserts a reset line.
    fn assert_line(data: &Self::Data, id: u64) -> (r: Result<i32, Error>)
        ensures
            !Self::HAS_ASSERT ==> r == Err::<i32, Error>(Error::NotSupported),
            r matches Ok(v) ==> v >= 0,
        default_ensures
            r == Err::<i32, Error>(Error::NotSupported),
    {
        Err(Error::NotSupported)
    }

    /// Deasserts a reset line.
    fn deassert(data: &Self::Data, id: u64) -> (r: Result<i32, Error>)
        ensures
            !Self::HAS_DEASSERT ==> r == Err::<i32, Error>(Error::NotSupported),
            r matches Ok(v) ==> v >= 0,
        default_ensures
            r == Err::<i32, Error>(Error::NotSupported),
    {
        Err(Error::NotSupported)
    }

    /// Reports the status of a reset line.
    fn status(data: &Self::Data, id: u64) -> (r: Result<i32, Error>)
        ensures
            !Self::HAS_STATUS ==> r == Err::<i32, Error>(Error::NotSupported),
            r matches Ok(v) ==> v >= 0,
        default_ensures
            r == Err::<i32, Error>(Error::NotSupported),
    {
        Err(Error::NotSupported)
    }
}

/// Whether driver `T` implements operation `kind`.
pub open spec fn implements<T: ResetDriverOps>(kind: OpKind) -> bool {
    match kind {
        OpKind::Reset => T::HAS_RESET,
        OpKind::Assert => T::HAS_ASSERT,
        OpKind::Deassert => T::HAS_DEASSERT,
        OpKind::Status => T::HAS_STATUS,
    }
}

/// What driver `T` may return for `kind` on `data` and `id`: anything its
/// operation's contract allows.
pub open spec fn op_allows<T: ResetDriverOps>(
    kind: OpKind,
    data: T::Data,
    id: u64,
    res: Result<i32, Error>,
) -> bool {
    match kind {
        OpKind::Reset => call_ensures(T::reset, (&data, id), res),
        OpKind::Assert => call_ensures(T::assert_line, (&data, id), res),
        OpKind::Deassert => call_ensures(T::deassert, (&data, id), res),
        OpKind::Status => call_ensures(T::status, (&data, id), res),
    }
}

/// Builds the host's callback table for driver `T` and holds its trampolines.
pub struct Adapter<T: ResetDriverOps> {
    _p: PhantomData<T>,
}

impl<T: ResetDriverOps> Adapter<T> {
    /// The callback table of `T`: an entry for each operation that `T` implements.
    pub open spec fn spec_vtable() -> ResetControlOps {
        ResetControlOps {
            reset: T::HAS_RESET,
            assert_line: T::HAS_ASSERT,
            deassert_line: T::HAS_DEASSERT,
            status: T::HAS_STATUS,
        }
    }

    /// Returns the callback table of `T`.
    ///
    /// The entry for an operation is present exactly when `T` implements it; an
    /// operation left at its default never gets one.
    pub fn build() -> (r: ResetControlOps)
        ensures
            r == Self::spec_vtable(),
            forall|k: OpKind| #[trigger] r.spec_present(k) == implements::<T>(k),
    {
        ResetControlOps {
            reset: T::HAS_RESET,
            assert_line: T::HAS_ASSERT,
            deassert_line: T::HAS_DEASSERT,
            status: T::HAS_STATUS,
        }
    }

    /// A view of the private data of the controller under `rcdev`.
    fn data_for<'a>(host: &'a ResetHost<T::Data>, rcdev: &ResetDevice) -> (r: &'a T::Data)
        requires
            host.data_ready(rcdev.spec_ptr()),
        ensures
            *r == host.data_of(rcdev.spec_ptr()),
    {
        let cb = host.control_block(rcdev.as_ptr());
        let dev = cb.dev.unwrap();
        let token = host.get_drvdata(dev).unwrap();
        host.borrow_data(token)
    }

    /// The trampoline of the `reset` entry.
    pub fn reset_callback(host: &ResetHost<T::Data>, rcdev: &ResetDevice, id: u64) -> (r: i32)
        requires
            host.data_ready(rcdev.spec_ptr()),
        ensures
            exists|res: Result<i32, Error>|
                op_allows::<T>(OpKind::Reset, host.data_of(rcdev.spec_ptr()), id, res)
                && r == result_code(res),
            !T::HAS_RESET ==> r == -ENOTSUPP,
    {
        let data = Self::data_for(host, rcdev);
        let res = T::reset(data, id);
        from_result(res)
    }
    /// The trampoline of the `assert` entry.
    pub fn assert_callback(host: &ResetHost<T::Data>, rcdev: &ResetDevice, id: u64) -> (r: i32)
        requires
            host.data_ready(rcdev.spec_ptr()),
        ensures
            exists|res: Result<i32, Error>|
                op_allows::<T>(OpKind::Assert, host.data_of(rcdev.spec_ptr()), id, res)
                && r == result_code(res),
            !T::HAS_ASSERT ==> r == -ENOTSUPP,
    {
        let data = Self::data_for(host, rcdev);
        let res = T::assert_line(data, id);
        from_result(res)
    }

    /// The trampoline of the `deassert` entry.
    pub fn deassert_callback(host: &ResetHost<T::Data>, rcdev: &ResetDevice, id: u64) -> (r: i32)
        requires
            host.data_ready(rcdev.spec_ptr()),
        ensures
            exists|res: Result<i32, Error>|
                op_allows::<T>(OpKind::Deassert, host.data_of(rcdev.spec_ptr()), id, res)
                && r == result_code(res),
            !T::HAS_DEASSERT ==> r == -ENOTSUPP,
    {
        let data = Self::data_for(host, rcdev);
        let res = T::deassert(data, id);
        from_result(res)
    }

    /// The trampoline of the `status` entry.
    pub fn status_callback(host: &ResetHost<T::Data>, rcdev: &ResetDevice, id: u64) -> (r: i32)
        requires
            host.data_ready(rcdev.spec_ptr()),
        ensures
            exists|res: Result<i32, Error>|
                op_allows::<T>(OpKind::Status, host.data_of(rcdev.spec_ptr()), id, res)
                && r == result_code(res),
            !T::HAS_STATUS ==> r == -ENOTSUPP,
    {
        let data = Self::data_for(host, rcdev);
        let res = T::status(data, id);
        from_result(res)
    }

    /// What the host does when a consumer acts on line `id` of the controller under
    /// `rcdev`: an absent table entry gives `-ENOTSUPP` without the private data being
    /// looked at; a present one runs its trampoline.
    pub fn invoke(host: &ResetHost<T::Data>, rcdev: &ResetDevice, kind: OpKind, id: u64) -> (r: i32)
        requires
            host.is_live(rcdev.spec_ptr()),
            host.block(rcdev.spec_ptr()).ops == Some(Self::spec_vtable()),
            implements::<T>(kind) ==> host.data_ready(rcdev.spec_ptr()),
        ensures
            !implements::<T>(kind) ==> r == -ENOTSUPP,
            implements::<T>(kind) ==> exists|res: Result<i32, Error>|
                op_allows::<T>(kind, host.data_of(rcdev.spec_ptr()), id, res)
                && r == result_code(res),
    {
        let cb = host.control_block(rcdev.as_ptr());
        let ops = cb.ops.unwrap();
        if !ops.present(kind) {
            return -ENOTSUPP;
        }
        match kind {
            OpKind::Reset => Self::reset_callback(host, rcdev, id),
            OpKind::Assert => Self::assert_callback(host, rcdev, id),
            OpKind::Deassert => Self::deassert_callback(host, rcdev, id),
            OpKind::Status => Self::status_callback(host, rcdev, id),
        }
    }
}

/// A registration of a reset controller with a [`ResetHost`].
///
/// It starts unregistered and becomes registered at most once. While registered,
/// the host keeps a copy of its control block under [`ResetRegistration::handle`]
/// and the driver's private data behind a token in the device's data slot;
/// [`ResetRegistration::unregister`] takes both back.
pub struct ResetRegistration<T: ResetDriverOps> {
    rcdev: ControlBlock,
    dev: Option<Device>,
    handle: usize,
    registered: bool,
    _p: PhantomData<T>,
}

impl<T: ResetDriverOps> ResetRegistration<T> {
    /// The control block.
    pub closed spec fn spec_rcdev(&self) -> ControlBlock {
        self.rcdev
    }

    /// The device that the controller was registered for.
    pub closed spec fn spec_dev(&self) -> Option<Device> {
        self.dev
    }

    /// The handle under which the host keeps the control block.
    pub closed spec fn spec_handle(&self) -> usize {
        self.handle
    }

    /// Whether the registration has been made.
    pub closed spec fn spec_registered(&self) -> bool {
        self.registered
    }

    /// The control block that registering for `dev` with `nr_resets` lines fills in.
    pub open spec fn block_for(dev: Device, nr_resets: u32) -> ControlBlock {
        ControlBlock {
            dev: Some(dev.id),
            nr_resets,
            of_node: dev.of_node,
            ops: Some(Adapter::<T>::spec_vtable()),
        }
    }

    /// What [`ResetRegistration::register`] returns from this state and `host`.
    pub open spec fn register_outcome(&self, host: ResetHost<T::Data>) -> Result<(), Error> {
        if self.spec_registered() {
            Err(Error::AlreadyRegistered)
        } else if !host.accepts() {
            Err(Error::ExternalRejected((-crate::error::ENOMEM) as i32))
        } else {
            Ok(())
        }
    }

    /// Whether this registration and `host` agree: a registered controller is live
    /// in the host under its handle, with this control block, and its device's data
    /// slot holds a live token.
    pub open spec fn bound_to(&self, host: ResetHost<T::Data>) -> bool {
        self.spec_registered() ==> {
            &&& self.spec_dev() is Some
            &&& self.spec_rcdev().dev == Some(self.spec_dev()->Some_0.id)
            &&& host.is_live(self.spec_handle())
            &&& host.block(self.spec_handle()) == self.spec_rcdev()
            &&& host.data_ready(self.spec_handle())
        }
    }

    /// A registration that is not registered yet, with an empty control block.
    pub fn new() -> (r: Self)
        ensures
            !r.spec_registered(),
            r.spec_rcdev() == ControlBlock::spec_empty(),
            r.spec_dev() is None,
    {
        ResetRegistration {
            rcdev: ControlBlock::empty(),
            dev: None,
            handle: 0,
            registered: false,
            _p: PhantomData,
        }
    }

    /// Whether the registration has been made.
    pub fn is_registered(&self) -> (r: bool)
        ensures
            r == self.spec_registered(),
    {
        self.registered
    }

    /// The handle of the registered control block, if registered.
    pub fn handle(&self) -> (r: Option<ResetDevice>)
        ensures
            self.spec_registered() ==> (r matches Some(h) && h.spec_ptr() == self.spec_handle()),
            !self.spec_registered() ==> r is None,
    {
        if self.registered {
            Some(ResetDevice::from_raw(self.handle))
        } else {
            None
        }
    }

    /// The control block.
    pub fn control_block(&self) -> (r: ControlBlock)
        ensures
            r == self.spec_rcdev(),
    {
        self.rcdev
    }

    /// Registers a reset controller for `dev` with `nr_resets` lines and the
    /// driver's private `data`.
    ///
    /// An object that is already registered fails with
    /// [`Error::AlreadyRegistered`], and nothing changes. Otherwise `data` moves
    /// behind a token in the device's data slot before the host's entry point is
    /// called. If the host refuses, the slot gets its earlier value back, `data` is
    /// reclaimed and dropped, and the object stays unregistered.
    pub fn register(
        &mut self,
        host: &mut ResetHost<T::Data>,
        dev: &Device,
        nr_resets: u32,
        data: T::Data,
    ) -> (r: Result<(), Error>)
        requires
            old(host).has_device(*dev),
            old(host).store().can_accept(),
        ensures
            r == old(self).register_outcome(*old(host)),
            r is Err ==> *final(self) == *old(self),
            r is Err ==> final(host).store().live() == old(host).store().live(),
            old(self).spec_registered() ==> final(host).store().slots() == old(host).store().slots(),
            !old(self).spec_registered() && r is Err ==> final(host).store().slots()
                == old(host).store().slots().push(None),
            r is Ok ==> final(host).store().slots() == old(host).store().slots().push(Some(data)),
            r is Err ==> forall|other: ResetRegistration<T>| #[trigger] other.bound_to(*old(host))
                ==> other.bound_to(*final(host)),
            r is Err ==> final(host).drvdata() == old(host).drvdata(),
            r is Err ==> final(host).controllers() == old(host).controllers(),
            r == Err::<(), Error>(Error::AlreadyRegistered) ==> *final(host) == *old(host),
            r is Ok ==> {
                let h = final(self).spec_handle();
                let t = final(host).drvdata()[dev.id as int]->Some_0;
                &&& final(self).spec_registered()
                &&& h == old(host).controllers().len()
                &&& final(self).spec_dev() == Some(*dev)
                &&& final(self).spec_rcdev() == Self::block_for(*dev, nr_resets)
                &&& final(host).controllers() == old(host).controllers().push(
                    Some(Self::block_for(*dev, nr_resets)),
                )
                &&& final(host).drvdata() == old(host).drvdata().update(dev.id as int, Some(t))
                &&& !old(host).store().holds(t)
                &&& final(host).store().live() == old(host).store().live().insert(t, data)
                &&& final(host).data_of(h) == data
                &&& final(self).bound_to(*final(host))
            },
            final(host).capacity() == old(host).capacity(),
    {
        if self.registered {
            return Err(Error::AlreadyRegistered);
        }
        let cb = ControlBlock {
            dev: Some(dev.id),
            nr_resets,
            of_node: dev.of_node,
            ops: Some(Adapter::<T>::build()),
        };
        let prev = host.get_drvdata(dev.id);
        let token = host.into_foreign(data);
        host.set_drvdata(dev.id, Some(token));
        match host.register_controller(cb) {
            Err(code) => {
                host.set_drvdata(dev.id, prev);
                let _reclaimed = host.from_foreign(token);
                assert(host.store().live() =~= old(host).store().live());
                assert(host.drvdata() =~= old(host).drvdata());
                assert(host.store().slots() =~= old(host).store().slots().push(None));
                Err(Error::ExternalRejected(code))
            },
            Ok(h) => {
                self.rcdev = cb;
                self.dev = Some(*dev);
                self.handle = h;
                self.registered = true;
                Ok(())
            },
        }
    }

    /// Unregisters the controller and hands the private data back.
    ///
    /// The host's entry for the controller goes first, so that no trampoline runs
    /// afterwards; then the device's data slot is cleared and the data reclaimed.
    /// An object that is not registered is left as it is, and `None` comes back.
    pub fn unregister(&mut self, host: &mut ResetHost<T::Data>) -> (r: Option<T::Data>)
        requires
            old(self).bound_to(*old(host)),
        ensures
            !old(self).spec_registered() ==> r is None && *final(self) == *old(self)
                && *final(host) == *old(host),
            old(self).spec_registered() ==> {
                let h = old(self).spec_handle();
                let t = old(host).token_of(h);
                &&& r == Some(old(host).data_of(h))
                &&& !final(self).spec_registered()
                &&& !final(host).is_live(h)
                &&& final(host).controllers() == old(host).controllers().update(h as int, None)
                &&& final(host).drvdata() == old(host).drvdata().update(
                    old(host).device_of(h) as int,
                    None,
                )
                &&& final(host).store().live() == old(host).store().live().remove(t)
                &&& final(host).store().slots() == old(host).store().slots().update(t as int, None)
            },
            final(host).capacity() == old(host).capacity(),
    {
        if !self.registered {
            return None;
        }
        let h = self.handle;
        let dev = self.dev.unwrap();
        host.unregister_controller(h);
        let token = host.get_drvdata(dev.id).unwrap();
        host.set_drvdata(dev.id, None);
        let data = host.from_foreign(token);
        self.registered = false;
        Some(data)
    }
}

/// Once registered, an object refuses every further registration with
/// [`Error::AlreadyRegistered`], whatever the host.
pub proof fn lemma_registered_refuses<T: ResetDriverOps>(
    reg: ResetRegistration<T>,
    host: ResetHost<T::Data>,
)
    requires
        reg.spec_registered(),
    ensures
        reg.register_outcome(host) == Err::<(), Error>(Error::AlreadyRegistered),
{
}

/// A registration that the host refused leaves the object unregistered, so a
/// later attempt succeeds with any host that has room for it.
pub proof fn lemma_retry_after_rejection<T: ResetDriverOps>(
    before: ResetRegistration<T>,
    after: ResetRegistration<T>,
    host: ResetHost<T::Data>,
    later: ResetHost<T::Data>,
    code: i32,
)
    requires
        before.register_outcome(host) == Err::<(), Error>(Error::ExternalRejected(code)),
        after == before,
        later.accepts(),
    ensures
        !after.spec_registered(),
        after.register_outcome(later) == Ok::<(), Error>(()),
{
}

} // verus!
