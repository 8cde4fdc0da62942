//! The reset host: the subsystem that registrations are made with.
//!
//! It keeps a per-device data slot, a table of registered control blocks, and the
//! storage behind the tokens that drivers hand over. Its table has a fixed number
//! of slots; once they are used up, registration is refused with `-ENOMEM`.
use vstd::prelude::*;
use crate::error::ENOMEM;
use crate::foreign::ForeignStore;

verus! {

/// The four operations a reset controller may offer.
#[derive(Clone, Copy, Debug, PartialEq, Eq, Structural)]
pub enum OpKind {
    Reset,
    Assert,
    Deassert,
    Status,
}

/// The host's callback table: one entry per operation, present or absent.
#[derive(Clone, Copy, Debug, PartialEq, Eq, Structural)]
pub struct ResetControlOps {
    pub reset: bool,
    pub assert_line: bool,
    pub deassert_line: bool,
    pub status: bool,
}

impl ResetControlOps {
    /// Whether the table has an entry for `kind`.
    pub open spec fn spec_present(&self, kind: OpKind) -> bool {
        match kind {
            OpKind::Reset => self.reset,
            OpKind::Assert => self.assert_line,
            OpKind::Deassert => self.deassert_line,
            OpKind::Status => self.status,
        }
    }

    /// Whether the table has an entry for `kind`.
    pub fn present(&self, kind: OpKind) -> (r: bool)
        ensures
            r == self.spec_present(kind),
    {
        match kind {
            OpKind::Reset => self.reset,
            OpKind::Assert => self.assert_line,
            OpKind::Deassert => self.deassert_line,
            OpKind::Status => self.status,
        }
    }
}

/// The control block that describes one reset controller to the host.
#[derive(Clone, Copy, Debug, PartialEq, Eq, Structural)]
pub struct ControlBlock {
    /// The device the controller belongs to.
    pub dev: Option<usize>,
    /// How many reset lines the controller exposes.
    pub nr_resets: u32,
    /// The device's topology descriptor.
    pub of_node: usize,
    /// The callback table.
    pub ops: Option<ResetControlOps>,
}

impl ControlBlock {
    /// A block with nothing filled in.
    pub open spec fn spec_empty() -> ControlBlock {
        ControlBlock { dev: None, nr_resets: 0, of_node: 0, ops: None }
    }

    /// A block with nothing filled in.
    pub fn empty() -> (r: ControlBlock)
        ensures
            r == Self::spec_empty(),
    {
        ControlBlock { dev: None, nr_resets: 0, of_node: 0, ops: None }
    }
}

/// A device known to the host.
#[derive(Clone, Copy, Debug, PartialEq, Eq, Structural)]
pub struct Device {
    /// The device's identity, also the index of its data slot.
    pub id: usize,
    /// The device's topology descriptor.
    pub of_node: usize,
}

/// The reset host, holding values of type `D` behind tokens.
pub struct ResetHost<D> {
    store: ForeignStore<D>,
    drvdata: Vec<Option<usize>>,
    controllers: Vec<Option<ControlBlock>>,
    capacity: usize,
}

impl<D> ResetHost<D> {
    /// The storage behind the tokens.
    pub closed spec fn store(&self) -> ForeignStore<D> {
        self.store
    }

    /// The per-device data slots, by device identity.
    pub closed spec fn drvdata(&self) -> Seq<Option<usize>> {
        self.drvdata@
    }

    /// The controller table, by handle; a slot of an unregistered controller is `None`.
    pub closed spec fn controllers(&self) -> Seq<Option<ControlBlock>> {
        self.controllers@
    }

    /// How many controller slots the table has.
    pub closed spec fn capacity(&self) -> nat {
        self.capacity as nat
    }

    /// Whether `dev` is a device of this host.
    pub open spec fn has_device(&self, dev: Device) -> bool {
        dev.id < self.drvdata().len()
    }

    /// Whether the registration entry point would take one more controller.
    pub open spec fn accepts(&self) -> bool {
        self.controllers().len() < self.capacity()
    }

    /// Whether `h` is the handle of a registered controller.
    pub open spec fn is_live(&self, h: usize) -> bool {
        h < self.controllers().len() && self.controllers()[h as int] is Some
    }

    /// The control block registered under `h`.
    pub open spec fn block(&self, h: usize) -> ControlBlock {
        self.controllers()[h as int]->Some_0
    }

    /// The device of the controller registered under `h`.
    pub open spec fn device_of(&self, h: usize) -> usize {
        self.block(h).dev->Some_0
    }

    /// The token in the data slot of the controller's device.
    pub open spec fn token_of(&self, h: usize) -> usize {
        self.drvdata()[self.device_of(h) as int]->Some_0
    }

    /// Whether the controller under `h` is live and its device's data slot holds
    /// a live token.
    pub open spec fn data_ready(&self, h: usize) -> bool {
        &&& self.is_live(h)
        &&& self.block(h).dev is Some
        &&& self.device_of(h) < self.drvdata().len()
        &&& self.drvdata()[self.device_of(h) as int] is Some
        &&& self.store().holds(self.token_of(h))
    }

    /// The private data that the controller under `h` sees.
    pub open spec fn data_of(&self, h: usize) -> D {
        self.store().value(self.token_of(h))
    }

    /// A host with no devices and `capacity` controller slots.
    pub fn new(capacity: usize) -> (r: Self)
        ensures
            r.store().slots().len() == 0,
            r.store().live() == Map::<usize, D>::empty(),
            r.drvdata().len() == 0,
            r.controllers().len() == 0,
            r.capacity() == capacity,
    {
        ResetHost {
            store: ForeignStore::new(),
            drvdata: Vec::new(),
            controllers: Vec::new(),
            capacity,
        }
    }

    /// Adds a device with the given topology descriptor and an empty data slot.
    pub fn add_device(&mut self, of_node: usize) -> (d: Device)
        requires
            old(self).drvdata().len() < usize::MAX,
        ensures
            d.id == old(self).drvdata().len(),
            d.of_node == of_node,
            final(self).drvdata() == old(self).drvdata().push(None),
            final(self).store() == old(self).store(),
            final(self).controllers() == old(self).controllers(),
            final(self).capacity() == old(self).capacity(),
    {
        let id = self.drvdata.len();
        self.drvdata.push(None);
        Device { id, of_node }
    }

    /// Reads the data slot of device `dev`.
    pub fn get_drvdata(&self, dev: usize) -> (r: Option<usize>)
        requires
            dev < self.drvdata().len(),
        ensures
            r == self.drvdata()[dev as int],
    {
        self.drvdata[dev]
    }

    /// Writes the data slot of device `dev`.
    pub fn set_drvdata(&mut self, dev: usize, token: Option<usize>)
        requires
            dev < old(self).drvdata().len(),
        ensures
            final(self).drvdata() == old(self).drvdata().update(dev as int, token),
            final(self).store() == old(self).store(),
            final(self).controllers() == old(self).controllers(),
            final(self).capacity() == old(self).capacity(),
    {
        self.drvdata.set(dev, token);
    }

    /// Moves `d` into the host's storage and returns its token.
    pub fn into_foreign(&mut self, d: D) -> (t: usize)
        requires
            old(self).store().can_accept(),
        ensures
            !old(self).store().holds(t),
            final(self).store().holds(t),
            final(self).store().value(t) == d,
            final(self).store().live() == old(self).store().live().insert(t, d),
            final(self).store().slots() == old(self).store().slots().push(Some(d)),
            final(self).drvdata() == old(self).drvdata(),
            final(self).controllers() == old(self).controllers(),
            final(self).capacity() == old(self).capacity(),
    {
        self.store.into_foreign(d)
    }

    /// Moves the value behind `t` back out of the host's storage.
    pub fn from_foreign(&mut self, t: usize) -> (d: D)
        requires
            old(self).store().holds(t),
        ensures
            d == old(self).store().value(t),
            final(self).store().live() == old(self).store().live().remove(t),
            final(self).store().slots() == old(self).store().slots().update(t as int, None),
            final(self).drvdata() == old(self).drvdata(),
            final(self).controllers() == old(self).controllers(),
            final(self).capacity() == old(self).capacity(),
    {
        self.store.from_foreign(t)
    }

    /// A view of the value behind `t`.
    pub fn borrow_data(&self, t: usize) -> (r: &D)
        requires
            self.store().holds(t),
        ensures
            *r == self.store().value(t),
    {
        self.store.borrow(t)
    }

    /// The registration entry point: takes `cb` into the next free slot and returns
    /// its handle, or refuses with `-ENOMEM` when every slot has been used.
    pub fn register_controller(&mut self, cb: ControlBlock) -> (r: Result<usize, i32>)
        ensures
            old(self).accepts() ==> (r matches Ok(h) && h == old(self).controllers().len()
                && final(self).controllers() == old(self).controllers().push(Some(cb))),
            !old(self).accepts() ==> r == Err::<usize, i32>((-ENOMEM) as i32)
                && final(self).controllers() == old(self).controllers(),
            final(self).drvdata() == old(self).drvdata(),
            final(self).store() == old(self).store(),
            final(self).capacity() == old(self).capacity(),
    {
        if self.controllers.len() < self.capacity {
            let h = self.controllers.len();
            self.controllers.push(Some(cb));
            Ok(h)
        } else {
            Err(-ENOMEM)
        }
    }

    /// The unregistration entry point: no callback runs for `h` afterwards.
    pub fn unregister_controller(&mut self, h: usize)
        requires
            h < old(self).controllers().len(),
        ensures
            final(self).controllers() == old(self).controllers().update(h as int, None),
            final(self).drvdata() == old(self).drvdata(),
            final(self).store() == old(self).store(),
            final(self).capacity() == old(self).capacity(),
    {
        self.controllers.set(h, None);
    }

    /// Whether `h` is the handle of a registered controller.
    pub fn controller_live(&self, h: usize) -> (r: bool)
        ensures
            r == self.is_live(h),
    {
        h < self.controllers.len() && self.controllers[h].is_some()
    }

    /// The control block registered under `h`.
    pub fn control_block(&self, h: usize) -> (r: ControlBlock)
        requires
            self.is_live(h),
        ensures
            r == self.block(h),
    {
        self.controllers[h].unwrap()
    }
}

} // verus!
