//! Moving owned values to a side that only keeps an untyped token.
use vstd::prelude::*;

verus! {

/// Storage behind tokens: a token is the index of the slot that holds its value.
///
/// A value moves in with [`ForeignStore::into_foreign`], may be borrowed any number
/// of times with [`ForeignStore::borrow`], and moves out exactly once with
/// [`ForeignStore::from_foreign`]. Slots are never reused, so a token that was
/// reclaimed never names another value.
pub struct ForeignStore<D> {
    slots: Vec<Option<D>>,
}

impl<D> ForeignStore<D> {
    /// The slots, in token order.
    pub closed spec fn slots(&self) -> Seq<Option<D>> {
        self.slots@
    }

    /// Whether `t` currently stands for a value.
    pub open spec fn holds(&self, t: usize) -> bool {
        t < self.slots().len() && self.slots()[t as int] is Some
    }

    /// The value that `t` stands for.
    pub open spec fn value(&self, t: usize) -> D {
        self.slots()[t as int]->Some_0
    }

    /// The live tokens and their values.
    pub open spec fn live(&self) -> Map<usize, D> {
        Map::new(|t: usize| self.holds(t), |t: usize| self.value(t))
    }

    /// Whether one more value can be moved in.
    pub open spec fn can_accept(&self) -> bool {
        self.slots().len() < usize::MAX
    }

    /// An empty store.
    pub fn new() -> (r: Self)
        ensures
            r.slots().len() == 0,
            r.live() == Map::<usize, D>::empty(),
    {
        let r = ForeignStore { slots: Vec::new() };
        assert(r.live() =~= Map::<usize, D>::empty());
        r
    }

    /// Moves `d` in and returns the token that now stands for it.
    pub fn into_foreign(&mut self, d: D) -> (t: usize)
        requires
            old(self).can_accept(),
        ensures
            t == old(self).slots().len(),
            !old(self).holds(t),
            final(self).holds(t),
            final(self).value(t) == d,
            final(self).slots() == old(self).slots().push(Some(d)),
            final(self).live() == old(self).live().insert(t, d),
    {
        let t = self.slots.len();
        self.slots.push(Some(d));
        assert(self.live() =~= old(self).live().insert(t, d));
        t
    }

    /// A view of the value behind `t`; the store is left as it is.
    pub fn borrow(&self, t: usize) -> (r: &D)
        requires
            self.holds(t),
        ensures
            *r == self.value(t),
            *r == self.live()[t],
    {
        self.slots[t].as_ref().unwrap()
    }

    /// Moves the value behind `t` out; `t` stands for nothing afterwards.
    pub fn from_foreign(&mut self, t: usize) -> (d: D)
        requires
            old(self).holds(t),
        ensures
            d == old(self).value(t),
            !final(self).holds(t),
            final(self).slots() == old(self).slots().update(t as int, None),
            final(self).live() == old(self).live().remove(t),
    {
        self.slots.push(None);
        let taken = self.slots.swap_remove(t);
        assert(self.slots@ =~= old(self).slots@.update(t as int, None));
        assert(self.live() =~= old(self).live().remove(t));
        taken.unwrap()
    }
}

/// Two borrows of one token, with no transfer between them, see the same value:
/// each is the value that the store holds for the token.
pub proof fn lemma_borrows_agree<D>(store: ForeignStore<D>, t: usize, first: D, second: D)
    requires
        store.holds(t),
        first == store.live()[t],
        second == store.live()[t],
    ensures
        first == second,
        first == store.value(t),
{
}

/// Moving a value in and reclaiming its token gives the value back and leaves
/// the live tokens as they were.
pub proof fn lemma_reclaim_restores<D>(
    before: ForeignStore<D>,
    between: ForeignStore<D>,
    after: ForeignStore<D>,
    d: D,
    t: usize,
    back: D,
)
    requires
        !before.holds(t),
        between.live() == before.live().insert(t, d),
        between.holds(t),
        between.value(t) == d,
        back == between.value(t),
        after.live() == between.live().remove(t),
    ensures
        back == d,
        after.live() == before.live(),
{
    assert(!before.live().dom().contains(t));
    assert(after.live() =~= before.live());
}

} // verus!
