//! Driver registry.
//!
//! Drivers implement `Driver`, are registered before the kernel starts, and
//! `init_all` calls each driver's `init` in registration order.

use vstd::prelude::*;

verus! {

/// A device driver.
pub trait Driver {
    /// Short human-readable name (e.g. "uart0").
    fn name(&self) -> &'static str;

    /// Called once during boot, in registration order.
    fn init(&self);

    /// Called on graceful shutdown.
    fn shutdown(&self) {
    }
}

/// Most drivers the registry holds; later registrations are dropped.
pub const MAX_DRIVERS: usize = 64;

/// The registered drivers after registering `d`: appended while there is
/// room, dropped once the registry is full.
pub open spec fn after_register<D>(drivers: Seq<D>, d: D) -> Seq<D> {
    if drivers.len() < MAX_DRIVERS {
        drivers.push(d)
    } else {
        drivers
    }
}

/// The registered drivers after registering each of `ds` in turn into an
/// empty registry.
pub open spec fn register_all<D>(ds: Seq<D>) -> Seq<D>
    decreases ds.len(),
{
    if ds.len() == 0 {
        Seq::empty()
    } else {
        after_register(register_all(ds.drop_last()), ds.last())
    }
}

/// The drivers registered so far, in registration order: the first `count`
/// slots, held inline.
pub struct DriverRegistry<D> {
    drivers: [Option<D>; 64],
    count: usize,
}

impl<D> DriverRegistry<D> {
    /// The registered drivers, in registration order.
    pub closed spec fn view(&self) -> Seq<D> {
        Seq::new(self.count as nat, |i: int| self.drivers@[i]->0)
    }

    /// The first `count` slots hold the registered drivers.
    #[verifier::type_invariant]
    spec fn filled_prefix(&self) -> bool {
        &&& self.count <= MAX_DRIVERS
        &&& forall|i: int| 0 <= i < self.count ==> (#[trigger] self.drivers@[i]) is Some
    }
}

impl<D: Driver + Copy> DriverRegistry<D> {
    /// An empty registry.
    pub fn new() -> (r: Self)
        ensures
            r.view() == Seq::<D>::empty(),
    {
        let r = DriverRegistry { drivers: [None; 64], count: 0 };
        assert(r.view() =~= Seq::<D>::empty());
        r
    }

    /// Number of registered drivers.
    pub fn len(&self) -> (n: usize)
        ensures
            n == self.view().len(),
    {
        self.count
    }

    /// Register `d` to be initialised after the drivers registered before
    /// it. Once `MAX_DRIVERS` drivers are registered, `d` is dropped.
    pub fn register(&mut self, d: D)
        ensures
            final(self).view() == after_register(old(self).view(), d),
    {
        proof {
            use_type_invariant(&*self);
        }
        if self.count < MAX_DRIVERS {
            let n = self.count;
            self.drivers[n] = Some(d);
            self.count = n + 1;
            assert(self.view() =~= old(self).view().push(d));
        }
    }

    /// Call `init` on every registered driver, in registration order.
    pub fn init_all(&self) {
        proof {
            use_type_invariant(self);
        }
        let n = self.count;
        let mut i: usize = 0;
        while i < n
            invariant
                i <= n,
                n <= MAX_DRIVERS,
            decreases n - i,
        {
            if let Some(d) = self.drivers[i] {
                d.init();
            }
            i = i + 1;
        }
    }
}

/// Registering drivers one after another keeps them in registration order
/// and keeps the first `MAX_DRIVERS` of them.
pub proof fn lemma_register_all<D>(ds: Seq<D>)
    ensures
        register_all(ds) == ds.take(
            if ds.len() <= MAX_DRIVERS {
                ds.len() as int
            } else {
                MAX_DRIVERS as int
            },
        ),
    decreases ds.len(),
{
    if ds.len() > 0 {
        lemma_register_all(ds.drop_last());
        let prev = register_all(ds.drop_last());
        if ds.len() <= MAX_DRIVERS {
            assert(prev == ds.drop_last());
            assert(ds.drop_last().push(ds.last()) =~= ds.take(ds.len() as int));
        } else {
            assert(prev.len() == MAX_DRIVERS);
            assert(ds.drop_last().take(MAX_DRIVERS as int) =~= ds.take(MAX_DRIVERS as int));
        }
    } else {
        assert(ds.take(0) =~= Seq::<D>::empty());
    }
}

} // verus!
