use vstd::prelude::*;

verus! {

/// A one-to-many notification list. Listeners are kept in registration
/// order and are never removed.
pub struct Action<T, L: Fn(T)> {
    listeners: Vec<L>,
    marker: core::marker::PhantomData<T>,
}

impl<T, L: Fn(T)> Default for Action<T, L> {
    fn default() -> (r: Self)
        ensures
            r@ == Seq::<L>::empty(),
    {
        Action::new()
    }
}

impl<T, L: Fn(T)> Action<T, L> {
    /// The registered listeners, in registration order.
    pub closed spec fn view(&self) -> Seq<L> {
        self.listeners@
    }

    pub fn new() -> (r: Self)
        ensures
            r@ == Seq::<L>::empty(),
    {
        Action { listeners: Vec::new(), marker: core::marker::PhantomData }
    }

    /// Appends `listener` after every listener registered before it.
    pub fn add(&mut self, listener: L)
        ensures
            final(self)@ == old(self)@.push(listener),
    {
        self.listeners.push(listener);
    }

    /// The number of registered listeners.
    pub fn len(&self) -> (r: usize)
        ensures
            r == self@.len(),
    {
        self.listeners.len()
    }

    /// Calls `arg` once for each listener, in registration order, and hands
    /// each listener the value produced for it: listener `i` receives the
    /// result of the `i`-th call of `arg`.
    pub fn invoke<A: Fn() -> T>(&self, arg: A)
        requires
            call_requires(arg, ()),
            forall|i: int, v: T|
                0 <= i < self@.len() && call_ensures(arg, (), v) ==> #[trigger] call_requires(self@[i], (v,)),
        ensures
            exists|vals: Seq<T>|
                {
                    &&& vals.len() == self@.len()
                    &&& forall|i: int|
                        0 <= i < vals.len() ==> call_ensures(arg, (), #[trigger] vals[i])
                            && call_ensures(self@[i], (vals[i],), ())
                },
    {
        let ghost mut vals: Seq<T> = Seq::empty();
        let mut i: usize = 0;
        while i < self.listeners.len()
            invariant
                0 <= i <= self@.len(),
                vals.len() == i,
                call_requires(arg, ()),
                forall|k: int, v: T|
                    0 <= k < self@.len() && call_ensures(arg, (), v) ==> #[trigger] call_requires(self@[k], (v,)),
                forall|k: int|
                    0 <= k < vals.len() ==> call_ensures(arg, (), #[trigger] vals[k])
                        && call_ensures(self@[k], (vals[k],), ()),
            decreases self@.len() - i,
        {
            let v = arg();
            proof {
                vals = vals.push(v);
            }
            (self.listeners[i])(v);
            i = i + 1;
        }
        assert(vals.len() == self@.len());
    }
}

} // verus!
