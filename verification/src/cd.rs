use vstd::prelude::*;

verus! {

/// Change detection: a value together with a flag that tells whether mutable
/// access to the value was requested since construction or the last reset.
///
/// The flag follows requests, not values: asking for a mutable view sets it
/// even if nothing is written through that view, and writing back an equal
/// value does not clear it.
///
/// Its `Debug` output shows both the value and the flag.
#[derive(Debug)]
pub struct Cd<T> {
    data: T,
    changed: bool,
}

/// What a [`Cd`] holds, as a mathematical value: the wrapped value and the flag.
pub ghost struct CdView<T> {
    pub data: T,
    pub changed: bool,
}

impl<T> CdView<T> {
    /// The state after a reset: the same value, the flag clear.
    pub open spec fn reset(self) -> CdView<T> {
        CdView { data: self.data, changed: false }
    }

    /// The state once a tracked mutable view has been handed out and has left
    /// `data` behind: the flag is set whatever `data` is.
    pub open spec fn written(self, data: T) -> CdView<T> {
        CdView { data, changed: true }
    }

    /// The state once a silent mutable view has left `data` behind: the flag
    /// is as it was.
    pub open spec fn silently_written(self, data: T) -> CdView<T> {
        CdView { data, changed: self.changed }
    }
}

impl<T> View for Cd<T> {
    type V = CdView<T>;

    closed spec fn view(&self) -> CdView<T> {
        CdView { data: self.data, changed: self.changed }
    }
}

impl<T> Cd<T> {
    /// Wraps `data` with the flag clear.
    pub fn new(data: T) -> (cd: Cd<T>)
        ensures
            cd@ == (CdView { data, changed: false }),
    {
        Cd { data, changed: false }
    }

    /// Wraps `data` with the flag already set.
    pub fn new_true(data: T) -> (cd: Cd<T>)
        ensures
            cd@ == (CdView { data, changed: true }),
    {
        Cd { data, changed: true }
    }

    /// Wraps `data` with the flag set to `initial`.
    pub fn new_with_flag(data: T, initial: bool) -> (cd: Cd<T>)
        ensures
            cd@ == (CdView { data, changed: initial }),
    {
        Cd { data, changed: initial }
    }

    /// Clears the flag. The value is left as it is.
    pub fn reset(this: &mut Cd<T>)
        ensures
            final(this)@ == old(this)@.reset(),
    {
        this.changed = false;
    }

    /// Consumes the container and hands out the value it owned.
    pub fn take(this: Cd<T>) -> (data: T)
        ensures
            data == this@.data,
    {
        this.data
    }

    /// Tells whether mutable access was requested since construction or the
    /// last reset.
    pub fn changed(this: &Cd<T>) -> (flag: bool)
        ensures
            flag == this@.changed,
    {
        this.changed
    }

    /// Hands out a mutable view of the value without setting the flag.
    ///
    /// This deliberately breaks the promise that the value cannot be mutated
    /// unnoticed. It is an associated function with a name of its own, never
    /// reached through `*`, so that every use can be found and audited. It is
    /// memory safe; only the tracking guarantee is given up.
    pub fn silent_mut(this: &mut Cd<T>) -> (data: &mut T)
        ensures
            *data == old(this)@.data,
            final(this)@ == old(this)@.silently_written(*final(data)),
    {
        &mut this.data
    }
}

/// Reading through the container: a shared view of the value. The container is
/// only borrowed, so neither the value nor the flag can differ afterwards.
impl<T> core::ops::Deref for Cd<T> {
    type Target = T;

    fn deref(&self) -> (data: &T)
        ensures
            *data == self@.data,
    {
        &self.data
    }
}

/// Writing through the container: the flag is set before the mutable view is
/// handed out, whether or not anything is written through it.
impl<T> core::ops::DerefMut for Cd<T> {
    fn deref_mut(&mut self) -> (data: &mut T)
        ensures
            *data == old(self)@.data,
            final(self)@ == old(self)@.written(*final(data)),
    {
        self.changed = true;
        &mut self.data
    }
}

/// The default value of `T`, wrapped with the flag clear.
impl<T: Default> Default for Cd<T> {
    fn default() -> (cd: Cd<T>)
        ensures
            !cd@.changed,
            call_ensures(T::default, (), cd@.data),
    {
        Cd::new(T::default())
    }
}

/// A copy holds a clone of the value and the same flag. Cloning reads the
/// container; it sets the flag on neither side.
impl<T: Clone> Clone for Cd<T> {
    fn clone(&self) -> (cd: Cd<T>)
        ensures
            cd@.changed == self@.changed,
            cloned(self@.data, cd@.data),
    {
        Cd { data: self.data.clone(), changed: self.changed }
    }
}

} // verus!
