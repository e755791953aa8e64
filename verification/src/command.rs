use vstd::prelude::*;

verus! {

/// A command that runs a callback.
pub struct Command<F> {
    callback: F,
}

impl<F> Command<F> {
    /// A command that runs `callback`.
    pub fn new(callback: F) -> (r: Self)
        ensures
            r.callback() == callback,
    {
        Command { callback }
    }

    /// The callback the command runs.
    pub closed spec fn callback(&self) -> F {
        self.callback
    }

    /// Runs the callback and gives back what it returns.
    pub fn run<E>(&self) -> (r: Result<(), E>)
        where
            F: Fn() -> Result<(), E>,
        requires
            call_requires(self.callback(), ()),
        ensures
            call_ensures(self.callback(), (), r),
    {
        (self.callback)()
    }
}

} // verus!
