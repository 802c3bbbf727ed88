use vstd::prelude::*;

verus! {

/// An observer of one progress stream.
pub trait ProgressHandler: Send + Sync {
    fn start(&self, total: usize);

    fn set_size(&self, size: usize);

    fn advance(&self);

    fn finish(&self);

    fn set_message(&self, str: String);

    fn println(&self, str: String);
}

/// The observer that ignores everything.
#[derive(Debug, Clone, Copy, PartialEq, Eq, Structural)]
pub struct NullProgressHandler;

impl ProgressHandler for NullProgressHandler {
    fn start(&self, _total: usize) {
    }

    fn set_size(&self, _size: usize) {
    }

    fn advance(&self) {
    }

    fn finish(&self) {
    }

    fn set_message(&self, _str: String) {
    }

    fn println(&self, _str: String) {
    }
}

impl Default for NullProgressHandler {
    fn default() -> (handler: NullProgressHandler)
        ensures
            handler == NullProgressHandler,
    {
        NullProgressHandler
    }
}

} // verus!
