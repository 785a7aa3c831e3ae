//! The watchdog device of boards whose timeout cannot be configured yet.
use vstd::prelude::*;

use crate::error::{Error, Result};
use crate::Watchdog;

verus! {

/// A watchdog device node; enabling and servicing are not supported.
#[derive(Debug)]
pub struct Wdg {
    pub path: &'static str,
}

impl Wdg {
    pub fn new(path: &'static str) -> (r: Wdg)
        ensures
            r.path == path,
    {
        Wdg { path }
    }
}

impl Watchdog for Wdg {
    fn enable(&mut self, _monitor: bool) -> (r: Result<()>)
        ensures
            r == Err::<(), Error>(Error::NotImplemented),
    {
        Err(Error::NotImplemented)
    }

    fn service(&mut self) -> (r: Result<()>)
        ensures
            r == Err::<(), Error>(Error::NotImplemented),
    {
        Err(Error::NotImplemented)
    }
}

} // verus!
