//! A map that is declared and not yet created: what can still be set of it.
//!
//! Every setter is one call to the kernel-side object, which the caller supplies;
//! the map hands it the object's handle and the setting.

use crate::error::{unit_view, Error};
use crate::live_map::LiveMap;
use crate::reply::{object_outcome, object_result};
use vstd::prelude::*;

verus! {

/// A handle to a map before its creation. It owns the handle of the kernel-side
/// object and keeps nothing else: the settings live in the kernel.
pub struct OpenMap<H> {
    handle: H,
}

impl<H> OpenMap<H> {
    /// The handle of the kernel-side object.
    pub closed spec fn spec_handle(&self) -> H {
        self.handle
    }

    /// A handle to the map behind `handle`.
    pub fn new(handle: H) -> (map: Self)
        ensures
            map.spec_handle() == handle,
    {
        OpenMap { handle }
    }

    /// Binds the map to the network device of index `idx`.
    ///
    /// `call` is made once, with the handle and the index. It has no answer.
    pub fn set_map_ifindex<F>(&mut self, idx: u32, call: F) where F: FnOnce(&H, u32) -> ()
        requires
            call.requires((&old(self).spec_handle(), idx)),
        ensures
            *final(self) == *old(self),
            call.ensures((&old(self).spec_handle(), idx), ()),
    {
        call(&self.handle, idx)
    }

    /// Stages the bytes that the map holds when it is created.
    ///
    /// `call` is made once, with the handle and the bytes; a return value other
    /// than zero is the negated errno of the refusal.
    pub fn set_initial_value<F>(&mut self, data: &[u8], call: F) -> (r: Result<(), Error>) where
        F: FnOnce(&H, &[u8]) -> i32,

        requires
            call.requires((&old(self).spec_handle(), data)),
        ensures
            *final(self) == *old(self),
            exists|ret: i32| #[trigger]
                call.ensures((&old(self).spec_handle(), data), ret) && unit_view(r)
                    == object_outcome(ret),
    {
        let ret = call(&self.handle, data);
        let r = object_result(ret);
        assert(call.ensures((&self.spec_handle(), data), ret) && unit_view(r) == object_outcome(
            ret,
        ));
        r
    }

    /// Sets how many entries the map can hold.
    ///
    /// `call` is made once, with the handle and the count; a return value other
    /// than zero is the negated errno of the refusal.
    pub fn set_max_entries<F>(&mut self, count: u32, call: F) -> (r: Result<(), Error>) where
        F: FnOnce(&H, u32) -> i32,

        requires
            call.requires((&old(self).spec_handle(), count)),
        ensures
            *final(self) == *old(self),
            exists|ret: i32| #[trigger]
                call.ensures((&old(self).spec_handle(), count), ret) && unit_view(r)
                    == object_outcome(ret),
    {
        let ret = call(&self.handle, count);
        let r = object_result(ret);
        assert(call.ensures((&self.spec_handle(), count), ret) && unit_view(r) == object_outcome(
            ret,
        ));
        r
    }

    /// Makes `inner` the template of the maps that this map of maps will hold.
    ///
    /// `call` is made once, with the handle and the file descriptor of `inner`. It
    /// has no answer: a refusal shows when the map is created.
    pub fn set_inner_map_fd<G, F>(&mut self, inner: &LiveMap<G>, call: F) where
        F: FnOnce(&H, i32) -> (),

        requires
            call.requires((&old(self).spec_handle(), inner.spec_fd())),
        ensures
            *final(self) == *old(self),
            call.ensures((&old(self).spec_handle(), inner.spec_fd()), ()),
    {
        call(&self.handle, inner.fd())
    }
}

} // verus!
