//! A map that the kernel has created: reads, writes and removals of its entries.
//!
//! The kernel is reached through a call that the caller supplies with each operation.
//! The map decides whether the call is made, fixes what it is handed, and says what
//! its answer means.

use crate::error::{
    key_size_message, record_view, size_mismatch, unit_view, value_size_message, Error, ErrorView,
};
use crate::flags::MapFlags;
use crate::map_type::MapType;
use crate::path::{c_string, first_zero, zero_byte_message, zero_free};
use crate::reply::{
    element_outcome, element_result, last_errno, lookup_outcome, lookup_result, object_outcome,
    object_result,
};
use vstd::prelude::*;
use vstd::string::StringSliceAdditionalSpecFns;

verus! {

/// A buffer of `len` zero bytes: what a read hands to the kernel to be filled.
pub open spec fn blank(len: nat) -> Seq<u8> {
    Seq::new(len, |i: int| 0u8)
}

/// A handle to a created map: its file descriptor, what the kernel told of it at
/// creation, and the handle of the kernel-side object, which only pinning needs.
pub struct LiveMap<H> {
    fd: i32,
    name: String,
    ty: u32,
    key_size: u32,
    value_size: u32,
    handle: H,
}

impl<H> LiveMap<H> {
    /// The file descriptor of the map.
    pub closed spec fn spec_fd(&self) -> i32 {
        self.fd
    }

    /// The length in bytes of every key.
    pub closed spec fn spec_key_size(&self) -> u32 {
        self.key_size
    }

    /// The length in bytes of every value.
    pub closed spec fn spec_value_size(&self) -> u32 {
        self.value_size
    }

    /// The name of the map.
    pub closed spec fn spec_name(&self) -> Seq<char> {
        self.name@
    }

    /// The kernel's number for the kind of the map.
    pub closed spec fn spec_type_number(&self) -> u32 {
        self.ty
    }

    /// The handle of the kernel-side object.
    pub closed spec fn spec_handle(&self) -> H {
        self.handle
    }

    /// A handle to the map that the kernel created under `fd`.
    pub fn new(fd: i32, name: String, ty: u32, key_size: u32, value_size: u32, handle: H) -> (map:
        Self)
        ensures
            map.spec_fd() == fd,
            map.spec_name() == name@,
            map.spec_type_number() == ty,
            map.spec_key_size() == key_size,
            map.spec_value_size() == value_size,
            map.spec_handle() == handle,
    {
        LiveMap { fd, name, ty, key_size, value_size, handle }
    }

    /// The name of the map.
    pub fn name(&self) -> (name: &str)
        ensures
            name@ == self.spec_name(),
    {
        self.name.as_str()
    }

    /// The file descriptor of the map.
    #[verifier::when_used_as_spec(spec_fd)]
    pub fn fd(&self) -> (fd: i32)
        ensures
            fd == self.spec_fd(),
    {
        self.fd
    }

    /// The kind of the map; `Unknown` where the kernel's number has no name here.
    pub fn map_type(&self) -> (kind: MapType)
        ensures
            kind == MapType::spec_from_number(self.spec_type_number()),
    {
        match MapType::try_from_primitive(self.ty) {
            Some(kind) => kind,
            None => MapType::Unknown,
        }
    }

    /// The length in bytes of every key.
    #[verifier::when_used_as_spec(spec_key_size)]
    pub fn key_size(&self) -> (size: u32)
        ensures
            size == self.spec_key_size(),
    {
        self.key_size
    }

    /// The length in bytes of every value.
    #[verifier::when_used_as_spec(spec_value_size)]
    pub fn value_size(&self) -> (size: u32)
        ensures
            size == self.spec_value_size(),
    {
        self.value_size
    }

    /// Whether `key` has the length of this map's keys.
    pub open spec fn takes_key(&self, key: Seq<u8>) -> bool {
        key.len() == self.spec_key_size()
    }

    /// Whether `value` has the length of this map's values.
    pub open spec fn takes_value(&self, value: Seq<u8>) -> bool {
        value.len() == self.spec_value_size()
    }

    /// The refusal of a key of the wrong length.
    pub open spec fn bad_key(&self, key: Seq<u8>) -> ErrorView {
        ErrorView::InvalidInput(key_size_message(key.len(), self.spec_key_size() as nat))
    }

    /// The refusal of a value of the wrong length.
    pub open spec fn bad_value(&self, value: Seq<u8>) -> ErrorView {
        ErrorView::InvalidInput(value_size_message(value.len(), self.spec_value_size() as nat))
    }

    /// What a read of `key` comes to, given the kernel's answer: the refusal of a
    /// key of the wrong length whatever the answer, else what the answer means.
    pub open spec fn read_meaning(&self, key: Seq<u8>, ret: i32, errno: i32, out: Seq<u8>) -> Result<
        Option<Seq<u8>>,
        ErrorView,
    > {
        if self.takes_key(key) {
            lookup_outcome(ret, errno, out)
        } else {
            Err(self.bad_key(key))
        }
    }

    /// What a write of `value` under `key` comes to, given the kernel's answer: the
    /// refusal of a key of the wrong length, then of a value of the wrong length,
    /// whatever the answer, else what the answer means.
    pub open spec fn write_meaning(
        &self,
        key: Seq<u8>,
        value: Seq<u8>,
        ret: i32,
        errno: i32,
    ) -> Result<(), ErrorView> {
        if !self.takes_key(key) {
            Err(self.bad_key(key))
        } else if !self.takes_value(value) {
            Err(self.bad_value(value))
        } else {
            element_outcome(ret, errno)
        }
    }

    /// What a removal of `key` comes to, given the kernel's answer: the refusal of
    /// a key of the wrong length whatever the answer, else what the answer means.
    pub open spec fn removal_meaning(&self, key: Seq<u8>, ret: i32, errno: i32) -> Result<
        (),
        ErrorView,
    > {
        if self.takes_key(key) {
            element_outcome(ret, errno)
        } else {
            Err(self.bad_key(key))
        }
    }

    /// Reads the value of `key`.
    ///
    /// A key of the wrong length is refused and the kernel is not asked. Otherwise
    /// `call` is made once, with the file descriptor, the key, a blank buffer of the
    /// value's length and the flags' bits; it returns the kernel's return value and
    /// the buffer. The result is what that answer means: the record, `None` where
    /// the kernel knows no such entry, or the kernel's errno. The call must return
    /// a buffer as long as the one it was handed, as a kernel does that fills the
    /// buffer where it lies.
    pub fn lookup<F>(&self, key: &[u8], flags: MapFlags, call: F) -> (r: Result<
        Option<Vec<u8>>,
        Error,
    >) where F: FnOnce(i32, &[u8], Vec<u8>, u64) -> (i32, Vec<u8>)
        requires
            self.takes_key(key@) ==> forall|buffer: Vec<u8>|
                buffer@ == blank(self.spec_value_size() as nat) ==> #[trigger] call.requires(
                    (self.spec_fd(), key, buffer, flags.spec_bits()),
                ),
            forall|buffer: Vec<u8>, ret: i32, out: Vec<u8>| #[trigger]
                call.ensures((self.spec_fd(), key, buffer, flags.spec_bits()), (ret, out))
                    ==> out@.len() == buffer@.len(),
        ensures
            r matches Ok(Some(record)) ==> record@.len() == self.spec_value_size(),
            !self.takes_key(key@) ==> record_view(r) == Err::<Option<Seq<u8>>, ErrorView>(
                self.bad_key(key@),
            ),
            self.takes_key(key@) ==> exists|buffer: Vec<u8>, ret: i32, out: Vec<u8>, errno: i32|
                {
                    &&& buffer@ == blank(self.spec_value_size() as nat)
                    &&& #[trigger] call.ensures(
                        (self.spec_fd(), key, buffer, flags.spec_bits()),
                        (ret, out),
                    )
                    &&& record_view(r) == #[trigger] self.read_meaning(key@, ret, errno, out@)
                },
    {
        if key.len() != self.key_size as usize {
            return Err(size_mismatch("key_size", key.len(), self.key_size));
        }
        let buffer: Vec<u8> = vec![0u8; self.value_size as usize];
        assert(buffer@ =~= blank(self.spec_value_size() as nat));
        let ghost handed = buffer;
        let (ret, out) = call(self.fd, key, buffer, flags.bits());
        let errno: i32 = if ret == 0 {
            0
        } else {
            last_errno()
        };
        let ghost filled = out;
        let r = lookup_result(ret, errno, out);
        assert(call.ensures((self.spec_fd(), key, handed, flags.spec_bits()), (ret, filled))
            && record_view(r) == self.read_meaning(key@, ret, errno, filled@));
        r
    }

    /// Removes the entry of `key`.
    ///
    /// A key of the wrong length is refused and the kernel is not asked. Otherwise
    /// `call` is made once, with the file descriptor and the key. Every failure of
    /// the kernel is an error, that of a key without an entry too.
    pub fn delete<F>(&mut self, key: &[u8], call: F) -> (r: Result<(), Error>) where
        F: FnOnce(i32, &[u8]) -> i32,

        requires
            old(self).takes_key(key@) ==> call.requires((old(self).spec_fd(), key)),
        ensures
            *final(self) == *old(self),
            !old(self).takes_key(key@) ==> unit_view(r) == Err::<(), ErrorView>(
                old(self).bad_key(key@),
            ),
            old(self).takes_key(key@) ==> exists|ret: i32, errno: i32|
                {
                    &&& #[trigger] call.ensures((old(self).spec_fd(), key), ret)
                    &&& unit_view(r) == #[trigger] old(self).removal_meaning(key@, ret, errno)
                },
    {
        if key.len() != self.key_size as usize {
            return Err(size_mismatch("key_size", key.len(), self.key_size));
        }
        let ret = call(self.fd, key);
        let errno: i32 = if ret == 0 {
            0
        } else {
            last_errno()
        };
        let r = element_result(ret, errno);
        assert(call.ensures((self.spec_fd(), key), ret) && unit_view(r) == self.removal_meaning(
            key@,
            ret,
            errno,
        ));
        r
    }

    /// Reads the value of `key` and removes the entry, in one step.
    ///
    /// As [`LiveMap::lookup`], without flags: `call` is handed the file descriptor,
    /// the key and a blank buffer of the value's length. Kinds of map that cannot
    /// do this refuse in the kernel, which is an error like any other.
    pub fn lookup_and_delete<F>(&mut self, key: &[u8], call: F) -> (r: Result<
        Option<Vec<u8>>,
        Error,
    >) where F: FnOnce(i32, &[u8], Vec<u8>) -> (i32, Vec<u8>)
        requires
            old(self).takes_key(key@) ==> forall|buffer: Vec<u8>|
                buffer@ == blank(old(self).spec_value_size() as nat) ==> #[trigger] call.requires(
                    (old(self).spec_fd(), key, buffer),
                ),
            forall|buffer: Vec<u8>, ret: i32, out: Vec<u8>| #[trigger]
                call.ensures((old(self).spec_fd(), key, buffer), (ret, out)) ==> out@.len()
                    == buffer@.len(),
        ensures
            *final(self) == *old(self),
            r matches Ok(Some(record)) ==> record@.len() == old(self).spec_value_size(),
            !old(self).takes_key(key@) ==> record_view(r) == Err::<Option<Seq<u8>>, ErrorView>(
                old(self).bad_key(key@),
            ),
            old(self).takes_key(key@) ==> exists|
                buffer: Vec<u8>,
                ret: i32,
                out: Vec<u8>,
                errno: i32,
            |
                {
                    &&& buffer@ == blank(old(self).spec_value_size() as nat)
                    &&& #[trigger] call.ensures((old(self).spec_fd(), key, buffer), (ret, out))
                    &&& record_view(r) == #[trigger] old(self).read_meaning(
                        key@,
                        ret,
                        errno,
                        out@,
                    )
                },
    {
        if key.len() != self.key_size as usize {
            return Err(size_mismatch("key_size", key.len(), self.key_size));
        }
        let buffer: Vec<u8> = vec![0u8; self.value_size as usize];
        assert(buffer@ =~= blank(self.spec_value_size() as nat));
        let ghost handed = buffer;
        let (ret, out) = call(self.fd, key, buffer);
        let errno: i32 = if ret == 0 {
            0
        } else {
            last_errno()
        };
        let ghost filled = out;
        let r = lookup_result(ret, errno, out);
        assert(call.ensures((self.spec_fd(), key, handed), (ret, filled)) && record_view(r)
            == self.read_meaning(key@, ret, errno, filled@));
        r
    }

    /// Writes `value` under `key`, as the flags say.
    ///
    /// A key of the wrong length is refused, then a value of the wrong length, and
    /// the kernel is not asked. Otherwise `call` is made once, with the file
    /// descriptor, the key, the value and the flags' bits. Every failure of the
    /// kernel is an error.
    pub fn update<F>(&mut self, key: &[u8], value: &[u8], flags: MapFlags, call: F) -> (r: Result<
        (),
        Error,
    >) where F: FnOnce(i32, &[u8], &[u8], u64) -> i32
        requires
            old(self).takes_key(key@) && old(self).takes_value(value@) ==> call.requires(
                (old(self).spec_fd(), key, value, flags.spec_bits()),
            ),
        ensures
            *final(self) == *old(self),
            !old(self).takes_key(key@) ==> unit_view(r) == Err::<(), ErrorView>(
                old(self).bad_key(key@),
            ),
            old(self).takes_key(key@) && !old(self).takes_value(value@) ==> unit_view(r) == Err::<
                (),
                ErrorView,
            >(old(self).bad_value(value@)),
            old(self).takes_key(key@) && old(self).takes_value(value@) ==> exists|
                ret: i32,
                errno: i32,
            |
                {
                    &&& #[trigger] call.ensures(
                        (old(self).spec_fd(), key, value, flags.spec_bits()),
                        ret,
                    )
                    &&& unit_view(r) == #[trigger] old(self).write_meaning(
                        key@,
                        value@,
                        ret,
                        errno,
                    )
                },
    {
        if key.len() != self.key_size as usize {
            return Err(size_mismatch("key_size", key.len(), self.key_size));
        }
        if value.len() != self.value_size as usize {
            return Err(size_mismatch("value_size", value.len(), self.value_size));
        }
        let ret = call(self.fd, key, value, flags.bits());
        let errno: i32 = if ret == 0 {
            0
        } else {
            last_errno()
        };
        let r = element_result(ret, errno);
        assert(call.ensures((self.spec_fd(), key, value, flags.spec_bits()), ret) && unit_view(r)
            == self.write_meaning(key@, value@, ret, errno));
        r
    }

    /// What a call that takes a path makes of `path`: the refusal of a path with a
    /// zero byte inside, or else the meaning of some answer of `call` to the handle
    /// of the kernel-side object and the path as a C string.
    pub open spec fn path_outcome<F: FnOnce(&H, &[u8]) -> i32>(
        &self,
        path: Seq<u8>,
        call: F,
        r: Result<(), Error>,
    ) -> bool {
        if zero_free(path) {
            exists|text: &[u8], ret: i32|
                {
                    &&& text@ == path.push(0u8)
                    &&& #[trigger] call.ensures((&self.spec_handle(), text), ret)
                    &&& unit_view(r) == object_outcome(ret)
                }
        } else {
            exists|at: int| #[trigger]
                first_zero(path, at) && unit_view(r) == Err::<(), ErrorView>(
                    ErrorView::InvalidInput(zero_byte_message(at as nat)),
                )
        }
    }

    /// Whether `call` may be made with the handle of the kernel-side object and
    /// `path` as a C string.
    pub open spec fn path_call_allowed<F: FnOnce(&H, &[u8]) -> i32>(
        &self,
        path: Seq<u8>,
        call: F,
    ) -> bool {
        forall|text: &[u8]|
            text@ == path.push(0u8) ==> #[trigger] call.requires((&self.spec_handle(), text))
    }

    /// Pins the map at `path`, so that it outlives the process.
    ///
    /// A path with a zero byte inside is refused and the kernel is not asked.
    /// Otherwise `call` is made once, with the handle of the kernel-side object and
    /// the path as a C string; a return value other than zero is the negated errno.
    pub fn pin<F>(&mut self, path: &str, call: F) -> (r: Result<(), Error>) where
        F: FnOnce(&H, &[u8]) -> i32,

        requires
            zero_free(path.spec_bytes()) ==> old(self).path_call_allowed(path.spec_bytes(), call),
        ensures
            *final(self) == *old(self),
            old(self).path_outcome(path.spec_bytes(), call, r),
    {
        let text = match c_string(path) {
            Ok(text) => text,
            Err(e) => {
                return Err(e);
            },
        };
        let c_path = text.as_slice();
        let ret = call(&self.handle, c_path);
        let r = object_result(ret);
        assert(call.ensures((&self.spec_handle(), c_path), ret) && unit_view(r) == object_outcome(
            ret,
        ));
        r
    }

    /// Removes the pin of the map at `path`.
    ///
    /// As [`LiveMap::pin`]: the same refusal, the same one call, the same meaning
    /// of its return value.
    pub fn unpin<F>(&mut self, path: &str, call: F) -> (r: Result<(), Error>) where
        F: FnOnce(&H, &[u8]) -> i32,

        requires
            zero_free(path.spec_bytes()) ==> old(self).path_call_allowed(path.spec_bytes(), call),
        ensures
            *final(self) == *old(self),
            old(self).path_outcome(path.spec_bytes(), call, r),
    {
        let text = match c_string(path) {
            Ok(text) => text,
            Err(e) => {
                return Err(e);
            },
        };
        let c_path = text.as_slice();
        let ret = call(&self.handle, c_path);
        let r = object_result(ret);
        assert(call.ensures((&self.spec_handle(), c_path), ret) && unit_view(r) == object_outcome(
            ret,
        ));
        r
    }
}

} // verus!
