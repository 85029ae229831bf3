//! What holds of a map's operations when the kernel keeps the map as a table.
//!
//! The kernel is not part of this library. This module describes the answers of a
//! kernel that keeps, for one map, the value stored under each key, and for the
//! pins, the set of paths in use, and that refuses a call for no other reason than
//! the ones written here. Over those answers it proves what a caller of
//! [`LiveMap`] can count on.

use crate::error::ErrorView;
use crate::flags::{EXIST, NO_EXIST};
use crate::live_map::LiveMap;
use crate::reply::{object_outcome, ENOENT};
use vstd::prelude::*;

verus! {

/// The entries of one map: the value stored under each key.
pub type Table = Map<Seq<u8>, Seq<u8>>;

/// The paths at which something is pinned.
pub type Pins = Set<Seq<u8>>;

/// Whether `ret`, `errno` and `out` answer a read of `key`: the stored value where
/// the key has an entry, a failure with `ENOENT` where it has none.
pub open spec fn answers_read(table: Table, key: Seq<u8>, ret: i32, errno: i32, out: Seq<u8>) -> bool {
    if table.contains_key(key) {
        ret == 0 && out == table[key]
    } else {
        ret != 0 && errno == ENOENT
    }
}

/// Whether the flags forbid a write under `key`: `NO_EXIST` where the key has an
/// entry, `EXIST` where it has none.
pub open spec fn forbids_write(table: Table, key: Seq<u8>, bits: u64) -> bool {
    ||| bits & NO_EXIST != 0 && table.contains_key(key)
    ||| bits & EXIST != 0 && !table.contains_key(key)
}

/// Whether `ret` answers a write of `value` under `key` that leaves `after`: a
/// failure that changes nothing where the flags forbid the write, else success
/// and the entry in place.
pub open spec fn answers_write(
    table: Table,
    key: Seq<u8>,
    value: Seq<u8>,
    bits: u64,
    ret: i32,
    after: Table,
) -> bool {
    if forbids_write(table, key, bits) {
        ret != 0 && after == table
    } else {
        ret == 0 && after == table.insert(key, value)
    }
}

/// Whether `ret` answers a removal of `key` that leaves `after`: success and the
/// entry gone where the key has one, else a failure that changes nothing.
pub open spec fn answers_removal(table: Table, key: Seq<u8>, ret: i32, after: Table) -> bool {
    if table.contains_key(key) {
        ret == 0 && after == table.remove(key)
    } else {
        ret != 0 && after == table
    }
}

/// Whether `ret` answers a pin at `path` that leaves `after`: a failure where the
/// path is in use, else success and the path in use.
pub open spec fn answers_pin(pins: Pins, path: Seq<u8>, ret: i32, after: Pins) -> bool {
    if pins.contains(path) {
        ret != 0 && after == pins
    } else {
        ret == 0 && after == pins.insert(path)
    }
}

/// Whether `ret` answers the removal of the pin at `path` that leaves `after`:
/// success and the path free where it is in use, else a failure.
pub open spec fn answers_unpin(pins: Pins, path: Seq<u8>, ret: i32, after: Pins) -> bool {
    if pins.contains(path) {
        ret == 0 && after == pins.remove(path)
    } else {
        ret != 0 && after == pins
    }
}

/// A value written without constraint is what a read of its key returns, byte
/// for byte.
pub proof fn written_is_read<H>(
    map: LiveMap<H>,
    table: Table,
    key: Seq<u8>,
    value: Seq<u8>,
    bits: u64,
    written: (i32, i32),
    after: Table,
    read: (i32, i32),
    out: Seq<u8>,
)
    requires
        map.takes_key(key),
        map.takes_value(value),
        bits & NO_EXIST == 0,
        bits & EXIST == 0,
        answers_write(table, key, value, bits, written.0, after),
        answers_read(after, key, read.0, read.1, out),
    ensures
        map.write_meaning(key, value, written.0, written.1) == Ok::<(), ErrorView>(()),
        map.read_meaning(key, read.0, read.1, out) == Ok::<Option<Seq<u8>>, ErrorView>(
            Some(value),
        ),
{
}

/// A read of a key that has no entry returns `None`, and no error.
pub proof fn absent_is_none<H>(
    map: LiveMap<H>,
    table: Table,
    key: Seq<u8>,
    read: (i32, i32),
    out: Seq<u8>,
)
    requires
        map.takes_key(key),
        !table.contains_key(key),
        answers_read(table, key, read.0, read.1, out),
    ensures
        map.read_meaning(key, read.0, read.1, out) == Ok::<Option<Seq<u8>>, ErrorView>(None),
{
}

/// After a write without constraint, the removal of the key succeeds, and a read
/// of the key then returns `None`.
pub proof fn removed_is_absent<H>(
    map: LiveMap<H>,
    table: Table,
    key: Seq<u8>,
    value: Seq<u8>,
    bits: u64,
    written: i32,
    after_write: Table,
    removed: (i32, i32),
    after_removal: Table,
    read: (i32, i32),
    out: Seq<u8>,
)
    requires
        map.takes_key(key),
        map.takes_value(value),
        bits & NO_EXIST == 0,
        bits & EXIST == 0,
        answers_write(table, key, value, bits, written, after_write),
        answers_removal(after_write, key, removed.0, after_removal),
        answers_read(after_removal, key, read.0, read.1, out),
    ensures
        map.removal_meaning(key, removed.0, removed.1) == Ok::<(), ErrorView>(()),
        map.read_meaning(key, read.0, read.1, out) == Ok::<Option<Seq<u8>>, ErrorView>(None),
{
}

/// A write with `NO_EXIST` alone fails exactly when the key has an entry, and a
/// write with `EXIST` alone fails exactly when it has none; the failure is the
/// kernel's errno.
pub proof fn constrained_write<H>(
    map: LiveMap<H>,
    table: Table,
    key: Seq<u8>,
    value: Seq<u8>,
    bits: u64,
    written: (i32, i32),
    after: Table,
)
    requires
        map.takes_key(key),
        map.takes_value(value),
        bits == NO_EXIST || bits == EXIST,
        answers_write(table, key, value, bits, written.0, after),
    ensures
        bits == NO_EXIST ==> (map.write_meaning(key, value, written.0, written.1) is Err
            <==> table.contains_key(key)),
        bits == EXIST ==> (map.write_meaning(key, value, written.0, written.1) is Err
            <==> !table.contains_key(key)),
        map.write_meaning(key, value, written.0, written.1) is Err ==> map.write_meaning(
            key,
            value,
            written.0,
            written.1,
        ) == Err::<(), ErrorView>(ErrorView::System(written.1)),
        map.write_meaning(key, value, written.0, written.1) is Ok ==> after == table.insert(
            key,
            value,
        ),
{
    assert(NO_EXIST & NO_EXIST != 0 && NO_EXIST & EXIST == 0 && EXIST & EXIST != 0 && EXIST
        & NO_EXIST == 0) by (bit_vector);
}

/// A key or a value of the wrong length is refused as invalid input, whatever the
/// kernel would answer.
pub proof fn wrong_size_is_invalid_input<H>(
    map: LiveMap<H>,
    key: Seq<u8>,
    value: Seq<u8>,
    answer: (i32, i32),
    out: Seq<u8>,
)
    requires
        !map.takes_key(key) || !map.takes_value(value),
    ensures
        !map.takes_key(key) ==> map.read_meaning(key, answer.0, answer.1, out) == Err::<
            Option<Seq<u8>>,
            ErrorView,
        >(map.bad_key(key)),
        !map.takes_key(key) ==> map.removal_meaning(key, answer.0, answer.1) == Err::<
            (),
            ErrorView,
        >(map.bad_key(key)),
        map.write_meaning(key, value, answer.0, answer.1) is Err,
        map.write_meaning(key, value, answer.0, answer.1)->Err_0 is InvalidInput,
{
}

/// After a pin and the removal of that pin, the same path can be pinned again.
pub proof fn pin_again_after_unpin(
    pins: Pins,
    path: Seq<u8>,
    first: i32,
    pinned: Pins,
    second: i32,
    unpinned: Pins,
    third: i32,
    last: Pins,
)
    requires
        answers_pin(pins, path, first, pinned),
        object_outcome(first) is Ok,
        answers_unpin(pinned, path, second, unpinned),
        answers_pin(unpinned, path, third, last),
    ensures
        object_outcome(second) is Ok,
        object_outcome(third) is Ok,
{
}

/// A path that was pinned, and whose pin was not removed, cannot be pinned again.
pub proof fn pin_twice_fails(
    pins: Pins,
    path: Seq<u8>,
    first: i32,
    pinned: Pins,
    second: i32,
    last: Pins,
)
    requires
        answers_pin(pins, path, first, pinned),
        object_outcome(first) is Ok,
        answers_pin(pinned, path, second, last),
    ensures
        object_outcome(second) is Err,
{
}

} // verus!
