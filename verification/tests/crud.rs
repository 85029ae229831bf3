use bpf_map::error::Error;
use bpf_map::flags::MapFlags;
use bpf_map::live_map::LiveMap;
use nix::errno::Errno;
use std::cell::RefCell;

const ENOENT: i32 = 2;
const EEXIST: i32 = 17;

/// A table that answers as a kernel hash map does: zero on success, -1 with errno
/// set on failure.
struct Table {
    entries: RefCell<Vec<(Vec<u8>, Vec<u8>)>>,
    calls: RefCell<usize>,
}

impl Table {
    fn new() -> Table {
        Table { entries: RefCell::new(Vec::new()), calls: RefCell::new(0) }
    }

    fn place(&self, key: &[u8]) -> Option<usize> {
        self.entries.borrow().iter().position(|(k, _)| k.as_slice() == key)
    }

    fn fail(&self, errno: i32) -> i32 {
        Errno::set_raw(errno);
        -1
    }

    fn lookup(&self, key: &[u8], mut out: Vec<u8>) -> (i32, Vec<u8>) {
        *self.calls.borrow_mut() += 1;
        match self.place(key) {
            Some(i) => {
                out.copy_from_slice(&self.entries.borrow()[i].1);
                (0, out)
            }
            None => (self.fail(ENOENT), out),
        }
    }

    fn update(&self, key: &[u8], value: &[u8], flags: u64) -> i32 {
        *self.calls.borrow_mut() += 1;
        let place = self.place(key);
        if flags & 1 != 0 && place.is_some() {
            return self.fail(EEXIST);
        }
        if flags & 2 != 0 && place.is_none() {
            return self.fail(ENOENT);
        }
        match place {
            Some(i) => self.entries.borrow_mut()[i].1 = value.to_vec(),
            None => self.entries.borrow_mut().push((key.to_vec(), value.to_vec())),
        }
        0
    }

    fn delete(&self, key: &[u8]) -> i32 {
        *self.calls.borrow_mut() += 1;
        match self.place(key) {
            Some(i) => {
                self.entries.borrow_mut().remove(i);
                0
            }
            None => self.fail(ENOENT),
        }
    }

    fn take(&self, key: &[u8], out: Vec<u8>) -> (i32, Vec<u8>) {
        let (ret, out) = self.lookup(key, out);
        if ret == 0 {
            *self.calls.borrow_mut() -= 1;
            self.delete(key);
        }
        (ret, out)
    }

    fn calls(&self) -> usize {
        *self.calls.borrow()
    }
}

fn map_4_8() -> LiveMap<()> {
    LiveMap::new(3, String::from("counts"), 1, 4, 8, ())
}

fn invalid(text: &str) -> Error {
    Error::InvalidInput(String::from(text))
}

#[test]
fn scenario_update_lookup_absent_and_bad_value() {
    let table = Table::new();
    let mut map = map_4_8();
    let r = map.update(&[1, 0, 0, 0], &[9; 8], MapFlags::any(), |_, k, v, f| table.update(k, v, f));
    assert_eq!(r, Ok(()));
    let r = map.lookup(&[1, 0, 0, 0], MapFlags::any(), |_, k, out, _| table.lookup(k, out));
    assert_eq!(r, Ok(Some(vec![9u8; 8])));
    let r = map.lookup(&[2, 0, 0, 0], MapFlags::any(), |_, k, out, _| table.lookup(k, out));
    assert_eq!(r, Ok(None));
    let before = table.calls();
    let r = map.update(&[1, 0, 0, 0], &[0; 7], MapFlags::any(), |_, k, v, f| table.update(k, v, f));
    assert_eq!(r, Err(invalid("value_size 7 != 8")));
    assert_eq!(table.calls(), before);
}

#[test]
fn written_value_is_read_back_byte_for_byte() {
    let table = Table::new();
    let mut map = map_4_8();
    let value = [1u8, 2, 3, 4, 5, 6, 7, 255];
    assert_eq!(map.update(&[7, 7, 7, 7], &value, MapFlags::any(), |_, k, v, f| table.update(k, v, f)), Ok(()));
    let r = map.lookup(&[7, 7, 7, 7], MapFlags::any(), |_, k, out, _| table.lookup(k, out));
    assert_eq!(r, Ok(Some(value.to_vec())));
    let second = [0u8; 8];
    assert_eq!(map.update(&[7, 7, 7, 7], &second, MapFlags::any(), |_, k, v, f| table.update(k, v, f)), Ok(()));
    let r = map.lookup(&[7, 7, 7, 7], MapFlags::any(), |_, k, out, _| table.lookup(k, out));
    assert_eq!(r, Ok(Some(second.to_vec())));
}

#[test]
fn key_never_written_is_none_not_an_error() {
    let table = Table::new();
    let map = map_4_8();
    let r = map.lookup(&[0, 0, 0, 0], MapFlags::any(), |_, k, out, _| table.lookup(k, out));
    assert_eq!(r, Ok(None));
    assert_eq!(table.calls(), 1);
}

#[test]
fn delete_after_update_then_lookup_is_none() {
    let table = Table::new();
    let mut map = map_4_8();
    assert_eq!(map.update(&[1, 2, 3, 4], &[5; 8], MapFlags::any(), |_, k, v, f| table.update(k, v, f)), Ok(()));
    assert_eq!(map.delete(&[1, 2, 3, 4], |_, k| table.delete(k)), Ok(()));
    let r = map.lookup(&[1, 2, 3, 4], MapFlags::any(), |_, k, out, _| table.lookup(k, out));
    assert_eq!(r, Ok(None));
}

#[test]
fn delete_of_absent_key_is_a_system_error() {
    let table = Table::new();
    let mut map = map_4_8();
    assert_eq!(map.delete(&[1, 2, 3, 4], |_, k| table.delete(k)), Err(Error::System(ENOENT)));
}

#[test]
fn no_exist_fails_on_present_key_and_succeeds_on_absent() {
    let table = Table::new();
    let mut map = map_4_8();
    assert_eq!(map.update(&[1, 1, 1, 1], &[1; 8], MapFlags::no_exist(), |_, k, v, f| table.update(k, v, f)), Ok(()));
    assert_eq!(
        map.update(&[1, 1, 1, 1], &[2; 8], MapFlags::no_exist(), |_, k, v, f| table.update(k, v, f)),
        Err(Error::System(EEXIST))
    );
    let r = map.lookup(&[1, 1, 1, 1], MapFlags::any(), |_, k, out, _| table.lookup(k, out));
    assert_eq!(r, Ok(Some(vec![1u8; 8])));
}

#[test]
fn exist_fails_on_absent_key_and_succeeds_on_present() {
    let table = Table::new();
    let mut map = map_4_8();
    assert_eq!(
        map.update(&[1, 1, 1, 1], &[1; 8], MapFlags::exist(), |_, k, v, f| table.update(k, v, f)),
        Err(Error::System(ENOENT))
    );
    assert_eq!(map.update(&[1, 1, 1, 1], &[1; 8], MapFlags::any(), |_, k, v, f| table.update(k, v, f)), Ok(()));
    assert_eq!(map.update(&[1, 1, 1, 1], &[3; 8], MapFlags::exist(), |_, k, v, f| table.update(k, v, f)), Ok(()));
    let r = map.lookup(&[1, 1, 1, 1], MapFlags::any(), |_, k, out, _| table.lookup(k, out));
    assert_eq!(r, Ok(Some(vec![3u8; 8])));
}

#[test]
fn wrong_key_length_is_invalid_input_without_a_call() {
    let table = Table::new();
    let mut map = map_4_8();
    let short = [1u8, 2, 3];
    let long = [1u8, 2, 3, 4, 5];
    assert_eq!(
        map.lookup(&short, MapFlags::any(), |_, k, out, _| table.lookup(k, out)),
        Err(invalid("key_size 3 != 4"))
    );
    assert_eq!(
        map.lookup(&long, MapFlags::any(), |_, k, out, _| table.lookup(k, out)),
        Err(invalid("key_size 5 != 4"))
    );
    assert_eq!(map.delete(&short, |_, k| table.delete(k)), Err(invalid("key_size 3 != 4")));
    assert_eq!(
        map.lookup_and_delete(&[], |_, k, out| table.take(k, out)),
        Err(invalid("key_size 0 != 4"))
    );
    assert_eq!(
        map.update(&long, &[0; 8], MapFlags::any(), |_, k, v, f| table.update(k, v, f)),
        Err(invalid("key_size 5 != 4"))
    );
    assert_eq!(table.calls(), 0);
}

#[test]
fn wrong_value_length_is_invalid_input_without_a_call() {
    let table = Table::new();
    let mut map = map_4_8();
    assert_eq!(
        map.update(&[0; 4], &[0; 9], MapFlags::any(), |_, k, v, f| table.update(k, v, f)),
        Err(invalid("value_size 9 != 8"))
    );
    assert_eq!(
        map.update(&[0; 4], &[], MapFlags::any(), |_, k, v, f| table.update(k, v, f)),
        Err(invalid("value_size 0 != 8"))
    );
    assert_eq!(table.calls(), 0);
}

#[test]
fn wrong_key_is_reported_before_wrong_value() {
    let table = Table::new();
    let mut map = map_4_8();
    assert_eq!(
        map.update(&[0; 3], &[0; 9], MapFlags::any(), |_, k, v, f| table.update(k, v, f)),
        Err(invalid("key_size 3 != 4"))
    );
}

#[test]
fn lookup_and_delete_returns_the_value_and_removes_it() {
    let table = Table::new();
    let mut map = map_4_8();
    assert_eq!(map.update(&[4, 3, 2, 1], &[8; 8], MapFlags::any(), |_, k, v, f| table.update(k, v, f)), Ok(()));
    assert_eq!(map.lookup_and_delete(&[4, 3, 2, 1], |_, k, out| table.take(k, out)), Ok(Some(vec![8u8; 8])));
    assert_eq!(map.lookup_and_delete(&[4, 3, 2, 1], |_, k, out| table.take(k, out)), Ok(None));
}

#[test]
fn other_failures_of_a_read_carry_the_errno() {
    let map = map_4_8();
    let r = map.lookup(&[0; 4], MapFlags::any(), |_, _, out, _| {
        Errno::set_raw(9);
        (-1, out)
    });
    assert_eq!(r, Err(Error::System(9)));
    let mut map = map_4_8();
    let r = map.lookup_and_delete(&[0; 4], |_, _, out| {
        Errno::set_raw(22);
        (-1, out)
    });
    assert_eq!(r, Err(Error::System(22)));
}

#[test]
fn failure_of_a_write_carries_the_errno() {
    let mut map = map_4_8();
    let r = map.update(&[0; 4], &[0; 8], MapFlags::any(), |_, _, _, _| {
        Errno::set_raw(7);
        -1
    });
    assert_eq!(r, Err(Error::System(7)));
}

#[test]
fn read_hands_over_descriptor_key_blank_buffer_and_bits() {
    let seen = RefCell::new(None);
    let map = map_4_8();
    let flags = MapFlags::lock();
    let r = map.lookup(&[1, 2, 3, 4], flags, |fd, k, out, bits| {
        *seen.borrow_mut() = Some((fd, k.to_vec(), out.clone(), bits));
        (0, out)
    });
    assert_eq!(r, Ok(Some(vec![0u8; 8])));
    assert_eq!(seen.into_inner(), Some((3, vec![1u8, 2, 3, 4], vec![0u8; 8], 4u64)));
}

#[test]
fn write_hands_over_descriptor_key_value_and_bits() {
    let seen = RefCell::new(None);
    let mut map = map_4_8();
    let flags = MapFlags::exist().union(MapFlags::lock());
    let r = map.update(&[1, 2, 3, 4], &[6; 8], flags, |fd, k, v, bits| {
        *seen.borrow_mut() = Some((fd, k.to_vec(), v.to_vec(), bits));
        0
    });
    assert_eq!(r, Ok(()));
    assert_eq!(seen.into_inner(), Some((3, vec![1u8, 2, 3, 4], vec![6u8; 8], 6u64)));
}

#[test]
fn accessors_return_what_the_map_was_made_with() {
    let map: LiveMap<u8> = LiveMap::new(11, String::from("events"), 4, 16, 32, 0);
    assert_eq!(map.fd(), 11);
    assert_eq!(map.name(), "events");
    assert_eq!(map.key_size(), 16);
    assert_eq!(map.value_size(), 32);
    assert_eq!(map.map_type(), bpf_map::map_type::MapType::PerfEventArray);
    let odd: LiveMap<u8> = LiveMap::new(1, String::new(), 4000, 0, 0, 0);
    assert_eq!(odd.map_type(), bpf_map::map_type::MapType::Unknown);
}

#[test]
fn map_of_empty_records_takes_empty_buffers() {
    let mut map: LiveMap<()> = LiveMap::new(1, String::new(), 22, 0, 0, ());
    assert_eq!(map.lookup_and_delete(&[], |_, _, out| (0, out)), Ok(Some(Vec::new())));
    assert_eq!(map.update(&[], &[], MapFlags::any(), |_, _, _, _| 0), Ok(()));
}
