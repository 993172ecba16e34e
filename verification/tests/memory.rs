use mips_emulator::definitions::errors::MemError;
use mips_emulator::devices::console;
use mips_emulator::devices::keyboard;
use mips_emulator::memory::Memory;

#[test]
fn load_store() {
    let mut m = Memory::new(true);

    //store as word...
    //also implicitly extends mem dynamically
    m.store(0x00020000, 4, &[0, 1]).unwrap();

    //..but retrieve as half
    let got = m.load(0x00020000, 2).unwrap();

    assert_eq!([0, 1], got.as_slice());
}

#[test]
fn basic_store_load() {
    let mut m = Memory::new(false);
    m.set_privileged(true);
    m.store(0x00020000, 4, &[0, 1, 0, 0]).unwrap();
    assert_eq!(m.load(0x00020000, 2).unwrap(), vec![0, 1]);
    assert_eq!(m.load(0x00020000, 4).unwrap(), vec![0, 1, 0, 0]);
}

#[test]
fn extend_mem_all() {
    let mut m: Memory = Memory::new(true);

    m.extend_mem_FAST(0x700000);

    assert_eq!(m.size(), 0x700000);

    m = Memory::new(true);

    m.extend_mem(0x80);

    assert_eq!(m.size(), 0x80);
}

#[test]
fn extension_is_never_under_four_bytes() {
    let mut m = Memory::new(false);
    m.extend_mem(1);
    assert_eq!(m.size(), 4);
    m.extend_mem(0);
    assert_eq!(m.size(), 8);
    m.extend_mem(5);
    assert_eq!(m.size(), 13);
}

#[test]
fn memory_grows_with_the_addresses_touched() {
    let mut m = Memory::new(false);
    assert_eq!(m.size(), 0);
    assert_eq!(m.load(0, 1).unwrap(), vec![0]);
    assert_eq!(m.size(), 4);
    assert_eq!(m.load(2, 2).unwrap(), vec![0, 0]);
    assert_eq!(m.size(), 4);
    m.store(10, 2, &[7, 8]).unwrap();
    assert_eq!(m.size(), 12);
    assert_eq!(m.load(9, 4).unwrap(), vec![0, 7, 8, 0]);
    assert_eq!(m.size(), 16);
}

#[test]
fn store_cuts_and_fills() {
    let mut m = Memory::new(false);
    m.store(0, 8, &[1, 1, 1, 1, 1, 1, 1, 1]).unwrap();
    m.store(2, 2, &[9, 8, 7, 6]).unwrap();
    assert_eq!(m.load(0, 8).unwrap(), vec![1, 1, 9, 8, 1, 1, 1, 1]);
    m.store(4, 3, &[5]).unwrap();
    assert_eq!(m.load(0, 8).unwrap(), vec![1, 1, 9, 8, 5, 0, 0, 1]);
}

#[test]
#[should_panic]
fn unprivileged_protected_access() {
    let mut m: Memory = Memory::new(true);

    m.extend_mem_FAST(0x0000ff00);
    m.protect(0, 0x0000fC00);

    //correct access
    let got = m.load(0x0000fd00, 4).unwrap();

    //access to protected -> panic
    let mut m2: Memory = Memory::new(true);
    m2.extend_mem_FAST(0x0000ff00);
    m2.protect(0, 0x0000fC00);
    m2.store(0x0000AA00, 4, &got).unwrap();
}

#[test]
fn protected_writes_leave_memory_unchanged() {
    let mut m = Memory::new(false);
    m.extend_mem_FAST(0x100);
    m.set_privileged(true);
    m.store(0x10, 4, &[1, 2, 3, 4]).unwrap();
    m.set_privileged(false);
    m.protect(0, 0x80);
    match m.store(0x10, 4, &[9, 9, 9, 9]) {
        Err(MemError::PermError(lo, hi, addr)) => {
            assert_eq!((lo, hi, addr), (0, 0x80, 0x10));
        }
        other => panic!("{:?}", other),
    }
    match m.load(0x7f, 1) {
        Err(MemError::PermError(lo, hi, addr)) => {
            assert_eq!((lo, hi, addr), (0, 0x80, 0x7f));
        }
        other => panic!("{:?}", other),
    }
    assert_eq!(m.size(), 0x100);
    // the upper bound is outside the interval
    assert_eq!(m.load(0x80, 1).unwrap(), vec![0]);
    m.set_privileged(true);
    assert_eq!(m.load(0x10, 4).unwrap(), vec![1, 2, 3, 4]);
}

#[test]
fn the_first_protecting_interval_is_named() {
    let mut m = Memory::new(false);
    m.protect(0x20, 0x40);
    m.protect(0x00, 0x80);
    match m.load(0x30, 1) {
        Err(MemError::PermError(lo, hi, _)) => assert_eq!((lo, hi), (0x20, 0x40)),
        other => panic!("{:?}", other),
    }
    match m.load(0x10, 1) {
        Err(MemError::PermError(lo, hi, _)) => assert_eq!((lo, hi), (0x00, 0x80)),
        other => panic!("{:?}", other),
    }
}

#[test]
fn protecting_twice_is_protecting_once() {
    let mut once = Memory::new(false);
    once.protect(0x20, 0x40);
    let mut twice = Memory::new(false);
    twice.protect(0x20, 0x40);
    twice.protect(0x20, 0x40);
    for addr in [0u32, 0x1f, 0x20, 0x30, 0x3f, 0x40, 0x100] {
        let a = once.load(addr, 1);
        let b = twice.load(addr, 1);
        match (a, b) {
            (Ok(x), Ok(y)) => assert_eq!(x, y),
            (Err(MemError::PermError(a, b, c)), Err(MemError::PermError(d, e, f))) => {
                assert_eq!((a, b, c), (d, e, f))
            }
            other => panic!("{:?}", other),
        }
    }
}

#[test]
fn privileged_protected_access() {
    let mut m: Memory = Memory::new(true);

    m.extend_mem_FAST(0x0000ff00);
    m.protect(0, 0x0000fC00);
    m.set_privileged(true);

    //correct access
    m.store(0x0000AA00, 4, &[0x69, 0x69, 0x69, 0x66]).unwrap();
    let _ = m.load(0x0000AA00, 4);
}

#[test]
fn device_access() {
    let mut m: Memory = Memory::new(true);
    let c = Box::new(console::new());
    let k = Box::new(keyboard::new());

    m.map_device(c.range_lower, c.range_upper, c);
    m.map_device(k.range_lower, k.range_upper, k);

    //write to Console
    m.store(0x80000000, 4, b"abcd").unwrap();

    //store (mode) from Keyboard
    m.store(0x8000000c, 1, &[1]).unwrap();
}

#[test]
fn devices_answer_in_place_of_the_store() {
    let mut m = Memory::new(false);
    m.map_device(0x100, 0x107, Box::new(console::new()));
    m.store(0x100, 4, &[1, 2, 3, 4]).unwrap();
    // the byte store was not touched
    assert_eq!(m.size(), 0);
    match m.load(0x100, 4) {
        Err(MemError::MappedDeviceError(_)) => {}
        other => panic!("{:?}", other),
    }
    assert_eq!(m.size(), 0);
    // protection comes before the device
    m.protect(0x100, 0x104);
    match m.store(0x100, 4, &[1, 2, 3, 4]) {
        Err(MemError::PermError(0x100, 0x104, 0x100)) => {}
        other => panic!("{:?}", other),
    }
}

#[test]
fn raw_images_replace_memory() {
    let mut m = Memory::new(false);
    m.store(0, 8, &[9; 8]).unwrap();
    m.protect(0, 4);
    m.load_bin(&[1, 2, 3]);
    assert_eq!(m.size(), 3);
    m.set_privileged(true);
    assert_eq!(m.load(0, 3).unwrap(), vec![1, 2, 3]);
    assert!(!Memory::new(false).is_privileged());
    assert!(Memory::new(true).verbose());
}

#[test]
fn a_refused_access_of_any_size_changes_nothing() {
    let mut m = Memory::new(false);
    m.extend_mem_FAST(0x100);
    m.set_privileged(true);
    m.store(0x10, 4, &[1, 2, 3, 4]).unwrap();
    m.set_privileged(false);
    m.protect(0, 0x80);
    for size in [0usize, 1, 4, 0x1000, usize::MAX - 3, usize::MAX] {
        match m.store(0x10, size, &[9, 9, 9, 9, 9, 9]) {
            Err(MemError::PermError(lo, hi, addr)) => {
                assert_eq!((lo, hi, addr), (0, 0x80, 0x10));
            }
            other => panic!("{:?}", other),
        }
        match m.load(0x10, size) {
            Err(MemError::PermError(lo, hi, addr)) => {
                assert_eq!((lo, hi, addr), (0, 0x80, 0x10));
            }
            other => panic!("{:?}", other),
        }
        assert_eq!(m.size(), 0x100);
    }
    m.set_privileged(true);
    assert_eq!(m.load(0x10, 4).unwrap(), vec![1, 2, 3, 4]);
    assert_eq!(m.load(0x14, 4).unwrap(), vec![0, 0, 0, 0]);
}

#[test]
fn a_device_takes_an_access_of_any_size() {
    let mut m = Memory::new(false);
    m.map_device(0x80000008, 0x8000000f, Box::new(keyboard::new()));
    match m.store(0x8000000c, usize::MAX, &[1]) {
        Err(MemError::MappedDeviceError(text)) => assert_eq!(
            text,
            "Tried to write to non-writeable address 0x8000000c in device 'Keyboard'"
        ),
        other => panic!("{:?}", other),
    }
    assert_eq!(m.size(), 0);
    m.map_device(0x80000000, 0x80000007, Box::new(console::new()));
    // a write that does not end in the low four bytes of the console sets its mode
    m.store(0x80000000, usize::MAX, &[3]).unwrap();
    assert_eq!(m.size(), 0);
}
