use mips_emulator::definitions::errors::HeaderError;
use mips_emulator::definitions::relf_headers::{RelfHeader32, SectionHeader32};
use mips_emulator::loader::{plan_load, LoadPlan};
use mips_emulator::memory::Memory;

fn header(entry: u32) -> Vec<u8> {
    let mut h: Vec<u8> = Vec::new();
    h.extend_from_slice(&[0x7f, 0x45, 0x4c, 0x46]); // magic
    h.extend_from_slice(&[1, 2, 1, 0, 0]); // class, data, version, os abi, abi version
    h.extend_from_slice(&[0; 7]); // padding
    h.extend_from_slice(&2u16.to_be_bytes()); // type
    h.extend_from_slice(&8u16.to_be_bytes()); // machine
    h.extend_from_slice(&1u32.to_be_bytes()); // version
    h.extend_from_slice(&entry.to_be_bytes());
    h.extend_from_slice(&52u32.to_be_bytes()); // phoff
    h.extend_from_slice(&0u32.to_be_bytes()); // shoff
    h.extend_from_slice(&0u32.to_be_bytes()); // flags
    h.extend_from_slice(&52u16.to_be_bytes()); // ehsize
    h.extend_from_slice(&32u16.to_be_bytes()); // phentsize
    h.extend_from_slice(&2u16.to_be_bytes()); // phnum
    h.extend_from_slice(&0u16.to_be_bytes()); // shentsize
    h.extend_from_slice(&0u16.to_be_bytes()); // shnum
    h.extend_from_slice(&0u16.to_be_bytes()); // shstrndx
    assert_eq!(h.len(), 52);
    h
}

fn segment(flags: u32, offset: u32, paddr: u32, size: u32) -> Vec<u8> {
    let mut s: Vec<u8> = Vec::new();
    for w in [1u32, offset, paddr, paddr, size, size, flags, 4] {
        s.extend_from_slice(&w.to_be_bytes());
    }
    s
}

/// An image with the text `text` at 0x00400000 and the data `data` at 0x00400100.
fn image(text: &[u8], data: &[u8]) -> Vec<u8> {
    let mut img = header(0x00400000);
    // the text follows the two program headers
    img.extend_from_slice(&segment(0x05000000, 64, 0x00400000, text.len() as u32));
    // the data starts at 52 + offset + offset
    let data_offset = (64 + text.len() as u32 + 1) / 2;
    img.extend_from_slice(&segment(0x06000000, data_offset, 0x00400100, data.len() as u32));
    img.extend_from_slice(text);
    while (img.len() as u32) < 52 + 2 * data_offset {
        img.push(0);
    }
    img.extend_from_slice(data);
    img
}

#[test]
fn loading() {
    let mut m: Memory = Memory::new(true);
    match m.load_RELF(&image(&[0x20, 0x02, 0x00, 0x0a, 0x68, 0, 0, 0], &[1, 2, 3, 4])) {
        Ok(ept) => assert_eq!(ept, 0x00400000),
        Err(eobj) => panic!("{}", eobj.to_string()),
    }

    drop(m);

    let mut m: Memory = Memory::new(false);
    match m.load_RELF(&image(&[0; 16], &[])) {
        Ok(ept) => assert_eq!(ept, 0x00400000),
        Err(eobj) => panic!("{}", eobj.to_string()),
    }
}

#[test]
fn segments_go_to_their_addresses() {
    let text = [0x20, 0x02, 0x00, 0x0a, 0x68, 0, 0, 0];
    let data = [9, 8, 7];
    let img = image(&text, &data);
    let plan = plan_load(&img).unwrap();
    assert_eq!(
        plan,
        LoadPlan {
            entry: 0x00400000,
            text_paddr: 0x00400000,
            text_start: 116,
            text_len: 8,
            data_paddr: 0x00400100,
            data_start: 124,
            data_len: 3,
        }
    );
    let mut m = Memory::new(false);
    m.store(0, 4, &[5, 5, 5, 5]).unwrap();
    assert_eq!(m.load_RELF(&img).unwrap(), 0x00400000);
    // memory was extended by the higher end of the two segments
    assert_eq!(m.size(), 4 + 0x00400103);
    assert_eq!(m.load(0x00400000, 8).unwrap(), text.to_vec());
    assert_eq!(m.load(0x00400100, 4).unwrap(), vec![9, 8, 7, 0]);
    assert_eq!(m.load(0, 4).unwrap(), vec![5, 5, 5, 5]);
}

fn refused(img: &[u8]) -> HeaderError {
    let mut m = Memory::new(false);
    let e = m.load_RELF(img).unwrap_err();
    assert_eq!(m.size(), 0);
    e
}

#[test]
fn images_are_refused_by_the_first_check_that_fails() {
    let good = image(&[0; 8], &[1]);
    assert!(plan_load(&good).is_ok());

    let mut img = good.clone();
    img[0] = 0;
    assert!(matches!(refused(&img), HeaderError::MagicError));

    let mut img = good.clone();
    img[4] = 2;
    assert!(matches!(refused(&img), HeaderError::ArchError));

    let mut img = good.clone();
    img[17] = 3;
    match refused(&img) {
        HeaderError::PermExecError(m) => assert_eq!(m, "This file is not an executable"),
        other => panic!("{:?}", other),
    }

    let mut img = good.clone();
    img[19] = 9;
    assert!(matches!(refused(&img), HeaderError::ArchError));

    let mut img = good.clone();
    img[52 + 24] = 0x06;
    match refused(&img) {
        HeaderError::PermExecError(m) => {
            assert_eq!(m, "The text segment is not Readable and Executable")
        }
        other => panic!("{:?}", other),
    }

    let mut img = good.clone();
    img[52 + 3] = 2;
    match refused(&img) {
        HeaderError::PermExecError(m) => assert_eq!(m, "The text segment is not Loadable"),
        other => panic!("{:?}", other),
    }

    let mut img = good.clone();
    img[84 + 24] = 0x05;
    match refused(&img) {
        HeaderError::PermExecError(m) => {
            assert_eq!(m, "The data segment is not Readable and Writeable")
        }
        other => panic!("{:?}", other),
    }

    let mut img = good.clone();
    img[84 + 3] = 0;
    match refused(&img) {
        HeaderError::PermExecError(m) => assert_eq!(m, "The data segment is not Loadable"),
        other => panic!("{:?}", other),
    }

    let mut img = good.clone();
    img[43] = 40;
    match refused(&img) {
        HeaderError::IOError(m) => assert_eq!(m, "The program headers do not have 32 bytes each"),
        other => panic!("{:?}", other),
    }

    for cut in [0usize, 51, 83, 115, 120] {
        match refused(&good[..cut]) {
            HeaderError::IOError(m) => assert_eq!(m, "The file ends before its contents do"),
            other => panic!("{:?}", other),
        }
    }
}

#[test]
fn headers_are_read_big_endian() {
    let img = image(&[0; 8], &[1]);
    let h = RelfHeader32::unpack(&img);
    assert_eq!(h.e_ident_MAG, 0x7f454c46);
    assert_eq!(h.e_ident_CLASS, 1);
    assert_eq!(h.e_ident_DATA, 2);
    assert_eq!(h.e_type, 2);
    assert_eq!(h.e_machine, 8);
    assert_eq!(h.e_entry, 0x00400000);
    assert_eq!(h.e_phoff, 52);
    assert_eq!(h.e_ehsize, 52);
    assert_eq!(h.e_phentsize, 32);
    assert_eq!(h.e_phnum, 2);
    assert_eq!(h.e_ident_EIPAD, vec![0; 7]);
    let text = SectionHeader32::unpack(&img, 52);
    assert_eq!(text.p_type, 1);
    assert_eq!(text.p_offset, 64);
    assert_eq!(text.p_paddr, 0x00400000);
    assert_eq!(text.p_memsz, 8);
    assert_eq!(text.p_flags, 0x05000000);
    let data = SectionHeader32::from_tuple((1, 2, 3, 4, 5, 6, 7, 8));
    assert_eq!((data.p_type, data.p_offset, data.p_vaddr, data.p_paddr), (1, 2, 3, 4));
    assert_eq!((data.p_filesz, data.p_memsz, data.p_flags, data.p_align), (5, 6, 7, 8));
    let built = RelfHeader32::from_tuple((
        1, 2, 3, 4, 5, 6, vec![7], 8, 9, 10, 11, 12, 13, 14, 15, 16, 17, 18, 19, 20,
    ));
    assert_eq!(built.e_ident_MAG, 1);
    assert_eq!(built.e_ident_EIPAD, vec![7]);
    assert_eq!(built.e_entry, 11);
    assert_eq!(built.e_shstrndx, 20);
    let data: SectionHeader32 = (8, 7, 6, 5, 4, 3, 2, 1).into();
    assert_eq!((data.p_type, data.p_offset, data.p_flags, data.p_align), (8, 7, 2, 1));
    let built: RelfHeader32 =
        (1, 2, 3, 4, 5, 6, vec![7, 7], 8, 9, 10, 11, 12, 13, 14, 15, 16, 17, 18, 19, 20).into();
    assert_eq!((built.e_ident_MAG, built.e_type, built.e_phentsize), (1, 8, 16));
    assert_eq!(built.e_ident_EIPAD, vec![7, 7]);
}
