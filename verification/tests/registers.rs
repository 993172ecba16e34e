use mips_emulator::definitions::arch::reg_names;
use mips_emulator::definitions::errors::RegisterError;
use mips_emulator::devices::registers::{
    Available, Registers, SuccessfulOwn, HI_IDENT, LO_IDENT,
};

#[test]
fn owned_access() {
    let mut r: Registers = Registers::new(true);

    let id = 0xB00B1E5;
    let reg = reg_names::T4 as u32;
    let contents = 2022;

    r.lock_for_write(reg, id).unwrap();

    r.write_and_unlock(reg, contents, id).unwrap();

    let content = r.fetch(reg);
    match content {
        Ok(Available { value: n }) => {
            assert_eq!(n, contents);
        }
        Err(eobj) => {
            panic!("{}", eobj.to_string())
        }
    }
}

#[test]
#[should_panic]
fn lock_owned_reg() {
    let mut r: Registers = Registers::new(true);

    let id = 0xAB00BA;
    let reg = reg_names::S0 as u32;

    r.lock_for_write(reg, id).unwrap();

    let non_owner_id = 0xBEEEF;
    match r.lock_for_write(reg, non_owner_id) {
        Ok(_) => {}
        Err(eobj) => {
            panic!("{}", eobj.to_string())
        }
    }
}

#[test]
#[should_panic]
fn write_locked_reg() {
    let mut r: Registers = Registers::new(true);

    let id = 0xBAF;
    let reg = reg_names::RA as u32;
    let contents = 995599;

    r.lock_for_write(reg, id).unwrap();

    let non_owner_id = 0xB0F;
    match r.write_and_unlock(reg, contents, non_owner_id) {
        Ok(_) => {}
        Err(eobj) => {
            panic!("{}", eobj.to_string())
        }
    }
}

#[test]
fn scoreboard_serialization() {
    let mut r = Registers::new(false);
    let (a, b) = (0xA, 0xB);
    assert_eq!(r.lock_for_write(12, a), Ok(SuccessfulOwn { register_number: 12 }));
    assert_eq!(r.fetch(12), Err(RegisterError::LockedWithHandle(a, 12)));
    assert_eq!(r.write_and_unlock(12, 0x2022, b), Err(RegisterError::NotOwned(a, 12)));
    assert_eq!(r.fetch(12), Err(RegisterError::LockedWithHandle(a, 12)));
    assert_eq!(r.write_and_unlock(12, 0x2022, a), Ok(()));
    assert_eq!(r.fetch(12), Ok(Available { value: 0x2022 }));
    assert_eq!(r.owner_of(12), None);
}

#[test]
fn register_zero_is_never_locked() {
    let mut r = Registers::new(false);
    assert_eq!(r.lock_for_write(0, 1), Ok(SuccessfulOwn { register_number: 0 }));
    assert_eq!(r.lock_for_write(0, 2), Ok(SuccessfulOwn { register_number: 0 }));
    assert_eq!(r.owner_of(0), None);
    assert_eq!(r.write_and_unlock(0, 77, 3), Ok(()));
    assert_eq!(r.fetch(0), Ok(Available { value: 0 }));
    assert_eq!(r.value_of(0), 0);
}

#[test]
fn waiters_own_in_the_order_they_came() {
    let mut r = Registers::new(false);
    r.lock_for_write(5, 1).unwrap();
    assert_eq!(r.lock_for_write(5, 2), Err(RegisterError::LockedWithHandle(1, 5)));
    assert_eq!(r.lock_for_write(5, 3), Err(RegisterError::LockedWithHandle(1, 5)));
    r.write_and_unlock(5, 10, 1).unwrap();
    assert_eq!(r.owner_of(5), Some(2));
    assert_eq!(r.value_of(5), 10);
    assert_eq!(r.write_and_unlock(5, 30, 3), Err(RegisterError::NotOwned(2, 5)));
    r.write_and_unlock(5, 20, 2).unwrap();
    assert_eq!(r.owner_of(5), Some(3));
    r.write_and_unlock(5, 30, 3).unwrap();
    assert_eq!(r.fetch(5), Ok(Available { value: 30 }));
}

#[test]
fn hi_and_lo_are_registers_of_the_scoreboard() {
    let mut r = Registers::new(false);
    r.lock_for_write(HI_IDENT, 4).unwrap();
    r.lock_for_write(LO_IDENT, 4).unwrap();
    assert_eq!(r.fetch(HI_IDENT), Err(RegisterError::LockedWithHandle(4, HI_IDENT)));
    r.write_and_unlock(HI_IDENT, 1, 4).unwrap();
    r.write_and_unlock(LO_IDENT, 2, 4).unwrap();
    assert_eq!(r.fetch(HI_IDENT), Ok(Available { value: 1 }));
    assert_eq!(r.fetch(LO_IDENT), Ok(Available { value: 2 }));
}

#[test]
fn delisted_instructions_own_and_wait_no_more() {
    let mut r = Registers::new(false);
    r.lock_for_write(5, 1).unwrap();
    let _ = r.lock_for_write(5, 2);
    let _ = r.lock_for_write(5, 3);
    r.lock_for_write(6, 2).unwrap();
    r.lock_for_write(7, 1).unwrap();
    let _ = r.lock_for_write(7, 2);
    r.delist_owner(2);
    assert_eq!(r.owner_of(5), Some(1));
    assert_eq!(r.owner_of(6), None);
    assert_eq!(r.owner_of(7), Some(1));
    r.write_and_unlock(5, 1, 1).unwrap();
    assert_eq!(r.owner_of(5), Some(3));
    r.write_and_unlock(7, 1, 1).unwrap();
    assert_eq!(r.owner_of(7), None);
    r.delist_owner(3);
    assert_eq!(r.owner_of(5), None);
    assert_eq!(r.value_of(5), 1);
}
