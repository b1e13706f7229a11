use usb_ncm::flash::{
    Error, ErrorKind, Flash, Status, WordWrite, FLASH_BASE, FLASH_END, FLASH_SIZE, PAGE_SIZE,
    UNLOCK_KEY1, UNLOCK_KEY2,
};

const IDLE: Status = Status {
    bsy: false,
    progerr: false,
    wrperr: false,
    pgaerr: false,
    sizerr: false,
    miserr: false,
    pgserr: false,
};

#[test]
fn geometry() {
    assert_eq!(FLASH_BASE, 0x0800_0000);
    assert_eq!(FLASH_SIZE, 0x3FFFF);
    assert_eq!(FLASH_END, 0x0803_FFFF);
    assert_eq!(PAGE_SIZE, 2048);
}

#[test]
fn unlock_gives_the_key_sequence() {
    let (mut flash, keys) = Flash::unlock();
    assert_eq!(keys, [0x4567_0123, 0xCDEF_89AB]);
    assert_eq!(keys, [UNLOCK_KEY1, UNLOCK_KEY2]);
    assert!(!flash.lock());
}

#[test]
fn read_is_checked_against_the_end() {
    let mut flash = Flash::new();
    assert_eq!(flash.blocking_read(0x0800_0000, 16), Ok(()));
    assert_eq!(flash.blocking_read(0, 16), Ok(()));
    assert_eq!(flash.blocking_read(0x0803_FFFE, 1), Ok(()));
    assert_eq!(flash.blocking_read(0x0803_FFFE, 2), Err(Error::Size));
    assert_eq!(flash.blocking_read(0x0803_FFFF, 0), Err(Error::Size));
    assert_eq!(flash.blocking_read(0x0800_0000, 0x3FFFF), Ok(()));
    assert_eq!(flash.blocking_read(0x0800_0000, 0x40000), Err(Error::Size));
    assert_eq!(flash.blocking_read(0xFFFF_FFFF, 1), Err(Error::Size));
    assert_eq!(flash.blocking_read(0, usize::MAX), Err(Error::Size));
}

#[test]
fn write_plan_holds_the_words_in_order() {
    let mut flash = Flash::new();
    let buf: Vec<u8> = (1u8..=16).collect();
    let plan = flash.blocking_write(0x0800_1000, &buf).unwrap();
    assert_eq!(
        plan,
        vec![
            WordWrite { address: 0x0800_1000, value: 0x0403_0201 },
            WordWrite { address: 0x0800_1004, value: 0x0807_0605 },
            WordWrite { address: 0x0800_1008, value: 0x0C0B_0A09 },
            WordWrite { address: 0x0800_100C, value: 0x100F_0E0D },
        ]
    );
    assert_eq!(flash.blocking_write(0x0800_1000, &[]), Ok(vec![]));
}

#[test]
fn write_is_checked_for_size_then_alignment() {
    let mut flash = Flash::new();
    assert_eq!(flash.blocking_write(0x0800_0004, &[0; 8]), Err(Error::Unaligned));
    assert_eq!(flash.blocking_write(0x0800_0008, &[0; 4]), Err(Error::Unaligned));
    assert_eq!(flash.blocking_write(0x0803_FFF8, &[0; 8]), Err(Error::Size));
    assert_eq!(flash.blocking_write(0x0803_FFFC, &[0; 4]), Err(Error::Size));
    assert_eq!(flash.blocking_write(0x0803_FFF0, &[0; 8]).map(|p| p.len()), Ok(2));
    assert_eq!(flash.blocking_write(0x0803_FFFF, &[]), Err(Error::Unaligned));
    assert_eq!(flash.blocking_write(0xFFFF_FFF8, &[0; 8]), Err(Error::Size));
}

#[test]
fn erase_plan_holds_the_pages_in_order() {
    let mut flash = Flash::new();
    assert_eq!(flash.blocking_erase(0x0800_0000, 0x0800_1800), Ok(vec![0, 1, 2]));
    assert_eq!(flash.blocking_erase(0x0800_0800, 0x0800_0800), Ok(vec![]));
    assert_eq!(flash.blocking_erase(0x0803_F000, 0x0803_F800), Ok(vec![126]));
    assert_eq!(flash.blocking_erase(0, 0x1000), Ok(vec![0, 1]));
    // The page number holds eight bits.
    assert_eq!(flash.blocking_erase(0x0007_F800, 0x0008_0800), Ok(vec![255, 0]));
}

#[test]
fn erase_is_checked_for_size_then_alignment() {
    let mut flash = Flash::new();
    assert_eq!(flash.blocking_erase(0x0800_0800, 0x0800_0000), Err(Error::Size));
    assert_eq!(flash.blocking_erase(0x0800_0000, 0x0804_0000), Err(Error::Size));
    assert_eq!(flash.blocking_erase(0x0800_0001, 0x0800_0800), Err(Error::Unaligned));
    assert_eq!(flash.blocking_erase(0x0800_0000, 0x0800_0801), Err(Error::Unaligned));
    assert_eq!(flash.blocking_erase(0x0800_0000, 0x0803_FFFF), Err(Error::Unaligned));
}

#[test]
fn busy_controller_gives_no_verdict() {
    let flash = Flash::new();
    assert_eq!(flash.blocking_wait_ready(Status { bsy: true, ..IDLE }), None);
    assert_eq!(flash.blocking_wait_ready(Status { bsy: true, progerr: true, ..IDLE }), None);
    assert_eq!(flash.blocking_wait_ready(IDLE), Some(Ok(())));
}

#[test]
fn every_flag_has_its_error() {
    let flash = Flash::new();
    let cases = [
        (Status { progerr: true, ..IDLE }, Error::Prog),
        (Status { wrperr: true, ..IDLE }, Error::Protected),
        (Status { pgaerr: true, ..IDLE }, Error::Unaligned),
        (Status { sizerr: true, ..IDLE }, Error::Size),
        (Status { miserr: true, ..IDLE }, Error::Miss),
        (Status { pgserr: true, ..IDLE }, Error::Sequence),
    ];
    for (status, error) in cases {
        assert_eq!(flash.blocking_wait_ready(status), Some(Err(error)));
    }
}

#[test]
fn first_flag_in_order_wins() {
    let flash = Flash::new();
    let all = Status {
        bsy: false,
        progerr: true,
        wrperr: true,
        pgaerr: true,
        sizerr: true,
        miserr: true,
        pgserr: true,
    };
    assert_eq!(flash.blocking_wait_ready(all), Some(Err(Error::Prog)));
    assert_eq!(
        flash.blocking_wait_ready(Status { progerr: false, ..all }),
        Some(Err(Error::Protected))
    );
    assert_eq!(
        flash.blocking_wait_ready(Status { progerr: false, wrperr: false, ..all }),
        Some(Err(Error::Unaligned))
    );
    assert_eq!(
        flash.blocking_wait_ready(Status { miserr: true, pgserr: true, ..IDLE }),
        Some(Err(Error::Miss))
    );
    assert_eq!(
        flash.blocking_wait_ready(Status { sizerr: true, pgserr: true, ..IDLE }),
        Some(Err(Error::Size))
    );
}

#[test]
fn error_kinds() {
    assert_eq!(Error::Size.kind(), ErrorKind::OutOfBounds);
    assert_eq!(Error::Unaligned.kind(), ErrorKind::NotAligned);
    for error in [Error::Prog, Error::Miss, Error::Sequence, Error::Protected] {
        assert_eq!(error.kind(), ErrorKind::Other);
    }
}
