use rfkill::base::{HardBlockReasons, Kind};
use rfkill::driver::partial::{Access, Attribute, Error};
use rfkill::driver::{BlockStatus, Driver, Partial};
use rfkill::text::{ParseKindError, ParseReasonsError};
use std::path::PathBuf;

fn device() -> Driver<Partial> {
    Driver::from_path(PathBuf::from("/sys/class/rfkill/rfkill0"))
}

fn text(value: &str) -> String {
    String::from(value)
}

#[test]
fn fresh_device_knows_nothing() {
    let driver = device();
    assert_eq!(driver.path(), &PathBuf::from("/sys/class/rfkill/rfkill0"));
    assert_eq!(driver.try_name(), Access::Read(Attribute::Name));
    assert_eq!(driver.try_kind(), Access::Read(Attribute::Kind));
    assert_eq!(driver.try_persistent(), Access::Read(Attribute::Persistent));
    assert_eq!(driver.try_soft_blocked(), Access::Read(Attribute::SoftBlocked));
    assert_eq!(driver.try_hard_blocked(), Access::Read(Attribute::HardBlocked));
    assert_eq!(
        driver.try_hard_block_reasons_unchecked(),
        Access::Read(Attribute::HardBlockReasons)
    );
    assert_eq!(driver.try_hard_block_reasons(), Access::Read(Attribute::HardBlocked));
    assert_eq!(driver.try_block_status(), Access::Read(Attribute::SoftBlocked));
}

#[test]
fn attribute_files_have_fixed_names() {
    assert_eq!(Attribute::Name.file_name(), "name");
    assert_eq!(Attribute::Kind.file_name(), "type");
    assert_eq!(Attribute::Persistent.file_name(), "persistent");
    assert_eq!(Attribute::SoftBlocked.file_name(), "soft");
    assert_eq!(Attribute::HardBlocked.file_name(), "hard");
    assert_eq!(Attribute::HardBlockReasons.file_name(), "hard_block_reasons");
}

#[test]
fn supplied_text_is_kept() {
    let mut driver = device();
    assert_eq!(driver.supply(Attribute::Name, text("phy0")), Ok(()));
    assert_eq!(driver.supply(Attribute::Kind, text("wifi")), Ok(()));
    assert_eq!(driver.supply(Attribute::Persistent, text("0")), Ok(()));
    assert_eq!(driver.supply(Attribute::SoftBlocked, text("1")), Ok(()));
    assert_eq!(driver.supply(Attribute::HardBlocked, text("1")), Ok(()));
    assert_eq!(driver.supply(Attribute::HardBlockReasons, text("0x2")), Ok(()));
    assert_eq!(driver.try_name(), Access::Cached("phy0"));
    assert_eq!(driver.try_kind(), Access::Cached(Kind::WirelessLan));
    assert_eq!(driver.try_persistent(), Access::Cached(false));
    assert_eq!(driver.try_soft_blocked(), Access::Cached(true));
    assert_eq!(driver.try_hard_blocked(), Access::Cached(true));
    assert_eq!(
        driver.try_hard_block_reasons_unchecked(),
        Access::Cached(HardBlockReasons::not_owner())
    );
    assert_eq!(
        driver.try_hard_block_reasons(),
        Access::Cached(Some(HardBlockReasons::not_owner()))
    );
    assert_eq!(
        driver.try_block_status(),
        Access::Cached(BlockStatus::from_soft_and_hard(true, Some(HardBlockReasons::not_owner())))
    );
}

#[test]
fn a_value_is_written_once() {
    let mut driver = device();
    assert_eq!(driver.supply(Attribute::Kind, text("gps")), Ok(()));
    assert_eq!(driver.supply(Attribute::Kind, text("fm")), Ok(()));
    assert_eq!(driver.supply(Attribute::Kind, text("no kind at all")), Ok(()));
    assert_eq!(driver.try_kind(), Access::Cached(Kind::Gps));
    assert_eq!(driver.supply(Attribute::Name, text("first")), Ok(()));
    assert_eq!(driver.supply(Attribute::Name, text("second")), Ok(()));
    assert_eq!(driver.try_name(), Access::Cached("first"));
    assert_eq!(driver.supply(Attribute::SoftBlocked, text("0")), Ok(()));
    assert_eq!(driver.supply(Attribute::SoftBlocked, text("7")), Ok(()));
    assert_eq!(driver.try_soft_blocked(), Access::Cached(false));
}

#[test]
fn flag_file_with_two_is_a_distinct_error() {
    let mut driver = device();
    assert_eq!(
        driver.supply(Attribute::Persistent, text("2")),
        Err(Error::InvalidNumericValueForBool { value: text("2") })
    );
    assert_eq!(driver.try_persistent(), Access::Read(Attribute::Persistent));
    assert_eq!(driver.supply(Attribute::Persistent, text("1")), Ok(()));
    assert_eq!(driver.try_persistent(), Access::Cached(true));
}

#[test]
fn each_attribute_has_its_error() {
    let mut driver = device();
    assert_eq!(driver.supply(Attribute::Kind, text("wifi\n")), Err(Error::Parse(ParseKindError)));
    assert_eq!(
        driver.supply(Attribute::HardBlockReasons, text("0xzz")),
        Err(Error::ParseInt(ParseReasonsError))
    );
    assert_eq!(
        driver.supply(Attribute::SoftBlocked, text("yes")),
        Err(Error::InvalidNumericValueForBool { value: text("yes") })
    );
    assert_eq!(
        driver.supply(Attribute::HardBlocked, text("")),
        Err(Error::InvalidNumericValueForBool { value: text("") })
    );
    assert_eq!(driver.try_kind(), Access::Read(Attribute::Kind));
    assert_eq!(driver.try_soft_blocked(), Access::Read(Attribute::SoftBlocked));
    assert_eq!(driver.try_hard_blocked(), Access::Read(Attribute::HardBlocked));
    assert_eq!(
        driver.try_hard_block_reasons_unchecked(),
        Access::Read(Attribute::HardBlockReasons)
    );
    assert_eq!(driver.supply(Attribute::Name, text("")), Ok(()));
    assert_eq!(driver.try_name(), Access::Cached(""));
}

#[test]
fn cell_of_a_flag_is_filled_once() {
    let mut cell = None;
    assert_eq!(
        Driver::<Partial>::try_read_bool(&mut cell, text("x")),
        Err(Error::InvalidNumericValueForBool { value: text("x") })
    );
    assert_eq!(cell, None);
    assert_eq!(Driver::<Partial>::try_read_bool(&mut cell, text("1")), Ok(true));
    assert_eq!(cell, Some(true));
    assert_eq!(Driver::<Partial>::try_read_bool(&mut cell, text("0")), Ok(true));
    assert_eq!(Driver::<Partial>::try_read_bool(&mut cell, text("x")), Ok(true));
    assert_eq!(cell, Some(true));
}

#[test]
fn reasons_are_not_asked_for_without_a_hard_block() {
    let mut driver = device();
    assert_eq!(driver.supply(Attribute::SoftBlocked, text("0")), Ok(()));
    assert_eq!(driver.try_block_status(), Access::Read(Attribute::HardBlocked));
    assert_eq!(driver.supply(Attribute::HardBlocked, text("0")), Ok(()));
    assert_eq!(driver.try_hard_block_reasons(), Access::Cached(None));
    assert_eq!(
        driver.try_hard_block_reasons_unchecked(),
        Access::Read(Attribute::HardBlockReasons)
    );
    assert_eq!(
        driver.try_block_status(),
        Access::Cached(BlockStatus::from_soft_and_hard(false, None))
    );
    assert_eq!(driver.supply(Attribute::HardBlockReasons, text("0x3")), Ok(()));
    assert_eq!(driver.try_hard_block_reasons(), Access::Cached(None));
}

#[test]
fn reasons_are_asked_for_behind_a_hard_block() {
    let mut driver = device();
    assert_eq!(driver.supply(Attribute::SoftBlocked, text("0")), Ok(()));
    assert_eq!(driver.supply(Attribute::HardBlocked, text("1")), Ok(()));
    assert_eq!(driver.try_hard_block_reasons(), Access::Read(Attribute::HardBlockReasons));
    assert_eq!(driver.try_block_status(), Access::Read(Attribute::HardBlockReasons));
    assert_eq!(driver.supply(Attribute::HardBlockReasons, text("0xff")), Ok(()));
    let status = match driver.try_block_status() {
        Access::Cached(status) => status,
        Access::Read(attribute) => panic!("{:?} is still missing", attribute),
    };
    assert!(status.hard_blocked());
    assert!(!status.soft_blocked());
    assert_eq!(status.hard_block_reasons().unwrap().bits(), 3);
}

#[test]
fn promotion_asks_for_the_attributes_in_order() {
    let mut driver = device();
    let files = [
        (Attribute::Name, "hci0"),
        (Attribute::Kind, "bluetooth"),
        (Attribute::Persistent, "1"),
        (Attribute::SoftBlocked, "0"),
        (Attribute::HardBlocked, "1"),
        (Attribute::HardBlockReasons, "0x1"),
    ];
    for (expected, content) in files {
        let (asked, returned) = driver.fully_read().unwrap_err();
        assert_eq!(asked, expected);
        driver = *returned;
        assert_eq!(driver.supply(asked, text(content)), Ok(()));
    }
    let full = driver.fully_read().unwrap();
    assert_eq!(full.name(), "hci0");
    assert_eq!(full.kind(), Kind::Bluetooth);
    assert!(full.persistent());
    assert_eq!(
        full.block_status(),
        BlockStatus::from_soft_and_hard(false, Some(HardBlockReasons::signal()))
    );
}

#[test]
fn promotion_without_hard_block_needs_no_reasons() {
    let mut driver = device();
    for (attribute, content) in [
        (Attribute::Name, "phy0"),
        (Attribute::Kind, "wifi"),
        (Attribute::Persistent, "0"),
        (Attribute::SoftBlocked, "0"),
        (Attribute::HardBlocked, "0"),
    ] {
        assert_eq!(driver.supply(attribute, text(content)), Ok(()));
    }
    let full = driver.fully_read().unwrap();
    assert_eq!(full.name(), "phy0");
    assert_eq!(full.kind(), Kind::WirelessLan);
    assert!(!full.persistent());
    assert!(!full.block_status().blocked());
}

#[test]
fn failed_promotion_returns_the_device_with_what_it_read() {
    let mut driver = device();
    assert_eq!(driver.supply(Attribute::Name, text("phy0")), Ok(()));
    assert_eq!(driver.supply(Attribute::Kind, text("wifi")), Ok(()));
    assert_eq!(
        driver.supply(Attribute::Persistent, text("2")),
        Err(Error::InvalidNumericValueForBool { value: text("2") })
    );
    let (asked, returned) = driver.fully_read().unwrap_err();
    assert_eq!(asked, Attribute::Persistent);
    assert_eq!(returned.path(), &PathBuf::from("/sys/class/rfkill/rfkill0"));
    assert_eq!(returned.try_name(), Access::Cached("phy0"));
    assert_eq!(returned.try_kind(), Access::Cached(Kind::WirelessLan));
    assert_eq!(returned.try_persistent(), Access::Read(Attribute::Persistent));
    assert_eq!(returned.try_block_status(), Access::Read(Attribute::SoftBlocked));
}

#[test]
fn device_from_a_path() {
    let driver: Driver<Partial> = PathBuf::from("/sys/class/rfkill/rfkill3").into();
    assert_eq!(driver.path(), &PathBuf::from("/sys/class/rfkill/rfkill3"));
    assert_eq!(driver.try_kind(), Access::Read(Attribute::Kind));
}

#[test]
fn cell_of_a_value_is_filled_once() {
    let mut cell: Option<Kind> = None;
    assert_eq!(
        Driver::<Partial>::try_read_from_str(&mut cell, "bogus"),
        Err(Error::Parse(ParseKindError))
    );
    assert_eq!(cell, None);
    assert_eq!(Driver::<Partial>::try_read_from_str(&mut cell, "nfc"), Ok(Kind::Nfc));
    assert_eq!(Driver::<Partial>::try_read_from_str(&mut cell, "gps"), Ok(Kind::Nfc));
    assert_eq!(cell, Some(Kind::Nfc));
    let mut cell: Option<HardBlockReasons> = None;
    assert_eq!(
        Driver::<Partial>::try_read_from_str(&mut cell, "0x"),
        Err(Error::ParseInt(ParseReasonsError))
    );
    assert_eq!(
        Driver::<Partial>::try_read_from_str(&mut cell, "0x3").map(|mask| mask.bits()),
        Ok(3)
    );
}
