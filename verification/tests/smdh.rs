use ctru_rs::error::Error;
use ctru_rs::services::am::{Am, Title};
use ctru_rs::services::cfgu::Language;
use ctru_rs::services::fs::FsMediaType;
use ctru_rs::smdh::{RegionLock, Smdh, SmdhFlags, SMDH_SIZE};

fn put_units(blob: &mut [u8; 0x36c0], at: usize, text: &str) {
    let mut offset: usize = at;
    for unit in text.encode_utf16() {
        blob[offset] = (unit & 0xff) as u8;
        blob[offset + 1] = (unit >> 8) as u8;
        offset += 2;
    }
}

fn blob() -> Box<[u8; 0x36c0]> {
    let mut blob: Box<[u8; 0x36c0]> = Box::new([0u8; 0x36c0]);
    blob[..4].copy_from_slice(b"SMDH");
    blob[4] = 0x34;
    blob[5] = 0x12;
    let english: usize = 0x6 + 0x200;
    put_units(&mut blob, english, "Hi");
    put_units(&mut blob, english + 0x80, "Hello there");
    put_units(&mut blob, english + 0x180, "Us");
    let russian: usize = 0x6 + 10 * 0x200;
    put_units(&mut blob, russian, "\u{41f}\u{440}");
    blob[0x2018..0x201c].copy_from_slice(&[0x05, 0x00, 0x00, 0x00]);
    blob[0x2028..0x202c].copy_from_slice(&[0x01, 0x14, 0x00, 0x00]);
    blob
}

#[test]
fn blob_size() {
    assert_eq!(SMDH_SIZE, 0x36c0);
}

#[test]
fn magic_is_checked() {
    let mut blob: Box<[u8; 0x36c0]> = blob();
    assert!(Smdh::has_magic(&blob));
    blob[3] = b'X';
    assert!(!Smdh::has_magic(&blob));
    assert!(!Smdh::has_magic(&[0u8; 0x36c0]));
}

#[test]
fn load_decodes_the_fields() {
    let blob: Box<[u8; 0x36c0]> = blob();
    let smdh: Smdh = Smdh::load(0, 0, 0, &blob).unwrap();
    assert_eq!(smdh.version(), 0x1234);
    assert_eq!(smdh.region().bits(), RegionLock::JAPAN | RegionLock::EUROPE);
    assert!(smdh.region().contains(RegionLock::EUROPE));
    assert!(!smdh.region().contains(RegionLock::NORTH_AMERICA));
    assert!(!smdh.region().contains(RegionLock::REGION_FREE));
    assert_eq!(
        smdh.flags().bits(),
        SmdhFlags::VISIBLE | SmdhFlags::DISABLE_SD_SAVEDATA_BACKUPS | SmdhFlags::NEW3DS_EXCLUSIVE
    );
    assert!(smdh.flags().contains(SmdhFlags::VISIBLE));
    assert!(smdh.flags().contains(SmdhFlags::NEW3DS_EXCLUSIVE));
    assert!(!smdh.flags().contains(SmdhFlags::AUTOBOOT_GAMECARD));
}

#[test]
fn names_are_decoded_from_utf16() {
    let blob: Box<[u8; 0x36c0]> = blob();
    let smdh: Smdh = Smdh::load(0, 0, 0, &blob).unwrap();
    let short: String = smdh.short_name(Language::English);
    assert_eq!(short.chars().count(), 0x40);
    assert_eq!(short.trim_end_matches('\0'), "Hi");
    let long: String = smdh.long_name(Language::English);
    assert_eq!(long.chars().count(), 0x80);
    assert_eq!(long.trim_end_matches('\0'), "Hello there");
    assert_eq!(smdh.publisher(Language::English).trim_end_matches('\0'), "Us");
    assert_eq!(smdh.short_name(Language::Russian).trim_end_matches('\0'), "\u{41f}\u{440}");
    assert_eq!(smdh.short_name(Language::Japanese).trim_end_matches('\0'), "");
    assert_eq!(smdh.long_name(Language::Russian).trim_end_matches('\0'), "");
}

#[test]
fn unpaired_surrogate_is_replaced() {
    let mut blob: Box<[u8; 0x36c0]> = blob();
    blob[0x6] = 0x00;
    blob[0x7] = 0xd8;
    blob[0x8] = b'a';
    let smdh: Smdh = Smdh::load(0, 0, 0, &blob).unwrap();
    assert_eq!(smdh.short_name(Language::Japanese).trim_end_matches('\0'), "\u{fffd}a");
}

#[test]
fn first_failing_code_is_the_error() {
    let blob: Box<[u8; 0x36c0]> = blob();
    assert_eq!(Smdh::load(-1, -2, -3, &blob).err(), Some(Error::Os(-1)));
    assert_eq!(Smdh::load(0, -2, -3, &blob).err(), Some(Error::Os(-2)));
    assert_eq!(Smdh::load(0, 0, -3, &blob).err(), Some(Error::Os(-3)));
    assert_eq!(Smdh::load(-1, 0, 0, &[0u8; 0x36c0]).err(), Some(Error::Os(-1)));
}

#[test]
fn paths_of_the_blob() {
    let am: Am = Am::init(0).unwrap();
    let titles: Vec<Title> =
        am.get_title_list(FsMediaType::Sd, 0, &[0x0004_0000_0012_3400]).unwrap();
    assert_eq!(Smdh::archive_path_data(&titles[0]), [0x0012_3400, 0x0004_0000, 1, 0]);
    assert_eq!(Smdh::file_path_data(), [0, 0, 2, 0x6E6F6369, 0]);
}
