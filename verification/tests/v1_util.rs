use siminau_rpc::message::v1::{
    openmode, FileID, FileKind, OpenFlag, OpenKind, OpenMode, OpenModeError,
};
use siminau_rpc::message::v1::{FileStat, ReadStat, StatData};
use siminau_rpc::rpccore::CodeConvert;

#[test]
fn mode_is_zero() {
    let obj = OpenMode::default();
    assert_eq!(obj.bits(), 0u8);
}

#[test]
fn valid_bits() {
    for bits in [0u8, 1, 2, 3, 0x40, 0x80, 0xc3] {
        assert_eq!(bits & OpenMode::INVALID_BITS, 0);
        let mode = OpenMode::from_bits(bits).unwrap();
        assert_eq!(mode.bits(), bits);
    }
}

#[test]
fn invalid_bits() {
    for bits in [0x04u8, 0x08, 0x10, 0x20, 0x3c, 0xff] {
        match OpenMode::from_bits(bits) {
            Err(e @ OpenModeError { .. }) => {
                assert_eq!(e.to_string(), format!("Invalid bits set: {:b}", bits));
                assert_eq!(e.bits, bits);
            }
            _ => panic!("expected an error"),
        }
    }
}

#[test]
fn get_flags_and_kind() {
    for mode in [0x41u8, 0x82, 0xc3, 0x43] {
        let flags = OpenFlag::from_bits(mode & OpenFlag::all().bits()).unwrap();
        let kind = OpenKind::from_number(mode & 0b11).unwrap();
        let open_mode = openmode().flags(flags).kind(kind).create();
        assert_eq!(open_mode.flags(), flags);
        assert_eq!(open_mode.kind(), kind);
        assert_eq!(open_mode.bits(), mode);
    }
}

#[test]
fn new_kind_keep_flags() {
    let obj = openmode().kind(OpenKind::Execute).flags(OpenFlag::orclose()).create();
    let result = obj.new_kind(OpenKind::ReadWrite);
    assert_eq!(result.kind(), OpenKind::ReadWrite);
    assert_eq!(result.flags(), OpenFlag::orclose());
}

#[test]
fn update_flags() {
    let mut obj = openmode().kind(OpenKind::Execute).flags(OpenFlag::orclose()).create();
    obj.replace_flags(OpenFlag::otrunc());
    assert_eq!(obj.kind(), OpenKind::Execute);
    assert_eq!(obj.flags(), OpenFlag::otrunc());
}

#[test]
fn util_add_flag() {
    let expected = OpenFlag::orclose().union(OpenFlag::otrunc());
    let mut obj = openmode().kind(OpenKind::Execute).flags(OpenFlag::orclose()).create();
    obj.insert_flags(OpenFlag::otrunc());
    assert_eq!(obj.kind(), OpenKind::Execute);
    assert_eq!(obj.flags(), expected);
}

#[test]
fn util_add_flag_remove_flags() {
    let mut obj = openmode()
        .kind(OpenKind::Execute)
        .flags(OpenFlag::orclose().union(OpenFlag::otrunc()))
        .create();
    obj.remove_flags(OpenFlag::otrunc());
    assert_eq!(obj.kind(), OpenKind::Execute);
    assert_eq!(obj.flags(), OpenFlag::orclose());
}

#[test]
fn remove_from_zero() {
    let mut obj = openmode().kind(OpenKind::Read).create();
    assert_eq!(obj.bits(), 0);
    assert_eq!(obj.flags(), OpenFlag::onoflag());
    obj.remove_flags(OpenFlag::otrunc());
    assert_eq!(obj.kind(), OpenKind::Read);
    assert_eq!(obj.flags(), OpenFlag::onoflag());
}

#[test]
fn util_add_flag_toggle_flags() {
    let mut obj = openmode().kind(OpenKind::Execute).flags(OpenFlag::orclose()).create();
    obj.toggle_flags(OpenFlag::otrunc());
    assert_eq!(obj.kind(), OpenKind::Execute);
    assert_eq!(obj.flags(), OpenFlag::orclose().union(OpenFlag::otrunc()));
}

#[test]
fn remove_flag() {
    let mut obj = openmode()
        .kind(OpenKind::Execute)
        .flags(OpenFlag::orclose().union(OpenFlag::otrunc()))
        .create();
    obj.toggle_flags(OpenFlag::otrunc());
    assert_eq!(obj.kind(), OpenKind::Execute);
    assert_eq!(obj.flags(), OpenFlag::orclose());
}

#[test]
fn toggle_some() {
    let mut obj = openmode().kind(OpenKind::Execute).flags(OpenFlag::orclose()).create();
    obj.toggle_flags(OpenFlag::orclose().union(OpenFlag::otrunc()));
    assert_eq!(obj.kind(), OpenKind::Execute);
    assert_eq!(obj.flags(), OpenFlag::otrunc());
}

#[test]
fn toggle_all_to_noflag() {
    let mut obj = openmode().kind(OpenKind::Execute).flags(OpenFlag::all()).create();
    obj.toggle_flags(OpenFlag::all());
    assert_eq!(obj.kind(), OpenKind::Execute);
    assert_eq!(obj.flags(), OpenFlag::onoflag());
}

#[test]
fn toggle_noflag_to_all() {
    let mut obj = openmode().kind(OpenKind::Execute).create();
    obj.toggle_flags(OpenFlag::all());
    assert_eq!(obj.kind(), OpenKind::Execute);
    assert_eq!(obj.flags(), OpenFlag::all());
}

#[test]
fn notoggle_noflag() {
    let mut obj = openmode().kind(OpenKind::Execute).create();
    obj.toggle_flags(OpenFlag::onoflag());
    assert_eq!(obj.kind(), OpenKind::Execute);
    assert_eq!(obj.flags(), OpenFlag::onoflag());
}

// Toggling the same flags twice restores the mode.
#[test]
fn toggle_twice_restores_mode() {
    let mut obj = openmode().kind(OpenKind::Write).flags(OpenFlag::orclose()).create();
    let before = obj.bits();
    obj.toggle_flags(OpenFlag::all());
    obj.toggle_flags(OpenFlag::all());
    assert_eq!(obj.bits(), before);
}

#[test]
fn openflag_set_operations() {
    let mut f = OpenFlag::onoflag();
    f.insert(OpenFlag::otrunc());
    assert!(f.contains(OpenFlag::otrunc()));
    assert!(!f.contains(OpenFlag::orclose()));
    assert!(f.intersects(OpenFlag::all()));
    f.remove(OpenFlag::otrunc());
    assert_eq!(f, OpenFlag::onoflag());
    assert_eq!(OpenFlag::from_bits(0x01), None);
    assert_eq!(OpenFlag::all().bits(), 0xc0);
}

#[test]
fn openkind_codes() {
    assert_eq!(OpenKind::from_number(0).unwrap(), OpenKind::Read);
    assert_eq!(OpenKind::from_number(3).unwrap(), OpenKind::Execute);
    assert!(OpenKind::from_number(4).is_err());
    assert_eq!(OpenKind::max_number(), 3);
}

#[test]
fn filekind_validity() {
    assert!(FileKind::dir().is_valid());
    assert!(FileKind::file().is_valid());
    assert!(FileKind::dir().union(FileKind::excl()).is_valid());
    assert!(!FileKind::dir().union(FileKind::auth()).is_valid());
    assert!(!FileKind::dir().union(FileKind::append()).is_valid());
    assert_eq!(FileKind::from_bits(0x01), None);
    assert_eq!(FileKind::from_bits(0x80), Some(FileKind::dir()));
    let k = FileKind::dir().union(FileKind::tmp());
    assert_eq!(FileKind::from_bits(k.bits()), Some(k));
    assert!(k.contains(FileKind::tmp()));
    assert!(!k.contains(FileKind::auth()));
    assert_eq!(FileKind::all().bits(), 0xf8);
}

#[test]
fn fileid_validity() {
    let good = FileID::new(FileKind::dir(), 1, 42);
    assert!(good.is_valid());
    let bad = FileID::new(FileKind::dir().union(FileKind::auth()), 1, 42);
    assert!(!bad.is_valid());
    assert_eq!(FileID::default(), FileID::new(FileKind::file(), 0, 0));
}

fn stat(size: u16) -> StatData {
    StatData {
        size,
        fileid: FileID::new(FileKind::file(), 1, 2),
        mode: 0o644,
        atime: 10,
        mtime: 20,
        length: 30,
        name: "file".to_string(),
        uid: "alice".to_string(),
        gid: "users".to_string(),
        muid: "bob".to_string(),
    }
}

#[test]
fn stat_size_counts_names_and_fields() {
    let expected = (4 + 5 + 5 + 3 + std::mem::size_of::<FileID>() + 4 + 4 + 4 + 8) as u16;
    assert_eq!(stat(0).calculate_size(), expected);
}

#[test]
fn filestat_from_stat() {
    let size = stat(0).calculate_size();
    let fs = FileStat::from_stat(stat(size)).unwrap();
    assert_eq!(fs.size(), size);
    assert_eq!(fs.name(), "file");
    assert_eq!(fs.muid(), "bob");
    assert_eq!(fs.length(), 30);
    let e = FileStat::from_stat(stat(size + 1)).unwrap_err();
    assert_eq!(e.expected_size, size);
    assert_eq!(e.size, size + 1);
    assert_eq!(e.to_string(), format!("Expected size {}, got size {}", size, size + 1));
}
