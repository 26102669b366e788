//! Checks of recipient specifications, registration, and the attribute
//! codecs.

use bevy_pigeon::recipient::RecipientSpec;
use bevy_pigeon::table::{MessageTable, RegistrationError};
use bevy_pigeon::types::{NetAlphaMode, NetEulerRot, NetName, NetVisibility};

#[test]
fn matches_all_and_nobody() {
    assert!(RecipientSpec::All.matches(0));
    assert!(RecipientSpec::All.matches(42));
    assert!(!RecipientSpec::Nobody.matches(0));
    assert!(!RecipientSpec::Nobody.matches(42));
}

#[test]
fn matches_include_and_except() {
    let inc = RecipientSpec::Include(vec![3, 5]);
    assert!(inc.matches(3));
    assert!(inc.matches(5));
    assert!(!inc.matches(4));

    let exc = RecipientSpec::Except(vec![3]);
    assert!(!exc.matches(3));
    assert!(exc.matches(4));

    let empty = RecipientSpec::Include(vec![]);
    assert!(!empty.matches(0));
}

#[test]
fn overlap_include_except() {
    // Include({3,5}) and Except({3}) overlap: peer 5 is accepted by both.
    let inc = RecipientSpec::Include(vec![3, 5]);
    let exc = RecipientSpec::Except(vec![3]);
    assert!(inc.overlap(&exc));
    assert!(exc.overlap(&inc));

    // Include({3}) and Except({3}) share nothing.
    let inc3 = RecipientSpec::Include(vec![3]);
    assert!(!inc3.overlap(&exc));
    assert!(!exc.overlap(&inc3));
}

#[test]
fn overlap_case_table() {
    assert!(RecipientSpec::All.overlap(&RecipientSpec::All));
    assert!(!RecipientSpec::All.overlap(&RecipientSpec::Nobody));
    assert!(!RecipientSpec::Nobody.overlap(&RecipientSpec::Except(vec![])));
    assert!(RecipientSpec::All.overlap(&RecipientSpec::Except(vec![1])));
    assert!(RecipientSpec::Except(vec![1]).overlap(&RecipientSpec::Except(vec![2])));
    assert!(RecipientSpec::All.overlap(&RecipientSpec::Include(vec![1])));
    assert!(!RecipientSpec::All.overlap(&RecipientSpec::Include(vec![])));
    assert!(
        RecipientSpec::Include(vec![1, 2]).overlap(&RecipientSpec::Include(vec![2, 3]))
    );
    assert!(!RecipientSpec::Include(vec![1]).overlap(&RecipientSpec::Include(vec![2])));
}

#[test]
fn registration_duplicate_is_error() {
    let mut table = MessageTable::new();
    assert_eq!(table.register(10), Ok(()));
    assert_eq!(table.register(11), Ok(()));
    // The same attribute/encoding pair registered twice is a
    // configuration error.
    assert_eq!(table.register(10), Err(RegistrationError::AlreadyRegistered));
    assert!(table.contains(10));
    assert!(table.contains(11));
    assert!(!table.contains(12));
}

#[test]
fn registration_assume_unique() {
    let mut table = MessageTable::new();
    if !table.contains(10) {
        table.register_assume_unique(10);
    }
    assert!(table.contains(10));
}

#[test]
fn visibility_codec_round_trip() {
    for v in [
        NetVisibility::Inherited,
        NetVisibility::Hidden,
        NetVisibility::Visible,
    ] {
        assert_eq!(NetVisibility::decode(v.encode()), Some(v));
    }
    assert_eq!(NetVisibility::decode(3), None);
    assert_eq!(NetVisibility::Inherited.encode(), 0);
    assert_eq!(NetVisibility::Hidden.encode(), 1);
    assert_eq!(NetVisibility::Visible.encode(), 2);
}

#[test]
fn alpha_mode_codec_round_trip() {
    for m in [
        NetAlphaMode::Opaque,
        NetAlphaMode::Mask(0x3f000000),
        NetAlphaMode::Blend,
        NetAlphaMode::Premultiplied,
        NetAlphaMode::Add,
        NetAlphaMode::Multiply,
    ] {
        let (tag, bits) = m.encode();
        assert_eq!(NetAlphaMode::decode(tag, bits), Some(m));
    }
    assert_eq!(NetAlphaMode::decode(6, 0), None);
    assert_eq!(NetAlphaMode::decode(0, 1), None);
}

#[test]
fn euler_rot_codec_round_trip() {
    for r in [
        NetEulerRot::ZYX,
        NetEulerRot::ZXY,
        NetEulerRot::YXZ,
        NetEulerRot::YZX,
        NetEulerRot::XYZ,
        NetEulerRot::XZY,
    ] {
        assert_eq!(NetEulerRot::decode(r.encode()), Some(r));
    }
    assert_eq!(NetEulerRot::decode(6), None);
}

#[test]
fn net_name_wraps_string() {
    let n = NetName::new(String::from("player one"));
    assert_eq!(n.name(), "player one");
}
