use enums_arena::policy::{Generation, Index};

#[test]
fn indices_convert_both_ways() {
    assert_eq!(u8::from_usize(0), 0);
    assert_eq!(u8::from_usize(255), 255);
    assert_eq!(200u8.to_usize(), 200);
    assert_eq!(u16::from_usize(65_535), 65_535);
    assert_eq!(65_535u16.to_usize(), 65_535);
    assert_eq!(u32::from_usize(70_000), 70_000);
    assert_eq!(70_000u32.to_usize(), 70_000);
    assert_eq!(u64::from_usize(usize::MAX), usize::MAX as u64);
    assert_eq!((usize::MAX as u64).to_usize(), usize::MAX);
}

#[test]
fn indices_wrap_past_their_width() {
    assert_eq!(u8::from_usize(256), 0);
    assert_eq!(u8::from_usize(300), 44);
    assert_eq!(u16::from_usize(65_536), 0);
    assert_eq!(u16::from_usize(65_537 + 65_536), 1);
    assert_eq!(u8::from_usize(300).to_usize(), 44);
}

#[test]
fn numeric_stamps_count_up() {
    let mut small = 0u8;
    small.add();
    assert_eq!(small, 1);
    small = 254;
    small.add();
    assert_eq!(small, 255);

    let mut medium = 9u16;
    medium.add();
    assert_eq!(medium, 10);

    let mut wide = u16::MAX as u32;
    wide.add();
    assert_eq!(wide, 65_536);

    let mut widest = u32::MAX as u64;
    widest.add();
    assert_eq!(widest, 4_294_967_296);
}

#[test]
fn the_unit_stamp_stands_still() {
    let mut stamp = ();
    stamp.add();
    assert_eq!(stamp, ());
    assert!(stamp.same(&()));
}

#[test]
fn stamps_compare_by_value() {
    assert!(3u8.same(&3));
    assert!(!3u8.same(&4));
    assert!(7u16.same(&7));
    assert!(!7u16.same(&8));
    assert!(1u32.same(&1));
    assert!(!1u32.same(&0));
    assert!(u64::MAX.same(&u64::MAX));
    assert!(!u64::MAX.same(&0));
}
