use quotax::bmp::palette_in_range;
use quotax::tray_icon::{pick_tray_entry, warn_icon_rgba};

fn ico_bytes(sizes: &[u32]) -> Vec<u8> {
    let mut dir = ico::IconDir::new(ico::ResourceType::Icon);
    for &s in sizes {
        let mut rgba = vec![255u8; (s * s * 4) as usize];
        rgba[0] = s as u8;
        let img = ico::IconImage::from_rgba_data(s, s, rgba);
        dir.add_entry(ico::IconDirEntry::encode(&img).unwrap());
    }
    let mut out = Vec::new();
    dir.write(&mut out).unwrap();
    out
}

#[test]
fn picks_widest_entry_that_fits() {
    assert_eq!(pick_tray_entry(&vec![(16, 16), (48, 48), (32, 32), (256, 256)]), Some(1));
    assert_eq!(pick_tray_entry(&vec![(48, 48), (48, 48)]), Some(1));
    assert_eq!(pick_tray_entry(&vec![(64, 64), (256, 256)]), Some(1));
    assert_eq!(pick_tray_entry(&vec![(16, 64)]), Some(0));
    assert_eq!(pick_tray_entry(&vec![]), None);
}

#[test]
fn decodes_the_tray_entry() {
    let bytes = ico_bytes(&[16, 48, 32, 64]);
    let (rgba, w, h) = warn_icon_rgba(&bytes).expect("icon should decode");
    assert_eq!((w, h), (48, 48));
    assert_eq!(rgba.len(), 48 * 48 * 4);
    assert_eq!(rgba[0], 48);
}

#[test]
fn rejects_non_icons() {
    assert!(warn_icon_rgba(b"not an icon").is_none());
}

/// A 2×2, 4-bit BMP whose header declares 3 colours; the first stored row
/// holds the byte `first_byte` (its two pixels' colour indices).
fn short_palette_bmp(first_byte: u8) -> Vec<u8> {
    let mut d = Vec::new();
    for v in [40u32, 2, 4] {
        d.extend_from_slice(&v.to_le_bytes());
    }
    d.extend_from_slice(&1u16.to_le_bytes());
    d.extend_from_slice(&4u16.to_le_bytes());
    for v in [0u32, 0, 0, 0, 3, 0] {
        d.extend_from_slice(&v.to_le_bytes());
    }
    for _ in 0..3 {
        d.extend_from_slice(&[10, 20, 30, 0]);
    }
    d.extend_from_slice(&[first_byte, 0, 0, 0, 0x01, 0, 0, 0]);
    d.extend_from_slice(&[0; 8]);
    d
}

fn ico_with_entry(data: &[u8]) -> Vec<u8> {
    let mut f = vec![0, 0, 1, 0, 1, 0, 2, 2, 0, 0, 1, 0, 4, 0];
    f.extend_from_slice(&(data.len() as u32).to_le_bytes());
    f.extend_from_slice(&22u32.to_le_bytes());
    f.extend_from_slice(data);
    f
}

#[test]
fn short_palette_is_checked() {
    assert!(!palette_in_range(&short_palette_bmp(0xf0)));
    assert!(!palette_in_range(&short_palette_bmp(0x03)));
    assert!(palette_in_range(&short_palette_bmp(0x12)));
    assert!(palette_in_range(&short_palette_bmp(0x12)[..60]));
    assert!(palette_in_range(b"\x89PNG\xff\xff"));
    assert!(palette_in_range(&[]));
}

#[test]
fn out_of_palette_entry_is_refused_not_decoded() {
    assert!(warn_icon_rgba(&ico_with_entry(&short_palette_bmp(0xf0))).is_none());
    let (rgba, w, h) = warn_icon_rgba(&ico_with_entry(&short_palette_bmp(0x12))).expect("decodes");
    assert_eq!((w, h), (2, 2));
    assert_eq!(rgba.len(), 16);
}
