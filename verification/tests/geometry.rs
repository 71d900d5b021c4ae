use st7735_embassy::geometry::{fill, pixel_offset, write_pixel};
use st7735_embassy::Orientation;

#[test]
fn pixel_offset_in_landscape() {
    assert_eq!(pixel_offset(Orientation::Landscape, 160, 128, 40960, 159, 127), Some(40958));
    assert_eq!(pixel_offset(Orientation::Landscape, 160, 128, 40960, 0, 0), Some(0));
    assert_eq!(pixel_offset(Orientation::LandscapeSwapped, 160, 128, 40960, 1, 1), Some(322));
    assert_eq!(pixel_offset(Orientation::Landscape, 160, 128, 40960, 160, 0), None);
    assert_eq!(pixel_offset(Orientation::Landscape, 160, 128, 40960, 0, 128), None);
}

#[test]
fn pixel_offset_in_portrait() {
    assert_eq!(pixel_offset(Orientation::Portrait, 160, 128, 40960, 127, 159), Some(40958));
    assert_eq!(pixel_offset(Orientation::PortraitSwapped, 160, 128, 40960, 1, 1), Some(258));
    assert_eq!(pixel_offset(Orientation::Portrait, 160, 128, 40960, 0, 160), None);
    assert_eq!(pixel_offset(Orientation::Portrait, 160, 128, 40960, 128, 159), None);
    assert_eq!(pixel_offset(Orientation::Portrait, 128, 160, 40960, 0, 127), Some(40640));
    assert_eq!(pixel_offset(Orientation::Portrait, 128, 160, 40960, 0, 128), None);
}

#[test]
fn pixel_offset_needs_room_for_both_bytes() {
    assert_eq!(pixel_offset(Orientation::Landscape, 4, 4, 0, 0, 0), None);
    assert_eq!(pixel_offset(Orientation::Landscape, 4, 4, 1, 0, 0), None);
    assert_eq!(pixel_offset(Orientation::Landscape, 4, 4, 2, 0, 0), Some(0));
    assert_eq!(pixel_offset(Orientation::Landscape, 4, 4, 3, 1, 0), None);
    assert_eq!(pixel_offset(Orientation::Landscape, 4, 4, 4, 1, 0), Some(2));
}

#[test]
fn pixel_offset_with_the_largest_dimensions() {
    let w = u32::MAX;
    assert_eq!(pixel_offset(Orientation::Landscape, w, w, usize::MAX, u16::MAX, 0), Some(131070));
    assert_eq!(pixel_offset(Orientation::Landscape, w, w, 64, u16::MAX, u16::MAX), None);
    assert_eq!(pixel_offset(Orientation::Portrait, w, w, 64, u16::MAX, u16::MAX), None);
    assert_eq!(pixel_offset(Orientation::Portrait, 0, 0, 64, 0, 0), None);
    assert_eq!(pixel_offset(Orientation::Landscape, 0, 0, 64, 0, 0), None);
}

#[test]
fn write_pixel_touches_two_bytes() {
    let mut buffer = [0x11u8; 12];
    write_pixel(&mut buffer, Orientation::Landscape, 3, 2, 2, 1, 0xF00D);
    assert_eq!(buffer, [0x11, 0x11, 0x11, 0x11, 0x11, 0x11, 0x11, 0x11, 0x11, 0x11, 0xF0, 0x0D]);
    write_pixel(&mut buffer, Orientation::Landscape, 3, 2, 3, 0, 0xFFFF);
    write_pixel(&mut buffer, Orientation::Landscape, 3, 2, 0, 2, 0xFFFF);
    assert_eq!(buffer, [0x11, 0x11, 0x11, 0x11, 0x11, 0x11, 0x11, 0x11, 0x11, 0x11, 0xF0, 0x0D]);
}

#[test]
fn fill_repeats_the_two_bytes() {
    let mut even = [0u8; 6];
    fill(&mut even, 0x0102);
    assert_eq!(even, [1, 2, 1, 2, 1, 2]);
    let mut odd = [0u8; 5];
    fill(&mut odd, 0x0102);
    assert_eq!(odd, [1, 2, 1, 2, 1]);
    let mut empty: [u8; 0] = [];
    fill(&mut empty, 0x0102);
    assert_eq!(empty, [0u8; 0]);
}
