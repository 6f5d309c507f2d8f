use tnap::layout::{ascii_area, ascii_size, image_area, Area};

#[test]
fn test_ascii_size() {
    assert_eq!(ascii_size(80, 24), 48);
    assert_eq!(ascii_size(30, 100), 60);
    assert_eq!(ascii_size(0, 10), 0);
    assert_eq!(ascii_size(u16::MAX, u16::MAX), 131070);
}

#[test]
fn ascii_area_is_centred_vertically() {
    assert_eq!(ascii_area(80, 24, 10), Area { x: 0, y: 7, width: 80, height: 10 });
    assert_eq!(ascii_area(80, 24, 24), Area { x: 0, y: 0, width: 80, height: 24 });
    assert_eq!(ascii_area(80, 24, 30), Area { x: 0, y: 0, width: 80, height: 30 });
}

#[test]
fn image_area_takes_four_fifths() {
    assert_eq!(image_area(100, 50), Area { x: 24, y: 5, width: 80, height: 40 });
    assert_eq!(image_area(0, 0), Area { x: 0, y: 0, width: 0, height: 0 });
    let big = image_area(u16::MAX, u16::MAX);
    assert_eq!(big.width, 52428);
    assert_eq!(big.height, 52428);
}
