use slippy_map_tilenames::{zoom_in, zoom_out};

#[test]
fn zoom_basics() {
    assert_eq!(zoom_in(1, 1), ((2, 2), (3, 2), (2, 3), (3, 3)));
    assert_eq!(zoom_out(5, 7), (2, 3));
    assert_eq!(zoom_out(0, 0), (0, 0));
}

#[test]
fn zoom_in_at_origin() {
    assert_eq!(zoom_in(0, 0), ((0, 0), (1, 0), (0, 1), (1, 1)));
}

#[test]
fn zoom_in_largest_tile() {
    // The largest tile whose children still fit in u32.
    let x: u32 = 0x7FFF_FFFF;
    let y: u32 = 0x7FFF_FFFF;
    assert_eq!(
        zoom_in(x, y),
        (
            (0xFFFF_FFFE, 0xFFFF_FFFE),
            (0xFFFF_FFFF, 0xFFFF_FFFE),
            (0xFFFF_FFFE, 0xFFFF_FFFF),
            (0xFFFF_FFFF, 0xFFFF_FFFF),
        )
    );
}

#[test]
fn zoom_out_rounds_down() {
    assert_eq!(zoom_out(4, 4), (2, 2));
    assert_eq!(zoom_out(5, 4), (2, 2));
    assert_eq!(zoom_out(4, 5), (2, 2));
    assert_eq!(zoom_out(1, 0), (0, 0));
    assert_eq!(zoom_out(u32::MAX, u32::MAX), (0x7FFF_FFFF, 0x7FFF_FFFF));
}

#[test]
fn children_zoom_out_to_parent() {
    let (tl, tr, bl, br) = zoom_in(4376, 2932);
    assert_eq!(zoom_out(tl.0, tl.1), (4376, 2932));
    assert_eq!(zoom_out(tr.0, tr.1), (4376, 2932));
    assert_eq!(zoom_out(bl.0, bl.1), (4376, 2932));
    assert_eq!(zoom_out(br.0, br.1), (4376, 2932));
}
