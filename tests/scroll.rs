use flappy_animals::scroll::{advance_offset, render_looping_background, render_sprite, Picture};

fn gradient(width: u32, height: u32) -> Picture {
    let mut pixels = Vec::new();
    for y in 0..height {
        for x in 0..width {
            pixels.push((x as u8, y as u8, 7, if (x + y) % 3 == 0 { 0 } else { 255 }));
        }
    }
    Picture::new(width, height, pixels).unwrap()
}

#[test]
fn picture_rejects_bad_sizes() {
    assert!(Picture::new(0, 1, vec![]).is_none());
    assert!(Picture::new(2, 2, vec![(0, 0, 0, 0); 3]).is_none());
    let p = Picture::new(2, 2, vec![(1, 2, 3, 4); 4]).unwrap();
    assert_eq!(p.width(), 2);
    assert_eq!(p.height(), 2);
    assert_eq!(p.pixel(1, 1), (1, 2, 3, 4));
}

#[test]
fn offset_advances_and_wraps() {
    assert_eq!(advance_offset(0, 1000), 1000);
    assert_eq!(advance_offset(119_999_999, 1), 120_000_000);
    assert_eq!(advance_offset(119_999_999, 2), 1);
    assert_eq!(advance_offset(120_000_000, 120_000_000), 120_000_000);
    assert_eq!(advance_offset(0, 250_000_000), 10_000_000);
}

#[test]
fn background_samples_tiled_image() {
    let pic = gradient(7, 5);
    let cells = render_looping_background(3_500_000, &pic);
    assert_eq!(cells.len(), 120 * 80);
    // offset 3 cells: screen (0, 0) shows image (3, 0)
    assert_eq!((cells[0].x, cells[0].y, cells[0].red, cells[0].green), (0, 0, 3, 0));
    // screen (5, 6) shows image ((5 + 3) % 7, 6 % 5) = (1, 1)
    let c = cells[6 * 120 + 5];
    assert_eq!((c.x, c.y, c.red, c.green, c.blue), (5, 6, 1, 1, 7));
}

#[test]
fn background_offset_by_image_width_is_identical() {
    let pic = gradient(7, 5);
    let a = render_looping_background(0, &pic);
    let b = render_looping_background(7_000_000, &pic);
    assert_eq!(a, b);
    let c = render_looping_background(2_000_000, &pic);
    let d = render_looping_background(9_000_000, &pic);
    assert_eq!(c, d);
    assert_ne!(a, c);
}

#[test]
fn sprite_skips_transparent_and_offscreen() {
    let pic = gradient(14, 14);
    let cells = render_sprite(0, 0, &pic);
    let opaque = (0..14u32)
        .flat_map(|y| (0..14u32).map(move |x| (x, y)))
        .filter(|(x, y)| (x + y) % 3 != 0)
        .count();
    assert_eq!(cells.len(), opaque);
    assert!(cells.iter().all(|c| (c.x + c.y) % 3 != 0));
    let partly_off = render_sprite(110, 70, &pic);
    assert!(partly_off.iter().all(|c| c.x < 120 && c.y < 80));
    assert!(partly_off.len() < opaque);
    let above = render_sprite(0, -20, &pic);
    assert!(above.is_empty());
}
