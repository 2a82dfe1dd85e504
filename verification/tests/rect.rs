use facefinder::rect::Rect;

#[test]
fn a_rect_inside_the_image() {
    let rect = Rect { left: 10, top: 20, width: 30, height: 40 };
    assert!(rect.fits_within(40, 60));
    assert!(rect.fits_within(640, 480));
}

#[test]
fn a_rect_that_reaches_over_an_edge() {
    let rect = Rect { left: 10, top: 20, width: 30, height: 40 };
    assert!(!rect.fits_within(39, 60));
    assert!(!rect.fits_within(40, 59));
    assert!(!rect.fits_within(0, 0));
}

#[test]
fn a_rect_left_of_or_above_the_image() {
    assert!(!Rect { left: -1, top: 0, width: 2, height: 2 }.fits_within(10, 10));
    assert!(!Rect { left: 0, top: -1, width: 2, height: 2 }.fits_within(10, 10));
    assert!(!Rect { left: i32::MIN, top: i32::MIN, width: u32::MAX, height: u32::MAX }
        .fits_within(u32::MAX, u32::MAX));
}

#[test]
fn the_largest_rect_does_not_overflow() {
    let rect = Rect { left: i32::MAX, top: i32::MAX, width: u32::MAX, height: u32::MAX };
    assert!(!rect.fits_within(u32::MAX, u32::MAX));
    let rect = Rect { left: 0, top: 0, width: u32::MAX, height: u32::MAX };
    assert!(rect.fits_within(u32::MAX, u32::MAX));
}

#[test]
fn rects_compare_by_their_fields() {
    let rect = Rect { left: 1, top: 2, width: 3, height: 4 };
    assert_eq!(rect, Rect { left: 1, top: 2, width: 3, height: 4 });
    assert_ne!(rect, Rect { left: 1, top: 2, width: 3, height: 5 });
}

fn pixels(x: f32) -> facefinder::single::Single {
    facefinder::single::Single::from_bits(x.to_bits())
}

#[test]
fn the_square_of_a_detection() {
    // A detection centred at (120.5, 80.25) with an edge of 64.75.
    let (x, y, size) = (120.5f32, 80.25f32, 64.75f32);
    let rect = Rect::square(pixels(x - size / 2.0), pixels(y - size / 2.0), pixels(size));
    assert_eq!(rect, Some(Rect { left: 88, top: 47, width: 64, height: 64 }));
}

#[test]
fn a_square_left_of_the_image() {
    let rect = Rect::square(pixels(-3.75), pixels(-0.5), pixels(10.0));
    assert_eq!(rect, Some(Rect { left: -3, top: 0, width: 10, height: 10 }));
}

#[test]
fn a_square_without_an_edge() {
    assert_eq!(Rect::square(pixels(5.0), pixels(5.0), pixels(0.0)), None);
    assert_eq!(Rect::square(pixels(5.0), pixels(5.0), pixels(0.99)), None);
    assert_eq!(Rect::square(pixels(5.0), pixels(5.0), pixels(-8.0)), None);
    assert_eq!(Rect::square(pixels(5.0), pixels(5.0), pixels(f32::NAN)), None);
}

#[test]
fn a_square_agrees_with_the_conversions() {
    let corners = [-1.0e10f32, -7.5, -0.25, 0.0, 3.999, 250.5, 1.0e10, f32::NAN];
    let sizes = [1.0f32, 1.5, 24.0, 100.9, 4.0e9, 5.0e9, f32::INFINITY];
    for left in corners {
        for top in corners {
            for size in sizes {
                let rect = Rect::square(pixels(left), pixels(top), pixels(size)).unwrap();
                assert_eq!(
                    rect,
                    Rect {
                        left: left as i32,
                        top: top as i32,
                        width: size as u32,
                        height: size as u32
                    }
                );
            }
        }
    }
}
