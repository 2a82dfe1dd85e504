use facefinder::error::DetectError;
use facefinder::shape::Shape5;

#[test]
fn a_shape_has_five_points() {
    assert_eq!(Shape5::size(), 5);
}

#[test]
fn landmarks_keep_their_places() {
    assert_eq!(Shape5::LeftOuterEyeCorner.index(), 0);
    assert_eq!(Shape5::LeftInnerEyeCorner.index(), 1);
    assert_eq!(Shape5::RightOuterEyeCorner.index(), 2);
    assert_eq!(Shape5::RightInnerEyeCorner.index(), 3);
    assert_eq!(Shape5::Nose.index(), 4);
}

#[test]
fn eye_corners_of_a_shape() {
    let shape: [(f32, f32); 5] = [(10.0, 20.0), (30.0, 21.0), (70.0, 22.0), (50.0, 23.0), (40.0, 60.0)];
    let corners = Shape5::eye_corners(&shape).unwrap();
    assert_eq!(corners.left_outer, (10.0, 20.0));
    assert_eq!(corners.left_inner, (30.0, 21.0));
    assert_eq!(corners.right_outer, (70.0, 22.0));
    assert_eq!(corners.right_inner, (50.0, 23.0));
}

#[test]
fn eye_corners_of_any_point_type() {
    let shape: Vec<u8> = vec![b'a', b'b', b'c', b'd', b'e'];
    let corners = Shape5::eye_corners(&shape).unwrap();
    assert_eq!(
        (corners.left_outer, corners.left_inner, corners.right_outer, corners.right_inner),
        (b'a', b'b', b'c', b'd')
    );
}

#[test]
fn a_short_shape_is_refused() {
    let shape: [u32; 4] = [1, 2, 3, 4];
    assert!(matches!(
        Shape5::eye_corners(&shape),
        Err(DetectError::ShapeContract { len: 4 })
    ));
}

#[test]
fn a_long_shape_is_refused() {
    let shape: [u32; 6] = [1, 2, 3, 4, 5, 6];
    assert!(matches!(
        Shape5::eye_corners(&shape),
        Err(DetectError::ShapeContract { len: 6 })
    ));
    let shape: Vec<u32> = vec![0; 68];
    assert!(matches!(
        Shape5::eye_corners(&shape),
        Err(DetectError::ShapeContract { len: 68 })
    ));
}

#[test]
fn an_empty_shape_is_refused() {
    let shape: [u32; 0] = [];
    assert!(matches!(
        Shape5::eye_corners(&shape),
        Err(DetectError::ShapeContract { len: 0 })
    ));
}
