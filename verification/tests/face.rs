use facefinder::detection::Point;
use facefinder::error::DetectError;
use facefinder::face::Face;
use facefinder::rect::Rect;
use facefinder::single::Single;

fn coordinate(x: f32) -> Single {
    Single::from_bits(x.to_bits())
}

fn point(x: f32, y: f32) -> Point {
    Point { x: coordinate(x), y: coordinate(y) }
}

fn floats(p: Point) -> (f32, f32) {
    (f32::from_bits(p.x.to_bits()), f32::from_bits(p.y.to_bits()))
}

fn landmarks(n: usize) -> Vec<Point> {
    (0..n).map(|i| point(i as f32, 2.0 * i as f32)).collect()
}

#[test]
fn a_face_keeps_its_parts() {
    let rect = Rect { left: 10, top: 20, width: 64, height: 64 };
    let face = Face::new(
        coordinate(57.5),
        rect,
        landmarks(5),
        (point(30.0, 40.0), point(50.0, 41.0)),
    )
    .unwrap();
    assert_eq!(f32::from_bits(face.score().to_bits()), 57.5);
    assert_eq!(face.rect(), rect);
    assert_eq!(face.shape().len(), 5);
    let shape: Vec<(f32, f32)> = face.shape().iter().map(|p| floats(*p)).collect();
    assert_eq!(shape, vec![(0.0, 0.0), (1.0, 2.0), (2.0, 4.0), (3.0, 6.0), (4.0, 8.0)]);
    let (left, right) = face.pupils();
    assert_eq!(floats(left), (30.0, 40.0));
    assert_eq!(floats(right), (50.0, 41.0));
}

#[test]
fn a_face_needs_five_landmarks() {
    let rect = Rect { left: 0, top: 0, width: 1, height: 1 };
    for n in [0usize, 1, 4, 6, 68] {
        let r = Face::new(coordinate(50.0), rect, landmarks(n), (point(0.0, 0.0), point(1.0, 1.0)));
        match r {
            Err(DetectError::ShapeContract { len }) => assert_eq!(len, n),
            other => panic!("{:?}", other),
        }
    }
}
