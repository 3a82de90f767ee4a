use lumol_py::cell::cell_parameters;
use lumol_py::cell::construction_shape;
use lumol_py::cell::CellShape;
use lumol_py::cell::CompareOp;

fn shape_of(a: f64, b: Option<f64>, c: Option<f64>, angles: [Option<f64>; 3]) -> (CellShape, [f64; 6]) {
    let p = cell_parameters(a, b, c, angles[0], angles[1], angles[2], 90.0);
    let shape = construction_shape(
        [p.a == 0.0, p.b == 0.0, p.c == 0.0],
        [p.alpha == 90.0, p.beta == 90.0, p.gamma == 90.0],
    );
    (shape, [p.a, p.b, p.c, p.alpha, p.beta, p.gamma])
}

#[test]
fn cell_constructors() {
    let (shape, values) = shape_of(0.0, None, None, [None, None, None]);
    assert_eq!(values, [0.0, 0.0, 0.0, 90.0, 90.0, 90.0]);
    assert!(shape == CellShape::infinite());

    let (shape, values) = shape_of(3.0, Some(4.0), Some(5.0), [None, None, None]);
    assert_eq!(values, [3.0, 4.0, 5.0, 90.0, 90.0, 90.0]);
    assert!(shape == CellShape::orthorhombic());

    let (shape, values) = shape_of(3.0, Some(4.0), Some(5.0), [Some(80.0), Some(90.0), Some(100.0)]);
    assert_eq!(values, [3.0, 4.0, 5.0, 80.0, 90.0, 100.0]);
    assert!(shape == CellShape::triclinic());
}

#[test]
fn single_length_gives_cubic_cell() {
    let (shape, values) = shape_of(7.0, None, None, [None, None, None]);
    assert_eq!(values, [7.0, 7.0, 7.0, 90.0, 90.0, 90.0]);
    assert_eq!(shape, CellShape::Orthorhombic);
}

#[test]
fn any_non_right_angle_gives_triclinic() {
    assert_eq!(construction_shape([false, false, false], [true, true, false]), CellShape::Triclinic);
    assert_eq!(construction_shape([false, false, false], [false, true, true]), CellShape::Triclinic);
    assert_eq!(construction_shape([false, true, true], [true, false, true]), CellShape::Triclinic);
    assert_eq!(construction_shape([true, true, true], [false, false, false]), CellShape::Infinite);
}

#[test]
fn shape_equality() {
    let t = CellShape::triclinic();
    assert_eq!(t.rich_compare(&CellShape::triclinic(), CompareOp::Eq), Some(true));
    assert_eq!(t.rich_compare(&CellShape::orthorhombic(), CompareOp::Eq), Some(false));
    assert_eq!(t.rich_compare(&CellShape::orthorhombic(), CompareOp::Ne), Some(true));
    assert_eq!(t.rich_compare(&CellShape::triclinic(), CompareOp::Ne), Some(false));
    assert_eq!(CellShape::infinite().rich_compare(&CellShape::infinite(), CompareOp::Eq), Some(true));
}

#[test]
fn shape_ordering_does_not_apply() {
    let t = CellShape::triclinic();
    let o = CellShape::orthorhombic();
    assert_eq!(t.rich_compare(&o, CompareOp::Lt), None);
    assert_eq!(t.rich_compare(&o, CompareOp::Le), None);
    assert_eq!(t.rich_compare(&t, CompareOp::Gt), None);
    assert_eq!(t.rich_compare(&t, CompareOp::Ge), None);
}

#[test]
fn shape_repr() {
    assert_eq!(CellShape::infinite().repr(), "CellShape.Infinite");
    assert_eq!(CellShape::orthorhombic().repr(), "CellShape.Orthorhombic");
    assert_eq!(CellShape::triclinic().repr(), "CellShape.Triclinic");
}
