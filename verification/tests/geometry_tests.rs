use tetrotime::geometry::{probe_cells_exec, render_rects_exec, Rotation, Shape};

fn all_shapes() -> Vec<Shape> {
    vec![Shape::L, Shape::J, Shape::O, Shape::T, Shape::I, Shape::S, Shape::Z]
}

fn all_rotations() -> Vec<Rotation> {
    vec![Rotation::NoRotation, Rotation::Degrees90, Rotation::Degrees180, Rotation::Degrees270]
}

#[test]
fn catalog_is_total_over_all_shape_rotation_pairs() {
    let mut combinations = 0usize;
    for shape in all_shapes() {
        for rotation in all_rotations() {
            let probes = probe_cells_exec(shape, rotation);
            let rects = render_rects_exec(shape, rotation);
            assert!(!probes.is_empty(), "missing collision footprint");
            assert!(!rects.is_empty(), "missing render footprint");
            combinations += 1;
        }
    }
    assert_eq!(combinations, 28);
}

#[test]
fn footprints_stay_within_reach_of_the_anchor() {
    for shape in all_shapes() {
        for rotation in all_rotations() {
            for (dx, dy) in probe_cells_exec(shape, rotation) {
                assert!((-4..=4).contains(&dx));
                assert!((-4..=0).contains(&dy));
            }
            for (dx, dy, w, h) in render_rects_exec(shape, rotation) {
                assert!((-4..=4).contains(&dx));
                assert!((-4..=0).contains(&dy));
                assert!((1..=4).contains(&w));
                assert!((1..=4).contains(&h));
            }
        }
    }
}

#[test]
fn l_piece_exact_footprints() {
    let probes = probe_cells_exec(Shape::L, Rotation::NoRotation);
    assert_eq!(probes, vec![(0, 0), (1, -1), (2, -1)]);
    let rects = render_rects_exec(Shape::L, Rotation::NoRotation);
    assert_eq!(rects, vec![(0, -2, 1, 2), (1, -2, 2, 1)]);
}

#[test]
fn symmetric_shapes_share_opposite_rotations() {
    for shape in [Shape::I, Shape::S, Shape::Z] {
        assert_eq!(
            probe_cells_exec(shape, Rotation::NoRotation),
            probe_cells_exec(shape, Rotation::Degrees180)
        );
        assert_eq!(
            probe_cells_exec(shape, Rotation::Degrees90),
            probe_cells_exec(shape, Rotation::Degrees270)
        );
        assert_eq!(
            render_rects_exec(shape, Rotation::NoRotation),
            render_rects_exec(shape, Rotation::Degrees180)
        );
        assert_eq!(
            render_rects_exec(shape, Rotation::Degrees90),
            render_rects_exec(shape, Rotation::Degrees270)
        );
    }
}

#[test]
fn i_piece_sideways_probes_one_cell() {
    let probes = probe_cells_exec(Shape::I, Rotation::Degrees90);
    assert_eq!(probes, vec![(0, 0)]);
}
