use doryen::{create_primitive, DrawMode, PrimitiveData};

#[test]
fn quad_is_a_four_vertex_fan() {
    let q = create_primitive();
    assert_eq!(q.pos_data, vec![-1i8, -1, -1, 1, 1, 1, 1, -1]);
    assert_eq!(q.tex_data, Some(vec![0i8, 1, 0, 0, 1, 0, 1, 1]));
    assert_eq!(q.count, 4);
    assert_eq!(q.data_per_primitive, 1);
    assert_eq!(q.draw_mode, DrawMode::TriangleFan);
    assert!(q.is_well_formed());
}

#[test]
fn mismatched_geometry_is_rejected() {
    let short = PrimitiveData {
        pos_data: vec![-1, -1, 1, 1, 1],
        tex_data: None,
        count: 4,
        data_per_primitive: 1,
        draw_mode: DrawMode::TriangleFan,
    };
    assert!(!short.is_well_formed());
    let mut q = create_primitive();
    q.tex_data = Some(vec![0, 1, 0, 0]);
    assert!(!q.is_well_formed());
    q.tex_data = None;
    assert!(q.is_well_formed());
    q.count = 3;
    assert!(!q.is_well_formed());
}
