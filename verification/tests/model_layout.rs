use flipbook::display::Model;

#[test]
fn model_concatenates_vertices_then_indices() {
    let indices = [1u8, 0, 0, 0, 2, 0, 0, 0];
    let vertices = [10u8, 11, 12];
    let m = Model::new(&indices, &vertices);
    assert_eq!(m.buffer, vec![10, 11, 12, 1, 0, 0, 0, 2, 0, 0, 0]);
    assert_eq!(m.index, 3);
    assert_eq!(m.index_count(), 2);
    assert_eq!(m.vertices(), &vertices);
    assert_eq!(m.indices(), &indices);
}

#[test]
fn model_with_empty_parts() {
    let m = Model::new(&[], &[]);
    assert_eq!(m.index_count(), 0);
    assert_eq!(m.vertices(), &[] as &[u8]);
    assert_eq!(m.indices(), &[] as &[u8]);

    let m = Model::new(&[9, 0, 0, 0], &[]);
    assert_eq!(m.vertices(), &[] as &[u8]);
    assert_eq!(m.indices(), &[9, 0, 0, 0]);
    assert_eq!(m.index_count(), 1);
}

#[test]
fn model_index_count_rounds_down() {
    // Six index bytes hold only one whole 32-bit index.
    let m = Model::new(&[1, 0, 0, 0, 2, 0], &[0]);
    assert_eq!(m.index_count(), 1);
    assert_eq!(m.indices().len(), 6);
}
