use soochcart::map::{mesh_triangles, triangle_list, triangle_strip, MeshIndex, Topology};

#[test]
fn list_takes_indices_three_by_three() {
    let indices: [u32; 6] = [0, 1, 2, 2, 1, 3];
    assert_eq!(triangle_list(&indices), vec![[0, 1, 2], [2, 1, 3]]);
}

#[test]
fn list_drops_a_trailing_part() {
    let indices: [u16; 8] = [5, 6, 7, 8, 9, 10, 11, 12];
    assert_eq!(triangle_list(&indices), vec![[5, 6, 7], [8, 9, 10]]);
    let short: [u16; 2] = [1, 2];
    assert_eq!(triangle_list(&short), Vec::<[u32; 3]>::new());
    let none: [u32; 0] = [];
    assert_eq!(triangle_list(&none), Vec::<[u32; 3]>::new());
}

#[test]
fn strip_takes_a_triangle_at_every_second_index() {
    let indices: [u32; 7] = [0, 1, 2, 3, 4, 5, 6];
    assert_eq!(triangle_strip(&indices), vec![[0, 1, 2], [2, 3, 4], [4, 5, 6]]);
    let even: [u16; 6] = [0, 1, 2, 3, 4, 5];
    assert_eq!(triangle_strip(&even), vec![[0, 1, 2], [2, 3, 4]]);
}

#[test]
fn strip_needs_three_indices() {
    let three: [u32; 3] = [7, 8, 9];
    assert_eq!(triangle_strip(&three), vec![[7, 8, 9]]);
    let four: [u32; 4] = [7, 8, 9, 10];
    assert_eq!(triangle_strip(&four), vec![[7, 8, 9]]);
    let two: [u32; 2] = [7, 8];
    assert_eq!(triangle_strip(&two), Vec::<[u32; 3]>::new());
    let none: [u16; 0] = [];
    assert_eq!(triangle_strip(&none), Vec::<[u32; 3]>::new());
}

#[test]
fn wide_and_narrow_indices_widen_alike() {
    assert_eq!(65_535u16.widen(), 65_535u32);
    assert_eq!(4_000_000_000u32.widen(), 4_000_000_000u32);
    let narrow: [u16; 3] = [65_535, 0, 1];
    let wide: [u32; 3] = [65_535, 0, 1];
    assert_eq!(triangle_list(&narrow), triangle_list(&wide));
}

#[test]
fn topology_picks_the_reading() {
    let indices: [u32; 5] = [0, 1, 2, 3, 4];
    assert_eq!(mesh_triangles(Topology::TriangleList, &indices), Some(vec![[0, 1, 2]]));
    assert_eq!(
        mesh_triangles(Topology::TriangleStrip, &indices),
        Some(vec![[0, 1, 2], [2, 3, 4]])
    );
    assert_eq!(mesh_triangles(Topology::Other, &indices), None);
}
