use gpu_offload::mesh::{
    classify_line, index_mesh, parse_corner, parse_face, parse_number, split_ascii_whitespace, split_bytes,
    triangulate, Corner, LineKind, MeshError,
};

fn c(position: usize, normal: usize) -> Corner {
    Corner { position, normal }
}

#[test]
fn lines_are_classified_by_prefix() {
    assert_eq!(classify_line(b"v 1 2 3"), LineKind { normal: false, position: true, face: false });
    assert_eq!(classify_line(b"vn 0 1 0"), LineKind { normal: true, position: true, face: false });
    assert_eq!(classify_line(b"vt 0.5 0.5"), LineKind { normal: false, position: false, face: false });
    assert_eq!(classify_line(b"f 1/1/1 2/2/2 3/3/3"), LineKind { normal: false, position: false, face: true });
    assert_eq!(classify_line(b"# v comment"), LineKind { normal: false, position: false, face: false });
    assert_eq!(classify_line(b""), LineKind { normal: false, position: false, face: false });
}

#[test]
fn splitting_matches_std() {
    let s = b"  f 1/2/3\t4//6  ";
    let toks: Vec<&[u8]> = split_ascii_whitespace(s).iter().map(|&(a, e)| &s[a..e]).collect();
    let expected: Vec<&[u8]> = std::str::from_utf8(s).unwrap().split_ascii_whitespace().map(|t| t.as_bytes()).collect();
    assert_eq!(toks, expected);
    let t = b"4//6";
    let parts: Vec<&[u8]> = split_bytes(t, b'/').iter().map(|&(a, e)| &t[a..e]).collect();
    assert_eq!(parts, vec![&b"4"[..], &b""[..], &b"6"[..]]);
    assert_eq!(split_bytes(b"", b'\n'), vec![(0, 0)]);
}

#[test]
fn numbers_are_decimal_and_bounded() {
    assert_eq!(parse_number(b"0"), Some(0));
    assert_eq!(parse_number(b"1234"), Some(1234));
    assert_eq!(parse_number(b"18446744073709551615"), Some(18446744073709551615));
    assert_eq!(parse_number(b"18446744073709551616"), None);
    assert_eq!(parse_number(b""), None);
    assert_eq!(parse_number(b"12a"), None);
    assert_eq!(parse_number(b"-1"), None);
}

#[test]
fn corners_resolve_one_based_indices() {
    assert_eq!(parse_corner(b"2/9/1", 2, 1), Ok(c(1, 0)));
    assert_eq!(parse_corner(b"1/1/1/7", 1, 1), Ok(c(0, 0)));
    assert_eq!(parse_corner(b"3/1/1", 2, 1), Err(MeshError::IndexOutOfRange));
    assert_eq!(parse_corner(b"0/1/1", 2, 1), Err(MeshError::IndexOutOfRange));
    assert_eq!(parse_corner(b"1/1/2", 2, 1), Err(MeshError::IndexOutOfRange));
    assert_eq!(parse_corner(b"1/1", 2, 1), Err(MeshError::UnsupportedFace));
    assert_eq!(parse_corner(b"1//1", 2, 1), Err(MeshError::BadNumber));
    assert_eq!(parse_corner(b"1/x/1", 2, 1), Err(MeshError::BadNumber));
}

#[test]
fn quads_split_into_two_triangles() {
    assert_eq!(triangulate(&vec![c(0, 0), c(1, 1), c(2, 2)]), vec![[c(0, 0), c(1, 1), c(2, 2)]]);
    assert_eq!(
        triangulate(&vec![c(0, 0), c(1, 1), c(2, 2), c(3, 3)]),
        vec![[c(2, 2), c(3, 3), c(0, 0)], [c(0, 0), c(1, 1), c(2, 2)]]
    );
    assert!(triangulate(&vec![c(0, 0), c(1, 1)]).is_empty());
    assert!(triangulate(&vec![c(0, 0); 5]).is_empty());
}

#[test]
fn face_lines_give_triangles() {
    assert_eq!(parse_face(b"f 1/1/1 2/1/1 3/1/1", 3, 1), Ok(vec![[c(0, 0), c(1, 0), c(2, 0)]]));
    assert_eq!(parse_face(b"f", 3, 1), Err(MeshError::EmptyFace));
    assert_eq!(parse_face(b"f 1 2 3", 3, 1), Err(MeshError::UnsupportedFace));
}

#[test]
fn mesh_text_is_indexed() {
    let text = b"# cube corner\nv 0 0 0\nv 1 0 0\nv 1 1 0\nv 0 1 0\nvt 0 0\nvn 0 0 1\nf 1/1/1 2/1/1 3/1/1 4/1/1\n";
    let m = index_mesh(text).unwrap();
    assert_eq!(m.positions.len(), 5);
    assert_eq!(&text[m.positions[0].0..m.positions[0].1], b"v 0 0 0");
    assert_eq!(m.normals.len(), 1);
    assert_eq!(&text[m.normals[0].0..m.normals[0].1], b"vn 0 0 1");
    assert_eq!(m.triangles, vec![[c(2, 0), c(3, 0), c(0, 0)], [c(0, 0), c(1, 0), c(2, 0)]]);
    assert!(matches!(index_mesh(b"v 0 0 0\nf 1/1/1 1/1/1 1/1/1"), Err(MeshError::IndexOutOfRange)));
    let empty = index_mesh(b"").unwrap();
    assert!(empty.positions.is_empty() && empty.normals.is_empty() && empty.triangles.is_empty());
}
