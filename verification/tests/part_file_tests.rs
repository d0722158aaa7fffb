use idaphs_cad::part_file::{
    frame_part_text, part_magic_bytes, part_text, shell_in_range, solid_in_range, CadFileManager,
    CadSerializer, IdaphsPrtFormat, PartFileErrorKind, ShellIndices,
};
use truck_modeling::{builder, Point3, Solid, Vector3};

fn cube() -> Solid {
    let vertex = builder::vertex(Point3::new(-1.0, 0.0, -1.0));
    let edge = builder::tsweep(&vertex, 2.0 * Vector3::unit_z());
    let face = builder::tsweep(&edge, 2.0 * Vector3::unit_x());
    builder::tsweep(&face, 2.0 * Vector3::unit_y())
}

fn kind_of<T>(r: Result<T, idaphs_cad::part_file::PartFileError>) -> PartFileErrorKind {
    match r {
        Ok(_) => panic!("expected an error"),
        Err(e) => e.error_kind(),
    }
}

#[test]
fn format_names() {
    assert_eq!(IdaphsPrtFormat.file_type(), "IDAPHS Part File");
    assert_eq!(IdaphsPrtFormat.extension(), "idaphsprt");
}

#[test]
fn magic_is_idaphs01() {
    assert_eq!(part_magic_bytes(), b"IDAPHS01".to_vec());
}

#[test]
fn framing_prepends_magic() {
    let bytes = frame_part_text("{\"a\":1}");
    assert_eq!(bytes, b"IDAPHS01{\"a\":1}".to_vec());
    let unicode = frame_part_text("é");
    assert_eq!(unicode, vec![0x49, 0x44, 0x41, 0x50, 0x48, 0x53, 0x30, 0x31, 0xc3, 0xa9]);
}

#[test]
fn framing_round_trip() {
    for text in ["", "{}", "日本語 text", "IDAPHS01"] {
        let bytes = frame_part_text(text);
        assert_eq!(part_text(&bytes).ok(), Some(text));
    }
}

#[test]
fn short_file_is_unexpected_eof() {
    assert_eq!(kind_of(part_text(b"IDAPHS0")), PartFileErrorKind::UnexpectedEof);
    assert_eq!(kind_of(part_text(b"")), PartFileErrorKind::UnexpectedEof);
    assert_eq!(kind_of(IdaphsPrtFormat.deserialize(b"IDA")), PartFileErrorKind::UnexpectedEof);
}

#[test]
fn wrong_magic_is_rejected() {
    assert_eq!(kind_of(part_text(b"IDAPHS02{}")), PartFileErrorKind::InvalidMagic);
    assert_eq!(kind_of(part_text(b"idaphs01{}")), PartFileErrorKind::InvalidMagic);
    assert_eq!(kind_of(IdaphsPrtFormat.deserialize(b"XDAPHS01{}")), PartFileErrorKind::InvalidMagic);
}

#[test]
fn invalid_utf8_is_rejected() {
    let mut bytes = b"IDAPHS01".to_vec();
    bytes.extend_from_slice(&[0xff, 0xfe]);
    assert_eq!(kind_of(part_text(&bytes)), PartFileErrorKind::InvalidUtf8);
    assert_eq!(kind_of(IdaphsPrtFormat.deserialize(&bytes)), PartFileErrorKind::InvalidUtf8);
}

#[test]
fn bad_json_is_a_deserialization_error() {
    assert_eq!(kind_of(IdaphsPrtFormat.deserialize(b"IDAPHS01not json")), PartFileErrorKind::Deserialization);
    assert_eq!(kind_of(IdaphsPrtFormat.deserialize(b"IDAPHS01")), PartFileErrorKind::Deserialization);
}

#[test]
fn empty_solid_round_trip() {
    let solid = Solid::new(vec![]);
    let bytes = IdaphsPrtFormat.serialize(&solid).unwrap();
    assert_eq!(bytes, b"IDAPHS01{\"boundaries\":[]}".to_vec());
    let back = IdaphsPrtFormat.deserialize(&bytes).unwrap();
    assert_eq!(back.boundaries().len(), 0);
}

#[test]
fn cube_round_trip() {
    let solid = cube();
    let bytes = CadFileManager::save_part(&solid, &IdaphsPrtFormat).unwrap();
    assert_eq!(&bytes[..8], b"IDAPHS01");
    let back = CadFileManager::load_part(&bytes, &IdaphsPrtFormat).unwrap();
    assert_eq!(back.boundaries().len(), 1);
    assert_eq!(back.face_iter().count(), 6);
    assert_eq!(back.edge_iter().count(), solid.edge_iter().count());
    let again = IdaphsPrtFormat.serialize(&back).unwrap();
    assert_eq!(again, bytes);
}

#[test]
fn out_of_range_edge_end_is_reported() {
    let bytes = IdaphsPrtFormat.serialize(&cube()).unwrap();
    let mut json: serde_json::Value = serde_json::from_slice(&bytes[8..]).unwrap();
    json["boundaries"][0]["edges"][0]["vertices"][1] = serde_json::Value::from(999);
    let bytes = frame_part_text(&json.to_string());
    assert_eq!(kind_of(IdaphsPrtFormat.deserialize(&bytes)), PartFileErrorKind::IndexOutOfRange);
}

#[test]
fn out_of_range_face_edge_is_reported() {
    let bytes = IdaphsPrtFormat.serialize(&cube()).unwrap();
    let mut json: serde_json::Value = serde_json::from_slice(&bytes[8..]).unwrap();
    json["boundaries"][0]["faces"][2]["boundaries"][0][0]["index"] = serde_json::Value::from(12);
    let bytes = frame_part_text(&json.to_string());
    assert_eq!(kind_of(IdaphsPrtFormat.deserialize(&bytes)), PartFileErrorKind::IndexOutOfRange);
}

#[test]
fn empty_shell_is_an_extraction_error() {
    let bytes = b"IDAPHS01{\"boundaries\":[{\"vertices\":[],\"edges\":[],\"faces\":[]}]}";
    assert_eq!(kind_of(IdaphsPrtFormat.deserialize(bytes)), PartFileErrorKind::Extraction);
}

#[test]
fn open_shell_is_an_extraction_error() {
    let bytes = IdaphsPrtFormat.serialize(&cube()).unwrap();
    let mut json: serde_json::Value = serde_json::from_slice(&bytes[8..]).unwrap();
    json["boundaries"][0]["faces"].as_array_mut().unwrap().pop();
    let bytes = frame_part_text(&json.to_string());
    assert_eq!(kind_of(IdaphsPrtFormat.deserialize(&bytes)), PartFileErrorKind::Extraction);
}

#[test]
fn index_checks() {
    let good = ShellIndices { vertex_count: 2, edge_ends: vec![(0, 1)], face_wires: vec![vec![vec![0, 0]]] };
    assert!(shell_in_range(&good));
    let bad_vertex = ShellIndices { vertex_count: 2, edge_ends: vec![(0, 2)], face_wires: vec![] };
    assert!(!shell_in_range(&bad_vertex));
    let bad_edge = ShellIndices { vertex_count: 2, edge_ends: vec![(0, 1)], face_wires: vec![vec![vec![1]]] };
    assert!(!shell_in_range(&bad_edge));
    assert!(solid_in_range(&vec![]));
    assert!(!solid_in_range(&vec![good, bad_edge]));
}

#[test]
fn saved_cube_loads_with_same_structure() {
    let solid = cube();
    let bytes = IdaphsPrtFormat.serialize(&solid).unwrap();
    let loaded = IdaphsPrtFormat.deserialize(&bytes).unwrap();
    let before = solid.compress();
    let after = loaded.compress();
    assert_eq!(after.boundaries.len(), before.boundaries.len());
    for (a, b) in after.boundaries.iter().zip(before.boundaries.iter()) {
        assert_eq!(a.faces.len(), 6);
        assert_eq!(a.faces.len(), b.faces.len());
        assert_eq!(a.vertices.len(), 8);
        assert_eq!(a.edges.len(), 12);
        for (fa, fb) in a.faces.iter().zip(b.faces.iter()) {
            assert_eq!(fa.boundaries.len(), fb.boundaries.len());
            for (wa, wb) in fa.boundaries.iter().zip(fb.boundaries.iter()) {
                assert_eq!(wa.len(), 4);
                assert_eq!(wa, wb);
            }
        }
        let ends_a: Vec<(usize, usize)> = a.edges.iter().map(|e| e.vertices).collect();
        let ends_b: Vec<(usize, usize)> = b.edges.iter().map(|e| e.vertices).collect();
        assert_eq!(ends_a, ends_b);
    }
}
