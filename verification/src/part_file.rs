//! The `.idaphsprt` part file: the magic bytes `IDAPHS01` followed by the UTF-8
//! JSON text of the compressed solid.
use vstd::prelude::*;
use vstd::utf8::{decode_utf8, encode_utf8, valid_utf8};

use truck_modeling::{Curve, Point3, Solid, Surface};

verus! {

broadcast use {vstd::utf8::encode_utf8_decode_utf8, vstd::utf8::encode_utf8_valid_utf8};

/// The serializable form of a part's solid.
pub type CompressedPart = truck_topology::compress::CompressedSolid<Point3, Curve, Surface>;

/// The number of magic bytes at the head of a part file.
pub const PART_MAGIC_LEN: usize = 8;

/// The magic bytes `IDAPHS01` that open every part file.
pub open spec fn part_magic() -> Seq<u8> {
    seq![0x49u8, 0x44u8, 0x41u8, 0x50u8, 0x48u8, 0x53u8, 0x30u8, 0x31u8]
}

/// The bytes of a part file whose JSON text is `text`.
pub open spec fn part_file_bytes(text: Seq<char>) -> Seq<u8> {
    part_magic() + encode_utf8(text)
}

/// What kind of problem a part file had.
#[derive(Clone, Copy, Debug, PartialEq, Eq, Structural)]
pub enum PartFileErrorKind {
    UnexpectedEof,
    InvalidMagic,
    InvalidUtf8,
    Serialization,
    Deserialization,
    IndexOutOfRange,
    Extraction,
}

/// Why a part could not be written or read.
#[derive(Debug)]
pub enum PartFileError {
    /// The file is shorter than the magic bytes.
    UnexpectedEof,
    /// The file does not start with `IDAPHS01`.
    InvalidMagic,
    /// The text after the magic bytes is not UTF-8.
    InvalidUtf8,
    /// The JSON library could not write the compressed solid.
    Serialization(serde_json::Error),
    /// The text is not the JSON of a compressed solid.
    Deserialization(serde_json::Error),
    /// An edge or face refers to a vertex or edge that its shell does not have.
    IndexOutOfRange,
    /// The topology kernel rejected the compressed solid.
    Extraction(truck_topology::errors::Error),
}

impl PartFileError {
    /// The kind of this error.
    pub open spec fn kind(self) -> PartFileErrorKind {
        match self {
            PartFileError::UnexpectedEof => PartFileErrorKind::UnexpectedEof,
            PartFileError::InvalidMagic => PartFileErrorKind::InvalidMagic,
            PartFileError::InvalidUtf8 => PartFileErrorKind::InvalidUtf8,
            PartFileError::Serialization(_) => PartFileErrorKind::Serialization,
            PartFileError::Deserialization(_) => PartFileErrorKind::Deserialization,
            PartFileError::IndexOutOfRange => PartFileErrorKind::IndexOutOfRange,
            PartFileError::Extraction(_) => PartFileErrorKind::Extraction,
        }
    }

    /// The kind of this error.
    pub fn error_kind(&self) -> (k: PartFileErrorKind)
        ensures
            k == self.kind(),
    {
        match self {
            PartFileError::UnexpectedEof => PartFileErrorKind::UnexpectedEof,
            PartFileError::InvalidMagic => PartFileErrorKind::InvalidMagic,
            PartFileError::InvalidUtf8 => PartFileErrorKind::InvalidUtf8,
            PartFileError::Serialization(_) => PartFileErrorKind::Serialization,
            PartFileError::Deserialization(_) => PartFileErrorKind::Deserialization,
            PartFileError::IndexOutOfRange => PartFileErrorKind::IndexOutOfRange,
            PartFileError::Extraction(_) => PartFileErrorKind::Extraction,
        }
    }
}

/// The JSON text of a part file, or the framing problem that prevents reading it.
pub open spec fn part_file_text(bytes: Seq<u8>) -> Result<Seq<char>, PartFileErrorKind> {
    if bytes.len() < PART_MAGIC_LEN {
        Err(PartFileErrorKind::UnexpectedEof)
    } else if bytes.take(PART_MAGIC_LEN as int) != part_magic() {
        Err(PartFileErrorKind::InvalidMagic)
    } else if !valid_utf8(bytes.skip(PART_MAGIC_LEN as int)) {
        Err(PartFileErrorKind::InvalidUtf8)
    } else {
        Ok(decode_utf8(bytes.skip(PART_MAGIC_LEN as int)))
    }
}

/// The JSON text that `serde_json::to_string` writes for a compressed solid.
pub uninterp spec fn compressed_solid_json(c: CompressedPart) -> Seq<char>;

/// The compressed solid that `serde_json::from_str` reads from a text; `None` where it reports an error.
pub uninterp spec fn compressed_solid_from_json(text: Seq<char>) -> Option<CompressedPart>;

/// The compressed solid held by a part file, or the problem that prevents reading it.
pub open spec fn part_file_contents(bytes: Seq<u8>) -> Result<CompressedPart, PartFileErrorKind> {
    match part_file_text(bytes) {
        Err(k) => Err(k),
        Ok(text) => match compressed_solid_from_json(text) {
            Some(c) => Ok(c),
            None => Err(PartFileErrorKind::Deserialization),
        },
    }
}

/// Writes the compressed solid as JSON text with `serde_json::to_string`.
/// Claims that this always succeeds (the derived `Serialize` impls of the compressed
/// solid and of its geometry report no error and write no map keys, and numbers that
/// are not finite are written as `null`), that the text is the one named by
/// `compressed_solid_json`, and that whatever `serde_json::from_str` reads back from
/// that text has the same index tables: indices are written as decimal integers and
/// every list keeps its length.
#[verifier::external_body]
fn compressed_solid_to_json(c: &CompressedPart) -> (r: Result<String, serde_json::Error>)
    ensures
        match r {
            Ok(s) => s@ == compressed_solid_json(*c) && (compressed_solid_from_json(s@) matches Some(d)
                ==> compressed_solid_indices(d) == compressed_solid_indices(*c)),
            Err(_) => false,
        },
{
    serde_json::to_string(c)
}

/// Reads a compressed solid from JSON text with `serde_json::from_str`.
/// Claims that the result is the one named by `compressed_solid_from_json`.
#[verifier::external_body]
fn compressed_solid_from_json_text(text: &str) -> (r: Result<CompressedPart, serde_json::Error>)
    ensures
        match compressed_solid_from_json(text@) {
            Some(c) => r == Ok::<CompressedPart, serde_json::Error>(c),
            None => r is Err,
        },
{
    serde_json::from_str(text)
}

/// Checks and reinterprets bytes as UTF-8 text with `std::str::from_utf8`, which
/// by its documentation succeeds exactly on valid UTF-8 and keeps the bytes.
#[verifier::external_body]
fn utf8_text(bytes: &[u8]) -> (r: Option<&str>)
    ensures
        r is Some <==> valid_utf8(bytes@),
        r matches Some(s) ==> encode_utf8(s@) == bytes@,
{
    std::str::from_utf8(bytes).ok()
}

/// The magic bytes that open every part file.
pub fn part_magic_bytes() -> (m: Vec<u8>)
    ensures
        m@ == part_magic(),
{
    let m: Vec<u8> = vec![0x49u8, 0x44u8, 0x41u8, 0x50u8, 0x48u8, 0x53u8, 0x30u8, 0x31u8];
    assert(m@ =~= part_magic());
    m
}

/// Frames JSON text as the bytes of a part file.
pub fn frame_part_text(text: &str) -> (bytes: Vec<u8>)
    ensures
        bytes@ == part_file_bytes(text@),
{
    let mut bytes = part_magic_bytes();
    let body = text.as_bytes();
    let mut i: usize = 0;
    while i < body.len()
        invariant
            body@ == encode_utf8(text@),
            i <= body@.len(),
            bytes@ == part_magic() + body@.take(i as int),
        decreases body@.len() - i,
    {
        bytes.push(body[i]);
        proof {
            assert(body@.take(i as int + 1) =~= body@.take(i as int).push(body@[i as int]));
        }
        i = i + 1;
    }
    assert(body@.take(body@.len() as int) =~= body@);
    bytes
}

/// Checks the framing of a part file and returns its JSON text.
pub fn part_text(bytes: &[u8]) -> (r: Result<&str, PartFileError>)
    ensures
        match part_file_text(bytes@) {
            Ok(text) => r matches Ok(s) && s@ == text,
            Err(k) => r matches Err(e) && e.kind() == k,
        },
{
    if bytes.len() < PART_MAGIC_LEN {
        return Err(PartFileError::UnexpectedEof);
    }
    let (head, rest) = bytes.split_at(PART_MAGIC_LEN);
    let magic = part_magic_bytes();
    let mut i: usize = 0;
    while i < PART_MAGIC_LEN
        invariant
            bytes@.len() >= PART_MAGIC_LEN,
            head@ == bytes@.take(PART_MAGIC_LEN as int),
            head@.len() == PART_MAGIC_LEN,
            magic@ == part_magic(),
            i <= PART_MAGIC_LEN,
            forall|j: int| 0 <= j < i ==> head@[j] == magic@[j],
        decreases PART_MAGIC_LEN - i,
    {
        if head[i] != magic[i] {
            assert(bytes@.take(PART_MAGIC_LEN as int)[i as int] != part_magic()[i as int]);
            return Err(PartFileError::InvalidMagic);
        }
        i = i + 1;
    }
    assert(head@ =~= part_magic());
    assert(rest@ =~= bytes@.skip(PART_MAGIC_LEN as int));
    match utf8_text(rest) {
        Some(s) => {
            proof {
                assert(decode_utf8(encode_utf8(s@)) == s@);
            }
            Ok(s)
        },
        None => Err(PartFileError::InvalidUtf8),
    }
}

/// Reading back the bytes written for a JSON text gives that text again.
pub proof fn lemma_part_file_text_round_trip(text: Seq<char>)
    ensures
        part_file_text(part_file_bytes(text)) == Ok::<Seq<char>, PartFileErrorKind>(text),
{
    let bytes = part_file_bytes(text);
    assert(bytes.take(PART_MAGIC_LEN as int) =~= part_magic());
    assert(bytes.skip(PART_MAGIC_LEN as int) =~= encode_utf8(text));
}


/// The framing check accepts exactly the framed texts: bytes that read as a text
/// are the bytes written for that text.
pub proof fn lemma_part_file_text_only_framed(bytes: Seq<u8>)
    requires
        part_file_text(bytes) is Ok,
    ensures
        part_file_bytes(part_file_text(bytes)->Ok_0) == bytes,
{
    let body = bytes.skip(PART_MAGIC_LEN as int);
    vstd::utf8::decode_utf8_encode_utf8(body);
    assert(bytes =~= bytes.take(PART_MAGIC_LEN as int) + body);
}

/// The vertex and edge indices held by one shell of a compressed solid.
pub struct ShellIndices {
    /// How many vertices the shell lists.
    pub vertex_count: usize,
    /// For each edge, the indices of its two end vertices.
    pub edge_ends: Vec<(usize, usize)>,
    /// For each face, for each boundary wire, the indices of the wire's edges.
    pub face_wires: Vec<Vec<Vec<usize>>>,
}

/// The index tables of the shells of a compressed solid, shell by shell.
pub uninterp spec fn compressed_solid_indices(c: CompressedPart) -> Seq<ShellIndices>;

/// Whether `Solid::extract` accepts a compressed solid (all its indices being in range).
pub uninterp spec fn compressed_solid_extracts(c: CompressedPart) -> bool;

/// Every edge of the shell ends at vertices of the shell, and every face wire
/// consists of edges of the shell.
pub open spec fn shell_indices_in_range(t: ShellIndices) -> bool {
    &&& forall|i: int|
        0 <= i < t.edge_ends@.len() ==> (#[trigger] t.edge_ends@[i]).0 < t.vertex_count
            && t.edge_ends@[i].1 < t.vertex_count
    &&& forall|f: int, w: int, k: int|
        0 <= f < t.face_wires@.len() && 0 <= w < t.face_wires@[f]@.len() && 0 <= k
            < t.face_wires@[f]@[w]@.len() ==> #[trigger] t.face_wires@[f]@[w]@[k]
            < t.edge_ends@.len()
}

/// Every shell of the solid has its indices in range.
pub open spec fn solid_indices_in_range(shells: Seq<ShellIndices>) -> bool {
    forall|i: int| 0 <= i < shells.len() ==> shell_indices_in_range(#[trigger] shells[i])
}

/// The index tables that `Solid::compress` gives a solid. They follow from which
/// shells, faces, wires, edges and vertices the solid holds and which of them it
/// shares, which cannot be changed through shared references (only the geometry
/// behind them can).
pub uninterp spec fn solid_topology(s: Solid) -> Seq<ShellIndices>;

/// The number of edges in each wire of each face of each shell.
pub open spec fn part_shape(shells: Seq<ShellIndices>) -> Seq<Seq<Seq<nat>>> {
    Seq::new(
        shells.len(),
        |i: int|
            Seq::new(
                shells[i].face_wires@.len(),
                |f: int|
                    Seq::new(
                        shells[i].face_wires@[f]@.len(),
                        |w: int| shells[i].face_wires@[f]@[w]@.len(),
                    ),
            ),
    )
}

/// Whether `(f, w, k)` is the place of an edge in the shell: the `k`-th edge of the
/// `w`-th wire of the `f`-th face.
pub open spec fn is_slot(t: ShellIndices, f: int, w: int, k: int) -> bool {
    0 <= f < t.face_wires@.len() && 0 <= w < t.face_wires@[f]@.len() && 0 <= k
        < t.face_wires@[f]@[w]@.len()
}

/// The index of the edge in a slot of the shell.
pub open spec fn slot_edge(t: ShellIndices, f: int, w: int, k: int) -> int {
    t.face_wires@[f]@[w]@[k] as int
}

/// The index of the front (or, with `back`, the back) vertex of the edge in a slot.
pub open spec fn slot_end(t: ShellIndices, f: int, w: int, k: int, back: bool) -> int {
    let ends = t.edge_ends@[slot_edge(t, f, w, k)];
    if back {
        ends.1 as int
    } else {
        ends.0 as int
    }
}

/// Two shells share edges and vertices alike among the slots of `a`: two slots hold
/// the same edge in `a` exactly when they do in `b`, and the same holds of the end
/// vertices of the edges in two slots.
pub open spec fn shells_share_alike(a: ShellIndices, b: ShellIndices) -> bool {
    forall|f1: int, w1: int, k1: int, f2: int, w2: int, k2: int|
        #![trigger slot_edge(a, f1, w1, k1), slot_edge(a, f2, w2, k2)]
        is_slot(a, f1, w1, k1) && is_slot(a, f2, w2, k2) ==> {
            &&& (slot_edge(a, f1, w1, k1) == slot_edge(a, f2, w2, k2)) == (slot_edge(
                b,
                f1,
                w1,
                k1,
            ) == slot_edge(b, f2, w2, k2))
            &&& forall|e1: bool, e2: bool|
                #![trigger slot_end(a, f1, w1, k1, e1), slot_end(a, f2, w2, k2, e2)]
                (slot_end(a, f1, w1, k1, e1) == slot_end(a, f2, w2, k2, e2)) == (slot_end(
                    b,
                    f1,
                    w1,
                    k1,
                    e1,
                ) == slot_end(b, f2, w2, k2, e2))
        }
}

/// Two index tables describe the same structure, up to how vertices and edges are
/// numbered: the same shells, faces and wires, as many edges in each wire, and edges
/// and vertices shared alike among the wire slots.
pub open spec fn same_structure(a: Seq<ShellIndices>, b: Seq<ShellIndices>) -> bool {
    &&& part_shape(a) == part_shape(b)
    &&& forall|i: int| 0 <= i < a.len() ==> shells_share_alike(#[trigger] a[i], b[i])
}

/// Copies the index structure out of a compressed solid: for each shell the number
/// of vertices, the end vertices of each edge, and the edge indices of each face wire.
/// Claims only that the copy is the one named by `compressed_solid_indices`.
#[verifier::external_body]
fn compressed_solid_index_table(c: &CompressedPart) -> (t: Vec<ShellIndices>)
    ensures
        t@ == compressed_solid_indices(*c),
{
    c.boundaries.iter().map(|shell| ShellIndices {
        vertex_count: shell.vertices.len(),
        edge_ends: shell.edges.iter().map(|edge| edge.vertices).collect(),
        face_wires: shell.faces.iter().map(|face| {
            face.boundaries.iter().map(|wire| wire.iter().map(|e| e.index).collect()).collect()
        }).collect(),
    }).collect()
}

/// Compresses a solid with `Solid::compress`. Claims that the index tables of the
/// result are the ones named by `solid_topology`, and that they are in range: each
/// vertex and edge index is handed out by counting the vertices and edges met so far,
/// and all of them are listed. Nothing is claimed of the geometry.
#[verifier::external_body]
fn compress_solid(solid: &Solid) -> (c: CompressedPart)
    ensures
        compressed_solid_indices(c) == solid_topology(*solid),
        solid_indices_in_range(compressed_solid_indices(c)),
{
    solid.compress()
}

/// Rebuilds a solid with `Solid::extract`, which indexes the shell's vertices and
/// edges without a check and so is only called when every index is in range.
/// Claims that it succeeds exactly where `compressed_solid_extracts` holds, and that
/// the solid it builds has the structure of `c`: it makes one new vertex for each
/// listed vertex and one new edge for each listed edge, keeps the shells, the faces
/// and their wires in order, and puts in each wire slot the edge that the slot names,
/// so that compressing it gives index tables that differ from those of `c` only in
/// how vertices and edges are numbered. Nothing is claimed of its geometry.
#[verifier::external_body]
fn extract_solid(c: CompressedPart) -> (r: Result<Solid, truck_topology::errors::Error>)
    requires
        solid_indices_in_range(compressed_solid_indices(c)),
    ensures
        r is Ok <==> compressed_solid_extracts(c),
        r matches Ok(s) ==> same_structure(solid_topology(s), compressed_solid_indices(c)),
{
    Solid::extract(c)
}

fn wire_in_range(wire: &Vec<usize>, edge_count: usize) -> (ok: bool)
    ensures
        ok <==> forall|k: int| 0 <= k < wire@.len() ==> #[trigger] wire@[k] < edge_count,
{
    let mut k: usize = 0;
    while k < wire.len()
        invariant
            k <= wire@.len(),
            forall|j: int| 0 <= j < k ==> #[trigger] wire@[j] < edge_count,
        decreases wire@.len() - k,
    {
        if wire[k] >= edge_count {
            return false;
        }
        k = k + 1;
    }
    true
}

fn face_in_range(face: &Vec<Vec<usize>>, edge_count: usize) -> (ok: bool)
    ensures
        ok <==> forall|w: int, k: int|
            0 <= w < face@.len() && 0 <= k < face@[w]@.len() ==> #[trigger] face@[w]@[k]
                < edge_count,
{
    let mut w: usize = 0;
    while w < face.len()
        invariant
            w <= face@.len(),
            forall|v: int, k: int|
                0 <= v < w && 0 <= k < face@[v]@.len() ==> #[trigger] face@[v]@[k] < edge_count,
        decreases face@.len() - w,
    {
        if !wire_in_range(&face[w], edge_count) {
            return false;
        }
        w = w + 1;
    }
    true
}

/// Checks that a shell's edges and faces refer only to its own vertices and edges.
pub fn shell_in_range(t: &ShellIndices) -> (ok: bool)
    ensures
        ok == shell_indices_in_range(*t),
{
    let mut i: usize = 0;
    while i < t.edge_ends.len()
        invariant
            i <= t.edge_ends@.len(),
            forall|j: int|
                0 <= j < i ==> (#[trigger] t.edge_ends@[j]).0 < t.vertex_count
                    && t.edge_ends@[j].1 < t.vertex_count,
        decreases t.edge_ends@.len() - i,
    {
        let (front, back) = t.edge_ends[i];
        if front >= t.vertex_count || back >= t.vertex_count {
            return false;
        }
        i = i + 1;
    }
    let edge_count = t.edge_ends.len();
    let mut f: usize = 0;
    while f < t.face_wires.len()
        invariant
            edge_count == t.edge_ends@.len(),
            f <= t.face_wires@.len(),
            forall|g: int, w: int, k: int|
                0 <= g < f && 0 <= w < t.face_wires@[g]@.len() && 0 <= k
                    < t.face_wires@[g]@[w]@.len() ==> #[trigger] t.face_wires@[g]@[w]@[k]
                    < edge_count,
        decreases t.face_wires@.len() - f,
    {
        if !face_in_range(&t.face_wires[f], edge_count) {
            return false;
        }
        f = f + 1;
    }
    true
}

/// Checks every shell of a compressed solid's index table.
pub fn solid_in_range(shells: &Vec<ShellIndices>) -> (ok: bool)
    ensures
        ok == solid_indices_in_range(shells@),
{
    let mut i: usize = 0;
    while i < shells.len()
        invariant
            i <= shells@.len(),
            forall|j: int| 0 <= j < i ==> shell_indices_in_range(#[trigger] shells@[j]),
        decreases shells@.len() - i,
    {
        if !shell_in_range(&shells[i]) {
            return false;
        }
        i = i + 1;
    }
    true
}


/// What reading a part file into a solid runs into first; `None` where it succeeds.
pub open spec fn part_solid_problem(bytes: Seq<u8>) -> Option<PartFileErrorKind> {
    match part_file_contents(bytes) {
        Err(k) => Some(k),
        Ok(c) => if !solid_indices_in_range(compressed_solid_indices(c)) {
            Some(PartFileErrorKind::IndexOutOfRange)
        } else if !compressed_solid_extracts(c) {
            Some(PartFileErrorKind::Extraction)
        } else {
            None
        },
    }
}

/// The part file written for a compressed solid: the magic bytes and the JSON text of
/// `c`, from which the JSON library reads back, if anything, a compressed solid with
/// the index tables of `c`.
pub open spec fn part_written_from(c: CompressedPart, bytes: Seq<u8>) -> bool {
    &&& bytes == part_file_bytes(compressed_solid_json(c))
    &&& compressed_solid_from_json(compressed_solid_json(c)) matches Some(d)
        ==> compressed_solid_indices(d) == compressed_solid_indices(c)
}

/// A format in which a part's solid is stored as bytes.
pub trait CadSerializer {
    /// The human-readable name of the format.
    spec fn format_name(&self) -> Seq<char>;

    /// The file name extension of the format, without the dot.
    spec fn extension_name(&self) -> Seq<char>;

    /// What keeps the format from writing `solid`; `None` where it writes it.
    spec fn write_problem(&self, solid: Solid) -> Option<PartFileErrorKind>;

    /// Whether `bytes` are what the format writes for `solid`.
    spec fn writes(&self, solid: Solid, bytes: Seq<u8>) -> bool;

    /// What keeps the format from reading a solid from `bytes`; `None` where it reads one.
    spec fn read_problem(&self, bytes: Seq<u8>) -> Option<PartFileErrorKind>;

    /// Whether `solid` is what the format reads from `bytes`.
    spec fn reads(&self, bytes: Seq<u8>, solid: Solid) -> bool;

    fn file_type(&self) -> (name: &'static str)
        ensures
            name@ == self.format_name(),
    ;

    fn extension(&self) -> (ext: &'static str)
        ensures
            ext@ == self.extension_name(),
    ;

    /// Writes a solid in this format.
    fn serialize(&self, solid: &Solid) -> (r: Result<Vec<u8>, PartFileError>)
        ensures
            match self.write_problem(*solid) {
                Some(k) => r matches Err(e) && e.kind() == k,
                None => r matches Ok(bytes) && self.writes(*solid, bytes@),
            },
    ;

    /// Reads a solid stored in this format.
    fn deserialize(&self, bytes: &[u8]) -> (r: Result<Solid, PartFileError>)
        ensures
            match self.read_problem(bytes@) {
                Some(k) => r matches Err(e) && e.kind() == k,
                None => r matches Ok(solid) && self.reads(bytes@, solid),
            },
    ;
}

/// The IDAPHS part file format.
#[derive(Clone, Copy, Debug)]
pub struct IdaphsPrtFormat;

impl IdaphsPrtFormat {
    /// Writes a compressed solid as a part file.
    pub fn encode_compressed(&self, c: &CompressedPart) -> (r: Result<Vec<u8>, PartFileError>)
        ensures
            r matches Ok(bytes) && part_written_from(*c, bytes@),
    {
        match compressed_solid_to_json(c) {
            Ok(text) => Ok(frame_part_text(text.as_str())),
            Err(e) => Err(PartFileError::Serialization(e)),
        }
    }

    /// Reads the compressed solid held by a part file.
    pub fn decode_compressed(&self, bytes: &[u8]) -> (r: Result<CompressedPart, PartFileError>)
        ensures
            match part_file_contents(bytes@) {
                Ok(c) => r == Ok::<CompressedPart, PartFileError>(c),
                Err(k) => r matches Err(e) && e.kind() == k,
            },
    {
        let text = match part_text(bytes) {
            Ok(text) => text,
            Err(e) => return Err(e),
        };
        match compressed_solid_from_json_text(text) {
            Ok(c) => Ok(c),
            Err(e) => Err(PartFileError::Deserialization(e)),
        }
    }

    /// Rebuilds the solid of a compressed solid read from a part file, after checking
    /// that its indices are in range. The check comes first because `Solid::extract`
    /// indexes without one: an index out of range is reported as such even where the
    /// topology kernel would have stopped at another problem in an earlier shell or edge.
    pub fn extract_checked(&self, c: CompressedPart) -> (r: Result<Solid, PartFileError>)
        ensures
            !solid_indices_in_range(compressed_solid_indices(c)) ==> (r matches Err(e) && e.kind()
                == PartFileErrorKind::IndexOutOfRange),
            solid_indices_in_range(compressed_solid_indices(c)) ==> (r is Ok
                <==> compressed_solid_extracts(c)),
            solid_indices_in_range(compressed_solid_indices(c)) ==> (r matches Err(e) ==> e.kind()
                == PartFileErrorKind::Extraction),
            r matches Ok(solid) ==> same_structure(solid_topology(solid), compressed_solid_indices(c)),
    {
        let table = compressed_solid_index_table(&c);
        if !solid_in_range(&table) {
            return Err(PartFileError::IndexOutOfRange);
        }
        match extract_solid(c) {
            Ok(solid) => Ok(solid),
            Err(e) => Err(PartFileError::Extraction(e)),
        }
    }
}

impl CadSerializer for IdaphsPrtFormat {
    open spec fn format_name(&self) -> Seq<char> {
        "IDAPHS Part File"@
    }

    open spec fn extension_name(&self) -> Seq<char> {
        "idaphsprt"@
    }

    /// Every solid can be written.
    open spec fn write_problem(&self, solid: Solid) -> Option<PartFileErrorKind> {
        None
    }

    /// The part file written for a compressed solid that has the index tables of
    /// `solid`, which are in range.
    open spec fn writes(&self, solid: Solid, bytes: Seq<u8>) -> bool {
        &&& solid_indices_in_range(solid_topology(solid))
        &&& exists|c: CompressedPart|
            #[trigger] part_written_from(c, bytes) && compressed_solid_indices(c) == solid_topology(
                solid,
            )
    }

    open spec fn read_problem(&self, bytes: Seq<u8>) -> Option<PartFileErrorKind> {
        part_solid_problem(bytes)
    }

    /// A solid with the structure of the compressed solid that the file holds.
    open spec fn reads(&self, bytes: Seq<u8>, solid: Solid) -> bool {
        part_file_contents(bytes) matches Ok(c) && same_structure(
            solid_topology(solid),
            compressed_solid_indices(c),
        )
    }

    fn file_type(&self) -> (name: &'static str) {
        "IDAPHS Part File"
    }

    fn extension(&self) -> (ext: &'static str) {
        "idaphsprt"
    }

    fn serialize(&self, solid: &Solid) -> (r: Result<Vec<u8>, PartFileError>) {
        let c = compress_solid(solid);
        self.encode_compressed(&c)
    }

    fn deserialize(&self, bytes: &[u8]) -> (r: Result<Solid, PartFileError>) {
        match self.decode_compressed(bytes) {
            Ok(c) => self.extract_checked(c),
            Err(e) => Err(e),
        }
    }
}

/// Loads and saves parts in a given format.
pub struct CadFileManager;

impl CadFileManager {
    /// Reads the solid of a part from the bytes of its file.
    pub fn load_part<S: CadSerializer>(bytes: &[u8], serializer: &S) -> (r: Result<Solid, PartFileError>)
        ensures
            match serializer.read_problem(bytes@) {
                Some(k) => r matches Err(e) && e.kind() == k,
                None => r matches Ok(solid) && serializer.reads(bytes@, solid),
            },
    {
        serializer.deserialize(bytes)
    }

    /// Writes the solid of a part as the bytes of its file.
    pub fn save_part<S: CadSerializer>(solid: &Solid, serializer: &S) -> (r: Result<Vec<u8>, PartFileError>)
        ensures
            match serializer.write_problem(*solid) {
                Some(k) => r matches Err(e) && e.kind() == k,
                None => r matches Ok(bytes) && serializer.writes(*solid, bytes@),
            },
    {
        serializer.serialize(solid)
    }
}

/// Reading back the part file written for a compressed solid gives the compressed
/// solid that the JSON library reads from the written text.
pub proof fn lemma_saved_part_reads_back(c: CompressedPart)
    ensures
        part_file_contents(part_file_bytes(compressed_solid_json(c))) == match compressed_solid_from_json(
            compressed_solid_json(c),
        ) {
            Some(d) => Ok::<CompressedPart, PartFileErrorKind>(d),
            None => Err(PartFileErrorKind::Deserialization),
        },
{
    lemma_part_file_text_round_trip(compressed_solid_json(c));
}

/// Reading a saved part can only stop where the JSON library cannot read the text back
/// or where the topology kernel rejects the solid: the framing is sound and every
/// index is in range.
pub proof fn lemma_saved_part_fails_only_late(solid: Solid, bytes: Seq<u8>)
    requires
        IdaphsPrtFormat.writes(solid, bytes),
    ensures
        part_file_text(bytes) is Ok,
        IdaphsPrtFormat.read_problem(bytes) is None || IdaphsPrtFormat.read_problem(bytes) == Some(
            PartFileErrorKind::Deserialization,
        ) || IdaphsPrtFormat.read_problem(bytes) == Some(PartFileErrorKind::Extraction),
{
    let c = choose|c: CompressedPart|
        #[trigger] part_written_from(c, bytes) && compressed_solid_indices(c) == solid_topology(
            solid,
        );
    lemma_saved_part_reads_back(c);
}

/// Saving a solid and loading the saved bytes gives a solid of the same structure:
/// the same shells, faces and wires, as many edges in each wire, and edges and
/// vertices shared alike among the wire slots.
pub proof fn lemma_saved_part_loads_same_structure(solid: Solid, bytes: Seq<u8>, loaded: Solid)
    requires
        IdaphsPrtFormat.writes(solid, bytes),
        IdaphsPrtFormat.reads(bytes, loaded),
    ensures
        same_structure(solid_topology(loaded), solid_topology(solid)),
{
    let c = choose|c: CompressedPart|
        #[trigger] part_written_from(c, bytes) && compressed_solid_indices(c) == solid_topology(
            solid,
        );
    lemma_saved_part_reads_back(c);
}

} // verus!
