//! The index side of Wavefront OBJ mesh text: how a line is classified, how
//! a face line splits into corners, how 1-based indices resolve, and how a
//! quad becomes two triangles. Coordinates themselves are floating-point and
//! are read by the caller from the lines this module classifies.

use vstd::prelude::*;

verus! {

#[derive(Debug, Clone, Copy, PartialEq, Eq, Structural)]
pub enum MeshError {
    /// A face corner without a normal index (`a` or `a/b`).
    UnsupportedFace,
    /// A corner part that is not a decimal number that fits in `usize`.
    BadNumber,
    /// An index of zero, or past the positions or normals read so far.
    IndexOutOfRange,
    /// A face line with no corner at all.
    EmptyFace,
}

/// What a line of mesh text holds.
#[derive(Debug, Clone, Copy, PartialEq, Eq, Structural)]
pub struct LineKind {
    /// Starts with `vn`: a normal.
    pub normal: bool,
    /// Starts with `v` and holds no `vt`: a position. A normal line is one too.
    pub position: bool,
    /// Starts with `f`: a face.
    pub face: bool,
}

/// One corner of a face: 0-based indices into the positions and normals.
#[derive(Debug, Clone, Copy, PartialEq, Eq, Structural)]
pub struct Corner {
    pub position: usize,
    pub normal: usize,
}

pub open spec fn is_ascii_ws(b: u8) -> bool {
    b == 0x20 || b == 0x09 || b == 0x0a || b == 0x0c || b == 0x0d
}

pub open spec fn is_digit(b: u8) -> bool {
    0x30 <= b <= 0x39
}

pub open spec fn has_vt(s: Seq<u8>) -> bool {
    exists|i: int| 0 <= i < s.len() - 1 && s[i] == 0x76 && #[trigger] s[i + 1] == 0x74
}

pub open spec fn line_kind(s: Seq<u8>) -> LineKind {
    LineKind {
        normal: s.len() >= 2 && s[0] == 0x76 && s[1] == 0x6e,
        position: s.len() >= 1 && s[0] == 0x76 && !has_vt(s),
        face: s.len() >= 1 && s[0] == 0x66,
    }
}

/// The tokens separated by ASCII whitespace in the first `n` bytes: those
/// complete, and the start of the one under way, if any.
pub open spec fn ws_scan(s: Seq<u8>, n: int) -> (Seq<(int, int)>, Option<int>)
    decreases n,
{
    if n <= 0 {
        (Seq::empty(), None)
    } else {
        let (done, open) = ws_scan(s, n - 1);
        if is_ascii_ws(s[n - 1]) {
            match open {
                Some(a) => (done.push((a, n - 1)), None),
                None => (done, None),
            }
        } else {
            match open {
                Some(a) => (done, Some(a)),
                None => (done, Some(n - 1)),
            }
        }
    }
}

/// The byte ranges of the whitespace-separated tokens of `s`, in order.
pub open spec fn ws_tokens(s: Seq<u8>) -> Seq<(int, int)> {
    let (done, open) = ws_scan(s, s.len() as int);
    match open {
        Some(a) => done.push((a, s.len() as int)),
        None => done,
    }
}

/// The parts of `s` between `sep` bytes in the first `n` bytes, and the
/// start of the part under way; empty parts count.
pub open spec fn sep_scan(s: Seq<u8>, sep: u8, n: int) -> (Seq<(int, int)>, int)
    decreases n,
{
    if n <= 0 {
        (Seq::empty(), 0)
    } else {
        let (done, start) = sep_scan(s, sep, n - 1);
        if s[n - 1] == sep {
            (done.push((start, n - 1)), n)
        } else {
            (done, start)
        }
    }
}

/// The byte ranges of the `sep`-separated parts of `s`, in order.
pub open spec fn sep_parts(s: Seq<u8>, sep: u8) -> Seq<(int, int)> {
    let (done, start) = sep_scan(s, sep, s.len() as int);
    done.push((start, s.len() as int))
}

/// The byte ranges of the `/`-separated parts of `s`, in order.
pub open spec fn slash_parts(s: Seq<u8>) -> Seq<(int, int)> {
    sep_parts(s, 0x2f)
}

/// The value of a run of decimal digits.
pub open spec fn decimal(s: Seq<u8>) -> int
    decreases s.len(),
{
    if s.len() == 0 {
        0
    } else {
        decimal(s.drop_last()) * 10 + (s.last() - 0x30)
    }
}

pub open spec fn is_number(s: Seq<u8>) -> bool {
    s.len() > 0 && (forall|i: int| 0 <= i < s.len() ==> is_digit(#[trigger] s[i])) && decimal(s) <= usize::MAX
}

pub open spec fn part(s: Seq<u8>, r: (int, int)) -> Seq<u8> {
    s.subrange(r.0, r.1)
}

/// Every `/`-separated part of the corner token is a number.
pub open spec fn corner_numbers_ok(s: Seq<u8>) -> bool {
    forall|k: int| 0 <= k < slash_parts(s).len() ==> is_number(#[trigger] part(s, slash_parts(s)[k]))
}

/// The corner a token names, given how many positions and normals exist.
pub open spec fn corner_of(s: Seq<u8>, positions: usize, normals: usize) -> Result<Corner, MeshError> {
    let parts = slash_parts(s);
    if !corner_numbers_ok(s) {
        Err(MeshError::BadNumber)
    } else if parts.len() < 3 {
        Err(MeshError::UnsupportedFace)
    } else {
        let p = decimal(part(s, parts[0]));
        let n = decimal(part(s, parts[2]));
        if 1 <= p <= positions && 1 <= n <= normals {
            Ok(Corner { position: (p - 1) as usize, normal: (n - 1) as usize })
        } else {
            Err(MeshError::IndexOutOfRange)
        }
    }
}

/// The triangles of a face: one for three corners, two for four (the second
/// half first), none for any other count.
pub open spec fn triangles_of(c: Seq<Corner>) -> Seq<[Corner; 3]> {
    if c.len() == 3 {
        seq![[c[0], c[1], c[2]]]
    } else if c.len() == 4 {
        seq![[c[2], c[3], c[0]], [c[0], c[1], c[2]]]
    } else {
        Seq::empty()
    }
}

fn is_ws_byte(b: u8) -> (r: bool)
    ensures
        r == is_ascii_ws(b),
{
    b == 0x20 || b == 0x09 || b == 0x0a || b == 0x0c || b == 0x0d
}

/// Classifies a line by its leading bytes.
pub fn classify_line(line: &[u8]) -> (r: LineKind)
    ensures
        r == line_kind(line@),
{
    let n = line.len();
    let mut vt = false;
    let mut i: usize = 0;
    while i < n
        invariant
            n == line@.len(),
            i <= n,
            vt <==> exists|j: int| 0 <= j < i && j + 1 < n && line@[j] == 0x76 && #[trigger] line@[j + 1] == 0x74,
        decreases n - i,
    {
        if i + 1 < n && line[i] == 0x76 && line[i + 1] == 0x74 {
            vt = true;
        }
        i += 1;
    }
    LineKind {
        normal: n >= 2 && line[0] == 0x76 && line[1] == 0x6e,
        position: n >= 1 && line[0] == 0x76 && !vt,
        face: n >= 1 && line[0] == 0x66,
    }
}

/// The byte ranges of the whitespace-separated tokens of `s`.
pub fn split_ascii_whitespace(s: &[u8]) -> (r: Vec<(usize, usize)>)
    ensures
        r@.len() == ws_tokens(s@).len(),
        forall|k: int| 0 <= k < r@.len() ==> (#[trigger] r@[k]).0 as int == ws_tokens(s@)[k].0
            && r@[k].1 as int == ws_tokens(s@)[k].1,
{
    let n = s.len();
    let mut done: Vec<(usize, usize)> = Vec::new();
    let mut open: Option<usize> = None;
    let mut i: usize = 0;
    while i < n
        invariant
            n == s@.len(),
            i <= n,
            done@.len() == ws_scan(s@, i as int).0.len(),
            forall|k: int| 0 <= k < done@.len() ==> (#[trigger] done@[k]).0 as int == ws_scan(s@, i as int).0[k].0
                && done@[k].1 as int == ws_scan(s@, i as int).0[k].1,
            match open {
                Some(a) => ws_scan(s@, i as int).1 == Some(a as int),
                None => ws_scan(s@, i as int).1 is None,
            },
        decreases n - i,
    {
        if is_ws_byte(s[i]) {
            match open {
                Some(a) => {
                    done.push((a, i));
                    open = None;
                },
                None => {},
            }
        } else {
            match open {
                Some(_) => {},
                None => {
                    open = Some(i);
                },
            }
        }
        i += 1;
    }
    match open {
        Some(a) => {
            done.push((a, n));
        },
        None => {},
    }
    done
}

/// The byte ranges of the `sep`-separated parts of `s`; empty parts count.
pub fn split_bytes(s: &[u8], sep: u8) -> (r: Vec<(usize, usize)>)
    ensures
        r@.len() == sep_parts(s@, sep).len(),
        forall|k: int| 0 <= k < r@.len() ==> (#[trigger] r@[k]).0 as int == sep_parts(s@, sep)[k].0
            && r@[k].1 as int == sep_parts(s@, sep)[k].1,
{
    let n = s.len();
    let mut done: Vec<(usize, usize)> = Vec::new();
    let mut start: usize = 0;
    let mut i: usize = 0;
    while i < n
        invariant
            n == s@.len(),
            i <= n,
            start as int == sep_scan(s@, sep, i as int).1,
            done@.len() == sep_scan(s@, sep, i as int).0.len(),
            forall|k: int| 0 <= k < done@.len() ==> (#[trigger] done@[k]).0 as int == sep_scan(s@, sep, i as int).0[k].0
                && done@[k].1 as int == sep_scan(s@, sep, i as int).0[k].1,
        decreases n - i,
    {
        if s[i] == sep {
            done.push((start, i));
            start = i + 1;
        }
        i += 1;
    }
    done.push((start, n));
    done
}

/// The corners named by tokens `1..m` of a face line (token 0 is `f`),
/// stopping at the first corner that does not resolve.
pub open spec fn corners_upto(s: Seq<u8>, toks: Seq<(int, int)>, m: int, positions: usize, normals: usize) -> Result<Seq<Corner>, MeshError>
    decreases m,
{
    if m <= 1 {
        Ok(Seq::empty())
    } else {
        match corners_upto(s, toks, m - 1, positions, normals) {
            Err(e) => Err(e),
            Ok(cs) => match corner_of(part(s, toks[m - 1]), positions, normals) {
                Ok(c) => Ok(cs.push(c)),
                Err(e) => Err(e),
            },
        }
    }
}

/// The triangles of a face line, given how many positions and normals exist.
pub open spec fn face_of(s: Seq<u8>, positions: usize, normals: usize) -> Result<Seq<[Corner; 3]>, MeshError> {
    let toks = ws_tokens(s);
    if toks.len() < 2 {
        Err(MeshError::EmptyFace)
    } else {
        match corners_upto(s, toks, toks.len() as int, positions, normals) {
            Ok(cs) => Ok(triangles_of(cs)),
            Err(e) => Err(e),
        }
    }
}

proof fn lemma_decimal_nonneg(t: Seq<u8>)
    requires
        forall|i: int| 0 <= i < t.len() ==> is_digit(#[trigger] t[i]),
    ensures
        decimal(t) >= 0,
    decreases t.len(),
{
    if t.len() > 0 {
        lemma_decimal_nonneg(t.drop_last());
    }
}

proof fn lemma_decimal_prefix(t: Seq<u8>, k: int)
    requires
        0 <= k <= t.len(),
        forall|i: int| 0 <= i < t.len() ==> is_digit(#[trigger] t[i]),
    ensures
        decimal(t.subrange(0, k)) <= decimal(t),
    decreases t.len(),
{
    if k < t.len() {
        assert(t.drop_last().subrange(0, k) =~= t.subrange(0, k));
        lemma_decimal_prefix(t.drop_last(), k);
        lemma_decimal_nonneg(t.drop_last());
    } else {
        assert(t.subrange(0, k) =~= t);
    }
}

/// The decimal number spelled by `s`: digits only, at least one, fitting `usize`.
pub fn parse_number(s: &[u8]) -> (r: Option<usize>)
    ensures
        r is Some <==> is_number(s@),
        r matches Some(v) ==> v as int == decimal(s@),
{
    let n = s.len();
    if n == 0 {
        return None;
    }
    let mut acc: usize = 0;
    let mut i: usize = 0;
    while i < n
        invariant
            n == s@.len(),
            i <= n,
            forall|k: int| 0 <= k < i ==> is_digit(#[trigger] s@[k]),
            acc as int == decimal(s@.subrange(0, i as int)),
        decreases n - i,
    {
        let b = s[i];
        if b < 0x30 || b > 0x39 {
            return None;
        }
        proof {
            assert(s@.subrange(0, i + 1).drop_last() =~= s@.subrange(0, i as int));
        }
        let d = (b - 0x30) as usize;
        let next = match acc.checked_mul(10) {
            Some(t) => t.checked_add(d),
            None => None,
        };
        match next {
            Some(v) => {
                acc = v;
            },
            None => {
                proof {
                    assert(decimal(s@.subrange(0, i + 1)) == acc * 10 + d);
                    assert(decimal(s@.subrange(0, i + 1)) > usize::MAX);
                    if forall|k: int| 0 <= k < n ==> is_digit(#[trigger] s@[k]) {
                        lemma_decimal_prefix(s@, i + 1);
                    }
                }
                return None;
            },
        }
        i += 1;
    }
    assert(s@.subrange(0, n as int) =~= s@);
    Some(acc)
}

proof fn lemma_sep_scan_bounds(s: Seq<u8>, sep: u8, n: int)
    requires
        0 <= n <= s.len(),
    ensures
        0 <= sep_scan(s, sep, n).1 <= n,
        forall|j: int| 0 <= j < sep_scan(s, sep, n).0.len() ==> 0 <= (#[trigger] sep_scan(s, sep, n).0[j]).0
            <= sep_scan(s, sep, n).0[j].1 <= n,
    decreases n,
{
    if n > 0 {
        lemma_sep_scan_bounds(s, sep, n - 1);
    }
}

proof fn lemma_sep_parts_in_bounds(s: Seq<u8>, sep: u8, k: int)
    requires
        0 <= k < sep_parts(s, sep).len(),
    ensures
        0 <= sep_parts(s, sep)[k].0 <= sep_parts(s, sep)[k].1 <= s.len(),
{
    lemma_sep_scan_bounds(s, sep, s.len() as int);
}

/// Resolves one face corner token `p/t/n` (further parts are allowed and
/// ignored) against the positions and normals read so far.
pub fn parse_corner(token: &[u8], positions: usize, normals: usize) -> (r: Result<Corner, MeshError>)
    ensures
        r == corner_of(token@, positions, normals),
{
    let parts = split_bytes(token, 0x2f);
    let ghost sp = slash_parts(token@);
    let mut values: Vec<usize> = Vec::new();
    let mut k: usize = 0;
    while k < parts.len()
        invariant
            sp == slash_parts(token@),
            parts@.len() == sp.len(),
            forall|j: int| 0 <= j < parts@.len() ==> (#[trigger] parts@[j]).0 as int == sp[j].0 && parts@[j].1 as int == sp[j].1,
            k <= parts@.len(),
            values@.len() == k,
            forall|j: int| 0 <= j < k ==> is_number(#[trigger] part(token@, sp[j])) && values@[j] as int == decimal(part(token@, sp[j])),
        decreases parts@.len() - k,
    {
        let (a, e) = parts[k];
        proof {
            lemma_sep_parts_in_bounds(token@, 0x2f, k as int);
        }
        let piece = &token[a..e];
        match parse_number(piece) {
            Some(v) => values.push(v),
            None => {
                assert(!is_number(part(token@, sp[k as int])));
                return Err(MeshError::BadNumber);
            },
        }
        k += 1;
    }
    if values.len() < 3 {
        return Err(MeshError::UnsupportedFace);
    }
    let p = values[0];
    let n = values[2];
    if p >= 1 && p <= positions && n >= 1 && n <= normals {
        Ok(Corner { position: p - 1, normal: n - 1 })
    } else {
        Err(MeshError::IndexOutOfRange)
    }
}

/// The triangles of a face's corners.
pub fn triangulate(c: &Vec<Corner>) -> (r: Vec<[Corner; 3]>)
    ensures
        r@ == triangles_of(c@),
{
    let mut r: Vec<[Corner; 3]> = Vec::new();
    if c.len() == 3 {
        r.push([c[0], c[1], c[2]]);
    } else if c.len() == 4 {
        r.push([c[2], c[3], c[0]]);
        r.push([c[0], c[1], c[2]]);
    }
    assert(r@ =~= triangles_of(c@));
    r
}

proof fn lemma_ws_scan_bounds(s: Seq<u8>, n: int)
    requires
        0 <= n <= s.len(),
    ensures
        forall|j: int| 0 <= j < ws_scan(s, n).0.len() ==> 0 <= (#[trigger] ws_scan(s, n).0[j]).0
            <= ws_scan(s, n).0[j].1 <= n,
        ws_scan(s, n).1 matches Some(a) ==> 0 <= a < n,
    decreases n,
{
    if n > 0 {
        lemma_ws_scan_bounds(s, n - 1);
    }
}

proof fn lemma_ws_tokens_in_bounds(s: Seq<u8>, k: int)
    requires
        0 <= k < ws_tokens(s).len(),
    ensures
        0 <= ws_tokens(s)[k].0 <= ws_tokens(s)[k].1 <= s.len(),
{
    lemma_ws_scan_bounds(s, s.len() as int);
}

proof fn lemma_corners_error_stays(s: Seq<u8>, toks: Seq<(int, int)>, m: int, m2: int, positions: usize, normals: usize)
    requires
        1 <= m <= m2,
        corners_upto(s, toks, m, positions, normals) is Err,
    ensures
        corners_upto(s, toks, m2, positions, normals) == corners_upto(s, toks, m, positions, normals),
    decreases m2 - m,
{
    if m2 > m {
        lemma_corners_error_stays(s, toks, m, m2 - 1, positions, normals);
    }
}

/// The triangles of a face line (`f` and its corner tokens), given how many
/// positions and normals have been read so far.
pub fn parse_face(line: &[u8], positions: usize, normals: usize) -> (r: Result<Vec<[Corner; 3]>, MeshError>)
    ensures
        r matches Ok(t) ==> face_of(line@, positions, normals) == Ok::<Seq<[Corner; 3]>, MeshError>(t@),
        r matches Err(e) ==> face_of(line@, positions, normals) == Err::<Seq<[Corner; 3]>, MeshError>(e),
{
    let toks = split_ascii_whitespace(line);
    let ghost st = ws_tokens(line@);
    if toks.len() < 2 {
        return Err(MeshError::EmptyFace);
    }
    let mut corners: Vec<Corner> = Vec::new();
    let mut k: usize = 1;
    while k < toks.len()
        invariant
            st == ws_tokens(line@),
            toks@.len() == st.len(),
            forall|j: int| 0 <= j < toks@.len() ==> (#[trigger] toks@[j]).0 as int == st[j].0 && toks@[j].1 as int == st[j].1,
            1 <= k <= toks@.len(),
            corners_upto(line@, st, k as int, positions, normals) == Ok::<Seq<Corner>, MeshError>(corners@),
        decreases toks@.len() - k,
    {
        let (a, e) = toks[k];
        proof {
            lemma_ws_tokens_in_bounds(line@, k as int);
        }
        match parse_corner(&line[a..e], positions, normals) {
            Ok(c) => corners.push(c),
            Err(err) => {
                proof {
                    assert(corners_upto(line@, st, k + 1, positions, normals) == Err::<Seq<Corner>, MeshError>(err));
                    lemma_corners_error_stays(line@, st, k + 1, toks@.len() as int, positions, normals);
                }
                return Err(err);
            },
        }
        k += 1;
    }
    Ok(triangulate(&corners))
}

/// What has been read of a mesh: the byte ranges of its position lines and
/// normal lines, and its triangles.
pub struct MeshModel {
    pub positions: Seq<(usize, usize)>,
    pub normals: Seq<(usize, usize)>,
    pub triangles: Seq<[Corner; 3]>,
}

/// The effect of line `r` of `text` on what has been read.
pub open spec fn line_step(text: Seq<u8>, r: (int, int), st: MeshModel) -> Result<MeshModel, MeshError> {
    let line = part(text, r);
    let kind = line_kind(line);
    let range = (r.0 as usize, r.1 as usize);
    let st1 = if kind.normal { MeshModel { normals: st.normals.push(range), ..st } } else { st };
    let st2 = if kind.position { MeshModel { positions: st1.positions.push(range), ..st1 } } else { st1 };
    if kind.face {
        match face_of(line, st2.positions.len() as usize, st2.normals.len() as usize) {
            Ok(t) => Ok(MeshModel { triangles: st2.triangles + t, ..st2 }),
            Err(e) => Err(e),
        }
    } else {
        Ok(st2)
    }
}

/// What the first `m` lines give, stopping at the first bad face.
pub open spec fn mesh_upto(text: Seq<u8>, lines: Seq<(int, int)>, m: int) -> Result<MeshModel, MeshError>
    decreases m,
{
    if m <= 0 {
        Ok(MeshModel { positions: Seq::empty(), normals: Seq::empty(), triangles: Seq::empty() })
    } else {
        match mesh_upto(text, lines, m - 1) {
            Ok(st) => line_step(text, lines[m - 1], st),
            Err(e) => Err(e),
        }
    }
}

/// What a whole mesh text gives, line by line.
pub open spec fn mesh_of(text: Seq<u8>) -> Result<MeshModel, MeshError> {
    let lines = sep_parts(text, 0x0a);
    mesh_upto(text, lines, lines.len() as int)
}

/// The index of a mesh: where its coordinates are, and its triangles.
pub struct MeshIndex {
    pub positions: Vec<(usize, usize)>,
    pub normals: Vec<(usize, usize)>,
    pub triangles: Vec<[Corner; 3]>,
}

proof fn lemma_mesh_error_stays(text: Seq<u8>, lines: Seq<(int, int)>, m: int, m2: int)
    requires
        0 <= m <= m2,
        mesh_upto(text, lines, m) is Err,
    ensures
        mesh_upto(text, lines, m2) == mesh_upto(text, lines, m),
    decreases m2 - m,
{
    if m2 > m {
        lemma_mesh_error_stays(text, lines, m, m2 - 1);
    }
}

/// Reads mesh text line by line: `vn` lines are normals, `v` lines without
/// `vt` are positions (a normal line counts as one too), `f` lines add their
/// triangles; every other line is skipped.
pub fn index_mesh(text: &[u8]) -> (r: Result<MeshIndex, MeshError>)
    ensures
        r matches Ok(m) ==> mesh_of(text@) matches Ok(model)
            && m.positions@ == model.positions && m.normals@ == model.normals && m.triangles@ == model.triangles,
        r matches Err(e) ==> mesh_of(text@) == Err::<MeshModel, MeshError>(e),
{
    let lines = split_bytes(text, 0x0a);
    let ghost sl = sep_parts(text@, 0x0a);
    let mut positions: Vec<(usize, usize)> = Vec::new();
    let mut normals: Vec<(usize, usize)> = Vec::new();
    let mut triangles: Vec<[Corner; 3]> = Vec::new();
    let mut k: usize = 0;
    while k < lines.len()
        invariant
            sl == sep_parts(text@, 0x0a),
            lines@.len() == sl.len(),
            forall|j: int| 0 <= j < lines@.len() ==> (#[trigger] lines@[j]).0 as int == sl[j].0 && lines@[j].1 as int == sl[j].1,
            k <= lines@.len(),
            mesh_upto(text@, sl, k as int) == Ok::<MeshModel, MeshError>(MeshModel {
                positions: positions@,
                normals: normals@,
                triangles: triangles@,
            }),
        decreases lines@.len() - k,
    {
        let (a, e) = lines[k];
        proof {
            lemma_sep_parts_in_bounds(text@, 0x0a, k as int);
        }
        let line = &text[a..e];
        let kind = classify_line(line);
        if kind.normal {
            normals.push((a, e));
        }
        if kind.position {
            positions.push((a, e));
        }
        if kind.face {
            match parse_face(line, positions.len(), normals.len()) {
                Ok(t) => {
                    let mut t = t;
                    triangles.append(&mut t);
                },
                Err(err) => {
                    proof {
                        lemma_mesh_error_stays(text@, sl, k + 1, lines@.len() as int);
                    }
                    return Err(err);
                },
            }
        }
        k += 1;
    }
    Ok(MeshIndex { positions, normals, triangles })
}

} // verus!
