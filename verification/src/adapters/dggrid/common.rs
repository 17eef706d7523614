//! What the adapters of the batch executable share: the names of the files
//! of one call, the text of the files that the executable reads, and the
//! parsers of the files that it writes.
use crate::error::{DggridError, GeoPlegmaError};
use crate::geometry::{
    bounded_point, bounded_ring, coordinate_bounds, corner_count_convex, corners_of,
    float_numeral, geodesic_area, geodesic_area_bits, hull_coords, parsed_point, point_from_text,
    point_in_rect, polygon_from_ring, ring_polygon, within, Point, Polygon, Rect, SquareMeters,
};
use crate::models::{id_views, valid_hex_text, RefinementLevel, Zone, ZoneId, ZoneIdView, Zones};
use crate::ports::{all_gated, gated, DggrsPortConfig};
use crate::text::{
    all_ascii_alphanumeric, chars_of, decimal_digits, decimal_of, lines, same_chars, split_lines,
    split_whitespace, string_of, tokens, views,
};
use rand::distributions::{Alphanumeric, DistString};
use vstd::prelude::*;

verus! {

/// The number of characters of the token that names the files of one call.
pub const CODE_LEN: usize = 16;

/// How many digits after the point a coordinate is written and read with.
pub const PRECISION: usize = 7;

/// How many vertices the executable puts on each edge of a boundary that is
/// to be densified.
pub const DENSIFICATION: u8 = 50;

/// `DistString::sample_string` of `rand::distributions::Alphanumeric` on the
/// generator of the thread: `len` characters, each an ASCII letter or digit.
/// Which ones is left to chance.
#[verifier::external_body]
fn random_alphanumeric(len: usize) -> (code: String)
    ensures
        code@.len() == len,
        all_ascii_alphanumeric(code@),
{
    Alphanumeric.sample_string(&mut rand::thread_rng(), len)
}

/// The six files of one call to the executable.
#[derive(Debug, Clone)]
pub struct DggridPaths {
    /// What the executable is told to name its output files: the path of the
    /// token without an extension, to which it adds its own.
    pub stem: String,
    /// The file of directives that the executable is started with.
    pub meta: String,
    /// Where the executable writes the cells.
    pub aigen: String,
    /// Where the executable writes the children of the cells.
    pub children: String,
    /// Where the executable writes the neighbours of the cells.
    pub neighbor: String,
    /// The region that a query by rectangle is clipped to.
    pub bbox: String,
    /// The point or identifier that a query by point or identifier is about.
    pub input: String,
}

/// The file `file` in the directory `workdir`.
pub open spec fn joined(workdir: Seq<char>, file: Seq<char>) -> Seq<char> {
    if workdir.len() == 0 {
        file
    } else if workdir.last() == '/' {
        workdir + file
    } else {
        workdir + seq!['/'] + file
    }
}

/// The file in `workdir` that the token `code` names, with the extension `ext`.
pub open spec fn path_of(workdir: Seq<char>, code: Seq<char>, ext: Seq<char>) -> Seq<char> {
    joined(workdir, code) + seq!['.'] + ext
}

/// The six files that the token `code` names in `workdir`.
pub open spec fn paths_of(p: DggridPaths, workdir: Seq<char>, code: Seq<char>) -> bool {
    &&& p.stem@ == joined(workdir, code)
    &&& p.meta@ == path_of(workdir, code, "meta"@)
    &&& p.aigen@ == path_of(workdir, code, "gen"@)
    &&& p.children@ == path_of(workdir, code, "chd"@)
    &&& p.neighbor@ == path_of(workdir, code, "nbr"@)
    &&& p.bbox@ == path_of(workdir, code, "bbox"@)
    &&& p.input@ == path_of(workdir, code, "txt"@)
}

/// `String::ends_with` a character.
fn ends_with_slash(s: &str) -> (b: bool)
    ensures
        b == (s@.len() > 0 && s@.last() == '/'),
{
    let chars = chars_of(s);
    chars.len() > 0 && chars[chars.len() - 1] == '/'
}

/// The file `file` in the directory `workdir`.
pub fn join_path(workdir: &str, file: &str) -> (path: String)
    ensures
        path@ == joined(workdir@, file@),
{
    let mut path = workdir.to_owned();
    if workdir.unicode_len() == 0 {
        assert(path@ + file@ =~= file@);
    } else if !ends_with_slash(workdir) {
        proof {
            reveal_strlit("/");
            assert("/"@ =~= seq!['/']);
        }
        path.append("/");
    }
    path.append(file);
    path
}

/// The path `stem` with the extension `ext`.
fn with_extension(stem: &str, ext: &str) -> (path: String)
    ensures
        path@ == stem@ + seq!['.'] + ext@,
{
    proof {
        reveal_strlit(".");
        assert("."@ =~= seq!['.']);
    }
    let mut path = stem.to_owned();
    path.append(".");
    path.append(ext);
    path
}

/// The six files that the token `code` names in `workdir`.
pub fn paths_for(workdir: &str, code: &str) -> (p: DggridPaths)
    ensures
        paths_of(p, workdir@, code@),
{
    let stem = join_path(workdir, code);
    let meta = with_extension(stem.as_str(), "meta");
    let aigen = with_extension(stem.as_str(), "gen");
    let children = with_extension(stem.as_str(), "chd");
    let neighbor = with_extension(stem.as_str(), "nbr");
    let bbox = with_extension(stem.as_str(), "bbox");
    let input = with_extension(stem.as_str(), "txt");
    DggridPaths { stem, meta, aigen, children, neighbor, bbox, input }
}

/// The files of a new call: those of a token of sixteen letters and digits
/// drawn at random, so that two calls do not share a file.
pub fn setup(workdir: &str) -> (r: (String, DggridPaths))
    ensures
        r.0@.len() == CODE_LEN,
        all_ascii_alphanumeric(r.0@),
        paths_of(r.1, workdir@, r.0@),
{
    let code = random_alphanumeric(CODE_LEN);
    let paths = paths_for(workdir, code.as_str());
    (code, paths)
}

impl DggridPaths {
    /// The six files, which are all to be gone when the call is over.
    pub fn all(&self) -> (files: Vec<String>)
        ensures
            files@.len() == 6,
            files@[0]@ == self.meta@,
            files@[1]@ == self.aigen@,
            files@[2]@ == self.children@,
            files@[3]@ == self.neighbor@,
            files@[4]@ == self.bbox@,
            files@[5]@ == self.input@,
    {
        let mut files: Vec<String> = Vec::new();
        files.push(self.meta.clone());
        files.push(self.aigen.clone());
        files.push(self.children.clone());
        files.push(self.neighbor.clone());
        files.push(self.bbox.clone());
        files.push(self.input.clone());
        files
    }
}

/// One directive of the file of directives: a key, a blank, a value and a
/// line feed.
pub open spec fn directive(key: Seq<char>, value: Seq<char>) -> Seq<char> {
    key + seq![' '] + value + seq!['\n']
}

/// Adds one directive to a text.
pub fn push_directive(text: &mut String, key: &str, value: &str)
    ensures
        final(text)@ == old(text)@ + directive(key@, value@),
{
    proof {
        reveal_strlit(" ");
        reveal_strlit("\n");
        assert(" "@ =~= seq![' ']);
        assert("\n"@ =~= seq!['\n']);
    }
    let ghost before = text@;
    text.append(key);
    text.append(" ");
    text.append(value);
    text.append("\n");
    assert(text@ =~= before + directive(key@, value@));
}

/// The directives on the output of neighbours, where they are asked for.
pub open spec fn neighbor_directives(neighbor_out: Seq<char>, conf: DggrsPortConfig) -> Seq<char> {
    if conf.neighbors {
        directive("neighbor_output_type"@, "TEXT"@) + directive(
            "neighbor_output_file_name"@,
            neighbor_out,
        )
    } else {
        Seq::<char>::empty()
    }
}

/// The directives on the output of children, where they are asked for.
pub open spec fn children_directives(children_out: Seq<char>, conf: DggrsPortConfig) -> Seq<char> {
    if conf.children {
        directive("children_output_type"@, "TEXT"@) + directive(
            "children_output_file_name"@,
            children_out,
        )
    } else {
        Seq::<char>::empty()
    }
}

/// The directive on densification, where it is asked for.
pub open spec fn densify_directive(conf: DggrsPortConfig) -> Seq<char> {
    if conf.densify {
        directive("densification"@, decimal_digits(DENSIFICATION as nat))
    } else {
        Seq::<char>::empty()
    }
}

/// The directives that every call starts with: how longitudes wrap, how
/// cells are written and labelled, seven decimals of precision, the
/// resolution `level`, the file of the cells and, as `conf` asks, the files
/// of neighbours and children and the densification.
pub open spec fn metafile_text(
    level: int,
    cell_out: Seq<char>,
    children_out: Seq<char>,
    neighbor_out: Seq<char>,
    conf: DggrsPortConfig,
) -> Seq<char> {
    directive("longitude_wrap_mode"@, "UNWRAP_EAST"@) + directive("cell_output_type"@, "AIGEN"@)
        + directive("unwrap_points"@, "FALSE"@) + directive(
        "output_cell_label_type"@,
        "OUTPUT_ADDRESS_TYPE"@,
    ) + directive("precision"@, decimal_digits(PRECISION as nat)) + directive(
        "dggs_res_spec"@,
        decimal_digits(level as nat),
    )
        + directive("z3_invalid_digit"@, "3"@) + directive("output_file_type"@, "NONE"@)
        + directive("cell_output_file_name"@, cell_out) + neighbor_directives(neighbor_out, conf)
        + children_directives(children_out, conf) + densify_directive(conf)
}

/// Writes the directives that every call starts with.
pub fn metafile(
    refinement_level: &RefinementLevel,
    cell_output_file_name: &str,
    children_output_file_name: &str,
    neighbor_output_file_name: &str,
    conf: &DggrsPortConfig,
) -> (text: String)
    ensures
        text@ == metafile_text(
            refinement_level@,
            cell_output_file_name@,
            children_output_file_name@,
            neighbor_output_file_name@,
            *conf,
        ),
{
    let mut text = String::new();
    push_directive(&mut text, "longitude_wrap_mode", "UNWRAP_EAST");
    assert(text@ =~= directive("longitude_wrap_mode"@, "UNWRAP_EAST"@));
    push_directive(&mut text, "cell_output_type", "AIGEN");
    push_directive(&mut text, "unwrap_points", "FALSE");
    push_directive(&mut text, "output_cell_label_type", "OUTPUT_ADDRESS_TYPE");
    push_directive(&mut text, "precision", string_of(&decimal_of(PRECISION as u64)).as_str());
    push_directive(&mut text, "dggs_res_spec", refinement_level.to_string().as_str());
    push_directive(&mut text, "z3_invalid_digit", "3");
    push_directive(&mut text, "output_file_type", "NONE");
    push_directive(&mut text, "cell_output_file_name", cell_output_file_name);
    let ghost head = text@;
    if conf.neighbors {
        push_directive(&mut text, "neighbor_output_type", "TEXT");
        push_directive(&mut text, "neighbor_output_file_name", neighbor_output_file_name);
    }
    assert(text@ =~= head + neighbor_directives(neighbor_output_file_name@, *conf));
    let ghost head = text@;
    if conf.children {
        push_directive(&mut text, "children_output_type", "TEXT");
        push_directive(&mut text, "children_output_file_name", children_output_file_name);
    }
    assert(text@ =~= head + children_directives(children_output_file_name@, *conf));
    let ghost head = text@;
    if conf.densify {
        push_directive(
            &mut text,
            "densification",
            string_of(&decimal_of(DENSIFICATION as u64)).as_str(),
        );
    }
    assert(text@ =~= head + densify_directive(*conf));
    text
}

/// One line of the file of children or of neighbours: a cell and the cells
/// listed for it.
#[derive(Debug, Clone)]
pub struct IdList {
    pub key: ZoneId,
    pub values: Vec<ZoneId>,
}

/// One line of the file of children or of neighbours, as identifiers.
pub struct IdListView {
    pub key: ZoneIdView,
    pub values: Seq<ZoneIdView>,
}

impl View for IdList {
    type V = IdListView;

    open spec fn view(&self) -> IdListView {
        IdListView { key: self.key@, values: id_views(self.values@) }
    }
}

/// The views of a run of lines.
pub open spec fn list_views(lists: Seq<IdList>) -> Seq<IdListView> {
    lists.map_values(|l: IdList| l@)
}

/// Every token can be a hexadecimal identifier.
pub open spec fn all_valid_hex(toks: Seq<Seq<char>>) -> bool {
    forall|i: int| 0 <= i < toks.len() ==> valid_hex_text(#[trigger] toks[i])
}

/// The hexadecimal identifiers that the tokens write.
pub open spec fn hex_views(toks: Seq<Seq<char>>) -> Seq<ZoneIdView> {
    toks.map_values(|t: Seq<char>| ZoneIdView::HexId(t))
}

/// Some line of `lists` is about the cell `key`.
pub open spec fn has_key(lists: Seq<IdListView>, key: ZoneIdView) -> bool {
    exists|i: int| 0 <= i < lists.len() && (#[trigger] lists[i]).key == key
}

/// No two lines of `lists` are about the same cell.
pub open spec fn distinct_keys(lists: Seq<IdListView>) -> bool {
    forall|i: int, j: int|
        0 <= i < j < lists.len() ==> (#[trigger] lists[i]).key != (#[trigger] lists[j]).key
}

/// Why a file of children or of neighbours is refused.
pub enum IdListFault {
    /// A token is no hexadecimal identifier.
    InvalidHex,
    /// The line with this number, counted from one, is about a cell that an
    /// earlier line is about.
    DuplicateKey { line: int },
}

/// What the lines from number `n` on add to the lines `seen` before them. A
/// line without tokens counts for nothing; the first token of a line is the
/// cell that the line is about, the others are the cells listed for it.
pub open spec fn id_lists_from(ls: Seq<Seq<char>>, n: int, seen: Seq<IdListView>) -> Result<
    Seq<IdListView>,
    IdListFault,
>
    decreases ls.len() - n,
{
    if n < 0 || n >= ls.len() {
        Ok(seen)
    } else {
        let toks = tokens(ls[n]);
        if toks.len() == 0 {
            id_lists_from(ls, n + 1, seen)
        } else if !all_valid_hex(toks) {
            Err(IdListFault::InvalidHex)
        } else if has_key(seen, ZoneIdView::HexId(toks[0])) {
            Err(IdListFault::DuplicateKey { line: n + 1 })
        } else {
            id_lists_from(
                ls,
                n + 1,
                seen.push(
                    IdListView {
                        key: ZoneIdView::HexId(toks[0]),
                        values: hex_views(toks.skip(1)),
                    },
                ),
            )
        }
    }
}

/// What a file of children or of neighbours holds.
pub open spec fn id_lists_of(text: Seq<char>) -> Result<Seq<IdListView>, IdListFault> {
    id_lists_from(lines(text), 0, Seq::<IdListView>::empty())
}

/// In what a file is read as, no two lines are about the same cell.
pub proof fn law_id_lists_distinct(ls: Seq<Seq<char>>, n: int, seen: Seq<IdListView>)
    requires
        distinct_keys(seen),
    ensures
        id_lists_from(ls, n, seen) matches Ok(all) ==> distinct_keys(all),
    decreases ls.len() - n,
{
    if 0 <= n < ls.len() {
        let toks = tokens(ls[n]);
        if toks.len() == 0 {
            law_id_lists_distinct(ls, n + 1, seen);
        } else if all_valid_hex(toks) && !has_key(seen, ZoneIdView::HexId(toks[0])) {
            let entry = IdListView {
                key: ZoneIdView::HexId(toks[0]),
                values: hex_views(toks.skip(1)),
            };
            let next = seen.push(entry);
            assert forall|i: int, j: int| 0 <= i < j < next.len() implies (#[trigger] next[i]).key
                != (#[trigger] next[j]).key by {
                if j == seen.len() {
                    assert(seen[i].key != entry.key);
                }
            }
            law_id_lists_distinct(ls, n + 1, next);
        }
    }
}

/// The hexadecimal identifiers that the tokens write, if each of them is one.
pub fn hex_ids_of(toks: &Vec<Vec<char>>) -> (r: Option<Vec<ZoneId>>)
    ensures
        all_valid_hex(views(toks@)) ==> r is Some && r->Some_0@.len() == toks@.len()
            && id_views(r->Some_0@) == hex_views(views(toks@)),
        !all_valid_hex(views(toks@)) ==> r is None,
{
    let mut ids: Vec<ZoneId> = Vec::new();
    let mut i: usize = 0;
    while i < toks.len()
        invariant
            i <= toks.len(),
            ids@.len() == i,
            forall|j: int| 0 <= j < i ==> valid_hex_text(#[trigger] views(toks@)[j]),
            forall|j: int|
                0 <= j < i ==> (#[trigger] ids@[j])@ == ZoneIdView::HexId(views(toks@)[j]),
        decreases toks.len() - i,
    {
        let text = string_of(&toks[i]);
        assert(views(toks@)[i as int] == toks@[i as int]@);
        match ZoneId::new_hex(text.as_str()) {
            Ok(id) => {
                ids.push(id);
            },
            Err(_) => {
                return None;
            },
        }
        i += 1;
    }
    assert(id_views(ids@) =~= hex_views(views(toks@)));
    Some(ids)
}

/// The place of the first line about the cell `key`, if there is one.
pub fn find_key(lists: &Vec<IdList>, key: &ZoneId) -> (r: Option<usize>)
    ensures
        match r {
            Some(i) => i < lists@.len() && lists@[i as int].key@ == key@ && forall|j: int|
                0 <= j < i ==> (#[trigger] lists@[j]).key@ != key@,
            None => !has_key(list_views(lists@), key@),
        },
{
    let mut i: usize = 0;
    while i < lists.len()
        invariant
            i <= lists.len(),
            forall|j: int| 0 <= j < i ==> (#[trigger] lists@[j]).key@ != key@,
        decreases lists.len() - i,
    {
        if lists[i].key == *key {
            return Some(i);
        }
        i += 1;
    }
    assert forall|j: int| 0 <= j < list_views(lists@).len() implies (#[trigger] list_views(
        lists@,
    )[j]).key != key@ by {
        assert(list_views(lists@)[j] == lists@[j]@);
    }
    None
}

/// Reads a file of children or of neighbours: on each line a cell and the
/// cells listed for it. A token that is no hexadecimal identifier and a cell
/// with two lines are format errors.
pub fn parse_id_list(s: &str) -> (r: Result<Vec<IdList>, GeoPlegmaError>)
    ensures
        match id_lists_of(s@) {
            Ok(entries) => r matches Ok(list) && list_views(list@) == entries,
            Err(f) => r matches Err(e) && is_id_list_error(e, f),
        },
{
    let ls = split_lines(&chars_of(s));
    let mut out: Vec<IdList> = Vec::new();
    let mut n: usize = 0;
    assert(list_views(out@) =~= Seq::<IdListView>::empty());
    while n < ls.len()
        invariant
            n <= ls.len(),
            views(ls@) == lines(s@),
            id_lists_of(s@) == id_lists_from(lines(s@), n as int, list_views(out@)),
        decreases ls.len() - n,
    {
        let toks = split_whitespace(&ls[n]);
        assert(views(ls@)[n as int] == ls@[n as int]@);
        if toks.len() > 0 {
            let mut ids = match hex_ids_of(&toks) {
                Some(ids) => ids,
                None => {
                    return Err(
                        GeoPlegmaError::InvalidHexId(
                            "HexId can have a maximum length of 16 hexadecimal characters.".to_owned(),
                        ),
                    );
                },
            };
            let ghost all = ids@;
            let key = ids.remove(0);
            assert(key@ == ZoneIdView::HexId(tokens(ls@[n as int]@)[0])) by {
                assert(id_views(all)[0] == all[0]@);
            }
            assert(id_views(ids@) =~= hex_views(tokens(ls@[n as int]@).skip(1))) by {
                assert forall|k: int| 0 <= k < ids@.len() implies id_views(ids@)[k] == hex_views(
                    tokens(ls@[n as int]@).skip(1),
                )[k] by {
                    assert(ids@[k] == all[k + 1]);
                    assert(id_views(all)[k + 1] == all[k + 1]@);
                }
            }
            match find_key(&out, &key) {
                Some(i) => {
                    assert(has_key(list_views(out@), key@)) by {
                        assert(list_views(out@)[i as int] == out@[i as int]@);
                    }
                    let mut msg = "duplicate key on line ".to_owned();
                    msg.append(string_of(&decimal_of((n + 1) as u64)).as_str());
                    return Err(GeoPlegmaError::Dggrid(DggridError::Malformed { msg }));
                },
                None => {},
            }
            let ghost before = out@;
            let entry = IdList { key, values: ids };
            out.push(entry);
            assert(list_views(out@) =~= list_views(before).push(entry@));
        }
        n += 1;
    }
    Ok(out)
}

/// One cell of the file of cells: its identifier, its centre and the
/// vertices of its boundary, in the order of the file.
pub struct AigenRecord {
    pub id: Seq<char>,
    pub center: Point,
    pub ring: Seq<Point>,
}

/// Why a file of cells is refused.
pub enum AigenFault {
    /// The first token of a header is no hexadecimal identifier.
    InvalidHex,
    /// A coordinate is no floating-point numeral.
    InvalidNumber,
    /// On the line with this number, counted from one, a coordinate is no
    /// number or lies beyond the limit.
    OutOfRange { line: int },
    /// The line with this number, counted from one, is neither a header of
    /// three tokens, nor a vertex of two, nor the word `END`, nor empty.
    Malformed { line: int },
}

/// What the lines from number `n` on add to the cells `out` before them,
/// while `cur` is the cell whose vertices are being read. A header of three
/// tokens starts a cell, a line of two tokens is a vertex of the cell that
/// was started, `END` completes it.
pub open spec fn aigen_from(
    ls: Seq<Seq<char>>,
    n: int,
    cur: Option<AigenRecord>,
    out: Seq<AigenRecord>,
) -> Result<Seq<AigenRecord>, AigenFault>
    decreases ls.len() - n,
{
    if n < 0 || n >= ls.len() {
        Ok(out)
    } else {
        let toks = tokens(ls[n]);
        if toks.len() == 3 {
            if !valid_hex_text(toks[0]) {
                Err(AigenFault::InvalidHex)
            } else if !(float_numeral(toks[1]) && float_numeral(toks[2])) {
                Err(AigenFault::InvalidNumber)
            } else if !bounded_point(parsed_point(toks[1], toks[2])) {
                Err(AigenFault::OutOfRange { line: n + 1 })
            } else {
                aigen_from(
                    ls,
                    n + 1,
                    Some(
                        AigenRecord {
                            id: toks[0],
                            center: parsed_point(toks[1], toks[2]),
                            ring: Seq::<Point>::empty(),
                        },
                    ),
                    out,
                )
            }
        } else if toks.len() == 2 {
            match cur {
                Some(c) => if !(float_numeral(toks[0]) && float_numeral(toks[1])) {
                    Err(AigenFault::InvalidNumber)
                } else if !bounded_point(parsed_point(toks[0], toks[1])) {
                    Err(AigenFault::OutOfRange { line: n + 1 })
                } else {
                    aigen_from(
                        ls,
                        n + 1,
                        Some(
                            AigenRecord {
                                id: c.id,
                                center: c.center,
                                ring: c.ring.push(parsed_point(toks[0], toks[1])),
                            },
                        ),
                        out,
                    )
                },
                None => aigen_from(ls, n + 1, cur, out),
            }
        } else if toks.len() == 1 && toks[0] == "END"@ {
            match cur {
                Some(c) => aigen_from(ls, n + 1, None, out.push(c)),
                None => aigen_from(ls, n + 1, cur, out),
            }
        } else if toks.len() == 0 {
            aigen_from(ls, n + 1, cur, out)
        } else {
            Err(AigenFault::Malformed { line: n + 1 })
        }
    }
}

/// The cells that a file of cells holds, in its order.
pub open spec fn aigen_of(text: Seq<char>) -> Result<Seq<AigenRecord>, AigenFault> {
    aigen_from(lines(text), 0, None, Seq::<AigenRecord>::empty())
}

/// The boundary of a cell that was read: the polygon of its vertices, where
/// at least two were given.
pub open spec fn region_of(rec: AigenRecord) -> Option<Polygon> {
    if rec.ring.len() >= 2 {
        Some(ring_polygon(rec.ring))
    } else {
        None
    }
}

/// `z` is the cell `rec` as it is read: with its centre, with its boundary
/// where at least two vertices were given, and with nothing else. Every
/// vertex lies within the limit of coordinates.
pub open spec fn parsed_zone(z: Zone, rec: AigenRecord) -> bool {
    &&& z.id@ == ZoneIdView::HexId(rec.id)
    &&& z.center == Some(rec.center)
    &&& z.region == region_of(rec)
    &&& bounded_ring(rec.ring)
    &&& z.vertex_count is None
    &&& z.children is None
    &&& z.neighbors is None
    &&& z.area_sqm is None
}

/// The zones are the cells `records`, one by one.
pub open spec fn parsed_zones(zones: Seq<Zone>, records: Seq<AigenRecord>) -> bool {
    &&& zones.len() == records.len()
    &&& forall|i: int| 0 <= i < zones.len() ==> parsed_zone(#[trigger] zones[i], records[i])
}

/// The text `what` followed by the number of the line `n`, counted from one.
fn line_message(what: &str, n: usize) -> (msg: String)
    requires
        n < usize::MAX,
    ensures
        msg@ == what@ + decimal_digits((n + 1) as nat),
{
    let mut msg = what.to_owned();
    msg.append(string_of(&decimal_of((n + 1) as u64)).as_str());
    msg
}

/// The error for a line that is none of the four kinds.
fn malformed_line(n: usize) -> (e: GeoPlegmaError)
    requires
        n < usize::MAX,
    ensures
        is_aigen_error(e, AigenFault::Malformed { line: n + 1 }),
{
    GeoPlegmaError::Dggrid(
        DggridError::Malformed { msg: line_message("unexpected tokens on line ", n) },
    )
}

/// The error for a coordinate that is no number or beyond the limit.
fn out_of_range(n: usize) -> (e: GeoPlegmaError)
    requires
        n < usize::MAX,
    ensures
        is_aigen_error(e, AigenFault::OutOfRange { line: n + 1 }),
{
    GeoPlegmaError::Dggrid(
        DggridError::Malformed { msg: line_message("coordinate out of range on line ", n) },
    )
}

/// Reads the two coordinates of a position on line `n` and holds them to
/// the limit of coordinates.
fn read_point(x: &Vec<char>, y: &Vec<char>, bounds: &Rect, n: usize) -> (r: Result<
    Point,
    GeoPlegmaError,
>)
    requires
        n < usize::MAX,
        forall|p: Point| point_in_rect(p, *bounds) == #[trigger] bounded_point(p),
    ensures
        match r {
            Ok(p) => float_numeral(x@) && float_numeral(y@) && p == parsed_point(x@, y@)
                && bounded_point(p),
            Err(e) => if !(float_numeral(x@) && float_numeral(y@)) {
                is_aigen_error(e, AigenFault::InvalidNumber)
            } else {
                !bounded_point(parsed_point(x@, y@)) && is_aigen_error(
                    e,
                    AigenFault::OutOfRange { line: n + 1 },
                )
            },
        },
{
    let point = match point_from_text(string_of(x).as_str(), string_of(y).as_str()) {
        Ok(p) => p,
        Err(e) => {
            return Err(GeoPlegmaError::Float(e));
        },
    };
    if !within(&point, bounds) {
        return Err(out_of_range(n));
    }
    Ok(point)
}

/// Reads the file of cells that the executable writes: for each cell a header
/// with identifier and centre, the vertices of the boundary, and `END`. The
/// zones come in the order of the file.
pub fn parse_aigen_to_zones_map(s: &str) -> (r: Result<Vec<Zone>, GeoPlegmaError>)
    ensures
        match aigen_of(s@) {
            Ok(records) => r matches Ok(zones) && parsed_zones(zones@, records),
            Err(f) => r matches Err(e) && is_aigen_error(e, f),
        },
{
    let ls = split_lines(&chars_of(s));
    let end = chars_of("END");
    let bounds = coordinate_bounds();
    let mut zones: Vec<Zone> = Vec::new();
    let mut cur: Option<(ZoneId, Point)> = None;
    let mut ring: Vec<Point> = Vec::new();
    let ghost mut records: Seq<AigenRecord> = Seq::empty();
    let ghost mut cur_rec: Option<AigenRecord> = None;
    let mut n: usize = 0;
    while n < ls.len()
        invariant
            n <= ls.len(),
            views(ls@) == lines(s@),
            end@ == "END"@,
            forall|p: Point| point_in_rect(p, bounds) == #[trigger] bounded_point(p),
            aigen_of(s@) == aigen_from(lines(s@), n as int, cur_rec, records),
            parsed_zones(zones@, records),
            cur is Some <==> cur_rec is Some,
            cur matches Some(c) ==> c.0@ == ZoneIdView::HexId(cur_rec->Some_0.id) && c.1
                == cur_rec->Some_0.center && ring@ == cur_rec->Some_0.ring && bounded_ring(ring@),
        decreases ls.len() - n,
    {
        let toks = split_whitespace(&ls[n]);
        assert(views(ls@)[n as int] == ls@[n as int]@);
        let ghost t = tokens(ls@[n as int]@);
        assert(views(toks@) == t);
        if toks.len() == 3 {
            assert(t[0] == toks@[0]@ && t[1] == toks@[1]@ && t[2] == toks@[2]@);
            let id = match ZoneId::new_hex(string_of(&toks[0]).as_str()) {
                Ok(id) => id,
                Err(e) => {
                    return Err(e);
                },
            };
            let center = match read_point(&toks[1], &toks[2], &bounds, n) {
                Ok(p) => p,
                Err(e) => {
                    return Err(e);
                },
            };
            proof {
                cur_rec = Some(
                    AigenRecord { id: t[0], center, ring: Seq::<Point>::empty() },
                );
            }
            cur = Some((id, center));
            ring = Vec::new();
        } else if toks.len() == 2 {
            assert(t[0] == toks@[0]@ && t[1] == toks@[1]@);
            if cur.is_some() {
                let vertex = match read_point(&toks[0], &toks[1], &bounds, n) {
                    Ok(p) => p,
                    Err(e) => {
                        return Err(e);
                    },
                };
                proof {
                    let c = cur_rec->Some_0;
                    cur_rec = Some(
                        AigenRecord { id: c.id, center: c.center, ring: c.ring.push(vertex) },
                    );
                }
                ring.push(vertex);
            }
        } else if toks.len() == 1 && same_chars(&toks[0], &end) {
            assert(t[0] == toks@[0]@);
            let taken = cur;
            cur = None;
            match taken {
                Some((id, center)) => {
                    let region = if ring.len() >= 2 {
                        Some(polygon_from_ring(&ring))
                    } else {
                        None
                    };
                    let ghost before = zones@;
                    let zone = Zone {
                        id,
                        region,
                        center: Some(center),
                        vertex_count: None,
                        children: None,
                        neighbors: None,
                        area_sqm: None,
                    };
                    zones.push(zone);
                    proof {
                        let c = cur_rec->Some_0;
                        assert(parsed_zone(zone, c));
                        records = records.push(c);
                        cur_rec = None;
                        assert forall|i: int| 0 <= i < zones@.len() implies parsed_zone(
                            #[trigger] zones@[i],
                            records[i],
                        ) by {
                            if i < before.len() {
                                assert(zones@[i] == before[i]);
                            }
                        }
                    }
                    ring = Vec::new();
                },
                None => {},
            }
        } else if toks.len() == 0 {
        } else {
            if toks.len() == 1 {
                assert(t[0] == toks@[0]@);
            }
            return Err(malformed_line(n));
        }
        n += 1;
    }
    Ok(zones)
}

/// The cells that the first line about `key` from place `i` on lists for it.
pub open spec fn listed_from(lists: Seq<IdListView>, key: ZoneIdView, i: int) -> Option<
    Seq<ZoneIdView>,
>
    decreases lists.len() - i,
{
    if i < 0 || i >= lists.len() {
        None
    } else if lists[i].key == key {
        Some(lists[i].values)
    } else {
        listed_from(lists, key, i + 1)
    }
}

/// The cells that `lists` lists for the cell `key`, if it has a line about it.
pub open spec fn listed_for(lists: Seq<IdListView>, key: ZoneIdView) -> Option<Seq<ZoneIdView>> {
    listed_from(lists, key, 0)
}

/// Where no line before place `k` is about `key`, looking from place `i` up
/// to `k` is looking from `k`.
proof fn lemma_listed_skip(lists: Seq<IdListView>, key: ZoneIdView, i: int, k: int)
    requires
        0 <= i <= k <= lists.len(),
        forall|j: int| i <= j < k ==> (#[trigger] lists[j]).key != key,
    ensures
        listed_from(lists, key, i) == listed_from(lists, key, k),
    decreases k - i,
{
    if i < k {
        lemma_listed_skip(lists, key, i + 1, k);
    }
}

/// A copy of a run of identifiers.
pub fn clone_ids(ids: &Vec<ZoneId>) -> (r: Vec<ZoneId>)
    ensures
        id_views(r@) == id_views(ids@),
{
    let mut r: Vec<ZoneId> = Vec::new();
    let mut i: usize = 0;
    while i < ids.len()
        invariant
            i <= ids.len(),
            r@.len() == i,
            forall|j: int| 0 <= j < i ==> (#[trigger] r@[j])@ == ids@[j]@,
        decreases ids.len() - i,
    {
        r.push(ids[i].clone());
        i += 1;
    }
    assert(id_views(r@) =~= id_views(ids@));
    r
}

/// The cells that `lists` lists for the cell `key`.
pub fn lookup(lists: &Vec<IdList>, key: &ZoneId) -> (r: Option<Vec<ZoneId>>)
    ensures
        match listed_for(list_views(lists@), key@) {
            Some(values) => r is Some && id_views(r->Some_0@) == values,
            None => r is None,
        },
{
    match find_key(lists, key) {
        Some(i) => {
            proof {
                let lv = list_views(lists@);
                assert forall|j: int| 0 <= j < i implies (#[trigger] lv[j]).key != key@ by {
                    assert(lv[j] == lists@[j]@);
                }
                lemma_listed_skip(lv, key@, 0, i as int);
                assert(lv[i as int] == lists@[i as int]@);
            }
            Some(clone_ids(&lists[i].values))
        },
        None => {
            proof {
                let lv = list_views(lists@);
                assert forall|j: int| 0 <= j < lv.len() implies (#[trigger] lv[j]).key != key@ by {
                    if lv[j].key == key@ {
                        assert(has_key(lv, key@));
                    }
                }
                lemma_listed_skip(lv, key@, 0, lv.len() as int);
            }
            None
        },
    }
}

/// `e` is the error for a file of cells refused for the reason `f`.
pub open spec fn is_aigen_error(e: GeoPlegmaError, f: AigenFault) -> bool {
    match f {
        AigenFault::InvalidHex => e matches GeoPlegmaError::InvalidHexId(_),
        AigenFault::InvalidNumber => e matches GeoPlegmaError::Float(_),
        AigenFault::OutOfRange { line } => e matches GeoPlegmaError::Dggrid(
            DggridError::Malformed { msg },
        ) && msg@ == "coordinate out of range on line "@ + decimal_digits(line as nat),
        AigenFault::Malformed { line } => e matches GeoPlegmaError::Dggrid(
            DggridError::Malformed { msg },
        ) && msg@ == "unexpected tokens on line "@ + decimal_digits(line as nat),
    }
}

/// `e` is the error for a file of children or neighbours refused for the
/// reason `f`.
pub open spec fn is_id_list_error(e: GeoPlegmaError, f: IdListFault) -> bool {
    match f {
        IdListFault::InvalidHex => e matches GeoPlegmaError::InvalidHexId(_),
        IdListFault::DuplicateKey { line } => e matches GeoPlegmaError::Dggrid(
            DggridError::Malformed { msg },
        ) && msg@ == "duplicate key on line "@ + decimal_digits(line as nat),
    }
}

/// What is read of the file of children or neighbours: its lines where the
/// query asks for them, and no line where it does not, whatever the file holds.
pub open spec fn lists_wanted(wanted: bool, text: Seq<char>) -> Result<
    Seq<IdListView>,
    IdListFault,
> {
    if wanted {
        id_lists_of(text)
    } else {
        Ok(Seq::<IdListView>::empty())
    }
}

/// `z` is the cell `rec` as a query with `conf` gives it: centre and boundary
/// where asked for, vertex count and area where asked for and where there is
/// a boundary to take them from, children and neighbours where asked for and
/// listed. The vertex count is the number of corners of the convex hull of
/// the boundary, the area its geodesic area.
pub open spec fn ingested_zone(
    z: Zone,
    rec: AigenRecord,
    children: Seq<IdListView>,
    neighbors: Seq<IdListView>,
    conf: DggrsPortConfig,
) -> bool {
    &&& z.id@ == ZoneIdView::HexId(rec.id)
    &&& z.center == if conf.center {
        Some(rec.center)
    } else {
        None
    }
    &&& z.region == if conf.region {
        region_of(rec)
    } else {
        None
    }
    &&& z.vertex_count == match region_of(rec) {
        Some(poly) if conf.vertex_count => Some(corners_of(hull_coords(poly) as int) as u32),
        _ => None,
    }
    &&& z.area_sqm == match region_of(rec) {
        Some(poly) if conf.area_sqm => Some(SquareMeters { bits: geodesic_area_bits(poly) }),
        _ => None,
    }
    &&& match z.children {
        Some(c) => conf.children && listed_for(children, z.id@) == Some(id_views(c@)),
        None => !conf.children || listed_for(children, z.id@) is None,
    }
    &&& match z.neighbors {
        Some(n) => conf.neighbors && listed_for(neighbors, z.id@) == Some(id_views(n@)),
        None => !conf.neighbors || listed_for(neighbors, z.id@) is None,
    }
}

/// What the three files of a call give under `conf`: the error of the first
/// file refused, in the order cells, children, neighbours, or the zones of
/// the cells in the order of their file.
pub open spec fn ingested(
    r: Result<Zones, GeoPlegmaError>,
    aigen_text: Seq<char>,
    children_text: Seq<char>,
    neighbors_text: Seq<char>,
    conf: DggrsPortConfig,
) -> bool {
    match aigen_of(aigen_text) {
        Err(f) => r matches Err(e) && is_aigen_error(e, f),
        Ok(records) => match lists_wanted(conf.children, children_text) {
            Err(f) => r matches Err(e) && is_id_list_error(e, f),
            Ok(children) => match lists_wanted(conf.neighbors, neighbors_text) {
                Err(f) => r matches Err(e) && is_id_list_error(e, f),
                Ok(neighbors) => r matches Ok(z) && z.zones@.len() == records.len() && forall|
                    i: int,
                |
                    0 <= i < records.len() ==> ingested_zone(
                        #[trigger] z.zones@[i],
                        records[i],
                        children,
                        neighbors,
                        conf,
                    ),
            },
        },
    }
}

/// Completes one cell that was read: attaches the children and neighbours
/// listed for it, takes vertex count and area from its boundary, and drops
/// centre and boundary where they are not asked for.
fn complete_zone(
    z: &Zone,
    children: &Vec<IdList>,
    neighbors: &Vec<IdList>,
    conf: &DggrsPortConfig,
    Ghost(rec): Ghost<AigenRecord>,
) -> (out: Zone)
    requires
        parsed_zone(*z, rec),
        !conf.children ==> children@.len() == 0,
        !conf.neighbors ==> neighbors@.len() == 0,
    ensures
        ingested_zone(out, rec, list_views(children@), list_views(neighbors@), *conf),
{
    let id = z.id.clone();
    let listed_children = if conf.children {
        lookup(children, &id)
    } else {
        None
    };
    let listed_neighbors = if conf.neighbors {
        lookup(neighbors, &id)
    } else {
        None
    };
    let mut vertex_count = None;
    let mut area_sqm = None;
    let mut region = None;
    match &z.region {
        Some(poly) => {
            if conf.vertex_count {
                vertex_count = Some(corner_count_convex(poly));
            }
            if conf.area_sqm {
                area_sqm = Some(geodesic_area(poly));
            }
            if conf.region {
                region = Some(poly.clone());
            }
        },
        None => {},
    }
    let center = if conf.center {
        match &z.center {
            Some(c) => Some(c.clone()),
            None => None,
        }
    } else {
        None
    };
    Zone {
        id,
        region,
        center,
        vertex_count,
        children: listed_children,
        neighbors: listed_neighbors,
        area_sqm,
    }
}

/// Turns the files that the executable wrote into zones. The files of
/// children and of neighbours are read only where `conf` asks for them.
pub fn ingest(aigen_text: &str, children_text: &str, neighbors_text: &str, conf: &DggrsPortConfig) -> (r:
    Result<Zones, GeoPlegmaError>)
    ensures
        ingested(r, aigen_text@, children_text@, neighbors_text@, *conf),
        r matches Ok(z) ==> all_gated(z.zones@, *conf),
{
    let parsed = match parse_aigen_to_zones_map(aigen_text) {
        Ok(zones) => zones,
        Err(e) => {
            return Err(e);
        },
    };
    let ghost records = aigen_of(aigen_text@)->Ok_0;
    let children: Vec<IdList> = if conf.children {
        match parse_id_list(children_text) {
            Ok(lists) => lists,
            Err(e) => {
                return Err(e);
            },
        }
    } else {
        Vec::new()
    };
    assert(!conf.children ==> list_views(children@) =~= Seq::<IdListView>::empty());
    let neighbors: Vec<IdList> = if conf.neighbors {
        match parse_id_list(neighbors_text) {
            Ok(lists) => lists,
            Err(e) => {
                return Err(e);
            },
        }
    } else {
        Vec::new()
    };
    assert(!conf.neighbors ==> list_views(neighbors@) =~= Seq::<IdListView>::empty());
    let mut zones: Vec<Zone> = Vec::new();
    let mut i: usize = 0;
    while i < parsed.len()
        invariant
            i <= parsed.len(),
            parsed_zones(parsed@, records),
            !conf.children ==> children@.len() == 0,
            !conf.neighbors ==> neighbors@.len() == 0,
            zones@.len() == i,
            forall|j: int|
                0 <= j < i ==> ingested_zone(
                    #[trigger] zones@[j],
                    records[j],
                    list_views(children@),
                    list_views(neighbors@),
                    *conf,
                ),
        decreases parsed.len() - i,
    {
        let zone = complete_zone(&parsed[i], &children, &neighbors, conf, Ghost(records[i as int]));
        zones.push(zone);
        i += 1;
    }
    assert forall|j: int| 0 <= j < zones@.len() implies gated(#[trigger] zones@[j], *conf) by {
        assert(ingested_zone(
            zones@[j],
            records[j],
            list_views(children@),
            list_views(neighbors@),
            *conf,
        ));
    }
    Ok(Zones { zones })
}

} // verus!
