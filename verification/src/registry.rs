//! The table of grids: their identifiers, backing tools and resolution bounds.
use crate::error::DggrsUidError;
use crate::models::{RefinementLevel, RelativeDepth};
use crate::text::{
    is_whitespace, lemma_trimmed_fixed,
    append_chars, ascii_lower, chars_of, lowercase, same_chars, to_ascii_lower, to_lowercase, trim,
    trimmed,
};
use vstd::prelude::*;

verus! {

/// A grid as one backend offers it.
#[derive(Debug, Clone, Copy, PartialEq, Eq, Hash, Structural)]
pub enum DggrsUid {
    ISEA3HDGGRID,
    IGEO7,
    H3,
    IVEA3H,
    ISEA3HDGGAL,
    IVEA9R,
    ISEA9R,
    RTEA3H,
    RTEA9R,
}

/// The family of a grid, whatever tool offers it.
#[derive(Debug, Clone, Copy, PartialEq, Eq, Hash, Structural)]
pub enum DggrsName {
    ISEA3H,
    IGEO7,
    H3,
    IVEA3H,
    IVEA9R,
    ISEA9R,
    RTEA3H,
    RTEA9R,
}

/// The tool behind a grid.
#[derive(Debug, Clone, Copy, PartialEq, Eq, Hash, Structural)]
pub enum DggrsImplementation {
    Native,
    DGGRID,
    DGGAL,
    H3O,
}

/// The number of grids in the table.
pub const REGISTRY_LEN: usize = 9;

/// One entry of the table, with its bounds as plain numbers.
pub struct DggrsSpecView {
    pub id: DggrsUid,
    pub name: DggrsName,
    pub tool: DggrsImplementation,
    pub min_refinement_level: int,
    pub max_refinement_level: int,
    pub default_refinement_level: int,
    pub max_relative_depth: int,
    pub default_relative_depth: int,
}

/// One entry of the table: what a grid is called, which tool offers it and
/// between which bounds it can be queried.
#[derive(Debug, Clone, Copy)]
pub struct DggrsSpec {
    pub id: DggrsUid,
    pub name: DggrsName,
    pub tool: DggrsImplementation,
    pub title: &'static str,
    pub description: &'static str,
    pub uri: &'static str,
    pub crs: &'static str,
    pub min_refinement_level: RefinementLevel,
    pub max_refinement_level: RefinementLevel,
    pub default_refinement_level: RefinementLevel,
    pub max_relative_depth: RelativeDepth,
    pub default_relative_depth: RelativeDepth,
}

impl View for DggrsSpec {
    type V = DggrsSpecView;

    open spec fn view(&self) -> DggrsSpecView {
        DggrsSpecView {
            id: self.id,
            name: self.name,
            tool: self.tool,
            min_refinement_level: self.min_refinement_level@,
            max_refinement_level: self.max_refinement_level@,
            default_refinement_level: self.default_refinement_level@,
            max_relative_depth: self.max_relative_depth@,
            default_relative_depth: self.default_relative_depth@,
        }
    }
}

/// The family of the grid `id`.
pub open spec fn name_of(id: DggrsUid) -> DggrsName {
    match id {
        DggrsUid::ISEA3HDGGRID => DggrsName::ISEA3H,
        DggrsUid::IGEO7 => DggrsName::IGEO7,
        DggrsUid::H3 => DggrsName::H3,
        DggrsUid::ISEA3HDGGAL => DggrsName::ISEA3H,
        DggrsUid::IVEA3H => DggrsName::IVEA3H,
        DggrsUid::ISEA9R => DggrsName::ISEA9R,
        DggrsUid::IVEA9R => DggrsName::IVEA9R,
        DggrsUid::RTEA3H => DggrsName::RTEA3H,
        DggrsUid::RTEA9R => DggrsName::RTEA9R,
    }
}

/// The tool that offers the grid `id`.
pub open spec fn tool_of(id: DggrsUid) -> DggrsImplementation {
    match id {
        DggrsUid::ISEA3HDGGRID => DggrsImplementation::DGGRID,
        DggrsUid::IGEO7 => DggrsImplementation::DGGRID,
        DggrsUid::H3 => DggrsImplementation::H3O,
        _ => DggrsImplementation::DGGAL,
    }
}

/// The entry of the grid `id`: minimum, maximum and default refinement level,
/// maximum and default relative depth.
pub open spec fn registry_entry(id: DggrsUid) -> DggrsSpecView {
    let (min, max, default, max_rd, default_rd): (int, int, int, int, int) = match id {
        DggrsUid::ISEA3HDGGRID => (0, 36, 3, 8, 5),
        DggrsUid::IGEO7 => (0, 20, 2, 5, 3),
        DggrsUid::H3 => (0, 15, 2, 6, 4),
        DggrsUid::ISEA3HDGGAL => (0, 33, 3, 11, 8),
        DggrsUid::IVEA3H => (0, 33, 3, 11, 8),
        DggrsUid::ISEA9R => (0, 16, 2, 8, 2),
        DggrsUid::IVEA9R => (0, 16, 2, 6, 4),
        DggrsUid::RTEA3H => (0, 33, 2, 11, 8),
        DggrsUid::RTEA9R => (0, 16, 2, 6, 4),
    };
    DggrsSpecView {
        id,
        name: name_of(id),
        tool: tool_of(id),
        min_refinement_level: min,
        max_refinement_level: max,
        default_refinement_level: default,
        max_relative_depth: max_rd,
        default_relative_depth: default_rd,
    }
}

/// The grid at place `i` of the table.
pub open spec fn uid_at(i: int) -> DggrsUid {
    if i == 0 {
        DggrsUid::ISEA3HDGGRID
    } else if i == 1 {
        DggrsUid::IGEO7
    } else if i == 2 {
        DggrsUid::H3
    } else if i == 3 {
        DggrsUid::ISEA3HDGGAL
    } else if i == 4 {
        DggrsUid::IVEA3H
    } else if i == 5 {
        DggrsUid::ISEA9R
    } else if i == 6 {
        DggrsUid::IVEA9R
    } else if i == 7 {
        DggrsUid::RTEA3H
    } else {
        DggrsUid::RTEA9R
    }
}

/// In every entry of the table the default refinement level lies between the
/// minimum and the maximum, and the default relative depth between zero and
/// the maximum relative depth.
pub proof fn law_resolution_bounds(id: DggrsUid)
    ensures
        0 <= registry_entry(id).min_refinement_level <= registry_entry(
            id,
        ).default_refinement_level <= registry_entry(id).max_refinement_level,
        0 <= registry_entry(id).default_relative_depth <= registry_entry(id).max_relative_depth,
{
}

impl DggrsUid {
    /// The place of the grid in the table.
    pub fn idx(self) -> (i: usize)
        ensures
            i < REGISTRY_LEN,
            uid_at(i as int) == self,
    {
        match self {
            DggrsUid::ISEA3HDGGRID => 0,
            DggrsUid::IGEO7 => 1,
            DggrsUid::H3 => 2,
            DggrsUid::ISEA3HDGGAL => 3,
            DggrsUid::IVEA3H => 4,
            DggrsUid::ISEA9R => 5,
            DggrsUid::IVEA9R => 6,
            DggrsUid::RTEA3H => 7,
            DggrsUid::RTEA9R => 8,
        }
    }

    /// The grid at a place of the table.
    pub fn at(i: usize) -> (id: Self)
        requires
            i < REGISTRY_LEN,
        ensures
            id == uid_at(i as int),
    {
        if i == 0 {
            DggrsUid::ISEA3HDGGRID
        } else if i == 1 {
            DggrsUid::IGEO7
        } else if i == 2 {
            DggrsUid::H3
        } else if i == 3 {
            DggrsUid::ISEA3HDGGAL
        } else if i == 4 {
            DggrsUid::IVEA3H
        } else if i == 5 {
            DggrsUid::ISEA9R
        } else if i == 6 {
            DggrsUid::IVEA9R
        } else if i == 7 {
            DggrsUid::RTEA3H
        } else {
            DggrsUid::RTEA9R
        }
    }

    /// The family of the grid.
    pub fn name(self) -> (n: DggrsName)
        ensures
            n == name_of(self),
    {
        match self {
            DggrsUid::ISEA3HDGGRID => DggrsName::ISEA3H,
            DggrsUid::IGEO7 => DggrsName::IGEO7,
            DggrsUid::H3 => DggrsName::H3,
            DggrsUid::ISEA3HDGGAL => DggrsName::ISEA3H,
            DggrsUid::IVEA3H => DggrsName::IVEA3H,
            DggrsUid::ISEA9R => DggrsName::ISEA9R,
            DggrsUid::IVEA9R => DggrsName::IVEA9R,
            DggrsUid::RTEA3H => DggrsName::RTEA3H,
            DggrsUid::RTEA9R => DggrsName::RTEA9R,
        }
    }

    /// The tool that offers the grid.
    pub fn tool(self) -> (t: DggrsImplementation)
        ensures
            t == tool_of(self),
    {
        match self {
            DggrsUid::ISEA3HDGGRID => DggrsImplementation::DGGRID,
            DggrsUid::IGEO7 => DggrsImplementation::DGGRID,
            DggrsUid::H3 => DggrsImplementation::H3O,
            _ => DggrsImplementation::DGGAL,
        }
    }

    /// The entry of the grid in the table.
    pub fn spec(self) -> (s: DggrsSpec)
        ensures
            s@ == registry_entry(self),
            0 <= s.min_refinement_level@ <= s.default_refinement_level@
                <= s.max_refinement_level@,
            0 <= s.default_relative_depth@ <= s.max_relative_depth@,
    {
        let (min, max, default, max_rd, default_rd): (i32, i32, i32, i32, i32) = match self {
            DggrsUid::ISEA3HDGGRID => (0, 36, 3, 8, 5),
            DggrsUid::IGEO7 => (0, 20, 2, 5, 3),
            DggrsUid::H3 => (0, 15, 2, 6, 4),
            DggrsUid::ISEA3HDGGAL => (0, 33, 3, 11, 8),
            DggrsUid::IVEA3H => (0, 33, 3, 11, 8),
            DggrsUid::ISEA9R => (0, 16, 2, 8, 2),
            DggrsUid::IVEA9R => (0, 16, 2, 6, 4),
            DggrsUid::RTEA3H => (0, 33, 2, 11, 8),
            DggrsUid::RTEA9R => (0, 16, 2, 6, 4),
        };
        DggrsSpec {
            id: self,
            name: self.name(),
            tool: self.tool(),
            title: "",
            description: "",
            uri: "",
            crs: "",
            min_refinement_level: RefinementLevel::new_const(min),
            max_refinement_level: RefinementLevel::new_const(max),
            default_refinement_level: RefinementLevel::new_const(default),
            max_relative_depth: RelativeDepth::new_const(max_rd),
            default_relative_depth: RelativeDepth::new_const(default_rd),
        }
    }
}

impl DggrsName {
    /// The name in capitals.
    pub open spec fn text(self) -> Seq<char> {
        match self {
            DggrsName::ISEA3H => "ISEA3H"@,
            DggrsName::IGEO7 => "IGEO7"@,
            DggrsName::H3 => "H3"@,
            DggrsName::IVEA3H => "IVEA3H"@,
            DggrsName::IVEA9R => "IVEA9R"@,
            DggrsName::ISEA9R => "ISEA9R"@,
            DggrsName::RTEA3H => "RTEA3H"@,
            DggrsName::RTEA9R => "RTEA9R"@,
        }
    }

    /// The name in capitals.
    pub fn as_str(&self) -> (s: &'static str)
        ensures
            s@ == self.text(),
    {
        match self {
            DggrsName::ISEA3H => "ISEA3H",
            DggrsName::IGEO7 => "IGEO7",
            DggrsName::H3 => "H3",
            DggrsName::IVEA3H => "IVEA3H",
            DggrsName::IVEA9R => "IVEA9R",
            DggrsName::ISEA9R => "ISEA9R",
            DggrsName::RTEA3H => "RTEA3H",
            DggrsName::RTEA9R => "RTEA9R",
        }
    }

    /// The name in capitals, as an owned text.
    pub fn to_string(&self) -> (s: String)
        ensures
            s@ == self.text(),
    {
        self.as_str().to_owned()
    }
}

impl DggrsImplementation {
    /// The name of the tool.
    pub open spec fn text(self) -> Seq<char> {
        match self {
            DggrsImplementation::Native => "Native"@,
            DggrsImplementation::DGGRID => "DGGRID"@,
            DggrsImplementation::DGGAL => "DGGAL"@,
            DggrsImplementation::H3O => "H3O"@,
        }
    }

    /// The name of the tool.
    pub fn as_str(&self) -> (s: &'static str)
        ensures
            s@ == self.text(),
    {
        match self {
            DggrsImplementation::Native => "Native",
            DggrsImplementation::DGGRID => "DGGRID",
            DggrsImplementation::DGGAL => "DGGAL",
            DggrsImplementation::H3O => "H3O",
        }
    }

    /// The name of the tool, as an owned text.
    pub fn to_string(&self) -> (s: String)
        ensures
            s@ == self.text(),
    {
        self.as_str().to_owned()
    }
}

/// A free text as grid names are compared: without white space around it, in
/// lower case, with a hyphen for every underscore.
pub open spec fn normalized(s: Seq<char>) -> Seq<char> {
    trimmed(s).map_values(
        |c: char|
            if c == '_' {
                '-'
            } else {
                to_ascii_lower(c)
            },
    )
}

/// The canonical form of a grid's name: family and tool, run together.
pub open spec fn canonical_text(id: DggrsUid) -> Seq<char> {
    name_of(id).text() + tool_of(id).text()
}

/// `norm` names the grid `id`, by its canonical form or by its family alone.
pub open spec fn names_grid(norm: Seq<char>, id: DggrsUid) -> bool {
    norm == lowercase(canonical_text(id)) || norm == lowercase(name_of(id).text())
}

/// The first grid from place `i` of the table on that `norm` names.
pub open spec fn first_named(norm: Seq<char>, i: int) -> Option<DggrsUid>
    decreases REGISTRY_LEN - i,
{
    if i < 0 || i >= REGISTRY_LEN {
        None
    } else if names_grid(norm, uid_at(i)) {
        Some(uid_at(i))
    } else {
        first_named(norm, i + 1)
    }
}

/// The grid that a free text names: the first of the table whose canonical
/// form or family name the normalized text is.
pub open spec fn parse_uid(s: Seq<char>) -> Option<DggrsUid> {
    first_named(normalized(s), 0)
}

/// The grids of the table, in its order.
pub open spec fn all_uids() -> Seq<DggrsUid> {
    Seq::new(REGISTRY_LEN as nat, |i: int| uid_at(i))
}

/// The grids of the table, in its order.
pub fn candidates() -> (ids: Vec<DggrsUid>)
    ensures
        ids@ == all_uids(),
{
    let mut ids: Vec<DggrsUid> = Vec::new();
    let mut i: usize = 0;
    while i < REGISTRY_LEN
        invariant
            i <= REGISTRY_LEN,
            ids@.len() == i,
            forall|j: int| 0 <= j < i ==> ids@[j] == uid_at(j),
        decreases REGISTRY_LEN - i,
    {
        ids.push(DggrsUid::at(i));
        i += 1;
    }
    assert(ids@ =~= all_uids());
    ids
}

fn normalize(input: &str) -> (out: Vec<char>)
    ensures
        out@ == normalized(input@),
{
    let t = trim(&chars_of(input));
    let mut out: Vec<char> = Vec::new();
    let mut i: usize = 0;
    while i < t.len()
        invariant
            i <= t.len(),
            out@.len() == i,
            forall|j: int|
                0 <= j < i ==> out@[j] == if t@[j] == '_' {
                    '-'
                } else {
                    to_ascii_lower(t@[j])
                },
        decreases t.len() - i,
    {
        let c = t[i];
        if c == '_' {
            out.push('-');
        } else {
            out.push(ascii_lower(c));
        }
        i += 1;
    }
    assert(out@ =~= normalized(input@));
    out
}

impl DggrsUid {
    /// How the grid is written: its family, followed by its tool unless the
    /// grid is native to this library.
    pub open spec fn text(self) -> Seq<char> {
        if tool_of(self) == DggrsImplementation::Native {
            name_of(self).text()
        } else {
            canonical_text(self)
        }
    }

    /// Writes the grid out.
    pub fn to_string(&self) -> (s: String)
        ensures
            s@ == self.text(),
    {
        let mut s = self.name().to_string();
        match self.tool() {
            DggrsImplementation::Native => {},
            t => {
                s.append(t.as_str());
            },
        }
        s
    }

    /// Reads a grid from free text, in its canonical form or by its family.
    pub fn from_str(input: &str) -> (r: Result<Self, DggrsUidError>)
        ensures
            match parse_uid(input@) {
                Some(id) => r matches Ok(got) && got == id,
                None => r matches Err(DggrsUidError::Unknown { input: text, candidates })
                    && text@ == input@ && candidates@ == all_uids(),
            },
    {
        let norm = normalize(input);
        let mut i: usize = 0;
        while i < REGISTRY_LEN
            invariant
                i <= REGISTRY_LEN,
                norm@ == normalized(input@),
                first_named(norm@, 0) == first_named(norm@, i as int),
            decreases REGISTRY_LEN - i,
        {
            let id = DggrsUid::at(i);
            let name = chars_of(id.name().as_str());
            let tool = chars_of(id.tool().as_str());
            let canonical = to_lowercase(&append_chars(&name, &tool));
            let short = to_lowercase(&name);
            if same_chars(&norm, &canonical) || same_chars(&norm, &short) {
                return Ok(id);
            }
            i += 1;
        }
        Err(DggrsUidError::Unknown { input: input.to_owned(), candidates: candidates() })
    }
}

/// The text of a grid is made of capitals and digits: it has no white space
/// at its ends and no underscore, so normalizing it only lowers its case.
proof fn lemma_uid_text_normalized(id: DggrsUid)
    ensures
        normalized(id.text()) == lowercase(canonical_text(id)),
        id.text() == canonical_text(id),
{
    reveal_strlit("ISEA3H");
    reveal_strlit("IGEO7");
    reveal_strlit("H3");
    reveal_strlit("IVEA3H");
    reveal_strlit("IVEA9R");
    reveal_strlit("ISEA9R");
    reveal_strlit("RTEA3H");
    reveal_strlit("RTEA9R");
    reveal_strlit("DGGRID");
    reveal_strlit("DGGAL");
    reveal_strlit("H3O");
    let t = canonical_text(id);
    let n = name_of(id).text();
    let l = tool_of(id).text();
    assert forall|i: int| 0 <= i < t.len() implies !is_whitespace(#[trigger] t[i]) && t[i]
        != '_' by {
        if i < n.len() {
            assert(t[i] == n[i]);
        } else {
            assert(t[i] == l[i - n.len()]);
        }
    }
    assert(t.len() >= 5);
    lemma_trimmed_fixed(t);
    assert(normalized(t) =~= lowercase(t));
}

/// The canonical form of the grid, in lower case, names no grid before it
/// in the table.
proof fn lemma_first_named_isea3hdggrid()
    ensures
        first_named(lowercase(canonical_text(DggrsUid::ISEA3HDGGRID)), 0) == Some(DggrsUid::ISEA3HDGGRID),
{
    reveal_strlit("ISEA3H");
    reveal_strlit("IGEO7");
    reveal_strlit("H3");
    reveal_strlit("IVEA3H");
    reveal_strlit("IVEA9R");
    reveal_strlit("ISEA9R");
    reveal_strlit("RTEA3H");
    reveal_strlit("RTEA9R");
    reveal_strlit("DGGRID");
    reveal_strlit("DGGAL");
    reveal_strlit("H3O");
    reveal_with_fuel(first_named, 10);
    let norm = lowercase(canonical_text(DggrsUid::ISEA3HDGGRID));

}

/// The canonical form of the grid, in lower case, names no grid before it
/// in the table.
proof fn lemma_first_named_igeo7()
    ensures
        first_named(lowercase(canonical_text(DggrsUid::IGEO7)), 0) == Some(DggrsUid::IGEO7),
{
    reveal_strlit("ISEA3H");
    reveal_strlit("IGEO7");
    reveal_strlit("H3");
    reveal_strlit("IVEA3H");
    reveal_strlit("IVEA9R");
    reveal_strlit("ISEA9R");
    reveal_strlit("RTEA3H");
    reveal_strlit("RTEA9R");
    reveal_strlit("DGGRID");
    reveal_strlit("DGGAL");
    reveal_strlit("H3O");
    reveal_with_fuel(first_named, 10);
    let norm = lowercase(canonical_text(DggrsUid::IGEO7));
    assert(norm.len() != lowercase(canonical_text(DggrsUid::ISEA3HDGGRID)).len());
    assert(norm.len() != lowercase(name_of(DggrsUid::ISEA3HDGGRID).text()).len());
}

/// The canonical form of the grid, in lower case, names no grid before it
/// in the table.
proof fn lemma_first_named_h3()
    ensures
        first_named(lowercase(canonical_text(DggrsUid::H3)), 0) == Some(DggrsUid::H3),
{
    reveal_strlit("ISEA3H");
    reveal_strlit("IGEO7");
    reveal_strlit("H3");
    reveal_strlit("IVEA3H");
    reveal_strlit("IVEA9R");
    reveal_strlit("ISEA9R");
    reveal_strlit("RTEA3H");
    reveal_strlit("RTEA9R");
    reveal_strlit("DGGRID");
    reveal_strlit("DGGAL");
    reveal_strlit("H3O");
    reveal_with_fuel(first_named, 10);
    let norm = lowercase(canonical_text(DggrsUid::H3));
    assert(norm.len() != lowercase(canonical_text(DggrsUid::ISEA3HDGGRID)).len());
    assert(norm.len() != lowercase(name_of(DggrsUid::ISEA3HDGGRID).text()).len());
    assert(norm.len() != lowercase(canonical_text(DggrsUid::IGEO7)).len());
    assert(norm[0] != lowercase(name_of(DggrsUid::IGEO7).text())[0]);
}

/// The canonical form of the grid, in lower case, names no grid before it
/// in the table.
proof fn lemma_first_named_isea3hdggal()
    ensures
        first_named(lowercase(canonical_text(DggrsUid::ISEA3HDGGAL)), 0) == Some(DggrsUid::ISEA3HDGGAL),
{
    reveal_strlit("ISEA3H");
    reveal_strlit("IGEO7");
    reveal_strlit("H3");
    reveal_strlit("IVEA3H");
    reveal_strlit("IVEA9R");
    reveal_strlit("ISEA9R");
    reveal_strlit("RTEA3H");
    reveal_strlit("RTEA9R");
    reveal_strlit("DGGRID");
    reveal_strlit("DGGAL");
    reveal_strlit("H3O");
    reveal_with_fuel(first_named, 10);
    let norm = lowercase(canonical_text(DggrsUid::ISEA3HDGGAL));
    assert(norm.len() != lowercase(canonical_text(DggrsUid::ISEA3HDGGRID)).len());
    assert(norm.len() != lowercase(name_of(DggrsUid::ISEA3HDGGRID).text()).len());
    assert(norm[1] != lowercase(canonical_text(DggrsUid::IGEO7))[1]);
    assert(norm.len() != lowercase(name_of(DggrsUid::IGEO7).text()).len());
    assert(norm.len() != lowercase(canonical_text(DggrsUid::H3)).len());
    assert(norm.len() != lowercase(name_of(DggrsUid::H3).text()).len());
}

/// The canonical form of the grid, in lower case, names no grid before it
/// in the table.
proof fn lemma_first_named_ivea3h()
    ensures
        first_named(lowercase(canonical_text(DggrsUid::IVEA3H)), 0) == Some(DggrsUid::IVEA3H),
{
    reveal_strlit("ISEA3H");
    reveal_strlit("IGEO7");
    reveal_strlit("H3");
    reveal_strlit("IVEA3H");
    reveal_strlit("IVEA9R");
    reveal_strlit("ISEA9R");
    reveal_strlit("RTEA3H");
    reveal_strlit("RTEA9R");
    reveal_strlit("DGGRID");
    reveal_strlit("DGGAL");
    reveal_strlit("H3O");
    reveal_with_fuel(first_named, 10);
    let norm = lowercase(canonical_text(DggrsUid::IVEA3H));
    assert(norm.len() != lowercase(canonical_text(DggrsUid::ISEA3HDGGRID)).len());
    assert(norm.len() != lowercase(name_of(DggrsUid::ISEA3HDGGRID).text()).len());
    assert(norm[1] != lowercase(canonical_text(DggrsUid::IGEO7))[1]);
    assert(norm.len() != lowercase(name_of(DggrsUid::IGEO7).text()).len());
    assert(norm.len() != lowercase(canonical_text(DggrsUid::H3)).len());
    assert(norm.len() != lowercase(name_of(DggrsUid::H3).text()).len());
    assert(norm[1] != lowercase(canonical_text(DggrsUid::ISEA3HDGGAL))[1]);
    assert(norm.len() != lowercase(name_of(DggrsUid::ISEA3HDGGAL).text()).len());
}

/// The canonical form of the grid, in lower case, names no grid before it
/// in the table.
proof fn lemma_first_named_isea9r()
    ensures
        first_named(lowercase(canonical_text(DggrsUid::ISEA9R)), 0) == Some(DggrsUid::ISEA9R),
{
    reveal_strlit("ISEA3H");
    reveal_strlit("IGEO7");
    reveal_strlit("H3");
    reveal_strlit("IVEA3H");
    reveal_strlit("IVEA9R");
    reveal_strlit("ISEA9R");
    reveal_strlit("RTEA3H");
    reveal_strlit("RTEA9R");
    reveal_strlit("DGGRID");
    reveal_strlit("DGGAL");
    reveal_strlit("H3O");
    reveal_with_fuel(first_named, 10);
    let norm = lowercase(canonical_text(DggrsUid::ISEA9R));
    assert(norm.len() != lowercase(canonical_text(DggrsUid::ISEA3HDGGRID)).len());
    assert(norm.len() != lowercase(name_of(DggrsUid::ISEA3HDGGRID).text()).len());
    assert(norm[1] != lowercase(canonical_text(DggrsUid::IGEO7))[1]);
    assert(norm.len() != lowercase(name_of(DggrsUid::IGEO7).text()).len());
    assert(norm.len() != lowercase(canonical_text(DggrsUid::H3)).len());
    assert(norm.len() != lowercase(name_of(DggrsUid::H3).text()).len());
    assert(norm[4] != lowercase(canonical_text(DggrsUid::ISEA3HDGGAL))[4]);
    assert(norm.len() != lowercase(name_of(DggrsUid::ISEA3HDGGAL).text()).len());
    assert(norm[1] != lowercase(canonical_text(DggrsUid::IVEA3H))[1]);
    assert(norm.len() != lowercase(name_of(DggrsUid::IVEA3H).text()).len());
}

/// The canonical form of the grid, in lower case, names no grid before it
/// in the table.
proof fn lemma_first_named_ivea9r()
    ensures
        first_named(lowercase(canonical_text(DggrsUid::IVEA9R)), 0) == Some(DggrsUid::IVEA9R),
{
    reveal_strlit("ISEA3H");
    reveal_strlit("IGEO7");
    reveal_strlit("H3");
    reveal_strlit("IVEA3H");
    reveal_strlit("IVEA9R");
    reveal_strlit("ISEA9R");
    reveal_strlit("RTEA3H");
    reveal_strlit("RTEA9R");
    reveal_strlit("DGGRID");
    reveal_strlit("DGGAL");
    reveal_strlit("H3O");
    reveal_with_fuel(first_named, 10);
    let norm = lowercase(canonical_text(DggrsUid::IVEA9R));
    assert(norm.len() != lowercase(canonical_text(DggrsUid::ISEA3HDGGRID)).len());
    assert(norm.len() != lowercase(name_of(DggrsUid::ISEA3HDGGRID).text()).len());
    assert(norm[1] != lowercase(canonical_text(DggrsUid::IGEO7))[1]);
    assert(norm.len() != lowercase(name_of(DggrsUid::IGEO7).text()).len());
    assert(norm.len() != lowercase(canonical_text(DggrsUid::H3)).len());
    assert(norm.len() != lowercase(name_of(DggrsUid::H3).text()).len());
    assert(norm[1] != lowercase(canonical_text(DggrsUid::ISEA3HDGGAL))[1]);
    assert(norm.len() != lowercase(name_of(DggrsUid::ISEA3HDGGAL).text()).len());
    assert(norm[4] != lowercase(canonical_text(DggrsUid::IVEA3H))[4]);
    assert(norm.len() != lowercase(name_of(DggrsUid::IVEA3H).text()).len());
    assert(norm[1] != lowercase(canonical_text(DggrsUid::ISEA9R))[1]);
    assert(norm.len() != lowercase(name_of(DggrsUid::ISEA9R).text()).len());
}

/// The canonical form of the grid, in lower case, names no grid before it
/// in the table.
proof fn lemma_first_named_rtea3h()
    ensures
        first_named(lowercase(canonical_text(DggrsUid::RTEA3H)), 0) == Some(DggrsUid::RTEA3H),
{
    reveal_strlit("ISEA3H");
    reveal_strlit("IGEO7");
    reveal_strlit("H3");
    reveal_strlit("IVEA3H");
    reveal_strlit("IVEA9R");
    reveal_strlit("ISEA9R");
    reveal_strlit("RTEA3H");
    reveal_strlit("RTEA9R");
    reveal_strlit("DGGRID");
    reveal_strlit("DGGAL");
    reveal_strlit("H3O");
    reveal_with_fuel(first_named, 10);
    let norm = lowercase(canonical_text(DggrsUid::RTEA3H));
    assert(norm.len() != lowercase(canonical_text(DggrsUid::ISEA3HDGGRID)).len());
    assert(norm.len() != lowercase(name_of(DggrsUid::ISEA3HDGGRID).text()).len());
    assert(norm[0] != lowercase(canonical_text(DggrsUid::IGEO7))[0]);
    assert(norm.len() != lowercase(name_of(DggrsUid::IGEO7).text()).len());
    assert(norm.len() != lowercase(canonical_text(DggrsUid::H3)).len());
    assert(norm.len() != lowercase(name_of(DggrsUid::H3).text()).len());
    assert(norm[0] != lowercase(canonical_text(DggrsUid::ISEA3HDGGAL))[0]);
    assert(norm.len() != lowercase(name_of(DggrsUid::ISEA3HDGGAL).text()).len());
    assert(norm[0] != lowercase(canonical_text(DggrsUid::IVEA3H))[0]);
    assert(norm.len() != lowercase(name_of(DggrsUid::IVEA3H).text()).len());
    assert(norm[0] != lowercase(canonical_text(DggrsUid::ISEA9R))[0]);
    assert(norm.len() != lowercase(name_of(DggrsUid::ISEA9R).text()).len());
    assert(norm[0] != lowercase(canonical_text(DggrsUid::IVEA9R))[0]);
    assert(norm.len() != lowercase(name_of(DggrsUid::IVEA9R).text()).len());
}

/// The canonical form of the grid, in lower case, names no grid before it
/// in the table.
proof fn lemma_first_named_rtea9r()
    ensures
        first_named(lowercase(canonical_text(DggrsUid::RTEA9R)), 0) == Some(DggrsUid::RTEA9R),
{
    reveal_strlit("ISEA3H");
    reveal_strlit("IGEO7");
    reveal_strlit("H3");
    reveal_strlit("IVEA3H");
    reveal_strlit("IVEA9R");
    reveal_strlit("ISEA9R");
    reveal_strlit("RTEA3H");
    reveal_strlit("RTEA9R");
    reveal_strlit("DGGRID");
    reveal_strlit("DGGAL");
    reveal_strlit("H3O");
    reveal_with_fuel(first_named, 10);
    let norm = lowercase(canonical_text(DggrsUid::RTEA9R));
    assert(norm.len() != lowercase(canonical_text(DggrsUid::ISEA3HDGGRID)).len());
    assert(norm.len() != lowercase(name_of(DggrsUid::ISEA3HDGGRID).text()).len());
    assert(norm[0] != lowercase(canonical_text(DggrsUid::IGEO7))[0]);
    assert(norm.len() != lowercase(name_of(DggrsUid::IGEO7).text()).len());
    assert(norm.len() != lowercase(canonical_text(DggrsUid::H3)).len());
    assert(norm.len() != lowercase(name_of(DggrsUid::H3).text()).len());
    assert(norm[0] != lowercase(canonical_text(DggrsUid::ISEA3HDGGAL))[0]);
    assert(norm.len() != lowercase(name_of(DggrsUid::ISEA3HDGGAL).text()).len());
    assert(norm[0] != lowercase(canonical_text(DggrsUid::IVEA3H))[0]);
    assert(norm.len() != lowercase(name_of(DggrsUid::IVEA3H).text()).len());
    assert(norm[0] != lowercase(canonical_text(DggrsUid::ISEA9R))[0]);
    assert(norm.len() != lowercase(name_of(DggrsUid::ISEA9R).text()).len());
    assert(norm[0] != lowercase(canonical_text(DggrsUid::IVEA9R))[0]);
    assert(norm.len() != lowercase(name_of(DggrsUid::IVEA9R).text()).len());
    assert(norm[4] != lowercase(canonical_text(DggrsUid::RTEA3H))[4]);
    assert(norm.len() != lowercase(name_of(DggrsUid::RTEA3H).text()).len());
}

/// Writing a grid out and reading the text back gives the grid.
pub proof fn law_uid_text_round_trip(id: DggrsUid)
    ensures
        parse_uid(id.text()) == Some(id),
{
    lemma_uid_text_normalized(id);
    match id {
        DggrsUid::ISEA3HDGGRID => lemma_first_named_isea3hdggrid(),
        DggrsUid::IGEO7 => lemma_first_named_igeo7(),
        DggrsUid::H3 => lemma_first_named_h3(),
        DggrsUid::ISEA3HDGGAL => lemma_first_named_isea3hdggal(),
        DggrsUid::IVEA3H => lemma_first_named_ivea3h(),
        DggrsUid::ISEA9R => lemma_first_named_isea9r(),
        DggrsUid::IVEA9R => lemma_first_named_ivea9r(),
        DggrsUid::RTEA3H => lemma_first_named_rtea3h(),
        DggrsUid::RTEA9R => lemma_first_named_rtea9r(),
    }
}

impl std::str::FromStr for DggrsUid {
    type Err = DggrsUidError;

    /// Reads a grid from free text, as the function of the same name of
    /// `DggrsUid` does.
    fn from_str(input: &str) -> (r: Result<Self, DggrsUidError>)
        ensures
            match parse_uid(input@) {
                Some(id) => r matches Ok(got) && got == id,
                None => r matches Err(DggrsUidError::Unknown { input: text, candidates })
                    && text@ == input@ && candidates@ == all_uids(),
            },
    {
        DggrsUid::from_str(input)
    }
}

/// The table of grids, in its fixed order.
pub fn registry() -> (table: Vec<DggrsSpec>)
    ensures
        table@.len() == REGISTRY_LEN,
        forall|i: int| 0 <= i < REGISTRY_LEN ==> (#[trigger] table@[i])@ == registry_entry(uid_at(i)),
{
    let mut table: Vec<DggrsSpec> = Vec::new();
    let mut i: usize = 0;
    while i < REGISTRY_LEN
        invariant
            i <= REGISTRY_LEN,
            table@.len() == i,
            forall|j: int| 0 <= j < i ==> (#[trigger] table@[j])@ == registry_entry(uid_at(j)),
        decreases REGISTRY_LEN - i,
    {
        table.push(DggrsUid::at(i).spec());
        i += 1;
    }
    table
}

} // verus!
