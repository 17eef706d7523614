//! The aperture 7 hexagonal grid of the batch executable, with identifiers in
//! the packed form Z7.
use crate::adapters::dggrid::isea3h::{base_cell_of, MAX_BASE_CELL};
use crate::error::{join3, GeoPlegmaError};
use crate::models::{RefinementLevel, RelativeDepth, ZoneId};
use crate::text::{chars_of, decimal_of, parse_hex, parse_hex_spec, string_of};
use crate::adapters::dggrid::dggrid::{
    bbox_plan, id_plan, parent_plan, point_plan, DggridAdapter,
};
use crate::adapters::dggrid::request::{
    grid_directives, push_grid_directives, DggridGrid, DggridRequest,
};
use crate::geometry::{Point, Rect};
use crate::ports::{effective, DggrsPortConfig};
use crate::registry::{registry_entry, DggrsUid};
use vstd::prelude::*;

verus! {

/// The number of digits that a Z7 identifier holds.
pub const Z7_DIGITS: u64 = 20;

/// The digit that fills a Z7 identifier beyond its resolution.
pub const Z7_PADDING: u64 = 7;

/// The digit at place `i` of a Z7 identifier, for `i` from 0 to 19: three
/// bits each, the first digit in the bits 59 to 57.
pub open spec fn z7_digit(v: u64, i: int) -> u64 {
    (v >> ((57 - 3 * i) as u64)) & 7
}

/// The first place from `i` on that holds the padding digit, or 20.
pub open spec fn z7_first_padding(v: u64, i: int) -> int
    decreases 20 - i,
{
    if i < 0 || i >= 20 {
        20
    } else if z7_digit(v, i) == 7 {
        i
    } else {
        z7_first_padding(v, i + 1)
    }
}

/// The resolution that a Z7 identifier encodes: the place of its first
/// padding digit, or 20 where it holds none.
pub open spec fn z7_level(v: u64) -> int {
    z7_first_padding(v, 0)
}

/// From `i` on, the first padding digit is at the place found, and no place
/// before it holds one.
pub proof fn lemma_z7_first_padding(v: u64, i: int)
    requires
        0 <= i <= 20,
    ensures
        i <= z7_first_padding(v, i) <= 20,
        forall|j: int| i <= j < z7_first_padding(v, i) ==> z7_digit(v, j) != 7,
        z7_first_padding(v, i) < 20 ==> z7_digit(v, z7_first_padding(v, i)) == 7,
    decreases 20 - i,
{
    if i < 20 && z7_digit(v, i) != 7 {
        lemma_z7_first_padding(v, i + 1);
    }
}

/// The resolution `l` of a Z7 identifier is the one number from 0 to 20 such
/// that no digit before place `l` is the padding digit and, for `l` below 20,
/// the digit at place `l` is.
pub proof fn law_z7_level(v: u64, l: int)
    requires
        0 <= l <= 20,
        forall|j: int| 0 <= j < l ==> z7_digit(v, j) != 7,
        l < 20 ==> z7_digit(v, l) == 7,
    ensures
        z7_level(v) == l,
{
    lemma_z7_first_padding(v, 0);
    let found = z7_level(v);
    if found < l {
        assert(z7_digit(v, found) != 7);
    } else if found > l {
        assert(z7_digit(v, l) != 7);
    }
}

/// The resolution that a packed Z7 number encodes.
pub fn z7_level_of(v: u64) -> (level: u8)
    ensures
        level == z7_level(v),
        level <= 20,
{
    let mut i: u64 = 0;
    while i < Z7_DIGITS
        invariant
            i <= 20,
            z7_level(v) == z7_first_padding(v, i as int),
        decreases 20 - i,
    {
        let shift: u64 = 57 - 3 * i;
        let digit = (v >> shift) & 7;
        if digit == Z7_PADDING {
            return i as u8;
        }
        i += 1;
    }
    20
}

/// `s` without a leading `0x` or `0X`.
pub open spec fn without_hex_prefix(s: Seq<char>) -> Seq<char> {
    if s.len() >= 2 && s[0] == '0' && (s[1] == 'x' || s[1] == 'X') {
        s.skip(2)
    } else {
        s
    }
}

/// What decoding a text as Z7 gives: the resolution, for a hexadecimal
/// numeral of 64 bits, with or without `0x` before it, whose base cell is at
/// most 11.
pub open spec fn z7_decoded(s: Seq<char>) -> Option<int> {
    match parse_hex_spec(without_hex_prefix(s)) {
        Some(v) => if base_cell_of(v) <= MAX_BASE_CELL {
            Some(z7_level(v))
        } else {
            None
        },
        None => None,
    }
}

/// Reads the resolution out of a Z7 identifier. A text that is no
/// hexadecimal numeral of 64 bits, or whose base cell is above 11, is a
/// format error.
pub fn get_refinement_level_from_z7_zone_id(dggrid_z7_id: &str) -> (r: Result<u8, String>)
    ensures
        match z7_decoded(dggrid_z7_id@) {
            Some(l) => r matches Ok(level) && level == l,
            None => r is Err,
        },
{
    let all = chars_of(dggrid_z7_id);
    let mut digits: Vec<char> = Vec::new();
    let start: usize = if all.len() >= 2 && all[0] == '0' && (all[1] == 'x' || all[1] == 'X') {
        2
    } else {
        0
    };
    let mut i: usize = start;
    while i < all.len()
        invariant
            start <= i <= all.len(),
            digits@ == all@.subrange(start as int, i as int),
        decreases all.len() - i,
    {
        digits.push(all[i]);
        i += 1;
    }
    assert(digits@ =~= without_hex_prefix(dggrid_z7_id@));
    let v = match parse_hex(&digits) {
        Some(v) => v,
        None => {
            return Err("Invalid hex for Z7 INT64".to_owned());
        },
    };
    let base_cell = v >> 60;
    if base_cell > MAX_BASE_CELL {
        let number = string_of(&decimal_of(base_cell));
        return Err(join3("Invalid base cell ", number.as_str(), " (>11)"));
    }
    Ok(z7_level_of(v))
}

/// The adapter of the aperture 7 grid of the batch executable.
#[derive(Debug, Clone)]
pub struct Igeo7Impl {
    pub adapter: DggridAdapter,
}

impl Igeo7Impl {
    /// An adapter for the executable at `executable`, with its files in `workdir`.
    pub fn new(executable: String, workdir: String) -> (r: Self)
        ensures
            r.adapter.executable == executable,
            r.adapter.workdir == workdir,
    {
        Igeo7Impl { adapter: DggridAdapter::new(executable, workdir) }
    }

    /// The request for the zones at `refinement_level` in `bbox`, or on the
    /// whole earth.
    pub fn plan_zones_from_bbox(
        &self,
        refinement_level: RefinementLevel,
        bbox: Option<Rect>,
        config: Option<DggrsPortConfig>,
    ) -> (r: Result<DggridRequest, GeoPlegmaError>)
        ensures
            bbox_plan(
                r,
                DggridGrid::Igeo7,
                self.adapter.workdir@,
                refinement_level,
                bbox,
                effective(config),
            ),
    {
        self.adapter.plan_zones_from_bbox(DggridGrid::Igeo7, refinement_level, bbox, config)
    }

    /// The request for the zone at `refinement_level` that holds `point`.
    pub fn plan_zone_from_point(
        &self,
        refinement_level: RefinementLevel,
        point: Point,
        config: Option<DggrsPortConfig>,
    ) -> (r: Result<DggridRequest, GeoPlegmaError>)
        ensures
            point_plan(
                r,
                DggridGrid::Igeo7,
                self.adapter.workdir@,
                refinement_level,
                point,
                effective(config),
            ),
    {
        self.adapter.plan_zone_from_point(DggridGrid::Igeo7, refinement_level, point, config)
    }

    /// The request for the descendants of `parent_zone_id` that lie
    /// `relative_depth` below it.
    pub fn plan_zones_from_parent(
        &self,
        relative_depth: RelativeDepth,
        parent_zone_id: &ZoneId,
        config: Option<DggrsPortConfig>,
    ) -> (r: Result<DggridRequest, GeoPlegmaError>)
        ensures
            parent_plan(
                r,
                DggridGrid::Igeo7,
                self.adapter.workdir@,
                relative_depth,
                parent_zone_id@,
                effective(config),
            ),
    {
        self.adapter.plan_zones_from_parent(
            DggridGrid::Igeo7,
            relative_depth,
            parent_zone_id,
            config,
        )
    }

    /// The request for the zone that `zone_id` names.
    pub fn plan_zone_from_id(&self, zone_id: &ZoneId, config: Option<DggrsPortConfig>) -> (r:
        Result<DggridRequest, GeoPlegmaError>)
        ensures
            id_plan(r, DggridGrid::Igeo7, self.adapter.workdir@, zone_id@, effective(config)),
    {
        self.adapter.plan_zone_from_id(DggridGrid::Igeo7, zone_id, config)
    }

    /// The least refinement level of the grid.
    pub fn min_refinement_level(&self) -> (r: Result<RefinementLevel, GeoPlegmaError>)
        ensures
            r matches Ok(l) && l@ == registry_entry(DggrsUid::IGEO7).min_refinement_level,
    {
        Ok(DggrsUid::IGEO7.spec().min_refinement_level)
    }

    /// The greatest refinement level of the grid.
    pub fn max_refinement_level(&self) -> (r: Result<RefinementLevel, GeoPlegmaError>)
        ensures
            r matches Ok(l) && l@ == registry_entry(DggrsUid::IGEO7).max_refinement_level,
    {
        Ok(DggrsUid::IGEO7.spec().max_refinement_level)
    }

    /// The refinement level that a query uses where none is chosen.
    pub fn default_refinement_level(&self) -> (r: Result<RefinementLevel, GeoPlegmaError>)
        ensures
            r matches Ok(l) && l@ == registry_entry(DggrsUid::IGEO7).default_refinement_level,
    {
        Ok(DggrsUid::IGEO7.spec().default_refinement_level)
    }

    /// The greatest relative depth of the grid.
    pub fn max_relative_depth(&self) -> (r: Result<RelativeDepth, GeoPlegmaError>)
        ensures
            r matches Ok(d) && d@ == registry_entry(DggrsUid::IGEO7).max_relative_depth,
    {
        Ok(DggrsUid::IGEO7.spec().max_relative_depth)
    }

    /// The relative depth that a query uses where none is chosen.
    pub fn default_relative_depth(&self) -> (r: Result<RelativeDepth, GeoPlegmaError>)
        ensures
            r matches Ok(d) && d@ == registry_entry(DggrsUid::IGEO7).default_relative_depth,
    {
        Ok(DggrsUid::IGEO7.spec().default_relative_depth)
    }
}

impl Default for Igeo7Impl {
    /// The adapter for the executable `dggrid` on the search path, with its
    /// files in `/tmp`.
    fn default() -> (r: Self)
        ensures
            r.adapter.executable@ == "dggrid"@,
            r.adapter.workdir@ == "/tmp"@,
    {
        Igeo7Impl::new("dggrid".to_owned(), "/tmp".to_owned())
    }
}

/// Adds the directives that name the aperture 7 grid to a file of directives.
pub fn igeo7_metafile(text: &mut String)
    ensures
        final(text)@ == old(text)@ + grid_directives(DggridGrid::Igeo7),
{
    push_grid_directives(text, DggridGrid::Igeo7);
}

} // verus!
