//! The aperture 3 hexagonal grid of the batch executable, with identifiers in
//! the packed form Z3.
use crate::error::{DggridError, GeoPlegmaError};
use crate::models::{RefinementLevel, RelativeDepth, ZoneId, ZoneIdView};
use crate::text::hex_value;
use crate::adapters::dggrid::dggrid::{
    bbox_plan, id_plan, parent_plan, point_plan, DggridAdapter,
};
use crate::adapters::dggrid::request::{
    grid_directives, push_grid_directives, DggridGrid, DggridRequest,
};
use crate::geometry::{Point, Rect};
use crate::ports::{effective, DggrsPortConfig};
use crate::registry::{registry_entry, DggrsUid};
use vstd::prelude::*;

verus! {

/// The number of digits that a Z3 identifier holds.
pub const Z3_DIGITS: u64 = 30;

/// The digit that fills a Z3 identifier beyond its resolution.
pub const Z3_PADDING: u64 = 3;

/// The greatest number of a base cell.
pub const MAX_BASE_CELL: u64 = 11;

/// The number of the base cell: the top four bits of the identifier.
pub open spec fn base_cell_of(v: u64) -> u64 {
    v >> 60
}

/// The digit at place `i` of a Z3 identifier, for `i` from 0 to 29: two bits
/// each, the first digit in the bits 59 and 58.
pub open spec fn z3_digit(v: u64, i: int) -> u64 {
    (v >> ((58 - 2 * i) as u64)) & 3
}

/// The first place from `i` on that holds the padding digit, or 30.
pub open spec fn z3_first_padding(v: u64, i: int) -> int
    decreases 30 - i,
{
    if i < 0 || i >= 30 {
        30
    } else if z3_digit(v, i) == 3 {
        i
    } else {
        z3_first_padding(v, i + 1)
    }
}

/// The resolution that a Z3 identifier encodes: the place of its first
/// padding digit, or 30 where it holds none.
pub open spec fn z3_level(v: u64) -> int {
    z3_first_padding(v, 0)
}

/// From `i` on, the first padding digit is at the place found, and no place
/// before it holds one.
pub proof fn lemma_z3_first_padding(v: u64, i: int)
    requires
        0 <= i <= 30,
    ensures
        i <= z3_first_padding(v, i) <= 30,
        forall|j: int| i <= j < z3_first_padding(v, i) ==> z3_digit(v, j) != 3,
        z3_first_padding(v, i) < 30 ==> z3_digit(v, z3_first_padding(v, i)) == 3,
    decreases 30 - i,
{
    if i < 30 && z3_digit(v, i) != 3 {
        lemma_z3_first_padding(v, i + 1);
    }
}

/// The resolution `l` of a Z3 identifier is the one number from 0 to 30 such
/// that no digit before place `l` is the padding digit and, for `l` below 30,
/// the digit at place `l` is.
pub proof fn law_z3_level(v: u64, l: int)
    requires
        0 <= l <= 30,
        forall|j: int| 0 <= j < l ==> z3_digit(v, j) != 3,
        l < 30 ==> z3_digit(v, l) == 3,
    ensures
        z3_level(v) == l,
{
    lemma_z3_first_padding(v, 0);
    let found = z3_level(v);
    if found < l {
        assert(z3_digit(v, found) != 3);
    } else if found > l {
        assert(z3_digit(v, l) != 3);
    }
}

/// An identifier whose first ten digits are 0, 1, 2, 0, 1, 2, 0, 1, 2 and
/// then the padding digit encodes the resolution 9.
pub proof fn law_z3_nine_digits(v: u64)
    requires
        z3_digit(v, 0) == 0,
        z3_digit(v, 1) == 1,
        z3_digit(v, 2) == 2,
        z3_digit(v, 3) == 0,
        z3_digit(v, 4) == 1,
        z3_digit(v, 5) == 2,
        z3_digit(v, 6) == 0,
        z3_digit(v, 7) == 1,
        z3_digit(v, 8) == 2,
        z3_digit(v, 9) == 3,
    ensures
        z3_level(v) == 9,
{
    law_z3_level(v, 9);
}

/// The resolution that a packed Z3 number encodes.
pub fn z3_level_of(v: u64) -> (level: u8)
    ensures
        level == z3_level(v),
        level <= 30,
{
    let mut i: u64 = 0;
    while i < Z3_DIGITS
        invariant
            i <= 30,
            z3_level(v) == z3_first_padding(v, i as int),
        decreases 30 - i,
    {
        let shift: u64 = 58 - 2 * i;
        let digit = (v >> shift) & 3;
        if digit == Z3_PADDING {
            return i as u8;
        }
        i += 1;
    }
    30
}

/// What decoding a zone identifier as Z3 gives: the resolution, for a
/// hexadecimal code whose base cell is at most 11.
pub open spec fn z3_decoded(id: ZoneIdView) -> Option<int> {
    match id {
        ZoneIdView::HexId(h) => if base_cell_of(hex_value(h) as u64) <= MAX_BASE_CELL {
            Some(z3_level(hex_value(h) as u64))
        } else {
            None
        },
        _ => None,
    }
}

/// Reads the resolution out of a Z3 identifier. An identifier that is no
/// hexadecimal code, or whose base cell is above 11, is a format error.
pub fn get_refinement_level_from_z3_zone_id(dggrid_z3_id: &ZoneId) -> (r: Result<
    RefinementLevel,
    GeoPlegmaError,
>)
    ensures
        match z3_decoded(dggrid_z3_id@) {
            Some(l) => r matches Ok(level) && level@ == l,
            None => r matches Err(GeoPlegmaError::Dggrid(DggridError::InvalidZ3Format(_))),
        },
{
    let hex = match dggrid_z3_id.as_hex() {
        Some(h) => h,
        None => {
            return Err(
                GeoPlegmaError::Dggrid(
                    DggridError::InvalidZ3Format("Expected ZoneId::HexId".to_owned()),
                ),
            );
        },
    };
    let v = hex.value();
    if (v >> 60) > MAX_BASE_CELL {
        return Err(
            GeoPlegmaError::Dggrid(
                DggridError::InvalidZ3Format("Invalid base cell (>11)".to_owned()),
            ),
        );
    }
    Ok(RefinementLevel::from_u8(z3_level_of(v)))
}

/// The adapter of the aperture 3 grid of the batch executable.
#[derive(Debug, Clone)]
pub struct Isea3hImpl {
    pub adapter: DggridAdapter,
}

impl Isea3hImpl {
    /// An adapter for the executable at `executable`, with its files in `workdir`.
    pub fn new(executable: String, workdir: String) -> (r: Self)
        ensures
            r.adapter.executable == executable,
            r.adapter.workdir == workdir,
    {
        Isea3hImpl { adapter: DggridAdapter::new(executable, workdir) }
    }

    /// The request for the zones at `refinement_level` in `bbox`, or on the
    /// whole earth.
    pub fn plan_zones_from_bbox(
        &self,
        refinement_level: RefinementLevel,
        bbox: Option<Rect>,
        config: Option<DggrsPortConfig>,
    ) -> (r: Result<DggridRequest, GeoPlegmaError>)
        ensures
            bbox_plan(
                r,
                DggridGrid::Isea3h,
                self.adapter.workdir@,
                refinement_level,
                bbox,
                effective(config),
            ),
    {
        self.adapter.plan_zones_from_bbox(DggridGrid::Isea3h, refinement_level, bbox, config)
    }

    /// The request for the zone at `refinement_level` that holds `point`.
    pub fn plan_zone_from_point(
        &self,
        refinement_level: RefinementLevel,
        point: Point,
        config: Option<DggrsPortConfig>,
    ) -> (r: Result<DggridRequest, GeoPlegmaError>)
        ensures
            point_plan(
                r,
                DggridGrid::Isea3h,
                self.adapter.workdir@,
                refinement_level,
                point,
                effective(config),
            ),
    {
        self.adapter.plan_zone_from_point(DggridGrid::Isea3h, refinement_level, point, config)
    }

    /// The request for the descendants of `parent_zone_id` that lie
    /// `relative_depth` below it.
    pub fn plan_zones_from_parent(
        &self,
        relative_depth: RelativeDepth,
        parent_zone_id: &ZoneId,
        config: Option<DggrsPortConfig>,
    ) -> (r: Result<DggridRequest, GeoPlegmaError>)
        ensures
            parent_plan(
                r,
                DggridGrid::Isea3h,
                self.adapter.workdir@,
                relative_depth,
                parent_zone_id@,
                effective(config),
            ),
    {
        self.adapter.plan_zones_from_parent(
            DggridGrid::Isea3h,
            relative_depth,
            parent_zone_id,
            config,
        )
    }

    /// The request for the zone that `zone_id` names.
    pub fn plan_zone_from_id(&self, zone_id: &ZoneId, config: Option<DggrsPortConfig>) -> (r:
        Result<DggridRequest, GeoPlegmaError>)
        ensures
            id_plan(r, DggridGrid::Isea3h, self.adapter.workdir@, zone_id@, effective(config)),
    {
        self.adapter.plan_zone_from_id(DggridGrid::Isea3h, zone_id, config)
    }

    /// The least refinement level of the grid.
    pub fn min_refinement_level(&self) -> (r: Result<RefinementLevel, GeoPlegmaError>)
        ensures
            r matches Ok(l) && l@ == registry_entry(DggrsUid::ISEA3HDGGRID).min_refinement_level,
    {
        Ok(DggrsUid::ISEA3HDGGRID.spec().min_refinement_level)
    }

    /// The greatest refinement level of the grid.
    pub fn max_refinement_level(&self) -> (r: Result<RefinementLevel, GeoPlegmaError>)
        ensures
            r matches Ok(l) && l@ == registry_entry(DggrsUid::ISEA3HDGGRID).max_refinement_level,
    {
        Ok(DggrsUid::ISEA3HDGGRID.spec().max_refinement_level)
    }

    /// The refinement level that a query uses where none is chosen.
    pub fn default_refinement_level(&self) -> (r: Result<RefinementLevel, GeoPlegmaError>)
        ensures
            r matches Ok(l) && l@ == registry_entry(DggrsUid::ISEA3HDGGRID).default_refinement_level,
    {
        Ok(DggrsUid::ISEA3HDGGRID.spec().default_refinement_level)
    }

    /// The greatest relative depth of the grid.
    pub fn max_relative_depth(&self) -> (r: Result<RelativeDepth, GeoPlegmaError>)
        ensures
            r matches Ok(d) && d@ == registry_entry(DggrsUid::ISEA3HDGGRID).max_relative_depth,
    {
        Ok(DggrsUid::ISEA3HDGGRID.spec().max_relative_depth)
    }

    /// The relative depth that a query uses where none is chosen.
    pub fn default_relative_depth(&self) -> (r: Result<RelativeDepth, GeoPlegmaError>)
        ensures
            r matches Ok(d) && d@ == registry_entry(DggrsUid::ISEA3HDGGRID).default_relative_depth,
    {
        Ok(DggrsUid::ISEA3HDGGRID.spec().default_relative_depth)
    }
}

impl Default for Isea3hImpl {
    /// The adapter for the executable `dggrid` on the search path, with its
    /// files in `/tmp`.
    fn default() -> (r: Self)
        ensures
            r.adapter.executable@ == "dggrid"@,
            r.adapter.workdir@ == "/tmp"@,
    {
        Isea3hImpl::new("dggrid".to_owned(), "/tmp".to_owned())
    }
}

/// Adds the directives that name the aperture 3 grid to a file of directives.
pub fn isea3h_metafile(text: &mut String)
    ensures
        final(text)@ == old(text)@ + grid_directives(DggridGrid::Isea3h),
{
    push_grid_directives(text, DggridGrid::Isea3h);
}

} // verus!
