//! The queries of the port on the hexagonal grid.
use crate::adapters::h3o::common::{
    all_cells_at, base_cell_index, base_cells, cell_at, cell_children, cell_from_text,
    cell_resolution, cover, h3_cell, h3_cell_at, h3_cell_of_text, h3_children, h3_cover,
    lemma_zones_given, refinement_level_to_h3_resolution, resolution_of, to_zones,
    zones_of_cells, BASE_CELL_COUNT, MAX_DESCENT, MAX_RESOLUTION,
};
use crate::error::{GeoPlegmaError, H3oError};
use crate::geometry::{Point, Rect};
use crate::models::{RefinementLevel, RelativeDepth, ZoneId, Zones};
use crate::ports::{
    depth_limit_error, effective, is_sum_limit_error, level_limit_error, sum_limit_error,
    DggrsPort, DggrsPortConfig,
};
use crate::registry::{registry_entry, DggrsUid};
use vstd::prelude::*;

verus! {

/// The adapter of the hexagonal grid. It holds no state beyond its grid.
#[derive(Debug, Clone, Copy)]
pub struct H3Impl {
    id: DggrsUid,
}

/// The cells at resolution `res` below the first `n` cells of resolution zero.
pub open spec fn descendants_of_bases(n: int, res: u8) -> Seq<u64>
    decreases n,
{
    if n <= 0 {
        Seq::<u64>::empty()
    } else {
        descendants_of_bases(n - 1, res) + h3_children(base_cell_index(n - 1) as u64, res)
    }
}

/// Every cell of the earth at resolution `res`.
pub open spec fn whole_earth_cells(res: u8) -> Seq<u64> {
    descendants_of_bases(BASE_CELL_COUNT as int, res)
}

/// Lists every cell of the earth at a coarse resolution.
pub fn all_cells_of_earth(res: u8) -> (cells: Vec<u64>)
    requires
        res <= MAX_DESCENT,
    ensures
        cells@ == whole_earth_cells(res),
        all_cells_at(cells@, res),
        cells@.len() >= BASE_CELL_COUNT,
{
    let bases = base_cells();
    let mut cells: Vec<u64> = Vec::new();
    let mut i: usize = 0;
    while i < bases.len()
        invariant
            i <= bases.len(),
            res <= MAX_DESCENT,
            bases@.len() == BASE_CELL_COUNT,
            all_cells_at(bases@, 0),
            forall|k: int| 0 <= k < bases@.len() ==> (#[trigger] bases@[k]) == base_cell_index(k),
            cells@ == descendants_of_bases(i as int, res),
            all_cells_at(cells@, res),
            cells@.len() >= i,
        decreases bases.len() - i,
    {
        let base = bases[i];
        assert(h3_cell(bases@[i as int]) && resolution_of(bases@[i as int]) == 0);
        let mut children = cell_children(base, res);
        let ghost before = cells@;
        let ghost added = children@;
        cells.append(&mut children);
        assert(cells@ =~= before + added);
        assert forall|k: int| 0 <= k < cells@.len() implies h3_cell(#[trigger] cells@[k])
            && resolution_of(cells@[k]) == res by {
            if k < before.len() {
                assert(cells@[k] == before[k]);
            } else {
                assert(cells@[k] == added[k - before.len()]);
            }
        }
        i += 1;
    }
    cells
}

impl H3Impl {
    #[verifier::type_invariant]
    spec fn well_formed(self) -> bool {
        self.id == DggrsUid::H3
    }

    /// The adapter of the hexagonal grid: the grid that it serves is `H3`.
    pub fn new() -> (r: Self)
        ensures
            r.uid() == DggrsUid::H3,
    {
        H3Impl { id: DggrsUid::H3 }
    }
}

impl Default for H3Impl {
    fn default() -> (r: Self)
        ensures
            r.uid() == DggrsUid::H3,
    {
        H3Impl::new()
    }
}

impl DggrsPort for H3Impl {
    closed spec fn uid(&self) -> DggrsUid {
        self.id
    }

    /// Beyond what the port promises: without a rectangle the levels above
    /// the default are refused, and the levels up to it give the zones of
    /// every cell of the earth, which are at least as many as there are
    /// cells at resolution zero; with a rectangle the result is that of the
    /// cells which cover it.
    fn zones_from_bbox(
        &self,
        refinement_level: RefinementLevel,
        bbox: Option<Rect>,
        config: Option<DggrsPortConfig>,
    ) -> (r: Result<Zones, GeoPlegmaError>)
        ensures
            refinement_level@ <= MAX_RESOLUTION && bbox is None && refinement_level@
                > registry_entry(DggrsUid::H3).default_refinement_level ==> (r matches Err(
                GeoPlegmaError::RefinementLevelTooHigh(l),
            ) && l == refinement_level),
            bbox is None && refinement_level@ <= registry_entry(
                DggrsUid::H3,
            ).default_refinement_level ==> ({
                let cells = whole_earth_cells(refinement_level@ as u8);
                &&& all_cells_at(cells, refinement_level@ as u8)
                &&& zones_of_cells(r, cells, effective(config))
                &&& r matches Ok(z) && z.zones@.len() == cells.len() && z.zones@.len()
                    >= BASE_CELL_COUNT
            }),
            refinement_level@ <= MAX_RESOLUTION ==> match bbox {
                Some(rect) => ({
                    let cells = h3_cover(rect, refinement_level@ as u8);
                    &&& all_cells_at(cells, refinement_level@ as u8)
                    &&& zones_of_cells(r, cells, effective(config))
                }),
                None => true,
            },
    {
        proof {
            use_type_invariant(self);
        }
        let cfg = DggrsPortConfig::or_default(config);
        let spec = self.id.spec();
        if refinement_level.get() > spec.max_refinement_level.get() {
            return Err(level_limit_error(self.id, refinement_level));
        }
        let res = match refinement_level_to_h3_resolution(refinement_level) {
            Ok(res) => res,
            Err(e) => {
                return Err(e);
            },
        };
        match bbox {
            Some(b) => {
                let cells = cover(&b, res);
                to_zones(cells, cfg)
            },
            None => {
                if refinement_level.get() > spec.default_refinement_level.get() {
                    return Err(GeoPlegmaError::RefinementLevelTooHigh(refinement_level));
                }
                let cells = all_cells_of_earth(res);
                let ghost listed = cells@;
                let r = to_zones(cells, cfg);
                proof {
                    lemma_zones_given(r, listed, res, cfg);
                }
                r
            },
        }
    }

    /// Beyond what the port promises: a point without finite coordinates is
    /// refused, and any other gives the zone of the cell at the level that
    /// holds it.
    fn zone_from_point(
        &self,
        refinement_level: RefinementLevel,
        point: Point,
        config: Option<DggrsPortConfig>,
    ) -> (r: Result<Zones, GeoPlegmaError>)
        ensures
            refinement_level@ <= MAX_RESOLUTION ==> match h3_cell_at(
                point,
                refinement_level@ as u8,
            ) {
                None => r matches Err(GeoPlegmaError::H3o(H3oError::InvalidCoordinate)),
                Some(cell) => h3_cell(cell) && resolution_of(cell) == refinement_level@
                    && zones_of_cells(r, seq![cell], effective(config)),
            },
    {
        proof {
            use_type_invariant(self);
        }
        let cfg = DggrsPortConfig::or_default(config);
        let spec = self.id.spec();
        if refinement_level.get() > spec.max_refinement_level.get() {
            return Err(level_limit_error(self.id, refinement_level));
        }
        let res = match refinement_level_to_h3_resolution(refinement_level) {
            Ok(res) => res,
            Err(e) => {
                return Err(e);
            },
        };
        match cell_at(&point, res) {
            Some(cell) => {
                let mut cells: Vec<u64> = Vec::new();
                cells.push(cell);
                assert(cells@ =~= seq![cell]);
                to_zones(cells, cfg)
            },
            None => Err(GeoPlegmaError::H3o(H3oError::InvalidCoordinate)),
        }
    }

    /// Beyond what the port promises: a text that names no cell is refused;
    /// a depth that leads below the finest resolution is refused; any other
    /// query gives the zones of the descendants of the parent at its
    /// resolution plus the depth, without fail unless children are asked
    /// for at the finest resolution.
    fn zones_from_parent(
        &self,
        relative_depth: RelativeDepth,
        parent_zone_id: ZoneId,
        config: Option<DggrsPortConfig>,
    ) -> (r: Result<Zones, GeoPlegmaError>)
        ensures
            relative_depth@ <= registry_entry(DggrsUid::H3).max_relative_depth ==> match h3_cell_of_text(
                parent_zone_id@.text(),
            ) {
                None => r matches Err(GeoPlegmaError::H3o(H3oError::InvalidZoneID { zone_id }))
                    && zone_id@ == parent_zone_id@.text(),
                Some(parent) => if resolution_of(parent) + relative_depth@ > MAX_RESOLUTION {
                    is_sum_limit_error(r, relative_depth, MAX_RESOLUTION as int)
                } else {
                    let target = (resolution_of(parent) + relative_depth@) as u8;
                    let cells = h3_children(parent, target);
                    &&& all_cells_at(cells, target)
                    &&& zones_of_cells(r, cells, effective(config))
                    &&& target < MAX_RESOLUTION || !effective(config).children ==> (
                    r matches Ok(z) && z.zones@.len() == cells.len())
                },
            },
    {
        proof {
            use_type_invariant(self);
        }
        let cfg = DggrsPortConfig::or_default(config);
        let spec = self.id.spec();
        if relative_depth.get() > spec.max_relative_depth.get() {
            return Err(depth_limit_error(self.id, relative_depth));
        }
        let text = parent_zone_id.to_string();
        let parent = match cell_from_text(text.as_str()) {
            Some(parent) => parent,
            None => {
                return Err(GeoPlegmaError::H3o(H3oError::InvalidZoneID { zone_id: text }));
            },
        };
        let parent_res = cell_resolution(parent);
        let target = parent_res as i32 + relative_depth.get();
        if target > spec.max_refinement_level.get() {
            return Err(sum_limit_error(self.id, relative_depth));
        }
        let cells = cell_children(parent, target as u8);
        let ghost listed = cells@;
        let r = to_zones(cells, cfg);
        proof {
            if target < MAX_RESOLUTION as i32 || !cfg.children {
                lemma_zones_given(r, listed, target as u8, cfg);
            }
        }
        r
    }

    /// Beyond what the port promises: a text that names no cell is refused,
    /// and any other gives the result of the cell it names.
    fn zone_from_id(&self, zone_id: ZoneId, config: Option<DggrsPortConfig>) -> (r: Result<
        Zones,
        GeoPlegmaError,
    >)
        ensures
            match h3_cell_of_text(zone_id@.text()) {
                None => r matches Err(GeoPlegmaError::H3o(H3oError::InvalidZoneID { zone_id: text }))
                    && text@ == zone_id@.text(),
                Some(cell) => zones_of_cells(r, seq![cell], effective(config)),
            },
    {
        let cfg = DggrsPortConfig::or_default(config);
        let text = zone_id.to_string();
        match cell_from_text(text.as_str()) {
            Some(cell) => {
                let mut cells: Vec<u64> = Vec::new();
                cells.push(cell);
                assert(cells@ =~= seq![cell]);
                to_zones(cells, cfg)
            },
            None => Err(GeoPlegmaError::H3o(H3oError::InvalidZoneID { zone_id: text })),
        }
    }

    fn min_refinement_level(&self) -> (r: Result<RefinementLevel, GeoPlegmaError>) {
        proof {
            use_type_invariant(self);
        }
        Ok(self.id.spec().min_refinement_level)
    }

    fn max_refinement_level(&self) -> (r: Result<RefinementLevel, GeoPlegmaError>) {
        proof {
            use_type_invariant(self);
        }
        Ok(self.id.spec().max_refinement_level)
    }

    fn default_refinement_level(&self) -> (r: Result<RefinementLevel, GeoPlegmaError>) {
        proof {
            use_type_invariant(self);
        }
        Ok(self.id.spec().default_refinement_level)
    }

    fn max_relative_depth(&self) -> (r: Result<RelativeDepth, GeoPlegmaError>) {
        proof {
            use_type_invariant(self);
        }
        Ok(self.id.spec().max_relative_depth)
    }

    fn default_relative_depth(&self) -> (r: Result<RelativeDepth, GeoPlegmaError>) {
        proof {
            use_type_invariant(self);
        }
        Ok(self.id.spec().default_relative_depth)
    }
}

} // verus!
