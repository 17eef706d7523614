//! The query port: the one interface that every backend is reached through,
//! and the switches that say which fields of a zone a query computes.
use crate::error::GeoPlegmaError;
use crate::geometry::{Point, Rect};
use crate::models::{RefinementLevel, RelativeDepth, Zone, ZoneId, Zones};
use crate::registry::{registry_entry, DggrsUid};
use vstd::prelude::*;

verus! {

/// Which optional fields a query fills in. `densify` asks for a boundary with
/// extra vertices between the corners.
#[derive(Debug, Clone, Copy, PartialEq, Eq, Structural)]
pub struct DggrsPortConfig {
    pub region: bool,
    pub center: bool,
    pub vertex_count: bool,
    pub children: bool,
    pub neighbors: bool,
    pub area_sqm: bool,
    pub densify: bool,
}

/// The configuration with every switch on.
pub open spec fn all_on() -> DggrsPortConfig {
    DggrsPortConfig {
        region: true,
        center: true,
        vertex_count: true,
        children: true,
        neighbors: true,
        area_sqm: true,
        densify: true,
    }
}

/// The configuration that a query works with: the one given, or every switch on.
pub open spec fn effective(config: Option<DggrsPortConfig>) -> DggrsPortConfig {
    match config {
        Some(c) => c,
        None => all_on(),
    }
}

impl Default for DggrsPortConfig {
    fn default() -> (c: Self)
        ensures
            c == all_on(),
    {
        DggrsPortConfig {
            region: true,
            center: true,
            vertex_count: true,
            children: true,
            neighbors: true,
            area_sqm: true,
            densify: true,
        }
    }
}

impl DggrsPortConfig {
    /// The configuration that a query works with.
    pub fn or_default(config: Option<DggrsPortConfig>) -> (c: Self)
        ensures
            c == effective(config),
    {
        match config {
            Some(c) => c,
            None => DggrsPortConfig::default(),
        }
    }

    /// No field beyond the identifier and the vertex count is asked for.
    pub open spec fn identifiers_only(self) -> bool {
        !self.region && !self.center && !self.children && !self.neighbors && !self.area_sqm
    }
}

/// The zone holds no field that the configuration switches off.
pub open spec fn gated(z: Zone, cfg: DggrsPortConfig) -> bool {
    &&& z.region is Some ==> cfg.region
    &&& z.center is Some ==> cfg.center
    &&& z.vertex_count is Some ==> cfg.vertex_count
    &&& z.children is Some ==> cfg.children
    &&& z.neighbors is Some ==> cfg.neighbors
    &&& z.area_sqm is Some ==> cfg.area_sqm
}

/// No zone holds a field that the configuration switches off.
pub open spec fn all_gated(zones: Seq<Zone>, cfg: DggrsPortConfig) -> bool {
    forall|i: int| 0 <= i < zones.len() ==> gated(#[trigger] zones[i], cfg)
}

/// With region, centre, children, neighbours and area switched off, a gated
/// zone holds its identifier and, where asked for, its vertex count, and
/// nothing else.
pub proof fn law_config_gating(z: Zone, cfg: DggrsPortConfig)
    requires
        gated(z, cfg),
        cfg.identifiers_only(),
    ensures
        z.region is None,
        z.center is None,
        z.children is None,
        z.neighbors is None,
        z.area_sqm is None,
        !cfg.vertex_count ==> z.only_id(),
{
}

/// `e` is the limit error for the refinement level `requested` above the
/// maximum `maximum` of the grid.
pub open spec fn level_limit(e: GeoPlegmaError, requested: RefinementLevel, maximum: int) -> bool {
    e matches GeoPlegmaError::RefinementLevelLimitReached { requested: got, maximum: max, .. }
        && got == requested && max@ == maximum
}

/// `e` is the limit error for the relative depth `requested` above the
/// maximum `maximum` of the grid.
pub open spec fn depth_limit(e: GeoPlegmaError, requested: RelativeDepth, maximum: int) -> bool {
    e matches GeoPlegmaError::RelativeDepthLimitReached { requested: got, maximum: max, .. }
        && got == requested && max@ == maximum
}

/// `e` is the limit error for a parent level and the relative depth
/// `requested` whose sum is above the maximum refinement level `maximum`.
pub open spec fn sum_limit(e: GeoPlegmaError, requested: RelativeDepth, maximum: int) -> bool {
    e matches GeoPlegmaError::RefinementLevelPlusRelativeDepthLimitReached {
        requested: got,
        maximum: max,
        ..
    } && got == requested && max@ == maximum
}

/// The query failed with the limit error for a refinement level.
pub open spec fn is_level_limit_error(
    r: Result<Zones, GeoPlegmaError>,
    requested: RefinementLevel,
    maximum: int,
) -> bool {
    r matches Err(e) && level_limit(e, requested, maximum)
}

/// The query failed with the limit error for a relative depth.
pub open spec fn is_depth_limit_error(
    r: Result<Zones, GeoPlegmaError>,
    requested: RelativeDepth,
    maximum: int,
) -> bool {
    r matches Err(e) && depth_limit(e, requested, maximum)
}

/// The query failed with the limit error for the sum of parent level and
/// relative depth.
pub open spec fn is_sum_limit_error(
    r: Result<Zones, GeoPlegmaError>,
    requested: RelativeDepth,
    maximum: int,
) -> bool {
    r matches Err(e) && sum_limit(e, requested, maximum)
}

/// The limit error for a refinement level above the maximum of a grid.
pub fn level_limit_error(id: DggrsUid, requested: RefinementLevel) -> (e: GeoPlegmaError)
    ensures
        level_limit(e, requested, registry_entry(id).max_refinement_level),
{
    let spec = id.spec();
    GeoPlegmaError::RefinementLevelLimitReached {
        grid_name: spec.name.to_string(),
        requested,
        maximum: spec.max_refinement_level,
    }
}

/// The limit error for a relative depth above the maximum of a grid.
pub fn depth_limit_error(id: DggrsUid, requested: RelativeDepth) -> (e: GeoPlegmaError)
    ensures
        depth_limit(e, requested, registry_entry(id).max_relative_depth),
{
    let spec = id.spec();
    GeoPlegmaError::RelativeDepthLimitReached {
        grid_name: spec.name.to_string(),
        requested,
        maximum: spec.max_relative_depth,
    }
}

/// The limit error for a parent level and relative depth whose sum is above
/// the maximum refinement level of a grid.
pub fn sum_limit_error(id: DggrsUid, requested: RelativeDepth) -> (e: GeoPlegmaError)
    ensures
        sum_limit(e, requested, registry_entry(id).max_refinement_level),
{
    let spec = id.spec();
    GeoPlegmaError::RefinementLevelPlusRelativeDepthLimitReached {
        grid_name: spec.name.to_string(),
        requested,
        maximum: spec.max_refinement_level,
    }
}

/// The queries that every backend answers, with the same meaning for limits,
/// zone identity and the switches of the configuration.
pub trait DggrsPort: Send + Sync {
    /// The grid that the adapter serves.
    spec fn uid(&self) -> DggrsUid;

    /// The zones at `refinement_level` that meet `bbox`, or the whole earth
    /// where none is given.
    fn zones_from_bbox(
        &self,
        refinement_level: RefinementLevel,
        bbox: Option<Rect>,
        config: Option<DggrsPortConfig>,
    ) -> (r: Result<Zones, GeoPlegmaError>)
        ensures
            refinement_level@ > registry_entry(self.uid()).max_refinement_level
                ==> is_level_limit_error(
                r,
                refinement_level,
                registry_entry(self.uid()).max_refinement_level,
            ),
            r matches Ok(z) ==> all_gated(z.zones@, effective(config)),
    ;

    /// The one zone at `refinement_level` that holds `point`.
    fn zone_from_point(
        &self,
        refinement_level: RefinementLevel,
        point: Point,
        config: Option<DggrsPortConfig>,
    ) -> (r: Result<Zones, GeoPlegmaError>)
        ensures
            refinement_level@ > registry_entry(self.uid()).max_refinement_level
                ==> is_level_limit_error(
                r,
                refinement_level,
                registry_entry(self.uid()).max_refinement_level,
            ),
            r matches Ok(z) ==> z.zones@.len() == 1 && all_gated(z.zones@, effective(config)),
    ;

    /// The descendants of `parent_zone_id` that lie `relative_depth` below it.
    fn zones_from_parent(
        &self,
        relative_depth: RelativeDepth,
        parent_zone_id: ZoneId,
        config: Option<DggrsPortConfig>,
    ) -> (r: Result<Zones, GeoPlegmaError>)
        ensures
            relative_depth@ > registry_entry(self.uid()).max_relative_depth
                ==> is_depth_limit_error(
                r,
                relative_depth,
                registry_entry(self.uid()).max_relative_depth,
            ),
            r matches Ok(z) ==> all_gated(z.zones@, effective(config)),
    ;

    /// The one zone that `zone_id` names.
    fn zone_from_id(&self, zone_id: ZoneId, config: Option<DggrsPortConfig>) -> (r: Result<
        Zones,
        GeoPlegmaError,
    >)
        ensures
            r matches Ok(z) ==> z.zones@.len() == 1 && all_gated(z.zones@, effective(config)),
    ;

    /// The least refinement level of the grid.
    fn min_refinement_level(&self) -> (r: Result<RefinementLevel, GeoPlegmaError>)
        ensures
            r matches Ok(l) && l@ == registry_entry(self.uid()).min_refinement_level,
    ;

    /// The greatest refinement level of the grid.
    fn max_refinement_level(&self) -> (r: Result<RefinementLevel, GeoPlegmaError>)
        ensures
            r matches Ok(l) && l@ == registry_entry(self.uid()).max_refinement_level,
    ;

    /// The refinement level that a query uses where none is chosen.
    fn default_refinement_level(&self) -> (r: Result<RefinementLevel, GeoPlegmaError>)
        ensures
            r matches Ok(l) && l@ == registry_entry(self.uid()).default_refinement_level,
    ;

    /// The greatest relative depth of the grid.
    fn max_relative_depth(&self) -> (r: Result<RelativeDepth, GeoPlegmaError>)
        ensures
            r matches Ok(d) && d@ == registry_entry(self.uid()).max_relative_depth,
    ;

    /// The relative depth that a query uses where none is chosen.
    fn default_relative_depth(&self) -> (r: Result<RelativeDepth, GeoPlegmaError>)
        ensures
            r matches Ok(d) && d@ == registry_entry(self.uid()).default_relative_depth,
    ;
}

} // verus!
