//! The queries of the port on the grids of the native library.
use crate::adapters::dggal::common::{
    bbox_to_geoextent, geo_extent, geo_position, list_zones, max_level, open_grid, sub_zones,
    to_geo_point, to_zones, zone_at, zone_level, zones_for,
};
use crate::error::{DggalError, GeoPlegmaError};
use crate::geometry::{degree_rect, whole_earth_bbox, Point, Rect};
use crate::models::{RefinementLevel, RelativeDepth, ZoneId, ZoneIdView, Zones};
use crate::ports::{
    all_gated, depth_limit, depth_limit_error, effective, is_depth_limit_error,
    is_level_limit_error, is_sum_limit_error, level_limit, sum_limit, DggrsPortConfig,
};
use crate::registry::{name_of, registry_entry, DggrsName, DggrsUid};
use vstd::prelude::*;

verus! {

/// The adapter of one grid of the native library.
#[derive(Debug, Clone, Copy)]
pub struct DggalImpl {
    id: DggrsUid,
}

/// No name of a grid holds a NUL.
pub proof fn lemma_names_without_nul(name: DggrsName)
    ensures
        !name.text().contains('\0'),
{
    reveal_strlit("ISEA3H");
    reveal_strlit("IGEO7");
    reveal_strlit("H3");
    reveal_strlit("IVEA3H");
    reveal_strlit("IVEA9R");
    reveal_strlit("ISEA9R");
    reveal_strlit("RTEA3H");
    reveal_strlit("RTEA9R");
    let s = name.text();
    if s.contains('\0') {
        let i = choose|i: int| 0 <= i < s.len() && s[i] == '\0';
        assert(s[i] == '\0');
    }
}

/// The level at which the descendants of a parent are listed: the level of
/// the parent as the library reported it, plus the depth. A level below zero
/// is no level; a sum above `maximum`, the greatest level that the library
/// reported, is over the limit.
pub fn target_level(
    id: DggrsUid,
    parent_level: i32,
    relative_depth: RelativeDepth,
    maximum: RefinementLevel,
) -> (r: Result<RefinementLevel, GeoPlegmaError>)
    ensures
        parent_level < 0 ==> (r matches Err(GeoPlegmaError::DepthBelowZero(v)) && v
            == parent_level),
        parent_level >= 0 && parent_level + relative_depth@ > maximum@ ==> (r matches Err(e)
            && sum_limit(e, relative_depth, maximum@)),
        parent_level >= 0 && parent_level + relative_depth@ <= maximum@ ==> (r matches Ok(l)
            && l@ == parent_level + relative_depth@),
{
    let parent = match RefinementLevel::new(parent_level) {
        Ok(level) => level,
        Err(e) => {
            return Err(e);
        },
    };
    if parent_level as i64 + relative_depth.get() as i64 > maximum.get() as i64 {
        return Err(
            GeoPlegmaError::RefinementLevelPlusRelativeDepthLimitReached {
                grid_name: id.name().to_string(),
                requested: relative_depth,
                maximum,
            },
        );
    }
    parent.add(relative_depth)
}

/// What a query by rectangle hands to the library.
#[derive(Debug)]
pub struct ListRequest {
    pub level: i32,
    pub extent: dggal::GeoExtent,
    pub config: DggrsPortConfig,
}

/// What a query by point hands to the library.
#[derive(Debug)]
pub struct PointRequest {
    pub level: i32,
    pub position: dggal::GeoPoint,
    pub config: DggrsPortConfig,
}

/// What a query by parent hands to the library.
#[derive(Debug)]
pub struct ParentRequest {
    pub parent: u64,
    pub depth: i32,
    pub config: DggrsPortConfig,
}

/// What a query by identifier hands to the library.
#[derive(Debug)]
pub struct IdRequest {
    pub zone: u64,
    pub config: DggrsPortConfig,
}

/// The rectangle that a query is about: the one given, or the whole earth.
pub open spec fn extent_asked(bbox: Option<Rect>) -> Rect {
    match bbox {
        Some(rect) => rect,
        None => degree_rect(-180, -90, 180, 90),
    }
}

/// The zone number that an identifier holds; the library takes no other kind.
pub fn zone_number(id: &ZoneId) -> (r: Result<u64, GeoPlegmaError>)
    ensures
        match id@ {
            ZoneIdView::IntId(n) => r == Ok::<u64, GeoPlegmaError>(n),
            _ => r matches Err(GeoPlegmaError::UnsupportedZoneIdFormat(_)),
        },
{
    match id.as_u64() {
        Some(n) => Ok(n),
        None => Err(
            GeoPlegmaError::UnsupportedZoneIdFormat("Expected ZoneId::IntId".to_owned()),
        ),
    }
}

impl DggalImpl {
    /// The grid that the adapter serves.
    pub closed spec fn uid(&self) -> DggrsUid {
        self.id
    }

    /// The adapter of the grid `id`.
    pub fn new(id: DggrsUid) -> (r: Self)
        ensures
            r.uid() == id,
    {
        DggalImpl { id }
    }

    /// The name by which the library knows the grid.
    pub fn grid_name(&self) -> (name: &'static str)
        ensures
            name@ == name_of(self.uid()).text(),
            !name@.contains('\0'),
    {
        proof {
            lemma_names_without_nul(name_of(self.id));
        }
        self.id.name().as_str()
    }

    /// Looks the grid up in the context of the library, by the name of its
    /// family. Where the library knows no grid of that name, the error says
    /// which name it was asked for.
    fn open(&self, context: &dggal::DGGAL) -> (r: Result<dggal::DGGRS, GeoPlegmaError>)
        ensures
            r matches Err(e) ==> (e matches GeoPlegmaError::Dggal(
                DggalError::UnknownGrid { grid_name },
            ) && grid_name@ == name_of(self.uid()).text()),
    {
        let name = self.grid_name();
        match open_grid(context, name) {
            Some(grid) => Ok(grid),
            None => Err(
                GeoPlegmaError::Dggal(DggalError::UnknownGrid { grid_name: name.to_owned() }),
            ),
        }
    }

    /// The greatest refinement level of the grid `grid`, as the library
    /// reports it now.
    fn reported_maximum(&self, grid: &dggal::DGGRS) -> (r: Result<RefinementLevel, GeoPlegmaError>)
        ensures
            r matches Err(e) ==> e matches GeoPlegmaError::Dggal(
                DggalError::DepthConversion { .. },
            ),
    {
        level_of_depth(self.grid_name(), max_level(grid))
    }

    /// What a query by rectangle hands to the library, given the greatest
    /// level `maximum` that the library reported: the level, the rectangle in
    /// radians, or the whole earth where none is given, and the
    /// configuration. A level above the maximum is refused, and nothing is
    /// handed over.
    pub fn plan_zones_from_bbox(
        &self,
        maximum: RefinementLevel,
        refinement_level: RefinementLevel,
        bbox: Option<Rect>,
        config: Option<DggrsPortConfig>,
    ) -> (r: Result<ListRequest, GeoPlegmaError>)
        ensures
            refinement_level@ > maximum@ ==> (r matches Err(e) && level_limit(
                e,
                refinement_level,
                maximum@,
            )),
            refinement_level@ <= maximum@ ==> (r matches Ok(req) && req.level
                == refinement_level@ && req.extent == geo_extent(extent_asked(bbox)) && req.config
                == effective(config)),
    {
        if refinement_level.get() > maximum.get() {
            return Err(
                GeoPlegmaError::RefinementLevelLimitReached {
                    grid_name: self.id.name().to_string(),
                    requested: refinement_level,
                    maximum,
                },
            );
        }
        let extent = match bbox {
            Some(b) => bbox_to_geoextent(&b),
            None => bbox_to_geoextent(&whole_earth_bbox()),
        };
        Ok(
            ListRequest {
                level: refinement_level.get(),
                extent,
                config: DggrsPortConfig::or_default(config),
            },
        )
    }

    /// What a query by point hands to the library, given the greatest level
    /// `maximum` that the library reported: the level, the position in
    /// radians and the configuration. A level above the maximum is refused.
    pub fn plan_zone_from_point(
        &self,
        maximum: RefinementLevel,
        refinement_level: RefinementLevel,
        point: Point,
        config: Option<DggrsPortConfig>,
    ) -> (r: Result<PointRequest, GeoPlegmaError>)
        ensures
            refinement_level@ > maximum@ ==> (r matches Err(e) && level_limit(
                e,
                refinement_level,
                maximum@,
            )),
            refinement_level@ <= maximum@ ==> (r matches Ok(req) && req.level
                == refinement_level@ && req.position == geo_position(point) && req.config
                == effective(config)),
    {
        if refinement_level.get() > maximum.get() {
            return Err(
                GeoPlegmaError::RefinementLevelLimitReached {
                    grid_name: self.id.name().to_string(),
                    requested: refinement_level,
                    maximum,
                },
            );
        }
        Ok(
            PointRequest {
                level: refinement_level.get(),
                position: to_geo_point(&point),
                config: DggrsPortConfig::or_default(config),
            },
        )
    }

    /// What a query by parent hands to the library: the number of the parent,
    /// the depth and the configuration. Refused, in this order: a depth above
    /// the registered maximum, and an identifier that is no number.
    pub fn plan_zones_from_parent(
        &self,
        relative_depth: RelativeDepth,
        parent_zone_id: &ZoneId,
        config: Option<DggrsPortConfig>,
    ) -> (r: Result<ParentRequest, GeoPlegmaError>)
        ensures
            relative_depth@ > registry_entry(self.uid()).max_relative_depth ==> (r matches Err(e)
                && depth_limit(e, relative_depth, registry_entry(self.uid()).max_relative_depth)),
            relative_depth@ <= registry_entry(self.uid()).max_relative_depth
                ==> match parent_zone_id@ {
                ZoneIdView::IntId(n) => r matches Ok(req) && req.parent == n && req.depth
                    == relative_depth@ && req.config == effective(config),
                _ => r matches Err(GeoPlegmaError::UnsupportedZoneIdFormat(_)),
            },
    {
        if relative_depth.get() > self.id.spec().max_relative_depth.get() {
            return Err(depth_limit_error(self.id, relative_depth));
        }
        let parent = match zone_number(parent_zone_id) {
            Ok(n) => n,
            Err(e) => {
                return Err(e);
            },
        };
        Ok(
            ParentRequest {
                parent,
                depth: relative_depth.get(),
                config: DggrsPortConfig::or_default(config),
            },
        )
    }

    /// What a query by identifier hands to the library: the number of the
    /// zone and the configuration. An identifier that is no number is refused.
    pub fn plan_zone_from_id(&self, zone_id: &ZoneId, config: Option<DggrsPortConfig>) -> (r:
        Result<IdRequest, GeoPlegmaError>)
        ensures
            match zone_id@ {
                ZoneIdView::IntId(n) => r matches Ok(req) && req.zone == n && req.config
                    == effective(config),
                _ => r matches Err(GeoPlegmaError::UnsupportedZoneIdFormat(_)),
            },
    {
        match zone_number(zone_id) {
            Ok(zone) => Ok(IdRequest { zone, config: DggrsPortConfig::or_default(config) }),
            Err(e) => Err(e),
        }
    }

    /// The zones at `refinement_level` that meet `bbox`, or the whole earth
    /// where none is given. The library is asked for the grid and for its
    /// greatest level; a level above that is refused with the limit error
    /// that carries it, before any zone is listed. What is handed to the
    /// listing is what `plan_zones_from_bbox` gives, and the zones listed
    /// come back as `to_zones` makes them.
    pub fn zones_from_bbox(
        &self,
        context: &dggal::DGGAL,
        refinement_level: RefinementLevel,
        bbox: Option<Rect>,
        config: Option<DggrsPortConfig>,
    ) -> (r: Result<Zones, GeoPlegmaError>)
        ensures
            (r matches Err(GeoPlegmaError::Dggal(DggalError::UnknownGrid { .. }))) || (r matches Err(
                GeoPlegmaError::Dggal(DggalError::DepthConversion { .. }),
            )) || (exists|maximum: int|
                refinement_level@ > maximum && #[trigger] is_level_limit_error(
                    r,
                    refinement_level,
                    maximum,
                )) || exists|zones: Seq<u64>| #[trigger] zones_for(r, zones, effective(config)),
            r matches Ok(z) ==> all_gated(z.zones@, effective(config)),
    {
        let grid = match self.open(context) {
            Ok(grid) => grid,
            Err(e) => {
                return Err(e);
            },
        };
        let maximum = match self.reported_maximum(&grid) {
            Ok(level) => level,
            Err(e) => {
                return Err(e);
            },
        };
        let request = match self.plan_zones_from_bbox(maximum, refinement_level, bbox, config) {
            Ok(request) => request,
            Err(e) => {
                assert(is_level_limit_error(Err(e), refinement_level, maximum@));
                return Err(e);
            },
        };
        let zones = list_zones(&grid, request.level, &request.extent);
        to_zones(&grid, zones, request.config)
    }

    /// The one zone at `refinement_level` that holds `point`. The limit is
    /// the greatest level that the library reports, as for a rectangle.
    pub fn zone_from_point(
        &self,
        context: &dggal::DGGAL,
        refinement_level: RefinementLevel,
        point: Point,
        config: Option<DggrsPortConfig>,
    ) -> (r: Result<Zones, GeoPlegmaError>)
        ensures
            (r matches Err(GeoPlegmaError::Dggal(DggalError::UnknownGrid { .. }))) || (r matches Err(
                GeoPlegmaError::Dggal(DggalError::DepthConversion { .. }),
            )) || (exists|maximum: int|
                refinement_level@ > maximum && #[trigger] is_level_limit_error(
                    r,
                    refinement_level,
                    maximum,
                )) || exists|zone: u64| #[trigger] zones_for(r, seq![zone], effective(config)),
            r matches Ok(z) ==> z.zones@.len() == 1 && all_gated(z.zones@, effective(config)),
    {
        let grid = match self.open(context) {
            Ok(grid) => grid,
            Err(e) => {
                return Err(e);
            },
        };
        let maximum = match self.reported_maximum(&grid) {
            Ok(level) => level,
            Err(e) => {
                return Err(e);
            },
        };
        let request = match self.plan_zone_from_point(maximum, refinement_level, point, config) {
            Ok(request) => request,
            Err(e) => {
                assert(is_level_limit_error(Err(e), refinement_level, maximum@));
                return Err(e);
            },
        };
        let zone = zone_at(&grid, request.level, &request.position);
        let mut zones: Vec<u64> = Vec::new();
        zones.push(zone);
        assert(zones@ =~= seq![zone]);
        to_zones(&grid, zones, request.config)
    }

    /// The descendants of `parent_zone_id` that lie `relative_depth` below
    /// it. Refused before the library is asked anything: a depth above the
    /// registered maximum, then an identifier that is no number. Refused
    /// after the library told the level of the parent and its greatest
    /// level: a parent level that with the depth is above that greatest level.
    pub fn zones_from_parent(
        &self,
        context: &dggal::DGGAL,
        relative_depth: RelativeDepth,
        parent_zone_id: ZoneId,
        config: Option<DggrsPortConfig>,
    ) -> (r: Result<Zones, GeoPlegmaError>)
        ensures
            relative_depth@ > registry_entry(self.uid()).max_relative_depth
                ==> is_depth_limit_error(
                r,
                relative_depth,
                registry_entry(self.uid()).max_relative_depth,
            ),
            relative_depth@ <= registry_entry(self.uid()).max_relative_depth && !(
            parent_zone_id@ is IntId) ==> r matches Err(
                GeoPlegmaError::UnsupportedZoneIdFormat(_),
            ),
            relative_depth@ <= registry_entry(self.uid()).max_relative_depth
                && parent_zone_id@ is IntId ==> (r matches Err(
                GeoPlegmaError::Dggal(DggalError::UnknownGrid { .. }),
            )) || (r matches Err(GeoPlegmaError::Dggal(DggalError::DepthConversion { .. })))
                || (r matches Err(GeoPlegmaError::DepthBelowZero(_))) || (exists|maximum: int|
                #[trigger] is_sum_limit_error(r, relative_depth, maximum)) || exists|
                zones: Seq<u64>,
            | #[trigger] zones_for(r, zones, effective(config)),
            r matches Ok(z) ==> all_gated(z.zones@, effective(config)),
    {
        let request = match self.plan_zones_from_parent(relative_depth, &parent_zone_id, config) {
            Ok(request) => request,
            Err(e) => {
                return Err(e);
            },
        };
        let grid = match self.open(context) {
            Ok(grid) => grid,
            Err(e) => {
                return Err(e);
            },
        };
        let maximum = match self.reported_maximum(&grid) {
            Ok(level) => level,
            Err(e) => {
                return Err(e);
            },
        };
        match target_level(self.id, zone_level(&grid, request.parent), relative_depth, maximum) {
            Ok(_) => {},
            Err(e) => {
                assert(e is DepthBelowZero || is_sum_limit_error(Err(e), relative_depth, maximum@));
                return Err(e);
            },
        }
        let zones = sub_zones(&grid, request.parent, request.depth);
        to_zones(&grid, zones, request.config)
    }

    /// The one zone that `zone_id` names. An identifier that is no number is
    /// refused before the library is asked anything.
    pub fn zone_from_id(
        &self,
        context: &dggal::DGGAL,
        zone_id: ZoneId,
        config: Option<DggrsPortConfig>,
    ) -> (r: Result<Zones, GeoPlegmaError>)
        ensures
            match zone_id@ {
                ZoneIdView::IntId(n) => (r matches Err(
                    GeoPlegmaError::Dggal(DggalError::UnknownGrid { .. }),
                )) || zones_for(r, seq![n], effective(config)),
                _ => r matches Err(GeoPlegmaError::UnsupportedZoneIdFormat(_)),
            },
            r matches Ok(z) ==> z.zones@.len() == 1 && all_gated(z.zones@, effective(config)),
    {
        let request = match self.plan_zone_from_id(&zone_id, config) {
            Ok(request) => request,
            Err(e) => {
                return Err(e);
            },
        };
        let grid = match self.open(context) {
            Ok(grid) => grid,
            Err(e) => {
                return Err(e);
            },
        };
        let mut zones: Vec<u64> = Vec::new();
        zones.push(request.zone);
        assert(zones@ =~= seq![request.zone]);
        to_zones(&grid, zones, request.config)
    }

    /// The least refinement level of the grid.
    pub fn min_refinement_level(&self) -> (r: Result<RefinementLevel, GeoPlegmaError>)
        ensures
            r matches Ok(l) && l@ == registry_entry(self.uid()).min_refinement_level,
    {
        Ok(self.id.spec().min_refinement_level)
    }

    /// The greatest refinement level of the grid, as the library reports it
    /// now. The library may not know the grid, or may report a level that is
    /// none.
    pub fn max_refinement_level(&self, context: &dggal::DGGAL) -> (r: Result<
        RefinementLevel,
        GeoPlegmaError,
    >)
        ensures
            r matches Err(e) ==> (e matches GeoPlegmaError::Dggal(DggalError::UnknownGrid { .. }))
                || e matches GeoPlegmaError::Dggal(DggalError::DepthConversion { .. }),
    {
        let grid = match self.open(context) {
            Ok(grid) => grid,
            Err(e) => {
                return Err(e);
            },
        };
        self.reported_maximum(&grid)
    }

    /// The refinement level that a query uses where none is chosen.
    pub fn default_refinement_level(&self) -> (r: Result<RefinementLevel, GeoPlegmaError>)
        ensures
            r matches Ok(l) && l@ == registry_entry(self.uid()).default_refinement_level,
    {
        Ok(self.id.spec().default_refinement_level)
    }

    /// The greatest relative depth of the grid.
    pub fn max_relative_depth(&self) -> (r: Result<RelativeDepth, GeoPlegmaError>)
        ensures
            r matches Ok(d) && d@ == registry_entry(self.uid()).max_relative_depth,
    {
        Ok(self.id.spec().max_relative_depth)
    }

    /// The relative depth that a query uses where none is chosen.
    pub fn default_relative_depth(&self) -> (r: Result<RelativeDepth, GeoPlegmaError>)
        ensures
            r matches Ok(d) && d@ == registry_entry(self.uid()).default_relative_depth,
    {
        Ok(self.id.spec().default_relative_depth)
    }
}

/// The refinement level that a depth reported by the library stands for;
/// a depth below zero stands for none.
pub fn level_of_depth(grid_name: &str, depth: i32) -> (r: Result<RefinementLevel, GeoPlegmaError>)
    ensures
        depth >= 0 ==> (r matches Ok(l) && l@ == depth),
        depth < 0 ==> (r matches Err(
            GeoPlegmaError::Dggal(DggalError::DepthConversion { grid_name: name, depth: d }),
        ) && d == depth && name@ == grid_name@),
{
    if depth < 0 {
        Err(
            GeoPlegmaError::Dggal(
                DggalError::DepthConversion { grid_name: grid_name.to_owned(), depth },
            ),
        )
    } else {
        Ok(RefinementLevel::new_const(depth))
    }
}

} // verus!
