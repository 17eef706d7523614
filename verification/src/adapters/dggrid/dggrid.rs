//! The four queries as requests to the batch executable. Each query checks
//! the limits of the grid before anything is asked of the executable.
use crate::adapters::dggrid::common::{paths_of, setup, DggridPaths, CODE_LEN};
use crate::adapters::dggrid::request::{
    base_text, bbox_file_text, bbox_request, point_line_text, clip_region_directives, decoded_level, id_directives, id_request,
    level_of_id, parent_directives, parent_request, point_directives, point_request, DggridGrid,
    DggridRequest,
};
use crate::error::GeoPlegmaError;
use crate::geometry::{Point, Rect};
use crate::models::{RefinementLevel, RelativeDepth, ZoneId, ZoneIdView};
use crate::ports::{
    depth_limit, depth_limit_error, effective, level_limit, level_limit_error, sum_limit,
    sum_limit_error, DggrsPortConfig,
};
use crate::registry::registry_entry;
use crate::text::all_ascii_alphanumeric;
use vstd::prelude::*;

verus! {

/// Where the executable is and where its files go.
#[derive(Debug, Clone)]
pub struct DggridAdapter {
    pub executable: String,
    pub workdir: String,
}

/// `p` are the files of a token of sixteen letters and digits in `workdir`.
pub open spec fn fresh_paths(p: DggridPaths, workdir: Seq<char>) -> bool {
    exists|code: Seq<char>|
        code.len() == CODE_LEN && all_ascii_alphanumeric(code) && #[trigger] paths_of(
            p,
            workdir,
            code,
        )
}

/// What planning a query by rectangle gives: the limit error for a level
/// above the maximum of the grid, else the request with the directives of
/// the grid and, for a rectangle, those of its clip region.
pub open spec fn bbox_plan(
    r: Result<DggridRequest, GeoPlegmaError>,
    grid: DggridGrid,
    workdir: Seq<char>,
    refinement_level: RefinementLevel,
    clip: Option<Rect>,
    conf: DggrsPortConfig,
) -> bool {
    let max = registry_entry(grid.uid()).max_refinement_level;
    if refinement_level@ > max {
        r matches Err(e) && level_limit(e, refinement_level, max)
    } else {
        r matches Ok(req) && fresh_paths(req.paths, workdir) && req.config == conf && !req.single
            && req.input_file is None && (match clip {
            Some(rect) => req.bbox_file matches Some(file) && file@ == bbox_file_text(rect),
            None => req.bbox_file is None,
        }) && req.metafile@ == base_text(grid, req.paths, refinement_level@, conf) + if clip is Some {
            clip_region_directives(req.paths.bbox@)
        } else {
            Seq::<char>::empty()
        }
    }
}

/// What planning a query by point gives: the limit error for a level above
/// the maximum of the grid, else the request with the directives of the grid
/// and those of the point.
pub open spec fn point_plan(
    r: Result<DggridRequest, GeoPlegmaError>,
    grid: DggridGrid,
    workdir: Seq<char>,
    refinement_level: RefinementLevel,
    point: Point,
    conf: DggrsPortConfig,
) -> bool {
    let max = registry_entry(grid.uid()).max_refinement_level;
    if refinement_level@ > max {
        r matches Err(e) && level_limit(e, refinement_level, max)
    } else {
        r matches Ok(req) && fresh_paths(req.paths, workdir) && req.config == conf && req.single
            && (req.input_file matches Some(line) && line@ == point_line_text(point))
            && req.bbox_file is None && req.metafile@ == base_text(
            grid,
            req.paths,
            refinement_level@,
            conf,
        ) + point_directives(req.paths.input@)
    }
}

/// What planning a query by parent gives. Refused, in this order: a depth
/// above the maximum of the grid, an identifier that encodes no resolution,
/// and a target resolution above the maximum of the grid. Else the request
/// at the resolution of the parent plus the depth, clipped to the parent.
pub open spec fn parent_plan(
    r: Result<DggridRequest, GeoPlegmaError>,
    grid: DggridGrid,
    workdir: Seq<char>,
    relative_depth: RelativeDepth,
    parent_zone_id: ZoneIdView,
    conf: DggrsPortConfig,
) -> bool {
    let entry = registry_entry(grid.uid());
    if relative_depth@ > entry.max_relative_depth {
        r matches Err(e) && depth_limit(e, relative_depth, entry.max_relative_depth)
    } else {
        match decoded_level(grid, parent_zone_id) {
            None => r matches Err(GeoPlegmaError::Dggrid(_)),
            Some(parent) => if parent + relative_depth@ > entry.max_refinement_level {
                r matches Err(e) && sum_limit(e, relative_depth, entry.max_refinement_level)
            } else {
                r matches Ok(req) && fresh_paths(req.paths, workdir) && req.config == conf
                    && !req.single && req.input_file is None && req.bbox_file is None
                    && req.metafile@
                    == base_text(grid, req.paths, parent + relative_depth@, conf)
                    + parent_directives(grid, parent, parent_zone_id.text())
            },
        }
    }
}

/// What planning a query by identifier gives: a format error for an
/// identifier that encodes no resolution, else the request at the resolution
/// that it encodes, with the identifier as input.
pub open spec fn id_plan(
    r: Result<DggridRequest, GeoPlegmaError>,
    grid: DggridGrid,
    workdir: Seq<char>,
    zone_id: ZoneIdView,
    conf: DggrsPortConfig,
) -> bool {
    match decoded_level(grid, zone_id) {
        None => r matches Err(GeoPlegmaError::Dggrid(_)),
        Some(level) => r matches Ok(req) && fresh_paths(req.paths, workdir) && req.config == conf
            && req.single && req.bbox_file is None && (req.input_file matches Some(line) && line@
            == zone_id.text() + seq!['\n']) && req.metafile@ == base_text(
            grid,
            req.paths,
            level,
            conf,
        ) + id_directives(grid, req.paths.input@),
    }
}

impl DggridAdapter {
    /// An adapter for the executable at `executable`, with its files in `workdir`.
    pub fn new(executable: String, workdir: String) -> (r: Self)
        ensures
            r.executable == executable,
            r.workdir == workdir,
    {
        DggridAdapter { executable, workdir }
    }

    /// The request for the zones at `refinement_level` in `bbox`, or on the
    /// whole earth. A level above the maximum of the grid is refused, and no
    /// request is made.
    pub fn plan_zones_from_bbox(
        &self,
        grid: DggridGrid,
        refinement_level: RefinementLevel,
        bbox: Option<Rect>,
        config: Option<DggrsPortConfig>,
    ) -> (r: Result<DggridRequest, GeoPlegmaError>)
        ensures
            bbox_plan(r, grid, self.workdir@, refinement_level, bbox, effective(config)),
    {
        let conf = DggrsPortConfig::or_default(config);
        let spec = grid.id().spec();
        if refinement_level.get() > spec.max_refinement_level.get() {
            return Err(level_limit_error(grid.id(), refinement_level));
        }
        let (_, paths) = setup(self.workdir.as_str());
        Ok(bbox_request(grid, paths, refinement_level, bbox, conf))
    }

    /// The request for the zone at `refinement_level` that holds `point`. A
    /// level above the maximum of the grid is refused, and no request is made.
    pub fn plan_zone_from_point(
        &self,
        grid: DggridGrid,
        refinement_level: RefinementLevel,
        point: Point,
        config: Option<DggrsPortConfig>,
    ) -> (r: Result<DggridRequest, GeoPlegmaError>)
        ensures
            point_plan(r, grid, self.workdir@, refinement_level, point, effective(config)),
    {
        let conf = DggrsPortConfig::or_default(config);
        let spec = grid.id().spec();
        if refinement_level.get() > spec.max_refinement_level.get() {
            return Err(level_limit_error(grid.id(), refinement_level));
        }
        let (_, paths) = setup(self.workdir.as_str());
        Ok(point_request(grid, paths, refinement_level, point, conf))
    }

    /// The request for the descendants of `parent_zone_id` that lie
    /// `relative_depth` below it. Refused, in this order: a depth above the
    /// maximum of the grid, an identifier that encodes no resolution, and a
    /// target resolution above the maximum of the grid.
    pub fn plan_zones_from_parent(
        &self,
        grid: DggridGrid,
        relative_depth: RelativeDepth,
        parent_zone_id: &ZoneId,
        config: Option<DggrsPortConfig>,
    ) -> (r: Result<DggridRequest, GeoPlegmaError>)
        ensures
            parent_plan(
                r,
                grid,
                self.workdir@,
                relative_depth,
                parent_zone_id@,
                effective(config),
            ),
    {
        let conf = DggrsPortConfig::or_default(config);
        let spec = grid.id().spec();
        if relative_depth.get() > spec.max_relative_depth.get() {
            return Err(depth_limit_error(grid.id(), relative_depth));
        }
        let parent_level = match level_of_id(grid, parent_zone_id) {
            Ok(level) => level,
            Err(e) => {
                return Err(e);
            },
        };
        let target_level = match parent_level.add(relative_depth) {
            Ok(level) => level,
            Err(e) => {
                return Err(e);
            },
        };
        if target_level.get() > spec.max_refinement_level.get() {
            return Err(sum_limit_error(grid.id(), relative_depth));
        }
        let (_, paths) = setup(self.workdir.as_str());
        Ok(parent_request(grid, paths, parent_level, target_level, parent_zone_id, conf))
    }

    /// The request for the zone that `zone_id` names, at the resolution that
    /// the identifier encodes. An identifier that encodes none is refused.
    pub fn plan_zone_from_id(
        &self,
        grid: DggridGrid,
        zone_id: &ZoneId,
        config: Option<DggrsPortConfig>,
    ) -> (r: Result<DggridRequest, GeoPlegmaError>)
        ensures
            id_plan(r, grid, self.workdir@, zone_id@, effective(config)),
    {
        let conf = DggrsPortConfig::or_default(config);
        let level = match level_of_id(grid, zone_id) {
            Ok(level) => level,
            Err(e) => {
                return Err(e);
            },
        };
        let (_, paths) = setup(self.workdir.as_str());
        Ok(id_request(grid, paths, level, zone_id, conf))
    }
}

} // verus!
