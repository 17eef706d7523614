//! What one query asks of the batch executable: the directives it is started
//! with and the files it reads.
use crate::adapters::dggrid::common::{
    aigen_of, directive, ingest, ingested, lists_wanted, metafile, metafile_text, push_directive,
    DggridPaths, DENSIFICATION, PRECISION,
};
use crate::adapters::dggrid::igeo7::{get_refinement_level_from_z7_zone_id, z7_decoded};
use crate::adapters::dggrid::isea3h::{get_refinement_level_from_z3_zone_id, z3_decoded};
use crate::error::{DggridError, GeoPlegmaError};
use crate::geometry::{
    point_numerals, point_text, rect_numerals, rect_text, Point, Rect, RectText,
};
use crate::models::{RefinementLevel, ZoneId, ZoneIdView, Zones};
use crate::ports::{all_gated, DggrsPortConfig};
use crate::registry::DggrsUid;
use crate::text::{decimal_digits, decimal_of, string_of};
use vstd::prelude::*;

verus! {

/// The two grids that the executable is asked for.
#[derive(Debug, Clone, Copy, PartialEq, Eq, Structural)]
pub enum DggridGrid {
    Isea3h,
    Igeo7,
}

impl DggridGrid {
    /// The entry of the grid in the table of grids.
    pub open spec fn uid(self) -> DggrsUid {
        match self {
            DggridGrid::Isea3h => DggrsUid::ISEA3HDGGRID,
            DggridGrid::Igeo7 => DggrsUid::IGEO7,
        }
    }

    /// The family of the grid, as the executable calls it.
    pub open spec fn family(self) -> Seq<char> {
        match self {
            DggridGrid::Isea3h => "ISEA3H"@,
            DggridGrid::Igeo7 => "IGEO7"@,
        }
    }

    /// The aperture of the grid.
    pub open spec fn aperture(self) -> Seq<char> {
        match self {
            DggridGrid::Isea3h => "3"@,
            DggridGrid::Igeo7 => "7"@,
        }
    }

    /// The packed form in which the grid writes and reads identifiers.
    pub open spec fn address_type(self) -> Seq<char> {
        match self {
            DggridGrid::Isea3h => "Z3"@,
            DggridGrid::Igeo7 => "Z7"@,
        }
    }

    /// The entry of the grid in the table of grids.
    pub fn id(self) -> (id: DggrsUid)
        ensures
            id == self.uid(),
    {
        match self {
            DggridGrid::Isea3h => DggrsUid::ISEA3HDGGRID,
            DggridGrid::Igeo7 => DggrsUid::IGEO7,
        }
    }

    /// The family of the grid, as the executable calls it.
    pub fn family_name(self) -> (s: &'static str)
        ensures
            s@ == self.family(),
    {
        match self {
            DggridGrid::Isea3h => "ISEA3H",
            DggridGrid::Igeo7 => "IGEO7",
        }
    }

    /// The aperture of the grid.
    pub fn aperture_name(self) -> (s: &'static str)
        ensures
            s@ == self.aperture(),
    {
        match self {
            DggridGrid::Isea3h => "3",
            DggridGrid::Igeo7 => "7",
        }
    }

    /// The packed form in which the grid writes and reads identifiers.
    pub fn address_name(self) -> (s: &'static str)
        ensures
            s@ == self.address_type(),
    {
        match self {
            DggridGrid::Isea3h => "Z3",
            DggridGrid::Igeo7 => "Z7",
        }
    }
}

/// The directives that name the grid: family, aperture and the form of the
/// identifiers that are written.
pub open spec fn grid_directives(grid: DggridGrid) -> Seq<char> {
    directive("dggs_type"@, grid.family()) + directive("dggs_aperture"@, grid.aperture())
        + directive("output_address_type"@, grid.address_type())
}

/// The directives that clip a query to the region in the file `bbox_path`.
pub open spec fn clip_region_directives(bbox_path: Seq<char>) -> Seq<char> {
    directive("clip_subset_type"@, "AIGEN"@) + directive("clip_region_files"@, bbox_path)
}

/// The directives that make the executable find the cell of the point in the
/// file `input_path`.
pub open spec fn point_directives(input_path: Seq<char>) -> Seq<char> {
    directive("dggrid_operation"@, "TRANSFORM_POINTS"@) + directive("input_address_type"@, "GEO"@)
        + directive("input_file_name"@, input_path)
}

/// The directives that clip a query to the cell `parent_id` of resolution
/// `parent_res`.
pub open spec fn parent_directives(grid: DggridGrid, parent_res: int, parent_id: Seq<char>) -> Seq<
    char,
> {
    directive("clip_subset_type"@, "COARSE_CELLS"@) + directive(
        "clip_cell_res"@,
        decimal_digits(parent_res as nat),
    ) + directive("clip_cell_densification"@, decimal_digits(DENSIFICATION as nat)) + directive(
        "clip_cell_addresses"@,
        seq!['"'] + parent_id + seq!['"'],
    ) + directive("input_address_type"@, grid.address_type())
}

/// The directives that make the executable look up the cell named in the
/// file `input_path`.
pub open spec fn id_directives(grid: DggridGrid, input_path: Seq<char>) -> Seq<char> {
    directive("input_file_name"@, input_path) + directive(
        "dggrid_operation"@,
        "TRANSFORM_POINTS"@,
    ) + directive("input_address_type"@, grid.address_type())
}

/// Adds the directives that name the grid.
pub fn push_grid_directives(text: &mut String, grid: DggridGrid)
    ensures
        final(text)@ == old(text)@ + grid_directives(grid),
{
    let ghost before = text@;
    push_directive(text, "dggs_type", grid.family_name());
    push_directive(text, "dggs_aperture", grid.aperture_name());
    push_directive(text, "output_address_type", grid.address_name());
    assert(text@ =~= before + grid_directives(grid));
}

/// The region that a rectangle clips a query to, from its six numerals: a
/// header with the number 1 and the centre, the four corners from the lower
/// left against the clock, the first corner again, and the word `END` twice.
pub open spec fn bbox_text(n: Seq<Seq<char>>) -> Seq<char> {
    directive("1"@ + seq![' '] + n[4], n[5]) + directive(n[0], n[1]) + directive(n[2], n[1])
        + directive(n[2], n[3]) + directive(n[0], n[3]) + directive(n[0], n[1]) + "END\n"@
        + "END\n"@
}

/// Writes the region that a rectangle clips a query to, from its numerals.
pub fn bbox_from_text(t: &RectText) -> (text: String)
    ensures
        text@ == bbox_text(t@),
{
    proof {
        reveal_strlit(" ");
        assert(" "@ =~= seq![' ']);
    }
    let mut header = "1".to_owned();
    header.append(" ");
    header.append(t.center_x.as_str());
    let mut text = String::new();
    push_directive(&mut text, header.as_str(), t.center_y.as_str());
    assert(text@ =~= directive("1"@ + seq![' '] + t.center_x@, t.center_y@));
    push_directive(&mut text, t.min_x.as_str(), t.min_y.as_str());
    push_directive(&mut text, t.max_x.as_str(), t.min_y.as_str());
    push_directive(&mut text, t.max_x.as_str(), t.max_y.as_str());
    push_directive(&mut text, t.min_x.as_str(), t.max_y.as_str());
    push_directive(&mut text, t.min_x.as_str(), t.min_y.as_str());
    text.append("END\n");
    text.append("END\n");
    text
}

/// The region that the rectangle `rect` clips a query to, its coordinates
/// written with the precision of the executable.
pub open spec fn bbox_file_text(rect: Rect) -> Seq<char> {
    bbox_text(rect_numerals(rect, PRECISION as nat))
}

/// Writes the region that a rectangle clips a query to.
pub fn bbox(rect: &Rect) -> (text: String)
    ensures
        text@ == bbox_file_text(*rect),
{
    let t = rect_text(rect, PRECISION);
    bbox_from_text(&t)
}

/// The one line that names a point: its latitude, a blank, its longitude.
pub open spec fn point_line_text(point: Point) -> Seq<char> {
    directive(point_numerals(point).1, point_numerals(point).0)
}

/// Writes the one line that names a point: latitude, then longitude.
pub fn point_line(point: &Point) -> (text: String)
    ensures
        text@ == point_line_text(*point),
{
    let (x, y) = point_text(point);
    let mut text = String::new();
    push_directive(&mut text, y.as_str(), x.as_str());
    assert(text@ =~= directive(y@, x@));
    text
}

/// What one query asks of the executable.
#[derive(Debug)]
pub struct DggridRequest {
    /// The six files of the call.
    pub paths: DggridPaths,
    /// The text of the file of directives.
    pub metafile: String,
    /// The text of the file of the clip region, for a query by rectangle.
    pub bbox_file: Option<String>,
    /// The text of the input file, for a query by point or by identifier.
    pub input_file: Option<String>,
    /// With what configuration the output is to be read.
    pub config: DggrsPortConfig,
    /// Whether the query is for one zone, so that any other number of zones
    /// in the output is an error.
    pub single: bool,
}

/// The directives that every query of the grid starts with.
pub open spec fn base_text(grid: DggridGrid, paths: DggridPaths, level: int, conf: DggrsPortConfig) -> Seq<
    char,
> {
    metafile_text(level, paths.stem@, paths.stem@, paths.stem@, conf) + grid_directives(grid)
}

/// Writes the directives that every query of the grid starts with.
pub fn base_metafile(
    grid: DggridGrid,
    paths: &DggridPaths,
    level: &RefinementLevel,
    conf: &DggrsPortConfig,
) -> (text: String)
    ensures
        text@ == base_text(grid, *paths, level@, *conf),
{
    let stem = paths.stem.as_str();
    let mut text = metafile(level, stem, stem, stem, conf);
    push_grid_directives(&mut text, grid);
    text
}

/// The request for the zones in a rectangle, or on the whole earth.
pub fn bbox_request(
    grid: DggridGrid,
    paths: DggridPaths,
    refinement_level: RefinementLevel,
    clip: Option<Rect>,
    conf: DggrsPortConfig,
) -> (req: DggridRequest)
    ensures
        req.paths == paths,
        req.config == conf,
        !req.single,
        req.input_file is None,
        match clip {
            Some(rect) => req.bbox_file matches Some(file) && file@ == bbox_file_text(rect),
            None => req.bbox_file is None,
        },
        req.metafile@ == base_text(grid, paths, refinement_level@, conf) + if clip is Some {
            clip_region_directives(paths.bbox@)
        } else {
            Seq::<char>::empty()
        },
{
    let mut text = base_metafile(grid, &paths, &refinement_level, &conf);
    let ghost base = text@;
    let bbox_file = match clip {
        Some(rect) => {
            push_directive(&mut text, "clip_subset_type", "AIGEN");
            push_directive(&mut text, "clip_region_files", paths.bbox.as_str());
            assert(text@ =~= base + clip_region_directives(paths.bbox@));
            Some(bbox(&rect))
        },
        None => {
            assert(text@ =~= base + Seq::<char>::empty());
            None
        },
    };
    DggridRequest { paths, metafile: text, bbox_file, input_file: None, config: conf, single: false }
}

/// The request for the zone that holds a point.
pub fn point_request(
    grid: DggridGrid,
    paths: DggridPaths,
    refinement_level: RefinementLevel,
    point: Point,
    conf: DggrsPortConfig,
) -> (req: DggridRequest)
    ensures
        req.paths == paths,
        req.config == conf,
        req.single,
        req.input_file matches Some(line) && line@ == point_line_text(point),
        req.bbox_file is None,
        req.metafile@ == base_text(grid, paths, refinement_level@, conf) + point_directives(
            paths.input@,
        ),
{
    let mut text = base_metafile(grid, &paths, &refinement_level, &conf);
    let ghost base = text@;
    push_directive(&mut text, "dggrid_operation", "TRANSFORM_POINTS");
    push_directive(&mut text, "input_address_type", "GEO");
    push_directive(&mut text, "input_file_name", paths.input.as_str());
    assert(text@ =~= base + point_directives(paths.input@));
    DggridRequest {
        paths,
        metafile: text,
        bbox_file: None,
        input_file: Some(point_line(&point)),
        config: conf,
        single: true,
    }
}

/// The request for the descendants of the cell `parent_id`, whose resolution
/// is `parent_level`, at the resolution `target_level`.
pub fn parent_request(
    grid: DggridGrid,
    paths: DggridPaths,
    parent_level: RefinementLevel,
    target_level: RefinementLevel,
    parent_id: &ZoneId,
    conf: DggrsPortConfig,
) -> (req: DggridRequest)
    ensures
        req.paths == paths,
        req.config == conf,
        !req.single,
        req.input_file is None,
        req.bbox_file is None,
        req.metafile@ == base_text(grid, paths, target_level@, conf) + parent_directives(
            grid,
            parent_level@,
            parent_id@.text(),
        ),
{
    proof {
        reveal_strlit("\"");
        assert("\""@ =~= seq!['"']);
    }
    let mut text = base_metafile(grid, &paths, &target_level, &conf);
    let ghost base = text@;
    let mut quoted = "\"".to_owned();
    quoted.append(parent_id.to_string().as_str());
    quoted.append("\"");
    push_directive(&mut text, "clip_subset_type", "COARSE_CELLS");
    push_directive(&mut text, "clip_cell_res", parent_level.to_string().as_str());
    push_directive(
        &mut text,
        "clip_cell_densification",
        string_of(&decimal_of(DENSIFICATION as u64)).as_str(),
    );
    push_directive(&mut text, "clip_cell_addresses", quoted.as_str());
    push_directive(&mut text, "input_address_type", grid.address_name());
    assert(text@ =~= base + parent_directives(grid, parent_level@, parent_id@.text()));
    DggridRequest {
        paths,
        metafile: text,
        bbox_file: None,
        input_file: None,
        config: conf,
        single: false,
    }
}

/// The request for the zone that `zone_id` names, whose resolution is `level`.
pub fn id_request(
    grid: DggridGrid,
    paths: DggridPaths,
    level: RefinementLevel,
    zone_id: &ZoneId,
    conf: DggrsPortConfig,
) -> (req: DggridRequest)
    ensures
        req.paths == paths,
        req.config == conf,
        req.single,
        req.bbox_file is None,
        req.input_file matches Some(line) && line@ == zone_id@.text() + seq!['\n'],
        req.metafile@ == base_text(grid, paths, level@, conf) + id_directives(grid, paths.input@),
{
    proof {
        reveal_strlit("\n");
        assert("\n"@ =~= seq!['\n']);
    }
    let mut text = base_metafile(grid, &paths, &level, &conf);
    let ghost base = text@;
    push_directive(&mut text, "input_file_name", paths.input.as_str());
    push_directive(&mut text, "dggrid_operation", "TRANSFORM_POINTS");
    push_directive(&mut text, "input_address_type", grid.address_name());
    assert(text@ =~= base + id_directives(grid, paths.input@));
    let mut line = zone_id.to_string();
    line.append("\n");
    DggridRequest {
        paths,
        metafile: text,
        bbox_file: None,
        input_file: Some(line),
        config: conf,
        single: true,
    }
}

/// How many cells the files of a call hold, where none of those that are
/// read is refused.
pub open spec fn record_count(
    aigen_text: Seq<char>,
    children_text: Seq<char>,
    neighbors_text: Seq<char>,
    conf: DggrsPortConfig,
) -> Option<nat> {
    match aigen_of(aigen_text) {
        Ok(records) => if lists_wanted(conf.children, children_text) is Ok && lists_wanted(
            conf.neighbors,
            neighbors_text,
        ) is Ok {
            Some(records.len())
        } else {
            None
        },
        Err(_) => None,
    }
}

/// What the files that answer a request give. A query for many zones gives
/// what the files hold. A query for one zone gives it where the files hold
/// exactly one cell; no cell is missing zone data, and more than one is
/// malformed output.
pub open spec fn answered(
    r: Result<Zones, GeoPlegmaError>,
    single: bool,
    aigen_text: Seq<char>,
    children_text: Seq<char>,
    neighbors_text: Seq<char>,
    conf: DggrsPortConfig,
) -> bool {
    match record_count(aigen_text, children_text, neighbors_text, conf) {
        Some(n) if single && n == 0 => r matches Err(
            GeoPlegmaError::Dggrid(DggridError::MissingZoneData),
        ),
        Some(n) if single && n > 1 => r matches Err(
            GeoPlegmaError::Dggrid(DggridError::Malformed { .. }),
        ),
        _ => ingested(r, aigen_text, children_text, neighbors_text, conf),
    }
}

/// Turns the files that the executable wrote for a request into its answer.
pub fn answer(
    request: &DggridRequest,
    aigen_text: &str,
    children_text: &str,
    neighbors_text: &str,
) -> (r: Result<Zones, GeoPlegmaError>)
    ensures
        answered(
            r,
            request.single,
            aigen_text@,
            children_text@,
            neighbors_text@,
            request.config,
        ),
        r matches Ok(z) ==> all_gated(z.zones@, request.config),
        request.single ==> (r matches Ok(z) ==> z.zones@.len() == 1),
{
    let zones = match ingest(aigen_text, children_text, neighbors_text, &request.config) {
        Ok(zones) => zones,
        Err(e) => {
            return Err(e);
        },
    };
    if request.single {
        let n = zones.zones.len();
        if n == 0 {
            return Err(GeoPlegmaError::Dggrid(DggridError::MissingZoneData));
        }
        if n > 1 {
            return Err(
                GeoPlegmaError::Dggrid(
                    DggridError::Malformed { msg: "more than one zone for a single query".to_owned() },
                ),
            );
        }
    }
    Ok(zones)
}

/// The resolution that an identifier of the grid encodes, if it is one.
pub open spec fn decoded_level(grid: DggridGrid, id: ZoneIdView) -> Option<int> {
    match grid {
        DggridGrid::Isea3h => z3_decoded(id),
        DggridGrid::Igeo7 => z7_decoded(id.text()),
    }
}

/// Reads the resolution out of an identifier of the grid.
pub fn level_of_id(grid: DggridGrid, id: &ZoneId) -> (r: Result<RefinementLevel, GeoPlegmaError>)
    ensures
        match decoded_level(grid, id@) {
            Some(l) => r matches Ok(level) && level@ == l,
            None => r matches Err(GeoPlegmaError::Dggrid(e)) && (e is InvalidZ3Format
                || e is InvalidZ7Format),
        },
{
    match grid {
        DggridGrid::Isea3h => get_refinement_level_from_z3_zone_id(id),
        DggridGrid::Igeo7 => match get_refinement_level_from_z7_zone_id(id.to_string().as_str()) {
            Ok(level) => Ok(RefinementLevel::from_u8(level)),
            Err(msg) => Err(GeoPlegmaError::Dggrid(DggridError::InvalidZ7Format(msg))),
        },
    }
}

} // verus!
