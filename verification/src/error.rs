//! The one error taxonomy that every adapter reports through.
use crate::models::{RefinementLevel, RelativeDepth};
use crate::registry::{DggrsImplementation, DggrsUid};
use vstd::prelude::*;

verus! {

/// `std::num::ParseFloatError`, which the standard number parser reports for
/// a token that is no floating-point numeral. It is carried, never inspected.
#[verifier::external_type_specification]
#[verifier::external_body]
pub struct ExParseFloatError(std::num::ParseFloatError);

/// What can go wrong in the adapter of the native grid library.
#[derive(Debug)]
pub enum DggalError {
    /// The library reported an edge count that no unsigned 32-bit field holds.
    EdgeCountConversion { zone_id: String, count: i32 },
    InvalidZoneIdFormat(String),
    MissingZoneData,
    UnknownGrid { grid_name: String },
    LockFailure,
    /// The library reported a depth that is no refinement level.
    DepthConversion { grid_name: String, depth: i32 },
}

/// What can go wrong in the adapter of the batch executable.
#[derive(Debug)]
pub enum DggridError {
    EdgeCountConversion { zone_id: String, count: usize },
    InvalidZoneIdFormat(String),
    InvalidZ3Format(String),
    InvalidZ7Format(String),
    MissingZoneData,
    FileRead { path: String, reason: String },
    Io(String),
    Malformed { msg: String },
}

/// What can go wrong in the adapter of the in-process hexagonal grid.
#[derive(Debug)]
pub enum H3oError {
    EdgeCountConversion { zone_id: String, count: usize },
    InvalidResolution { zone_id: String, depth: u8 },
    InvalidZoneID { zone_id: String },
    ResolutionLimitReached { zone_id: String },
    MissingZoneData,
    CannotTranslateToH3Resolution { rf: String },
    /// The point is no finite pair of degrees.
    InvalidCoordinate,
}

/// Every error of the library.
#[derive(Debug)]
#[allow(inconsistent_fields)]
pub enum GeoPlegmaError {
    Dggal(DggalError),
    Dggrid(DggridError),
    H3o(H3oError),
    DepthBelowZero(i32),
    RelativeDepthBelowZero(i32),
    UnsupportedCombo { tool: String, grid: String },
    RefinementLevelLimitReached {
        grid_name: String,
        requested: RefinementLevel,
        maximum: RefinementLevel,
    },
    RelativeDepthLimitReached {
        grid_name: String,
        requested: RelativeDepth,
        maximum: RelativeDepth,
    },
    RefinementLevelPlusRelativeDepthLimitReached {
        grid_name: String,
        requested: RelativeDepth,
        maximum: RefinementLevel,
    },
    RefinementLevelTooHigh(RefinementLevel),
    RelativeDepthTooLarge(RelativeDepth),
    UnsupportedZoneIdFormat(String),
    InvalidHexId(String),
    Float(std::num::ParseFloatError),
}

/// The errors of the three backends, without those of the model.
#[derive(Debug)]
pub enum PortError {
    Dggal(DggalError),
    Dggrid(DggridError),
    H3o(H3oError),
    UnsupportedCombo { tool: String, grid: String },
}

/// Why the factory hands out no adapter.
#[derive(Debug)]
pub enum FactoryError {
    UnsupportedCombination { tool: DggrsImplementation, id: DggrsUid },
    AdapterUnavailable { id: DggrsUid },
}

/// Why a grid identifier names no adapter.
#[derive(Debug)]
pub enum DggrsUidError {
    /// A valid identifier for which no adapter exists.
    Unsupported { id: DggrsUid },
    /// A text that names no grid; `candidates` lists the grids there are.
    Unknown { input: String, candidates: Vec<DggrsUid> },
}

/// The text `a` followed by `b` and `c`.
pub fn join3(a: &str, b: &str, c: &str) -> (s: String)
    ensures
        s@ == a@ + b@ + c@,
{
    let mut s = a.to_owned();
    s.append(b);
    s.append(c);
    s
}

} // verus!
