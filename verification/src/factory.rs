//! From a grid to the adapter that serves it.
use crate::adapters::dggal::grids::DggalImpl;
use crate::adapters::dggrid::igeo7::Igeo7Impl;
use crate::adapters::dggrid::isea3h::Isea3hImpl;
use crate::adapters::h3o::h3::H3Impl;
use crate::error::FactoryError;
use crate::ports::DggrsPort;
use crate::registry::{tool_of, DggrsImplementation, DggrsUid};
use vstd::prelude::*;

verus! {

/// The adapter of a grid: one of the three backends, chosen once by the
/// entry of the grid in the table.
#[derive(Debug, Clone)]
pub enum DggrsAdapter {
    /// The aperture 3 grid of the batch executable.
    Isea3h(Isea3hImpl),
    /// The aperture 7 grid of the batch executable.
    Igeo7(Igeo7Impl),
    /// The hexagonal grid computed in process.
    H3(H3Impl),
    /// A grid of the native library.
    Dggal(DggalImpl),
}

impl DggrsAdapter {
    /// The adapter is the one that serves the grid `id`.
    pub open spec fn serves(self, id: DggrsUid) -> bool {
        match self {
            DggrsAdapter::Isea3h(_) => id == DggrsUid::ISEA3HDGGRID,
            DggrsAdapter::Igeo7(_) => id == DggrsUid::IGEO7,
            DggrsAdapter::H3(a) => id == DggrsUid::H3 && a.uid() == id,
            DggrsAdapter::Dggal(a) => tool_of(id) == DggrsImplementation::DGGAL && a.uid() == id,
        }
    }
}

/// The adapter that serves the grid `id`. A grid whose tool has no adapter
/// for it would be refused as unsupported; the table holds no such grid.
pub fn get(id: DggrsUid) -> (r: Result<DggrsAdapter, FactoryError>)
    ensures
        r matches Ok(adapter) && adapter.serves(id),
{
    match id.tool() {
        DggrsImplementation::DGGRID => match id {
            DggrsUid::ISEA3HDGGRID => Ok(DggrsAdapter::Isea3h(Isea3hImpl::default())),
            DggrsUid::IGEO7 => Ok(DggrsAdapter::Igeo7(Igeo7Impl::default())),
            _ => Err(FactoryError::UnsupportedCombination { tool: DggrsImplementation::DGGRID, id }),
        },
        DggrsImplementation::H3O => match id {
            DggrsUid::H3 => Ok(DggrsAdapter::H3(H3Impl::default())),
            _ => Err(FactoryError::UnsupportedCombination { tool: DggrsImplementation::H3O, id }),
        },
        DggrsImplementation::DGGAL => match id {
            DggrsUid::ISEA3HDGGAL
            | DggrsUid::IVEA3H
            | DggrsUid::ISEA9R
            | DggrsUid::IVEA9R
            | DggrsUid::RTEA3H
            | DggrsUid::RTEA9R => Ok(DggrsAdapter::Dggal(DggalImpl::new(id))),
            _ => Err(FactoryError::UnsupportedCombination { tool: DggrsImplementation::DGGAL, id }),
        },
        DggrsImplementation::Native => Err(
            FactoryError::UnsupportedCombination { tool: DggrsImplementation::Native, id },
        ),
    }
}

} // verus!
