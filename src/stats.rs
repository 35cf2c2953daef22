use vstd::prelude::*;

verus! {

/// Counts of segment mappings: how many are live, and how many file
/// resizes, mappings and unmappings failed.
#[derive(Debug, Clone, Copy, PartialEq, Eq, Structural)]
pub struct MmapStats {
    /// Segments currently mapped.
    pub active: u64,
    /// Backing-file resizes that failed.
    pub ftruncate_failed: u64,
    /// Mappings that failed.
    pub map_failed: u64,
    /// Unmappings that failed.
    pub unmap_failed: u64,
}

impl MmapStats {
    /// Number of segments currently mapped.
    pub fn active_segment(&self) -> (r: u64)
        ensures
            r == self.active,
    {
        self.active
    }

    /// Number of backing-file resizes that failed.
    pub fn ftruncate_failed(&self) -> (r: u64)
        ensures
            r == self.ftruncate_failed,
    {
        self.ftruncate_failed
    }

    /// Number of mappings that failed.
    pub fn map_failed(&self) -> (r: u64)
        ensures
            r == self.map_failed,
    {
        self.map_failed
    }

    /// Number of unmappings that failed.
    pub fn unmap_failed(&self) -> (r: u64)
        ensures
            r == self.unmap_failed,
    {
        self.unmap_failed
    }
}

impl Default for MmapStats {
    /// All counts at zero.
    fn default() -> (r: Self)
        ensures
            r.active == 0 && r.ftruncate_failed == 0 && r.map_failed == 0 && r.unmap_failed == 0,
    {
        MmapStats { active: 0, ftruncate_failed: 0, map_failed: 0, unmap_failed: 0 }
    }
}

} // verus!
