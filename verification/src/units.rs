//! Documentable units: the targets whose documentation is listed and served.

use vstd::prelude::*;

verus! {

/// What kind of build target a unit is.
#[derive(Clone, Copy, Debug, PartialEq, Eq, Structural)]
pub enum TargetKind {
    Lib,
    Bin,
    Test,
    Bench,
    Example,
    CustomBuild,
}

/// One target whose documentation was generated. Read-only once made.
#[derive(Clone, Debug, PartialEq, Eq)]
pub struct DocumentableUnit {
    pub name: String,
    pub kind: TargetKind,
}

pub struct UnitView {
    pub name: Seq<char>,
    pub kind: TargetKind,
}

impl View for DocumentableUnit {
    type V = UnitView;

    open spec fn view(&self) -> UnitView {
        UnitView { name: self.name@, kind: self.kind }
    }
}

impl DocumentableUnit {
    pub fn new(name: &str, kind: TargetKind) -> (unit: DocumentableUnit)
        ensures
            unit@ == (UnitView { name: name@, kind }),
    {
        DocumentableUnit { name: String::from_str(name), kind }
    }
}

/// The views of a list of units, in the same order.
pub open spec fn unit_views(units: Seq<DocumentableUnit>) -> Seq<UnitView> {
    units.map_values(|u: DocumentableUnit| u@)
}

} // verus!
