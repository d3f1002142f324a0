//! What the documentation build is asked to do.

use vstd::prelude::*;

verus! {

/// Which packages of the workspace to build documentation for.
#[derive(Clone, Debug, PartialEq, Eq)]
pub enum Packages {
    /// The default members of the workspace.
    Default,
    /// Every member.
    All,
    /// Every member but the named ones.
    OptOut(Vec<String>),
    /// The named packages.
    Packages(Vec<String>),
}

pub enum PackagesView {
    Default,
    All,
    OptOut(Seq<Seq<char>>),
    Packages(Seq<Seq<char>>),
}

/// The names in a list, in order.
pub open spec fn name_views(names: Seq<String>) -> Seq<Seq<char>> {
    names.map_values(|name: String| name@)
}

impl View for Packages {
    type V = PackagesView;

    open spec fn view(&self) -> PackagesView {
        match self {
            Packages::Default => PackagesView::Default,
            Packages::All => PackagesView::All,
            Packages::OptOut(names) => PackagesView::OptOut(name_views(names@)),
            Packages::Packages(names) => PackagesView::Packages(name_views(names@)),
        }
    }
}

/// How documentation is built: with or without that of the dependencies.
#[derive(Clone, Copy, Debug, PartialEq, Eq, Structural)]
pub struct DocMode {
    pub deps: bool,
}

/// One request to the documentation build.
#[derive(Clone, Debug, PartialEq, Eq)]
pub struct DocRequest {
    pub mode: DocMode,
    pub packages: Packages,
    /// Whether to open the result in a browser when the build is done.
    pub open_result: bool,
}

pub struct DocRequestView {
    pub mode: DocMode,
    pub packages: PackagesView,
    pub open_result: bool,
}

impl View for DocRequest {
    type V = DocRequestView;

    open spec fn view(&self) -> DocRequestView {
        DocRequestView {
            mode: self.mode,
            packages: self.packages@,
            open_result: self.open_result,
        }
    }
}

/// The request for one build of the documentation: the given mode and
/// selection, and never a browser.
pub fn generate(mode: DocMode, packages: Packages) -> (request: DocRequest)
    ensures
        request@ == (DocRequestView { mode, packages: packages@, open_result: false }),
{
    DocRequest { mode, packages, open_result: false }
}

} // verus!
