//! What the metadata loader reports of a workspace, and what is served for
//! it.

use crate::resolver::{join, joined};
use crate::server::{BindAddress, ServerConfig, ServerConfigView};
use crate::units::{unit_views, DocumentableUnit, TargetKind, UnitView};
use vstd::prelude::*;

verus! {

/// The target directory of a workspace that names none.
pub const DEFAULT_TARGET_DIR: &'static str = "./target";

/// The directory under the target directory that the documentation is
/// written to.
pub const DOC_DIR_NAME: &'static str = "doc";

/// The directory under the workspace root that is watched for changes.
pub const SOURCE_DIR_NAME: &'static str = "src";

/// One build target of a package, as the metadata loader reports it.
#[derive(Clone, Debug, PartialEq, Eq)]
pub struct Target {
    pub name: String,
    pub kind: TargetKind,
    /// Whether documentation is generated for the target.
    pub documented: bool,
}

pub struct TargetView {
    pub name: Seq<char>,
    pub kind: TargetKind,
    pub documented: bool,
}

impl View for Target {
    type V = TargetView;

    open spec fn view(&self) -> TargetView {
        TargetView { name: self.name@, kind: self.kind, documented: self.documented }
    }
}

impl Target {
    pub fn new(name: &str, kind: TargetKind, documented: bool) -> (target: Target)
        ensures
            target@ == (TargetView { name: name@, kind, documented }),
    {
        Target { name: String::from_str(name), kind, documented }
    }
}

impl TargetView {
    /// Whether the target is listed on the index page: it is a library and
    /// it is documented.
    pub open spec fn is_listed(self) -> bool {
        self.documented && self.kind == TargetKind::Lib
    }

    pub open spec fn unit(self) -> UnitView {
        UnitView { name: self.name, kind: self.kind }
    }
}

/// One member package of a workspace.
#[derive(Clone, Debug, PartialEq, Eq)]
pub struct Package {
    pub targets: Vec<Target>,
}

impl View for Package {
    type V = Seq<TargetView>;

    open spec fn view(&self) -> Seq<TargetView> {
        self.targets@.map_values(|t: Target| t@)
    }
}

#[derive(Clone, Debug, PartialEq, Eq)]
pub struct Workspace {
    /// The root directory of the workspace.
    pub root: String,
    /// The target directory, where one is configured.
    pub target_dir: Option<String>,
    /// The member packages, in the loader's order.
    pub members: Vec<Package>,
}

pub struct WorkspaceView {
    pub root: Seq<char>,
    pub target_dir: Option<Seq<char>>,
    pub members: Seq<Seq<TargetView>>,
}

impl View for Workspace {
    type V = WorkspaceView;

    open spec fn view(&self) -> WorkspaceView {
        WorkspaceView {
            root: self.root@,
            target_dir: match self.target_dir {
                Some(dir) => Some(dir@),
                None => None,
            },
            members: self.members@.map_values(|p: Package| p@),
        }
    }
}

/// The listed targets among `targets`, as units, in their order.
pub open spec fn listed_units(targets: Seq<TargetView>) -> Seq<UnitView>
    decreases targets.len(),
{
    if targets.len() == 0 {
        Seq::empty()
    } else if targets.last().is_listed() {
        listed_units(targets.drop_last()).push(targets.last().unit())
    } else {
        listed_units(targets.drop_last())
    }
}

/// The listed targets of all `members`: member by member, each member's
/// targets in their order.
pub open spec fn workspace_units(members: Seq<Seq<TargetView>>) -> Seq<UnitView>
    decreases members.len(),
{
    if members.len() == 0 {
        Seq::empty()
    } else {
        workspace_units(members.drop_last()) + listed_units(members.last())
    }
}

impl WorkspaceView {
    /// Where the documentation of the workspace is written.
    pub open spec fn doc_dir(self) -> Seq<char> {
        joined(
            match self.target_dir {
                Some(dir) => dir,
                None => DEFAULT_TARGET_DIR@,
            },
            DOC_DIR_NAME@,
        )
    }

    /// The directory to watch for changes.
    pub open spec fn watch_root(self) -> Seq<char> {
        joined(self.root, SOURCE_DIR_NAME@)
    }

    /// What an instance serves for this workspace at `addr`.
    pub open spec fn serving_config(self, addr: BindAddress) -> ServerConfigView {
        ServerConfigView { doc_dir: self.doc_dir(), targets: workspace_units(self.members), addr }
    }
}

impl Workspace {
    /// The directory to watch for changes: `src` under the root.
    pub fn watch_root(&self) -> (path: String)
        ensures
            path@ == self@.watch_root(),
    {
        join(self.root.as_str(), SOURCE_DIR_NAME)
    }

    /// The directory the documentation is written to: `doc` under the
    /// target directory, which is `./target` where none is configured.
    pub fn doc_dir(&self) -> (path: String)
        ensures
            path@ == self@.doc_dir(),
    {
        match &self.target_dir {
            Some(dir) => join(dir.as_str(), DOC_DIR_NAME),
            None => join(DEFAULT_TARGET_DIR, DOC_DIR_NAME),
        }
    }

    /// The units to list: every documented library target, member by
    /// member, in the loader's order.
    pub fn documented_units(&self) -> (units: Vec<DocumentableUnit>)
        ensures
            unit_views(units@) == workspace_units(self@.members),
    {
        let ghost members = self@.members;
        let mut units: Vec<DocumentableUnit> = Vec::new();
        let mut m: usize = 0;
        while m < self.members.len()
            invariant
                m <= self.members.len(),
                members == self@.members,
                unit_views(units@) == workspace_units(members.take(m as int)),
            decreases self.members.len() - m,
        {
            let targets = &self.members[m].targets;
            let ghost views = self.members[m as int]@;
            let ghost start = unit_views(units@);
            let mut t: usize = 0;
            while t < targets.len()
                invariant
                    t <= targets.len(),
                    views == targets@.map_values(|t: Target| t@),
                    unit_views(units@) == start + listed_units(views.take(t as int)),
                decreases targets.len() - t,
            {
                let target = &targets[t];
                proof {
                    assert(views.take(t + 1).drop_last() == views.take(t as int));
                    assert(views.take(t + 1).last() == target@);
                }
                if target.documented && target.kind == TargetKind::Lib {
                    let ghost listed = unit_views(units@);
                    units.push(DocumentableUnit::new(target.name.as_str(), target.kind));
                    assert(unit_views(units@) =~= listed.push(target@.unit()));
                }
                t = t + 1;
            }
            proof {
                assert(views.take(targets.len() as int) == views);
                assert(members.take(m + 1).drop_last() == members.take(m as int));
                assert(members.take(m + 1).last() == views);
            }
            m = m + 1;
        }
        assert(members.take(self.members.len() as int) == members);
        units
    }

    /// What an instance serves for this workspace at `addr`.
    pub fn serving_config(&self, addr: BindAddress) -> (config: ServerConfig)
        ensures
            config@ == self@.serving_config(addr),
    {
        ServerConfig { doc_dir: self.doc_dir(), targets: self.documented_units(), addr }
    }
}

/// What is served for a workspace on the default address.
pub fn serve(ws: &Workspace) -> (config: ServerConfig)
    ensures
        config@ == ws@.serving_config(BindAddress::local_default()),
{
    ws.serving_config(BindAddress::default_local())
}

} // verus!
