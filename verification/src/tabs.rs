//! The dockable tabs of the front end and the state each keeps.
//!
//! Rendering a tab is the front end's work; what the library fixes is the
//! closed set of tab kinds, the per-tab state (selected row, selected
//! material), and the constructors the dock is populated from.

use vstd::prelude::*;

verus! {

/// The surface-table editor tab.
#[derive(Debug, Clone, Copy, PartialEq, Eq, Structural)]
pub struct SurfaceEditor {
    /// The currently selected surface row.
    pub row: usize,
}

impl SurfaceEditor {
    /// An editor with the first row selected.
    pub fn new() -> (r: SurfaceEditor)
        ensures
            r.row == 0,
    {
        SurfaceEditor { row: 0 }
    }
}

/// The log-viewer tab; it renders the shared log and keeps no state.
#[derive(Debug, Clone, Copy, PartialEq, Eq, Structural)]
pub struct Log;

impl Log {
    /// The log viewer.
    pub fn new() -> (r: Log)
        ensures
            r == Log,
    {
        Log
    }
}

/// The material-curve viewer tab.
#[derive(Debug, Clone, Copy, PartialEq, Eq, Structural)]
pub struct MaterialViewer {
    /// The 0-based row of the material table being plotted.
    pub material: usize,
}

impl MaterialViewer {
    /// A viewer plotting the first material.
    pub fn new() -> (r: MaterialViewer)
        ensures
            r.material == 0,
    {
        MaterialViewer { material: 0 }
    }
}

/// The 2D system-plot tab; it draws from the system and keeps no state.
#[derive(Debug, Clone, Copy, PartialEq, Eq, Structural)]
pub struct System2dViewer {}

impl System2dViewer {
    /// The 2D viewer.
    pub fn new() -> (r: System2dViewer)
        ensures
            r == (System2dViewer {  }),
    {
        System2dViewer {  }
    }
}

/// The configuration tab; it edits shared state and keeps none of its own.
#[derive(Debug, Clone, Copy, PartialEq, Eq, Structural)]
pub struct Config;

impl Config {
    /// The configuration tab.
    pub fn new() -> (r: Config)
        ensures
            r == Config,
    {
        Config
    }
}

/// The closed set of tab kinds, each carrying its tab state.
#[derive(Debug, Clone, Copy, PartialEq, Eq, Structural)]
pub enum TabKind {
    /// A surface-table editor.
    SurfaceEditor(SurfaceEditor),
    /// A log viewer.
    Log(Log),
    /// A material-curve viewer.
    MaterialViewer(MaterialViewer),
    /// A 2D system plot.
    System2dViewer(System2dViewer),
    /// The configuration panel.
    Config(Config),
}

impl TabKind {
    /// A fresh surface editor.
    pub fn new_surface_editor() -> (r: TabKind)
        ensures
            r == TabKind::SurfaceEditor(SurfaceEditor { row: 0 }),
    {
        TabKind::SurfaceEditor(SurfaceEditor::new())
    }

    /// A fresh log viewer.
    pub fn new_log() -> (r: TabKind)
        ensures
            r == TabKind::Log(Log),
    {
        TabKind::Log(Log::new())
    }

    /// A fresh material viewer.
    pub fn new_material_viewer() -> (r: TabKind)
        ensures
            r == TabKind::MaterialViewer(MaterialViewer { material: 0 }),
    {
        TabKind::MaterialViewer(MaterialViewer::new())
    }

    /// A fresh 2D system plot.
    pub fn new_system_2d_viewer() -> (r: TabKind)
        ensures
            r == TabKind::System2dViewer(System2dViewer {  }),
    {
        TabKind::System2dViewer(System2dViewer::new())
    }

    /// A fresh configuration panel.
    pub fn new_config() -> (r: TabKind)
        ensures
            r == TabKind::Config(Config),
    {
        TabKind::Config(Config::new())
    }
}

/// One docked tab: a dock-unique id and the tab's kind and state.
#[derive(Debug, Clone, Copy, PartialEq, Eq, Structural)]
pub struct Tab {
    /// The dock-unique id.
    pub id: usize,
    /// The tab's kind and state.
    pub kind: TabKind,
}

impl Tab {
    /// Pairs an id with a tab kind.
    pub fn new(id: usize, kind: TabKind) -> (r: Tab)
        ensures
            r.id == id,
            r.kind == kind,
    {
        Tab { id, kind }
    }
}

} // verus!
