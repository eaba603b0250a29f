pub mod labeller;
pub mod overlay;
pub mod renderer;

use vstd::prelude::*;

use crate::panes::labeller::LabelTool;

verus! {

/// The kinds of pane the tile tree holds.
#[derive(Debug, PartialEq, Eq, Clone, Copy, Structural)]
pub enum Pane {
    Shader,
    Controls,
    Labeller(LabelTool),
}

impl Default for Pane {
    fn default() -> (p: Pane)
        ensures
            p == Pane::Shader,
    {
        Pane::Shader
    }
}

/// The tab title of each kind of pane.
pub open spec fn pane_title(pane: Pane) -> Seq<char> {
    match pane {
        Pane::Shader => "Shader"@,
        Pane::Controls => "Controls"@,
        Pane::Labeller(LabelTool::Corner) => "Label Corner"@,
        Pane::Labeller(LabelTool::BBox) => "Label BBox"@,
    }
}

/// The title shown on the tab of `pane`.
pub fn tab_title_for_pane(pane: &Pane) -> (title: String)
    ensures
        title@ == pane_title(*pane),
{
    match pane {
        Pane::Shader => String::from_str("Shader"),
        Pane::Controls => String::from_str("Controls"),
        Pane::Labeller(tool) => {
            let mut title = String::from_str("Label ");
            match tool {
                LabelTool::Corner => {
                    title.append("Corner");
                    proof {
                        reveal_strlit("Label ");
                        reveal_strlit("Corner");
                        reveal_strlit("Label Corner");
                        assert(title@ =~= "Label Corner"@);
                    }
                },
                LabelTool::BBox => {
                    title.append("BBox");
                    proof {
                        reveal_strlit("Label ");
                        reveal_strlit("BBox");
                        reveal_strlit("Label BBox");
                        assert(title@ =~= "Label BBox"@);
                    }
                },
            }
            title
        },
    }
}

} // verus!
