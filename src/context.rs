use vstd::prelude::*;

verus! {

/// The interaction mode the viewer is in; it selects the key bindings that apply.
#[derive(Debug, Clone, Copy, PartialEq, Eq, Hash, Structural)]
pub enum Context {
    Empty,
    Table,
    Sheet,
    Command,
    Error,
    Search,
    Schema,
    TabSidePanel,
    DataFrameInfo,
    ScatterPlot,
    HistogramPlot,
}

/// The parent of a context in the context tree; `Empty` is the root.
pub open spec fn parent_of(c: Context) -> Option<Context> {
    match c {
        Context::Empty => None,
        Context::Sheet | Context::Search => Some(Context::Table),
        _ => Some(Context::Empty),
    }
}

/// Number of parent steps from a context to the root.
pub open spec fn depth(c: Context) -> nat {
    match c {
        Context::Empty => 0,
        Context::Sheet | Context::Search => 2,
        _ => 1,
    }
}

impl Context {
    pub fn parent(&self) -> (r: Option<Context>)
        ensures
            r == parent_of(*self),
    {
        match self {
            Context::Empty => None,
            Context::Table => Some(Context::Empty),
            Context::Sheet => Some(Context::Table),
            Context::Command => Some(Context::Empty),
            Context::Error => Some(Context::Empty),
            Context::Search => Some(Context::Table),
            Context::Schema => Some(Context::Empty),
            Context::TabSidePanel => Some(Context::Empty),
            Context::DataFrameInfo => Some(Context::Empty),
            Context::ScatterPlot => Some(Context::Empty),
            Context::HistogramPlot => Some(Context::Empty),
        }
    }
}

/// Every context other than the root has a parent one step closer to the root,
/// so following parents always ends at `Empty` within at most two steps.
pub proof fn lemma_parent_descends(c: Context)
    ensures
        depth(c) <= 2,
        (depth(c) == 0) == (c == Context::Empty),
        parent_of(c) is None <==> c == Context::Empty,
        parent_of(c) is Some ==> depth(parent_of(c)->0) + 1 == depth(c),
{
}

/// Which of the two main panes the viewer shows.
#[derive(Debug, Clone, Copy, PartialEq, Eq, Structural)]
pub enum Content {
    Schema,
    Tabulars,
}

} // verus!
