use vstd::prelude::*;

verus! {

/// Whether a node is being entered (before its children are visited)
/// or exited (after its children are visited).
#[derive(PartialEq, Eq, Structural, Clone, Copy, Debug)]
pub enum VisitStage {
    Enter,
    Exit,
}

/// A pair of visitors: one called when a node is entered, one when it is exited.
pub struct Visitors<T> {
    pub enter: Option<T>,
    pub exit: Option<T>,
}

impl<T> Visitors<T> {
    /// The visitor that applies at `stage`.
    pub open spec fn spec_for_stage(&self, stage: VisitStage) -> Option<T> {
        match stage {
            VisitStage::Enter => self.enter,
            VisitStage::Exit => self.exit,
        }
    }

    /// The pair of `enter` and `exit`.
    pub fn new(enter: Option<T>, exit: Option<T>) -> (res: Self)
        ensures
            res.enter == enter,
            res.exit == exit,
    {
        Visitors { enter, exit }
    }

    /// The visitor that applies at `stage`, if there is one.
    pub fn for_stage(&self, stage: VisitStage) -> (res: Option<&T>)
        ensures
            res == match self.spec_for_stage(stage) {
                Some(v) => Some(&v),
                None => None::<&T>,
            },
    {
        match stage {
            VisitStage::Enter => self.enter.as_ref(),
            VisitStage::Exit => self.exit.as_ref(),
        }
    }
}

/// The enter visitor of a pair applies when a node is entered, its exit
/// visitor when the node is exited.
pub proof fn stage_picks_its_visitor<T>(enter: Option<T>, exit: Option<T>)
    ensures
        (Visitors { enter, exit }).spec_for_stage(VisitStage::Enter) == enter,
        (Visitors { enter, exit }).spec_for_stage(VisitStage::Exit) == exit,
{
}

/// The visitor that handles a node: a visitor registered for the node's own
/// name or kind takes precedence over the general visitor for its category.
pub fn choose_visitor<T>(specific: Option<T>, general: Option<T>) -> (res: Option<T>)
    ensures
        res == match specific {
            Some(v) => Some(v),
            None => general,
        },
{
    match specific {
        Some(v) => Some(v),
        None => general,
    }
}

} // verus!
