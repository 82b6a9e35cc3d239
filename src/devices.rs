use vstd::prelude::*;

use crate::device::{UserFacing, Work};

verus! {

/// A hardware device that performs function A and cannot perform function B at all.
///
/// Its token for B is `Infallible`, a type without values: no B token can exist, so the
/// code that would consume one is unreachable. The model says so too: the device honours
/// no B token, so the actions that take one require what can never hold.
pub struct Limited;

impl UserFacing for Limited {
    type A = ();
    type B = core::convert::Infallible;

    open spec fn probe_a(&self) -> Option<()> {
        Some(())
    }

    open spec fn probe_b(&self) -> Option<core::convert::Infallible> {
        None
    }

    open spec fn honours_a(&self, t: ()) -> bool {
        true
    }

    open spec fn honours_b(&self, t: core::convert::Infallible) -> bool {
        false
    }

    open spec fn work_a(&self, t: ()) -> Seq<Work> {
        seq![Work::HardwareA]
    }

    open spec fn work_b(&self, t: core::convert::Infallible) -> Seq<Work> {
        Seq::empty()
    }

    open spec fn work_composite(&self, a: (), b: core::convert::Infallible) -> Seq<Work> {
        Seq::empty()
    }

    fn can_a(&mut self) -> (r: Option<()>)
        ensures
            r == Some(()),
    {
        Some(())
    }

    fn can_b(&mut self) -> (r: Option<core::convert::Infallible>)
        ensures
            r is None,
    {
        None
    }

    fn composite_function(&mut self, because_a: (), because_b: core::convert::Infallible) -> (r:
        Vec<Work>) {
        // No B token is ever honoured here, so this call cannot be reached.
        vstd::pervasive::unreached()
    }

    fn piece_a(&mut self, because: ()) -> (r: Vec<Work>) {
        vec![Work::HardwareA]
    }

    fn piece_b(&mut self, because: core::convert::Infallible) -> (r: Vec<Work>) {
        // No B token is ever honoured here, so this call cannot be reached.
        vstd::pervasive::unreached()
    }
}

/// A device that performs both functions in software: always available, but slow.
pub struct SoftwareImplementation;

impl UserFacing for SoftwareImplementation {
    type A = ();
    type B = ();

    open spec fn probe_a(&self) -> Option<()> {
        Some(())
    }

    open spec fn probe_b(&self) -> Option<()> {
        Some(())
    }

    open spec fn honours_a(&self, t: ()) -> bool {
        true
    }

    open spec fn honours_b(&self, t: ()) -> bool {
        true
    }

    open spec fn work_a(&self, t: ()) -> Seq<Work> {
        seq![Work::SoftwareA]
    }

    open spec fn work_b(&self, t: ()) -> Seq<Work> {
        seq![Work::SoftwareB]
    }

    /// The plain sequence of function A, then function B.
    open spec fn work_composite(&self, a: (), b: ()) -> Seq<Work> {
        self.work_a(a) + self.work_b(b)
    }

    fn can_a(&mut self) -> (r: Option<()>)
        ensures
            r == Some(()),
    {
        Some(())
    }

    fn can_b(&mut self) -> (r: Option<()>)
        ensures
            r == Some(()),
    {
        Some(())
    }

    fn composite_function(&mut self, because_a: (), because_b: ()) -> (r: Vec<Work>) {
        let mut r = self.piece_a(because_a);
        let mut b = self.piece_b(because_b);
        r.append(&mut b);
        r
    }

    fn piece_a(&mut self, because: ()) -> (r: Vec<Work>) {
        vec![Work::SoftwareA]
    }

    fn piece_b(&mut self, because: ()) -> (r: Vec<Work>) {
        vec![Work::SoftwareB]
    }
}

} // verus!
