use vstd::prelude::*;

verus! {

/// One unit of work that a device carried out.
#[derive(PartialEq, Eq, Structural, Clone, Copy, Debug)]
pub enum Work {
    /// Function A, performed by dedicated hardware.
    HardwareA,
    /// Function A, performed in software.
    SoftwareA,
    /// Function B, performed in software.
    SoftwareB,
}

impl Work {
    /// A line of text that describes the work.
    pub fn describe(&self) -> (r: &'static str)
        ensures
            r@ == self.description(),
    {
        match self {
            Work::HardwareA => "Performing function A in hardware",
            Work::SoftwareA => "Performing function A in software",
            Work::SoftwareB => "Performing function B in software",
        }
    }

    pub open spec fn description(&self) -> Seq<char> {
        match self {
            Work::HardwareA => "Performing function A in hardware"@,
            Work::SoftwareA => "Performing function A in software"@,
            Work::SoftwareB => "Performing function B in software"@,
        }
    }
}

/// A device that offers two capabilities, A and B.
///
/// A caller first probes for a capability; a probe that succeeds hands out a token, and
/// the token is what the device asks for before it performs the matching work. A device
/// that can never offer a capability picks a token type without values, so that the code
/// which would consume such a token cannot be reached.
///
/// The model of a device is given by its spec functions: what a probe yields in the
/// current state, which tokens the device honours, and the work that each action performs.
/// Every action returns the work it performed, in order, and every method keeps the
/// tokens that the device honoured before: tokens never expire.
pub trait UserFacing: Sized {
    /// Token for capability A.
    type A;
    /// Token for capability B.
    type B;

    /// What a probe for capability A yields in this state.
    spec fn probe_a(&self) -> Option<Self::A>;

    /// What a probe for capability B yields in this state.
    spec fn probe_b(&self) -> Option<Self::B>;

    /// Whether the device accepts `t` as proof that it can perform A.
    spec fn honours_a(&self, t: Self::A) -> bool;

    /// Whether the device accepts `t` as proof that it can perform B.
    spec fn honours_b(&self, t: Self::B) -> bool;

    /// The work that `piece_a` performs with token `t`.
    spec fn work_a(&self, t: Self::A) -> Seq<Work>;

    /// The work that `piece_b` performs with token `t`.
    spec fn work_b(&self, t: Self::B) -> Seq<Work>;

    /// The work that `composite_function` performs with tokens `a` and `b`.
    spec fn work_composite(&self, a: Self::A, b: Self::B) -> Seq<Work>;

    /// Probes for capability A. A token that comes back is honoured from then on, and the
    /// probe does not change what function A performs.
    fn can_a(&mut self) -> (r: Option<Self::A>)
        ensures
            r == old(self).probe_a(),
            r matches Some(t) ==> final(self).honours_a(t),
            forall|t: Self::A| #[trigger] final(self).work_a(t) == old(self).work_a(t),
            forall|t: Self::A| old(self).honours_a(t) ==> #[trigger] final(self).honours_a(t),
            forall|t: Self::B| old(self).honours_b(t) ==> #[trigger] final(self).honours_b(t),
    ;

    /// Probes for capability B. A token that comes back is honoured from then on, and the
    /// probe does not change what function B performs.
    fn can_b(&mut self) -> (r: Option<Self::B>)
        ensures
            r == old(self).probe_b(),
            r matches Some(t) ==> final(self).honours_b(t),
            forall|t: Self::B| #[trigger] final(self).work_b(t) == old(self).work_b(t),
            forall|t: Self::A| old(self).honours_a(t) ==> #[trigger] final(self).honours_a(t),
            forall|t: Self::B| old(self).honours_b(t) ==> #[trigger] final(self).honours_b(t),
    ;

    /// Performs the work that needs both capabilities.
    fn composite_function(&mut self, because_a: Self::A, because_b: Self::B) -> (r: Vec<Work>)
        requires
            old(self).honours_a(because_a),
            old(self).honours_b(because_b),
        ensures
            r@ == old(self).work_composite(because_a, because_b),
            forall|t: Self::A| old(self).honours_a(t) ==> #[trigger] final(self).honours_a(t),
            forall|t: Self::B| old(self).honours_b(t) ==> #[trigger] final(self).honours_b(t),
    ;

    /// Performs function A.
    fn piece_a(&mut self, because: Self::A) -> (r: Vec<Work>)
        requires
            old(self).honours_a(because),
        ensures
            r@ == old(self).work_a(because),
            forall|t: Self::A| old(self).honours_a(t) ==> #[trigger] final(self).honours_a(t),
            forall|t: Self::B| old(self).honours_b(t) ==> #[trigger] final(self).honours_b(t),
    ;

    /// Performs function B.
    fn piece_b(&mut self, because: Self::B) -> (r: Vec<Work>)
        requires
            old(self).honours_b(because),
        ensures
            r@ == old(self).work_b(because),
            forall|t: Self::A| old(self).honours_a(t) ==> #[trigger] final(self).honours_a(t),
            forall|t: Self::B| old(self).honours_b(t) ==> #[trigger] final(self).honours_b(t),
    ;
}

} // verus!
