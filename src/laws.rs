use vstd::prelude::*;

use crate::device::{UserFacing, Work};
use crate::devices::{Limited, SoftwareImplementation};
use crate::fallback::{Either, FallingBack};

verus! {

/// A `Limited` device never offers capability B, and honours no B token at all.
pub proof fn limited_never_offers_b(d: Limited, t: core::convert::Infallible)
    ensures
        d.probe_b() is None,
        !d.honours_b(t),
{
}

/// A `SoftwareImplementation` always offers both capabilities, and its composite work is
/// exactly function A followed by function B.
pub proof fn software_composite_is_sequential(d: SoftwareImplementation, a: (), b: ())
    ensures
        d.probe_a() == Some(()),
        d.probe_b() == Some(()),
        d.work_composite(a, b) == d.work_a(a) + d.work_b(b),
{
}

/// With a `Limited` primary and a `SoftwareImplementation` backup, A comes from the
/// primary and B falls through to the backup; the composite work with those two tokens
/// is the primary's function A followed by the backup's function B, never the backup's
/// own composite work.
pub proof fn limited_then_software_splits(d: FallingBack<Limited, SoftwareImplementation>)
    ensures
        d.probe_a() == Some(Either::<(), ()>::Main(())),
        d.probe_b() == Some(Either::<core::convert::Infallible, ()>::Backup(())),
        d.work_composite(d.probe_a()->0, d.probe_b()->0) == d.main.work_a(()) + d.backup.work_b(
            (),
        ),
        d.work_composite(d.probe_a()->0, d.probe_b()->0) == seq![Work::HardwareA, Work::SoftwareB],
        d.work_composite(d.probe_a()->0, d.probe_b()->0) != d.backup.work_composite((), ()),
{
    assert(seq![Work::HardwareA, Work::SoftwareB][0] != seq![Work::SoftwareA, Work::SoftwareB][0]);
}

/// With a `SoftwareImplementation` primary, both capabilities come from the primary: the
/// backup is never the one that answers a probe.
pub proof fn software_then_limited_stays_primary(d: FallingBack<SoftwareImplementation, Limited>)
    ensures
        d.probe_a() == Some(Either::<(), ()>::Main(())),
        d.probe_b() == Some(Either::<(), core::convert::Infallible>::Main(())),
{
}

/// Probes for capability A and, if a token came back, performs function A with it and
/// returns the work done: the token a device hands out is always one that it accepts.
pub fn probe_and_piece_a<D: UserFacing>(d: &mut D) -> (r: Option<Vec<Work>>)
    ensures
        r is Some <==> old(d).probe_a() is Some,
        r matches Some(w) ==> w@ == old(d).work_a(old(d).probe_a()->0),
{
    match d.can_a() {
        Some(t) => Some(d.piece_a(t)),
        None => None,
    }
}

/// Probes for capability B and, if a token came back, performs function B with it and
/// returns the work done: the token a device hands out is always one that it accepts.
pub fn probe_and_piece_b<D: UserFacing>(d: &mut D) -> (r: Option<Vec<Work>>)
    ensures
        r is Some <==> old(d).probe_b() is Some,
        r matches Some(w) ==> w@ == old(d).work_b(old(d).probe_b()->0),
{
    match d.can_b() {
        Some(t) => Some(d.piece_b(t)),
        None => None,
    }
}

} // verus!
