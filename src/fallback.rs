use vstd::prelude::*;

use crate::device::{UserFacing, Work};

verus! {

/// A token of the combinator: the token of the device that issued it, tagged with that
/// device.
#[derive(Clone, Copy, Debug)]
pub enum Either<I1, I2> {
    /// Issued by the primary device.
    Main(I1),
    /// Issued by the backup device.
    Backup(I2),
}

/// A device made of a primary device and a backup device.
///
/// For each capability it prefers the primary device and falls back to the backup. Work
/// that needs both capabilities is split between the two when their tokens came from
/// different devices. A combinator is itself a device, so chains of fallbacks nest.
pub struct FallingBack<I1: UserFacing, I2: UserFacing> {
    pub main: I1,
    pub backup: I2,
}

impl<I1: UserFacing, I2: UserFacing> FallingBack<I1, I2> {
    /// Composes `main`, which is preferred, with `backup`.
    pub fn new(main: I1, backup: I2) -> (r: Self)
        ensures
            r.main == main,
            r.backup == backup,
    {
        FallingBack { main, backup }
    }
}

/// Performs function A on `a` and function B on `b`, one after the other.
pub fn run_fallback<IA: UserFacing, IB: UserFacing>(
    a: &mut IA,
    because_a: IA::A,
    b: &mut IB,
    because_b: IB::B,
) -> (r: Vec<Work>)
    requires
        old(a).honours_a(because_a),
        old(b).honours_b(because_b),
    ensures
        r@ == old(a).work_a(because_a) + old(b).work_b(because_b),
        forall|t: IA::A| old(a).honours_a(t) ==> #[trigger] final(a).honours_a(t),
        forall|t: IA::B| old(a).honours_b(t) ==> #[trigger] final(a).honours_b(t),
        forall|t: IB::A| old(b).honours_a(t) ==> #[trigger] final(b).honours_a(t),
        forall|t: IB::B| old(b).honours_b(t) ==> #[trigger] final(b).honours_b(t),
{
    let mut r = a.piece_a(because_a);
    let mut rb = b.piece_b(because_b);
    r.append(&mut rb);
    r
}

impl<I1: UserFacing, I2: UserFacing> UserFacing for FallingBack<I1, I2> {
    type A = Either<I1::A, I2::A>;
    type B = Either<I1::B, I2::B>;

    /// The primary device's token if it offers one, else the backup device's.
    open spec fn probe_a(&self) -> Option<Either<I1::A, I2::A>> {
        match self.main.probe_a() {
            Some(t) => Some(Either::Main(t)),
            None => match self.backup.probe_a() {
                Some(t) => Some(Either::Backup(t)),
                None => None,
            },
        }
    }

    /// The primary device's token if it offers one, else the backup device's.
    open spec fn probe_b(&self) -> Option<Either<I1::B, I2::B>> {
        match self.main.probe_b() {
            Some(t) => Some(Either::Main(t)),
            None => match self.backup.probe_b() {
                Some(t) => Some(Either::Backup(t)),
                None => None,
            },
        }
    }

    /// A tagged token is honoured when the device named by its tag honours it.
    open spec fn honours_a(&self, t: Either<I1::A, I2::A>) -> bool {
        match t {
            Either::Main(t) => self.main.honours_a(t),
            Either::Backup(t) => self.backup.honours_a(t),
        }
    }

    /// A tagged token is honoured when the device named by its tag honours it.
    open spec fn honours_b(&self, t: Either<I1::B, I2::B>) -> bool {
        match t {
            Either::Main(t) => self.main.honours_b(t),
            Either::Backup(t) => self.backup.honours_b(t),
        }
    }

    /// Function A is performed by the device that issued the token.
    open spec fn work_a(&self, t: Either<I1::A, I2::A>) -> Seq<Work> {
        match t {
            Either::Main(t) => self.main.work_a(t),
            Either::Backup(t) => self.backup.work_a(t),
        }
    }

    /// Function B is performed by the device that issued the token.
    open spec fn work_b(&self, t: Either<I1::B, I2::B>) -> Seq<Work> {
        match t {
            Either::Main(t) => self.main.work_b(t),
            Either::Backup(t) => self.backup.work_b(t),
        }
    }

    /// Where both tokens come from one device, that device does the whole work; else each
    /// device does the function it issued the token for, A first.
    open spec fn work_composite(
        &self,
        a: Either<I1::A, I2::A>,
        b: Either<I1::B, I2::B>,
    ) -> Seq<Work> {
        match (a, b) {
            (Either::Main(a), Either::Main(b)) => self.main.work_composite(a, b),
            (Either::Backup(a), Either::Backup(b)) => self.backup.work_composite(a, b),
            (Either::Main(a), Either::Backup(b)) => self.main.work_a(a) + self.backup.work_b(b),
            (Either::Backup(a), Either::Main(b)) => self.backup.work_a(a) + self.main.work_b(b),
        }
    }

    fn can_a(&mut self) -> (r: Option<Either<I1::A, I2::A>>)
        ensures
            old(self).main.probe_a() is Some ==> final(self).backup == old(self).backup,
    {
        match self.main.can_a() {
            Some(t) => Some(Either::Main(t)),
            None => match self.backup.can_a() {
                Some(t) => Some(Either::Backup(t)),
                None => None,
            },
        }
    }

    fn can_b(&mut self) -> (r: Option<Either<I1::B, I2::B>>)
        ensures
            old(self).main.probe_b() is Some ==> final(self).backup == old(self).backup,
    {
        match self.main.can_b() {
            Some(t) => Some(Either::Main(t)),
            None => match self.backup.can_b() {
                Some(t) => Some(Either::Backup(t)),
                None => None,
            },
        }
    }

    fn composite_function(
        &mut self,
        because_a: Either<I1::A, I2::A>,
        because_b: Either<I1::B, I2::B>,
    ) -> (r: Vec<Work>)
        ensures
            because_a is Main && because_b is Main ==> final(self).backup == old(self).backup,
            because_a is Backup && because_b is Backup ==> final(self).main == old(self).main,
    {
        match (because_a, because_b) {
            (Either::Main(because_a), Either::Main(because_b)) => self.main.composite_function(
                because_a,
                because_b,
            ),
            (Either::Backup(because_a), Either::Backup(because_b)) => {
                self.backup.composite_function(because_a, because_b)
            },
            (Either::Main(because_a), Either::Backup(because_b)) => {
                run_fallback(&mut self.main, because_a, &mut self.backup, because_b)
            },
            (Either::Backup(because_a), Either::Main(because_b)) => {
                run_fallback(&mut self.backup, because_a, &mut self.main, because_b)
            },
        }
    }

    fn piece_a(&mut self, because: Either<I1::A, I2::A>) -> (r: Vec<Work>)
        ensures
            because is Main ==> final(self).backup == old(self).backup,
            because is Backup ==> final(self).main == old(self).main,
    {
        match because {
            Either::Main(because) => self.main.piece_a(because),
            Either::Backup(because) => self.backup.piece_a(because),
        }
    }

    fn piece_b(&mut self, because: Either<I1::B, I2::B>) -> (r: Vec<Work>)
        ensures
            because is Main ==> final(self).backup == old(self).backup,
            because is Backup ==> final(self).main == old(self).main,
    {
        match because {
            Either::Main(because) => self.main.piece_b(because),
            Either::Backup(because) => self.backup.piece_b(because),
        }
    }
}

} // verus!
