use vstd::prelude::*;

verus! {

/// Whether a handle owns the native optimizer object it refers to.
///
/// An owning handle is the only place the native destructor may ever be
/// driven from. A non-owning handle is the placeholder that the
/// unoptimized call path synthesizes around a null pointer; it must never
/// destroy anything.
#[derive(Clone, Copy, PartialEq, Eq, Structural, Debug)]
pub enum HandleKind {
    Owning,
    NonOwning,
}

/// The lifecycle state of one optimizer handle: how it was constructed,
/// and whether its release has already happened.
///
/// The raw opaque pointer itself lives outside this crate; the unverified
/// shell keeps it next to this state and asks `release` from its
/// destructor, so the decision "drive the native destructor or not" is
/// made here. A handle constructed as owning around a null result still
/// counts as owning: releasing it is a no-op on the native side, not an
/// error.
#[derive(Clone, Copy, PartialEq, Eq, Structural, Debug)]
pub struct OptimizerState {
    pub kind: HandleKind,
    pub released: bool,
}

/// Whether releasing a handle in state `s` drives the native destructor.
pub open spec fn destroys(s: OptimizerState) -> bool {
    s.kind == HandleKind::Owning && !s.released
}

/// The state a handle is left in by a release, whatever it decided.
pub open spec fn after_release(s: OptimizerState) -> OptimizerState {
    OptimizerState { kind: s.kind, released: true }
}

impl OptimizerState {
    /// State of a fresh handle that owns whatever the native constructor
    /// returned.
    pub fn owning() -> (s: OptimizerState)
        ensures
            s == (OptimizerState { kind: HandleKind::Owning, released: false }),
    {
        OptimizerState { kind: HandleKind::Owning, released: false }
    }

    /// State of the fresh non-owning placeholder that the unoptimized
    /// call path synthesizes for exactly one call.
    pub fn placeholder() -> (s: OptimizerState)
        ensures
            s == (OptimizerState { kind: HandleKind::NonOwning, released: false }),
    {
        OptimizerState { kind: HandleKind::NonOwning, released: false }
    }

    /// Decides whether the native destructor runs now, and records that
    /// the release has happened.
    pub fn release(&mut self) -> (destroy: bool)
        ensures
            destroy == destroys(*old(self)),
            *final(self) == after_release(*old(self)),
    {
        let destroy = self.kind == HandleKind::Owning && !self.released;
        self.released = true;
        destroy
    }
}

/// Law: over a handle's whole lifetime the native destructor is driven at
/// most once, and never for a non-owning placeholder. After one release no
/// further release destroys anything, and a non-owning state never
/// destroys at all, whichever construction path produced it.
pub proof fn lemma_release_at_most_once(s: OptimizerState)
    ensures
        !destroys(after_release(s)),
        s.kind == HandleKind::NonOwning ==> !destroys(s),
{
}

} // verus!
