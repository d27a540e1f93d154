use vstd::prelude::*;

verus! {

/// The access discipline a session is opened under, for its whole lifetime.
///
/// `NoLock` sessions read the latest published snapshot and never mutate it.
/// `Overwrite` sessions build a brand-new snapshot from empty and publish it
/// as the latest when they close, replacing the whole logical database.
#[derive(Clone, Copy, Debug, PartialEq, Eq, Structural)]
pub enum Lock {
    NoLock,
    Overwrite,
}

} // verus!
