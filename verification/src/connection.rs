use vstd::prelude::*;

use crate::lock::Lock;
use crate::meta_database::{is_snapshot_name, publish, resolved, Latest, MetaDatabase};

verus! {

/// The access configuration the embedded engine is asked for when a session's
/// snapshot file is opened.
#[derive(Clone, Copy, Debug, PartialEq, Eq, Structural)]
pub enum AccessMode {
    ReadOnly,
    ReadWrite,
}

/// The engine access mode a session's lock calls for: read sessions open
/// their snapshot read-only, write sessions read-write.
pub open spec fn spec_access_mode(lock: Lock) -> AccessMode {
    match lock {
        Lock::NoLock => AccessMode::ReadOnly,
        Lock::Overwrite => AccessMode::ReadWrite,
    }
}

/// One session's record: bound to exactly one snapshot file and one lock for
/// its entire lifetime.
pub struct Connection {
    /// The snapshot file this session is bound to.
    pub db_file: String,
    /// The access discipline the session was opened under.
    pub lock: Lock,
    /// The pointer-record handle of the session's logical database.
    pub meta: MetaDatabase,
}

/// Everything the caller needs to turn an open request into a live session:
/// the session record, the engine access mode to open `connection.db_file`
/// with, and whether the pointer record must first be bootstrapped.
pub struct OpenPlan {
    /// The session record to keep until the session closes.
    pub connection: Connection,
    /// The access configuration to hand the engine for `connection.db_file`.
    pub access: AccessMode,
    /// True exactly when no pointer record existed yet: before opening, the
    /// caller must create an empty snapshot at `connection.db_file` and
    /// publish that name as the latest.
    pub bootstrap: bool,
}

impl Connection {
    /// End the session. A write session's whole new snapshot becomes visible
    /// at this moment and no earlier: the returned name must be published by
    /// the caller, unconditionally, even if the session ran no queries. A
    /// read session publishes nothing.
    pub fn close(self) -> (r: Option<String>)
        ensures
            self.lock == Lock::Overwrite ==> r == Some(self.db_file),
            self.lock == Lock::NoLock ==> r is None,
    {
        match self.lock {
            Lock::Overwrite => Some(self.db_file),
            Lock::NoLock => None,
        }
    }
}

/// Resolve an open request into a plan, given the pointer record's state:
/// `stored` is the record's content, or `None` when no record exists yet.
///
/// A `NoLock` request opens whatever snapshot the pointer names (bootstrapping
/// a fresh empty one first when no record exists). An `Overwrite` request
/// never reuses an existing snapshot: it allocates a brand-new name, starts
/// from an empty database, and leaves the pointer record untouched until the
/// session closes.
pub fn connect(db_file: &str, lock: Lock, stored: Option<String>) -> (r: OpenPlan)
    ensures
        r.connection.lock == lock,
        r.connection.meta.meta_db_file@ == db_file@,
        r.access == spec_access_mode(lock),
        lock == Lock::Overwrite ==> !r.bootstrap && is_snapshot_name(
            db_file@,
            r.connection.db_file@,
        ),
        stored matches Some(name) ==> (lock == Lock::NoLock ==> !r.bootstrap
            && r.connection.db_file == name),
        lock == Lock::NoLock && stored is None ==> r.bootstrap && is_snapshot_name(
            db_file@,
            r.connection.db_file@,
        ),
{
    let meta = MetaDatabase::new(db_file);
    match lock {
        Lock::Overwrite => {
            let raw_db_file = meta.new_db();
            OpenPlan {
                connection: Connection { db_file: raw_db_file, lock, meta },
                access: AccessMode::ReadWrite,
                bootstrap: false,
            }
        },
        Lock::NoLock => {
            match meta.latest_db(stored) {
                Latest::Stored { raw_db_file } => OpenPlan {
                    connection: Connection { db_file: raw_db_file, lock, meta },
                    access: AccessMode::ReadOnly,
                    bootstrap: false,
                },
                Latest::Bootstrapped { raw_db_file } => OpenPlan {
                    connection: Connection { db_file: raw_db_file, lock, meta },
                    access: AccessMode::ReadOnly,
                    bootstrap: true,
                },
            }
        },
    }
}

/// The pointer record after a session's open step: opening publishes only
/// when the plan bootstraps a never-opened database; every other open leaves
/// the record exactly as it was.
pub open spec fn pointer_after_open(
    pointer: Option<Seq<char>>,
    plan: OpenPlan,
) -> Option<Seq<char>> {
    if plan.bootstrap {
        publish(pointer, plan.connection.db_file@)
    } else {
        pointer
    }
}

/// The pointer record after a session's close step, `published` being what
/// `Connection::close` returned: a write session publishes its snapshot name,
/// a read session leaves the record exactly as it was.
pub open spec fn pointer_after_close(
    pointer: Option<Seq<char>>,
    published: Option<String>,
) -> Option<Seq<char>> {
    match published {
        Some(name) => publish(pointer, name@),
        None => pointer,
    }
}

/// Read isolation from an in-progress write: opening a write session performs
/// no publish, so a reader that resolves "latest" while the writer is still
/// open sees exactly the snapshot it would have seen before the writer opened
/// — never the writer's in-progress snapshot.
pub proof fn law_read_isolation(pointer: Option<Seq<char>>, plan: OpenPlan, fresh: Seq<char>)
    requires
        plan.connection.lock == Lock::Overwrite,
        !plan.bootstrap,
    ensures
        pointer_after_open(pointer, plan) == pointer,
        resolved(pointer_after_open(pointer, plan), fresh) == resolved(pointer, fresh),
{
}

/// Read-after-write visibility: once a closing write session's snapshot name
/// is published, every subsequent read resolution returns that very snapshot.
pub proof fn law_read_after_write(
    pointer: Option<Seq<char>>,
    conn: Connection,
    published: Option<String>,
    fresh: Seq<char>,
)
    requires
        conn.lock == Lock::Overwrite,
        published == Some(conn.db_file),
    ensures
        resolved(pointer_after_close(pointer, published), fresh) == conn.db_file@,
{
}

/// Last publish wins: when write sessions `a` and `b` close in that order,
/// the pointer names `b`'s snapshot; `a`'s publish is silently superseded.
/// Concurrent writers' work is never merged — this is the design's accepted
/// data-loss tradeoff, not an accident.
pub proof fn law_last_publish_wins(
    pointer: Option<Seq<char>>,
    a: Connection,
    b: Connection,
    fresh: Seq<char>,
)
    requires
        a.lock == Lock::Overwrite,
        b.lock == Lock::Overwrite,
    ensures
        resolved(
            pointer_after_close(pointer_after_close(pointer, Some(a.db_file)), Some(b.db_file)),
            fresh,
        ) == b.db_file@,
{
}

} // verus!
