use vstd::prelude::*;
use vstd::string::StringExecFns;

verus! {

/// Handle on one logical database's pointer record.
///
/// `meta_db_file` is the logical database's base path. The pointer record —
/// the single small file naming the currently latest snapshot — lives at that
/// path itself; snapshot files live at the base path plus a dot and a unique
/// token. The caller owns the actual file traffic: it reads the pointer record
/// before resolving, and writes it when a resolution or a closing write
/// session says a name must be published.
pub struct MetaDatabase {
    pub meta_db_file: String,
}

/// `name` is a snapshot file name derived from the base path `base`: the base
/// path, a dot, and a 36-character unique token. In particular a snapshot name
/// is always strictly longer than the base path, so no snapshot file can ever
/// collide with the pointer record.
pub open spec fn is_snapshot_name(base: Seq<char>, name: Seq<char>) -> bool {
    &&& name.len() == base.len() + 37
    &&& name.subrange(0, base.len() as int) == base
    &&& name[base.len() as int] == '.'
}

/// The pointer record as specifications see it: `None` while no pointer file
/// exists yet, `Some(name)` once the file names snapshot `name`.
///
/// Publishing atomically replaces the record's whole content, whatever it held.
pub open spec fn publish(pointer: Option<Seq<char>>, name: Seq<char>) -> Option<Seq<char>> {
    Some(name)
}

/// The snapshot a read resolution opens against pointer state `pointer`:
/// the named snapshot when a pointer record exists, otherwise the fresh
/// bootstrap snapshot `fresh` that the resolution itself draws.
pub open spec fn resolved(pointer: Option<Seq<char>>, fresh: Seq<char>) -> Seq<char> {
    match pointer {
        Some(name) => name,
        None => fresh,
    }
}

/// What a resolution of "latest" tells the caller to open.
#[derive(Debug)]
pub enum Latest {
    /// The pointer record existed and named this snapshot; open it, nothing
    /// more to do.
    Stored { raw_db_file: String },
    /// No pointer record existed: this is the first-ever open of the logical
    /// database. The caller must create an empty snapshot at this fresh name
    /// and publish the name, then open it.
    Bootstrapped { raw_db_file: String },
}

/// Relies on `uuid::Uuid::new_v4` and the `Display` impl of `uuid::Uuid`:
/// the hyphenated text form of a version-4 UUID, always 36 characters.
#[verifier::external_body]
fn fresh_token() -> (t: String)
    ensures
        t@.len() == 36,
{
    uuid::Uuid::new_v4().to_string()
}

impl MetaDatabase {
    /// Bind a handle to the logical database whose base path is `db_file`.
    pub fn new(db_file: &str) -> (r: Self)
        ensures
            r.meta_db_file@ == db_file@,
    {
        MetaDatabase { meta_db_file: String::from_str(db_file) }
    }

    /// Draw a snapshot file name no other session has used: the base path,
    /// a dot, and a freshly generated unique token.
    pub fn new_db(&self) -> (r: String)
        ensures
            is_snapshot_name(self.meta_db_file@, r@),
    {
        let token = fresh_token();
        let r = self.meta_db_file.clone().concat(".").concat(token.as_str());
        proof {
            reveal_strlit(".");
            assert(r@.subrange(0, self.meta_db_file@.len() as int) =~= self.meta_db_file@);
        }
        r
    }

    /// Resolve which snapshot is current, given the pointer record's state:
    /// `stored` is the record's content, or `None` when no record exists yet.
    ///
    /// When a record exists its content is returned verbatim. When none does,
    /// a fresh snapshot name is drawn and handed back as `Bootstrapped`; the
    /// caller must create the empty snapshot and publish the name, so that
    /// every later resolution returns this same name.
    pub fn latest_db(&self, stored: Option<String>) -> (r: Latest)
        ensures
            stored matches Some(name) ==> r == (Latest::Stored { raw_db_file: name }),
            stored is None ==> (r matches Latest::Bootstrapped { raw_db_file }
                && is_snapshot_name(self.meta_db_file@, raw_db_file@)),
    {
        match stored {
            Some(name) => Latest::Stored { raw_db_file: name },
            None => Latest::Bootstrapped { raw_db_file: self.new_db() },
        }
    }
}

/// A snapshot file never collides with the pointer record: every snapshot
/// name is strictly longer than the base path it is derived from, and the
/// pointer record lives at the base path itself. A write session therefore
/// never opens the pointer record as its database.
pub proof fn law_snapshot_never_names_pointer(base: Seq<char>, name: Seq<char>)
    requires
        is_snapshot_name(base, name),
    ensures
        name != base,
{
    assert(name.len() != base.len());
}

/// Read-after-write visibility: once a snapshot name has been published, every
/// later resolution of "latest" returns exactly that snapshot, whatever fresh
/// name a bootstrapping resolution would otherwise have drawn.
pub proof fn law_publish_then_resolve(
    pointer: Option<Seq<char>>,
    name: Seq<char>,
    fresh: Seq<char>,
)
    ensures
        resolved(publish(pointer, name), fresh) == name,
{
}

/// Concurrent readers agree: any two resolutions against the same existing
/// pointer record return the same snapshot name, whatever fresh names each
/// would have drawn on bootstrap. Read sessions never publish, so any number
/// of them may resolve and open concurrently without disturbing one another.
pub proof fn law_readers_agree(
    pointer: Option<Seq<char>>,
    fresh_a: Seq<char>,
    fresh_b: Seq<char>,
)
    requires
        pointer is Some,
    ensures
        resolved(pointer, fresh_a) == resolved(pointer, fresh_b),
{
}

/// Idempotent bootstrap: the first-ever resolution draws a fresh name and has
/// it published; a second resolution then finds the pointer record and returns
/// that very name again. Bootstrap happens at most once.
pub proof fn law_bootstrap_idempotent(name: Seq<char>, fresh: Seq<char>)
    ensures
        resolved(publish(None, name), fresh) == name,
{
}

} // verus!
