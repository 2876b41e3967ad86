//! The decision logic of each request handler: who may write, which writes
//! conflict, what each outcome is, and how the index moves — everything but
//! the HTTP plumbing and the filesystem calls themselves.
//!
//! Each write-class handler splits in two. The check runs first, under the
//! exclusive hold on the index, and decides whether the filesystem may be
//! touched at all. The commit runs after the filesystem call, still under
//! the same hold, and moves the index only when that call succeeded.

use vstd::prelude::*;
use vstd::string::StrSliceExecFns;
use vstd::string::StringExecFns;
use crate::index::Bucket;
use crate::index::MyData;
use crate::index::distinct_names;
use crate::index::names_of;

verus! {

/// What a handler decides before touching the disk.
#[derive(PartialEq, Eq, Structural, Clone, Copy, Debug)]
pub enum Gate {
    /// The checks passed: the filesystem operation may run.
    Proceed,
    /// The supplied token is not the shared secret.
    Unauthorized,
    /// The name the operation needs is absent from the index.
    NotFound,
    /// The name the operation would create is already present.
    Conflict,
}

/// The outcome of an upload commit.
#[derive(PartialEq, Eq, Structural, Clone, Copy, Debug)]
pub enum UploadOutcome {
    /// The asset exists on disk and in the index now.
    Created,
    /// The disk write failed; the index is untouched.
    WriteFailed,
}

/// The outcome of a delete commit.
#[derive(PartialEq, Eq, Structural, Clone, Copy, Debug)]
pub enum DeleteOutcome {
    /// The asset is gone from disk and from the index.
    Deleted,
    /// The disk delete failed; the index is untouched and the outward
    /// signal collapses to not-found.
    NotFound,
}

/// The outcome of a rename commit.
#[derive(PartialEq, Eq, Structural, Clone, Copy, Debug)]
pub enum RenameOutcome {
    /// The asset answers to the new name now, on disk and in the index.
    Renamed,
    /// The disk rename failed; the index is untouched and the outward
    /// signal collapses to not-found.
    NotFound,
}

/// The upload gate: the token first, then first-writer-wins on the name.
pub open spec fn spec_upload_gate(
    images: Set<Seq<char>>,
    name: Seq<char>,
    authorized: bool,
) -> Gate {
    if !authorized {
        Gate::Unauthorized
    } else if images.contains(name) {
        Gate::Conflict
    } else {
        Gate::Proceed
    }
}

/// The delete gate: the token first, then the name must be known.
pub open spec fn spec_delete_gate(
    images: Set<Seq<char>>,
    name: Seq<char>,
    authorized: bool,
) -> Gate {
    if !authorized {
        Gate::Unauthorized
    } else if !images.contains(name) {
        Gate::NotFound
    } else {
        Gate::Proceed
    }
}

/// The rename gate: the token first, then the old name must be known, then
/// the new name must be free.
pub open spec fn spec_rename_gate(
    images: Set<Seq<char>>,
    from: Seq<char>,
    to: Seq<char>,
    authorized: bool,
) -> Gate {
    if !authorized {
        Gate::Unauthorized
    } else if !images.contains(from) {
        Gate::NotFound
    } else if images.contains(to) {
        Gate::Conflict
    } else {
        Gate::Proceed
    }
}

/// Decides whether an upload of `name` may proceed to the disk write.
pub fn upload_check(d: &MyData, name: &String, token: &String, secret: &String) -> (g: Gate)
    ensures
        g == spec_upload_gate(d.images(), name@, token@ == secret@),
{
    if !(*token == *secret) {
        Gate::Unauthorized
    } else if d.contains(Bucket::Image, name) {
        Gate::Conflict
    } else {
        Gate::Proceed
    }
}

/// Moves the index after the upload's disk write: the name is recorded if
/// and only if the write succeeded.
pub fn upload_commit(d: &mut MyData, name: String, write_ok: bool) -> (r: UploadOutcome)
    ensures
        final(d).files() == old(d).files(),
        write_ok ==> final(d).images() == old(d).images().insert(name@) && r
            == UploadOutcome::Created,
        !write_ok ==> final(d).images() == old(d).images() && r == UploadOutcome::WriteFailed,
{
    if write_ok {
        d.insert(Bucket::Image, name);
        UploadOutcome::Created
    } else {
        UploadOutcome::WriteFailed
    }
}

/// Decides whether a delete of `name` may proceed to the disk delete.
pub fn delete_check(d: &MyData, name: &String, token: &String, secret: &String) -> (g: Gate)
    ensures
        g == spec_delete_gate(d.images(), name@, token@ == secret@),
{
    if !(*token == *secret) {
        Gate::Unauthorized
    } else if d.contains(Bucket::Image, name) {
        Gate::Proceed
    } else {
        Gate::NotFound
    }
}

/// Moves the index after the delete's disk call: the name is dropped if and
/// only if the delete succeeded.
pub fn delete_commit(d: &mut MyData, name: &String, remove_ok: bool) -> (r: DeleteOutcome)
    ensures
        final(d).files() == old(d).files(),
        remove_ok ==> final(d).images() == old(d).images().remove(name@) && r
            == DeleteOutcome::Deleted,
        !remove_ok ==> final(d).images() == old(d).images() && r == DeleteOutcome::NotFound,
{
    if remove_ok {
        d.remove(Bucket::Image, name);
        DeleteOutcome::Deleted
    } else {
        DeleteOutcome::NotFound
    }
}

/// Decides whether a rename of `from` to `to` may proceed to the disk
/// rename.
pub fn rename_check(d: &MyData, from: &String, to: &String, token: &String, secret: &String) -> (g:
    Gate)
    ensures
        g == spec_rename_gate(d.images(), from@, to@, token@ == secret@),
{
    if !(*token == *secret) {
        Gate::Unauthorized
    } else if d.contains(Bucket::Image, from) {
        if d.contains(Bucket::Image, to) {
            Gate::Conflict
        } else {
            Gate::Proceed
        }
    } else {
        Gate::NotFound
    }
}

/// Moves the index after the rename's disk call: `from` gives way to `to`
/// if and only if the rename succeeded.
pub fn rename_commit(d: &mut MyData, from: &String, to: String, rename_ok: bool) -> (r:
    RenameOutcome)
    ensures
        final(d).files() == old(d).files(),
        rename_ok ==> final(d).images() == old(d).images().remove(from@).insert(to@) && r
            == RenameOutcome::Renamed,
        !rename_ok ==> final(d).images() == old(d).images() && r == RenameOutcome::NotFound,
{
    if rename_ok {
        d.rename(Bucket::Image, from, to);
        RenameOutcome::Renamed
    } else {
        RenameOutcome::NotFound
    }
}

/// The image listing: the bucket's exact membership for the right token,
/// and a deliberately empty answer — not an error — for any other.
pub fn list_imgs(d: &MyData, token: &String, secret: &String) -> (r: Vec<String>)
    ensures
        token@ == secret@ ==> names_of(r@) == d.images() && distinct_names(r@),
        token@ != secret@ ==> r@ == Seq::<String>::empty(),
{
    if *token == *secret {
        d.list(Bucket::Image)
    } else {
        Vec::new()
    }
}

/// The position of the last dot in a name, or minus one when it has none.
pub open spec fn spec_last_dot(s: Seq<char>) -> int
    decreases s.len(),
{
    if s.len() == 0 {
        -1
    } else if s[s.len() - 1] == '.' {
        s.len() - 1
    } else {
        spec_last_dot(s.drop_last())
    }
}

/// The filename's extension: the part after the last dot, unless the only
/// dot leads the name (a bare dotfile has no extension).
pub open spec fn spec_extension(s: Seq<char>) -> Option<Seq<char>> {
    let j = spec_last_dot(s);
    if j >= 1 {
        Some(s.subrange(j + 1, s.len() as int))
    } else {
        None
    }
}

/// The filename's extension, scanning from the end for the last dot.
pub fn extension_of(name: &str) -> (r: Option<String>)
    ensures
        r is Some <==> spec_extension(name@) is Some,
        r matches Some(e) ==> Some(e@) == spec_extension(name@),
{
    let n = name.unicode_len();
    let mut i: usize = n;
    proof {
        assert(name@.subrange(0, n as int) =~= name@);
    }
    while i > 0
        invariant
            i <= n,
            n == name@.len(),
            spec_last_dot(name@) == spec_last_dot(name@.subrange(0, i as int)),
        decreases i,
    {
        let c = name.get_char(i - 1);
        proof {
            assert(name@.subrange(0, i as int).last() == name@[i - 1]);
        }
        if c == '.' {
            if i >= 2 {
                let ext = name.substring_char(i, n);
                return Some(ext.to_owned());
            } else {
                return None;
            }
        }
        proof {
            assert(name@.subrange(0, i as int).drop_last() =~= name@.subrange(0, i - 1 as int));
        }
        i -= 1;
    }
    proof {
        assert(name@.subrange(0, 0) =~= Seq::<char>::empty());
    }
    None
}

/// The content type a transformed image is advertised under: `image/` with
/// the original filename's extension — the original extension, not the
/// lossless format the raster was actually re-encoded into; the mislabel is
/// kept deliberately.
pub open spec fn spec_content_type(s: Seq<char>) -> Option<Seq<char>> {
    match spec_extension(s) {
        Some(e) => Some("image/"@ + e),
        None => None,
    }
}

/// The content type for a transformed image with this original filename.
pub fn content_type_for(name: &str) -> (r: Option<String>)
    ensures
        r is Some <==> spec_content_type(name@) is Some,
        r matches Some(ct) ==> Some(ct@) == spec_content_type(name@),
{
    match extension_of(name) {
        Some(ext) => {
            let mut ct: String = "image/".to_owned();
            ct.append(ext.as_str());
            Some(ct)
        },
        None => None,
    }
}

/// An upload of a name the index already holds is refused as a conflict —
/// whoever wrote first wins — before any disk write is attempted.
pub proof fn lemma_upload_conflict(images: Set<Seq<char>>, name: Seq<char>)
    requires
        images.contains(name),
    ensures
        spec_upload_gate(images, name, true) == Gate::Conflict,
{
}

/// Two uploads of the same name cannot both succeed: as soon as one of
/// them puts the name into the index, the other is refused as a conflict,
/// in whichever order the two callers were let through.
pub proof fn lemma_second_upload_conflicts(images: Set<Seq<char>>, name: Seq<char>)
    ensures
        spec_upload_gate(images.insert(name), name, true) == Gate::Conflict,
{
}

/// Serialized uploads of two distinct free names pass their gates
/// independently: the first success does not block the second name.
pub proof fn lemma_distinct_uploads_independent(
    images: Set<Seq<char>>,
    a: Seq<char>,
    b: Seq<char>,
)
    requires
        !images.contains(a),
        !images.contains(b),
        a != b,
    ensures
        spec_upload_gate(images, a, true) == Gate::Proceed,
        spec_upload_gate(images.insert(a), b, true) == Gate::Proceed,
{
}

/// A rename from an absent name is not-found; a rename onto an existing
/// name is a conflict; and once a permitted rename commits, the index holds
/// the new name and no longer the old one.
pub proof fn lemma_rename_outcomes(images: Set<Seq<char>>, from: Seq<char>, to: Seq<char>)
    ensures
        !images.contains(from) ==> spec_rename_gate(images, from, to, true) == Gate::NotFound,
        images.contains(from) && images.contains(to) ==> spec_rename_gate(images, from, to, true)
            == Gate::Conflict,
        spec_rename_gate(images, from, to, true) == Gate::Proceed ==> images.remove(from).insert(
            to,
        ).contains(to) && !images.remove(from).insert(to).contains(from),
{
}

} // verus!
