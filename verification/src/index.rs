//! The in-memory directory index: one set of known filenames per storage
//! bucket, populated once from a directory listing and maintained
//! incrementally as uploads, deletes and renames succeed on disk.
//!
//! The caller shares one instance per process behind an exclusive hold and
//! mutates it only after the corresponding filesystem operation succeeded.

use vstd::prelude::*;
use vstd::assert_sets_equal;

verus! {

/// A storage partition with its own set of filenames: `Generic` for plain
/// files (read-only after the initial load), `Image` for images.
#[derive(Clone, Copy, PartialEq, Eq, Structural, Debug)]
pub enum Bucket {
    Generic,
    Image,
}

/// The placeholder entry that keeps an otherwise empty storage directory
/// alive; it is never an asset and the initial load drops it.
pub open spec fn keep_entry() -> Seq<char> {
    ".keep"@
}

/// The set of names held by a sequence of strings.
pub open spec fn names_of(v: Seq<String>) -> Set<Seq<char>> {
    Set::new(|n: Seq<char>| exists|i: int| 0 <= i < v.len() && v[i]@ == n)
}

/// No two entries hold the same name.
pub open spec fn distinct_names(v: Seq<String>) -> bool {
    forall|i: int, j: int| 0 <= i < j < v.len() ==> v[i]@ != v[j]@
}

proof fn lemma_names_push(v: Seq<String>, s: String)
    ensures
        names_of(v.push(s)) =~= names_of(v).insert(s@),
{
    assert forall|n: Seq<char>| names_of(v.push(s)).contains(n) implies names_of(v).insert(
        s@,
    ).contains(n) by {
        let i = choose|i: int| 0 <= i < v.push(s).len() && v.push(s)[i]@ == n;
        if i < v.len() {
            assert(v[i]@ == n);
        }
    }
    assert forall|n: Seq<char>| names_of(v).insert(s@).contains(n) implies names_of(
        v.push(s),
    ).contains(n) by {
        if n == s@ {
            assert(v.push(s)[v.len() as int]@ == n);
        } else {
            let i = choose|i: int| 0 <= i < v.len() && v[i]@ == n;
            assert(v.push(s)[i]@ == n);
        }
    }
}

proof fn lemma_names_remove(v: Seq<String>, j: int)
    requires
        0 <= j < v.len(),
        distinct_names(v),
    ensures
        names_of(v.remove(j)) =~= names_of(v).remove(v[j]@),
        distinct_names(v.remove(j)),
{
    assert forall|n: Seq<char>| names_of(v.remove(j)).contains(n) implies names_of(v).remove(
        v[j]@,
    ).contains(n) by {
        let i = choose|i: int| 0 <= i < v.remove(j).len() && v.remove(j)[i]@ == n;
        if i < j {
            assert(v[i]@ == n);
        } else {
            assert(v[i + 1]@ == n);
        }
    }
    assert forall|n: Seq<char>| names_of(v).remove(v[j]@).contains(n) implies names_of(
        v.remove(j),
    ).contains(n) by {
        let i = choose|i: int| 0 <= i < v.len() && v[i]@ == n;
        if i < j {
            assert(v.remove(j)[i]@ == n);
        } else {
            assert(v.remove(j)[i - 1]@ == n);
        }
    }
}

/// True when the vector holds the given name.
fn contains_name(v: &Vec<String>, name: &String) -> (r: bool)
    ensures
        r == names_of(v@).contains(name@),
{
    let mut i: usize = 0;
    while i < v.len()
        invariant
            i <= v@.len(),
            forall|k: int| 0 <= k < i ==> v@[k]@ != name@,
        decreases v@.len() - i,
    {
        if v[i] == *name {
            return true;
        }
        i += 1;
    }
    false
}

/// Adds the name unless it is already held.
fn insert_name(v: &mut Vec<String>, name: String)
    requires
        distinct_names(old(v)@),
    ensures
        distinct_names(final(v)@),
        names_of(final(v)@) == names_of(old(v)@).insert(name@),
{
    if !contains_name(v, &name) {
        proof {
            lemma_names_push(v@, name);
        }
        v.push(name);
    } else {
        proof {
            assert_sets_equal!(names_of(v@) == names_of(v@).insert(name@));
        }
    }
}

/// Drops the name if it is held.
fn remove_name(v: &mut Vec<String>, name: &String)
    requires
        distinct_names(old(v)@),
    ensures
        distinct_names(final(v)@),
        names_of(final(v)@) == names_of(old(v)@).remove(name@),
{
    let mut i: usize = 0;
    while i < v.len()
        invariant
            v@ == old(v)@,
            distinct_names(v@),
            i <= v@.len(),
            forall|k: int| 0 <= k < i ==> v@[k]@ != name@,
        decreases v@.len() - i,
    {
        if v[i] == *name {
            proof {
                lemma_names_remove(v@, i as int);
            }
            v.remove(i);
            return ;
        }
        i += 1;
    }
    proof {
        assert_sets_equal!(names_of(v@) == names_of(v@).remove(name@));
    }
}

/// A copy of the vector's entries, in order.
fn snapshot(v: &Vec<String>) -> (r: Vec<String>)
    ensures
        r@ == v@,
{
    let mut out: Vec<String> = Vec::new();
    let mut i: usize = 0;
    while i < v.len()
        invariant
            i <= v@.len(),
            out@ == v@.subrange(0, i as int),
        decreases v@.len() - i,
    {
        out.push(v[i].clone());
        proof {
            assert(out@ =~= v@.subrange(0, i + 1 as int));
        }
        i += 1;
    }
    proof {
        assert(out@ =~= v@);
    }
    out
}

/// The names taken from one directory listing, with duplicates and the
/// placeholder entry dropped.
fn load_bucket(names: Vec<String>) -> (v: Vec<String>)
    ensures
        distinct_names(v@),
        names_of(v@) == names_of(names@).remove(keep_entry()),
{
    let keep: String = ".keep".to_owned();
    let mut v: Vec<String> = Vec::new();
    let mut i: usize = 0;
    proof {
        assert_sets_equal!(names_of(names@.subrange(0, 0)).remove(keep_entry()) == Set::empty());
        assert(names_of(v@) =~= Set::<Seq<char>>::empty());
    }
    while i < names.len()
        invariant
            keep@ == keep_entry(),
            i <= names@.len(),
            distinct_names(v@),
            names_of(v@) == names_of(names@.subrange(0, i as int)).remove(keep_entry()),
        decreases names@.len() - i,
    {
        let name = &names[i];
        proof {
            assert(names@.subrange(0, i + 1 as int) =~= names@.subrange(0, i as int).push(
                names@[i as int],
            ));
            lemma_names_push(names@.subrange(0, i as int), names@[i as int]);
        }
        if !(*name == keep) && !contains_name(&v, name) {
            proof {
                lemma_names_push(v@, names@[i as int]);
            }
            v.push(name.clone());
            proof {
                assert_sets_equal!(names_of(v@) ==
                    names_of(names@.subrange(0, i + 1 as int)).remove(keep_entry()));
            }
        } else {
            proof {
                assert_sets_equal!(names_of(v@) ==
                    names_of(names@.subrange(0, i + 1 as int)).remove(keep_entry()));
            }
        }
        i += 1;
    }
    proof {
        assert(names@.subrange(0, names@.len() as int) =~= names@);
    }
    v
}

/// The index itself: the names believed to exist on disk, per bucket.
pub struct MyData {
    files_vec: Vec<String>,
    images_vec: Vec<String>,
}

impl MyData {
    /// The names of the generic bucket.
    pub closed spec fn files(&self) -> Set<Seq<char>> {
        names_of(self.files_vec@)
    }

    /// The names of the image bucket.
    pub closed spec fn images(&self) -> Set<Seq<char>> {
        names_of(self.images_vec@)
    }

    /// The names of the given bucket.
    pub open spec fn bucket_set(&self, bucket: Bucket) -> Set<Seq<char>> {
        match bucket {
            Bucket::Generic => self.files(),
            Bucket::Image => self.images(),
        }
    }

    /// Each bucket holds every name at most once.
    #[verifier::type_invariant]
    spec fn wf(&self) -> bool {
        distinct_names(self.files_vec@) && distinct_names(self.images_vec@)
    }

    /// The index built from the two directory listings taken at process
    /// start: every listed name except the placeholder entry, each once.
    pub fn new_loaded(file_names: Vec<String>, image_names: Vec<String>) -> (d: MyData)
        ensures
            d.files() == names_of(file_names@).remove(keep_entry()),
            d.images() == names_of(image_names@).remove(keep_entry()),
    {
        MyData { files_vec: load_bucket(file_names), images_vec: load_bucket(image_names) }
    }

    /// True when the bucket holds the name.
    pub fn contains(&self, bucket: Bucket, name: &String) -> (r: bool)
        ensures
            r == self.bucket_set(bucket).contains(name@),
    {
        match bucket {
            Bucket::Generic => contains_name(&self.files_vec, name),
            Bucket::Image => contains_name(&self.images_vec, name),
        }
    }

    /// A snapshot of the bucket's membership at call time: exactly its
    /// names, each once.
    pub fn list(&self, bucket: Bucket) -> (r: Vec<String>)
        ensures
            names_of(r@) == self.bucket_set(bucket),
            distinct_names(r@),
    {
        proof {
            use_type_invariant(&*self);
        }
        match bucket {
            Bucket::Generic => snapshot(&self.files_vec),
            Bucket::Image => snapshot(&self.images_vec),
        }
    }

    /// Records the name as present. To be called only once the
    /// corresponding filesystem write has succeeded.
    pub fn insert(&mut self, bucket: Bucket, name: String)
        ensures
            final(self).bucket_set(bucket) == old(self).bucket_set(bucket).insert(name@),
            bucket != Bucket::Generic ==> final(self).files() == old(self).files(),
            bucket != Bucket::Image ==> final(self).images() == old(self).images(),
    {
        proof {
            use_type_invariant(&*self);
        }
        let mut v: Vec<String> = Vec::new();
        match bucket {
            Bucket::Generic => {
                core::mem::swap(&mut v, &mut self.files_vec);
                insert_name(&mut v, name);
                self.files_vec = v;
            },
            Bucket::Image => {
                core::mem::swap(&mut v, &mut self.images_vec);
                insert_name(&mut v, name);
                self.images_vec = v;
            },
        }
    }

    /// Records the name as absent. To be called only once the corresponding
    /// filesystem delete (or rename away) has succeeded.
    pub fn remove(&mut self, bucket: Bucket, name: &String)
        ensures
            final(self).bucket_set(bucket) == old(self).bucket_set(bucket).remove(name@),
            bucket != Bucket::Generic ==> final(self).files() == old(self).files(),
            bucket != Bucket::Image ==> final(self).images() == old(self).images(),
    {
        proof {
            use_type_invariant(&*self);
        }
        let mut v: Vec<String> = Vec::new();
        match bucket {
            Bucket::Generic => {
                core::mem::swap(&mut v, &mut self.files_vec);
                remove_name(&mut v, name);
                self.files_vec = v;
            },
            Bucket::Image => {
                core::mem::swap(&mut v, &mut self.images_vec);
                remove_name(&mut v, name);
                self.images_vec = v;
            },
        }
    }

    /// Replaces `from` by `to` in one step with respect to holders of the
    /// index. To be called only once the filesystem rename has succeeded,
    /// and after the caller checked that `from` is present and `to` is not.
    pub fn rename(&mut self, bucket: Bucket, from: &String, to: String)
        ensures
            final(self).bucket_set(bucket) == old(self).bucket_set(bucket).remove(from@).insert(
                to@,
            ),
            bucket != Bucket::Generic ==> final(self).files() == old(self).files(),
            bucket != Bucket::Image ==> final(self).images() == old(self).images(),
    {
        self.remove(bucket, from);
        self.insert(bucket, to);
    }
}

} // verus!
