//! Destination paths: where the bytes of an uploaded file are written.
//!
//! A file named `f` goes to `./f`. If something already stands there, the path
//! is rewritten: `_new` is put in front of the first `.` of the name, or at the
//! end of a name that has no `.`.

use vstd::prelude::*;
use vstd::string::*;

verus! {

/// The text that leads every destination path: the working directory.
pub open spec fn dir_prefix() -> Seq<char> {
    "./"@
}

/// The text that tells a rewritten name from the one that is taken.
pub open spec fn collision_mark() -> Seq<char> {
    "_new"@
}

/// `k` is the place of the first `.` in `name`.
pub open spec fn is_first_dot(name: Seq<char>, k: int) -> bool {
    &&& 0 <= k < name.len()
    &&& name[k] == '.'
    &&& forall|i: int| 0 <= i < k ==> name[i] != '.'
}

/// The place at which a name is split: that of its first `.`, or its length
/// where it has none.
pub open spec fn split_point(name: Seq<char>) -> int
    decreases name.len(),
{
    if name.len() == 0 || name[0] == '.' {
        0
    } else {
        1 + split_point(name.drop_first())
    }
}

/// The part of a name before its first `.` (the whole name if it has none).
pub open spec fn stem(name: Seq<char>) -> Seq<char> {
    name.subrange(0, split_point(name))
}

/// The part of a name from its first `.` on, the `.` included (empty if it
/// has none).
pub open spec fn tail(name: Seq<char>) -> Seq<char> {
    name.subrange(split_point(name), name.len() as int)
}

/// The path tried first: the working directory, then the name as the client
/// gave it.
pub open spec fn candidate(name: Seq<char>) -> Seq<char> {
    dir_prefix() + name
}

/// The path used when the candidate is taken.
pub open spec fn renamed(name: Seq<char>) -> Seq<char> {
    dir_prefix() + stem(name) + collision_mark() + tail(name)
}

/// The path a part is written to, given whether its candidate is taken.
pub open spec fn destination(name: Seq<char>, occupied: bool) -> Seq<char> {
    if occupied {
        renamed(name)
    } else {
        candidate(name)
    }
}

/// The split point lies within the name, no `.` stands before it, and a `.`
/// stands at it unless it is the end.
pub proof fn lemma_split_point(name: Seq<char>)
    ensures
        0 <= split_point(name) <= name.len(),
        forall|i: int| 0 <= i < split_point(name) ==> name[i] != '.',
        split_point(name) < name.len() ==> name[split_point(name)] == '.',
        split_point(name) < name.len() <==> name.contains('.'),
    decreases name.len(),
{
    if name.len() == 0 || name[0] == '.' {
        if name.len() > 0 {
            assert(name.contains('.'));
        }
    } else {
        let rest = name.drop_first();
        lemma_split_point(rest);
        let k = split_point(rest);
        assert forall|i: int| 0 <= i < k + 1 implies name[i] != '.' by {
            if i > 0 {
                assert(name[i] == rest[i - 1]);
            }
        }
        if k < rest.len() {
            assert(name[k + 1] == rest[k]);
            assert(name.contains('.'));
        } else {
            assert(!name.contains('.')) by {
                if name.contains('.') {
                    let j = choose|j: int| 0 <= j < name.len() && name[j] == '.';
                    assert(name[j] != '.');
                }
            }
        }
    }
}

/// The first `.` of a name is its split point.
pub proof fn lemma_first_dot_is_split_point(name: Seq<char>, k: int)
    requires
        is_first_dot(name, k),
    ensures
        split_point(name) == k,
{
    lemma_split_point(name);
    let s = split_point(name);
    if s < k {
        assert(name[s] == '.');
    } else if s > k {
        assert(name[k] != '.');
    }
}

/// A fresh name is stored under the working directory, unchanged.
pub proof fn lemma_fresh_name_keeps_its_name(name: Seq<char>)
    ensures
        destination(name, false) == "./"@ + name,
{
}

/// A taken name with a `.` is split at its first `.` only: the path is the
/// directory, what stands before that `.`, `_new.`, and all that follows it,
/// later dots included.
pub proof fn lemma_taken_name_splits_at_first_dot(name: Seq<char>, k: int)
    requires
        is_first_dot(name, k),
    ensures
        destination(name, true) == "./"@ + name.subrange(0, k) + "_new."@ + name.subrange(
            k + 1,
            name.len() as int,
        ),
{
    lemma_first_dot_is_split_point(name, k);
    reveal_strlit("_new");
    reveal_strlit("_new.");
    let ext = name.subrange(k + 1, name.len() as int);
    assert(tail(name) =~= seq!['.'] + ext);
    assert("_new."@ =~= "_new"@ + seq!['.']);
    assert(destination(name, true) =~= "./"@ + name.subrange(0, k) + "_new."@ + ext);
}

/// A taken name without a `.` gets `_new` at its end.
pub proof fn lemma_taken_name_without_dot(name: Seq<char>)
    requires
        !name.contains('.'),
    ensures
        destination(name, true) == "./"@ + name + "_new"@,
{
    lemma_split_point(name);
    assert(stem(name) =~= name);
    assert(tail(name) =~= Seq::<char>::empty());
    assert(destination(name, true) =~= "./"@ + name + "_new"@);
}

/// The rewritten path differs from the candidate, so a part is never written
/// over the entry that made its name taken.
pub proof fn lemma_renamed_differs_from_candidate(name: Seq<char>)
    ensures
        renamed(name) != candidate(name),
{
    lemma_split_point(name);
    reveal_strlit("./");
    reveal_strlit("_new");
    assert(renamed(name).len() == candidate(name).len() + 4);
}

/// Finds where a file name is split: at its first `.`, or at its end.
pub fn find_split_point(filename: &str) -> (k: usize)
    ensures
        k == split_point(filename@),
{
    let n: usize = filename.unicode_len();
    let mut i: usize = 0;
    proof {
        lemma_split_point(filename@);
    }
    while i < n
        invariant
            n == filename@.len(),
            0 <= i <= n,
            forall|j: int| 0 <= j < i ==> filename@[j] != '.',
            i <= split_point(filename@),
        decreases n - i,
    {
        if filename.get_char(i) == '.' {
            proof {
                lemma_first_dot_is_split_point(filename@, i as int);
            }
            return i;
        }
        proof {
            lemma_split_point(filename@);
            if split_point(filename@) == i {
                assert(filename@[i as int] == '.');
            }
        }
        i += 1;
    }
    proof {
        lemma_split_point(filename@);
    }
    n
}

/// The path tried first for a part: `./` and the file name.
pub fn candidate_path(filename: &str) -> (path: String)
    ensures
        path@ == candidate(filename@),
{
    let mut path = String::from_str("./");
    path.append(filename);
    path
}

/// The path used in place of a candidate that is taken.
pub fn renamed_path(filename: &str) -> (path: String)
    ensures
        path@ == renamed(filename@),
{
    let n: usize = filename.unicode_len();
    let k: usize = find_split_point(filename);
    proof {
        lemma_split_point(filename@);
    }
    let mut path = String::from_str("./");
    path.append(filename.substring_char(0, k));
    path.append("_new");
    path.append(filename.substring_char(k, n));
    path
}

/// The path a part is written to. `occupied` says whether an entry already
/// stands at the candidate path.
pub fn destination_path(filename: &str, occupied: bool) -> (path: String)
    ensures
        path@ == destination(filename@, occupied),
{
    if occupied {
        renamed_path(filename)
    } else {
        candidate_path(filename)
    }
}

} // verus!
