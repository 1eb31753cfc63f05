//! Path arithmetic for the working-directory tracker.
//!
//! Paths are plain strings. Descending into an entry joins it onto the
//! current path; descending into the synthetic parent entry resolves to
//! everything before the last separator.

use vstd::prelude::*;
use vstd::string::StrSliceExecFns;
use vstd::string::StringExecFns;

verus! {

/// The synthetic parent entry shown at the top of a directory listing.
pub open spec fn up_marker() -> Seq<char> {
    seq!['.', '.', '/']
}

/// Index of the last '/' in `s`, or -1 when there is none.
pub open spec fn last_slash(s: Seq<char>) -> int
    decreases s.len(),
{
    if s.len() == 0 {
        -1
    } else if s[s.len() - 1] == '/' {
        s.len() - 1
    } else {
        last_slash(s.drop_last())
    }
}

/// A path with its trailing separators dropped, so that `/a/b/` and `/a/b`
/// denote the parent computation on the same directory.
pub open spec fn without_trailing_slashes(s: Seq<char>) -> Seq<char>
    decreases s.len(),
{
    if s.len() > 0 && s[s.len() - 1] == '/' {
        without_trailing_slashes(s.drop_last())
    } else {
        s
    }
}

/// Parent of the directory a path denotes: trailing separators are ignored,
/// then everything before the last '/' — the root itself when at most one
/// separator remains.
pub open spec fn parent_seq(s: Seq<char>) -> Seq<char> {
    let t = without_trailing_slashes(s);
    if last_slash(t) <= 0 {
        seq!['/']
    } else {
        t.take(last_slash(t))
    }
}

/// A base path joined with an entry name: a '/' goes between them unless
/// the base already ends in one.
pub open spec fn join_seq(base: Seq<char>, name: Seq<char>) -> Seq<char> {
    if base.len() > 0 && base[base.len() - 1] == '/' {
        base + name
    } else {
        base + seq!['/'] + name
    }
}

proof fn lemma_last_slash_from_scan(s: Seq<char>, k: int)
    requires
        0 <= k <= s.len(),
        forall|j: int| k <= j < s.len() ==> s[j] != '/',
        k > 0 ==> s[k - 1] == '/',
    ensures
        last_slash(s) == k - 1,
    decreases s.len(),
{
    if s.len() == 0 {
    } else if s[s.len() - 1] == '/' {
        assert(k == s.len());
    } else {
        assert(k < s.len());
        let t = s.drop_last();
        assert forall|j: int| k <= j < t.len() implies t[j] != '/' by {
            assert(t[j] == s[j]);
        }
        lemma_last_slash_from_scan(t, k);
    }
}

proof fn lemma_trim_from_scan(s: Seq<char>, e: int)
    requires
        0 <= e <= s.len(),
        forall|j: int| e <= j < s.len() ==> s[j] == '/',
        e > 0 ==> s[e - 1] != '/',
    ensures
        without_trailing_slashes(s) == s.take(e),
    decreases s.len(),
{
    if e == s.len() {
        assert(s.take(e) =~= s);
    } else {
        let t = s.drop_last();
        assert forall|j: int| e <= j < t.len() implies t[j] == '/' by {
            assert(t[j] == s[j]);
        }
        lemma_trim_from_scan(t, e);
        assert(t.take(e) =~= s.take(e));
    }
}

/// A path without its trailing separators; the root becomes empty.
pub fn trim_trailing_slashes(s: &str) -> (r: String)
    ensures
        r@ == without_trailing_slashes(s@),
{
    let len = s.unicode_len();
    let mut e: usize = len;
    while e > 0 && s.get_char(e - 1) == '/'
        invariant
            e <= len,
            len == s@.len(),
            forall|j: int| e <= j < s@.len() ==> s@[j] == '/',
        decreases e,
    {
        e = e - 1;
    }
    proof {
        lemma_trim_from_scan(s@, e as int);
    }
    let sub = s.substring_char(0, e);
    let r = sub.to_owned();
    proof {
        assert(r@ =~= s@.take(e as int));
    }
    r
}

/// The parent of the directory `path` denotes; trailing separators on
/// `path` do not change the answer.
pub fn parent_of(path: &str) -> (r: String)
    ensures
        r@ == parent_seq(path@),
{
    let len = path.unicode_len();
    let mut e: usize = len;
    while e > 0 && path.get_char(e - 1) == '/'
        invariant
            e <= len,
            len == path@.len(),
            forall|j: int| e <= j < path@.len() ==> path@[j] == '/',
        decreases e,
    {
        e = e - 1;
    }
    proof {
        lemma_trim_from_scan(path@, e as int);
    }
    let mut k: usize = e;
    while k > 0 && path.get_char(k - 1) != '/'
        invariant
            k <= e,
            e <= len,
            len == path@.len(),
            forall|j: int| k <= j < e ==> path@[j] != '/',
        decreases k,
    {
        k = k - 1;
    }
    proof {
        let t = path@.take(e as int);
        assert forall|j: int| k <= j < t.len() implies t[j] != '/' by {
            assert(t[j] == path@[j]);
        }
        if k > 0 {
            assert(t[k - 1] == path@[k - 1]);
        }
        lemma_last_slash_from_scan(t, k as int);
    }
    if k <= 1 {
        let r = String::from_str("/");
        proof {
            reveal_strlit("/");
            assert(r@ =~= seq!['/']);
        }
        r
    } else {
        let sub = path.substring_char(0, k - 1);
        let r = sub.to_owned();
        proof {
            assert(r@ =~= path@.take(e as int).take(k - 1));
        }
        r
    }
}

/// A base path joined with an entry name.
pub fn join_path(base: &str, name: &str) -> (r: String)
    ensures
        r@ == join_seq(base@, name@),
{
    let len = base.unicode_len();
    let mut r = base.to_owned();
    if len == 0 || base.get_char(len - 1) != '/' {
        r.append("/");
        proof {
            reveal_strlit("/");
            assert("/"@ =~= seq!['/']);
        }
    }
    r.append(name);
    proof {
        assert(r@ =~= join_seq(base@, name@));
    }
    r
}

proof fn lemma_last_slash_append_no_slash(a: Seq<char>, b: Seq<char>)
    requires
        forall|j: int| 0 <= j < b.len() ==> b[j] != '/',
    ensures
        last_slash(a + b) == last_slash(a),
    decreases b.len(),
{
    if b.len() == 0 {
        assert(a + b =~= a);
    } else {
        let t = a + b;
        assert(t[t.len() - 1] == b[b.len() - 1]);
        assert(t.drop_last() =~= a + b.drop_last());
        lemma_last_slash_append_no_slash(a, b.drop_last());
    }
}

/// Going up undoes a descend: for a canonical absolute base (only the root
/// ends in '/') and a real entry name, the parent of the joined path is the
/// base again.
pub proof fn lemma_parent_of_join(base: Seq<char>, name: Seq<char>)
    requires
        base.len() > 0,
        base[0] == '/',
        base[base.len() - 1] == '/' ==> base.len() == 1,
        name.len() > 0,
        forall|j: int| 0 <= j < name.len() ==> name[j] != '/',
    ensures
        parent_seq(join_seq(base, name)) == base,
{
    let t = join_seq(base, name);
    assert(t[t.len() - 1] == name[name.len() - 1]);
    assert(without_trailing_slashes(t) == t);
    if base[base.len() - 1] == '/' {
        assert(base =~= seq!['/']);
        assert(t =~= base + name);
        lemma_last_slash_append_no_slash(base, name);
        assert(last_slash(base) == 0);
        assert(parent_seq(t) =~= base);
    } else {
        let stem = base + seq!['/'];
        assert(t =~= stem + name);
        lemma_last_slash_append_no_slash(stem, name);
        assert(stem[stem.len() - 1] == '/');
        assert(last_slash(stem) == base.len());
        assert(last_slash(t) == base.len());
        assert(base.len() >= 2);
        assert(t.take(base.len() as int) =~= base);
    }
}

/// Whether an entry is the synthetic parent entry.
pub fn is_up_entry(s: &str) -> (r: bool)
    ensures
        r == (s@ == up_marker()),
{
    let len = s.unicode_len();
    if len != 3 {
        proof {
            assert(s@ != up_marker());
        }
        return false;
    }
    let r = s.get_char(0) == '.' && s.get_char(1) == '.' && s.get_char(2) == '/';
    proof {
        if r {
            assert(s@ =~= up_marker());
        } else {
            assert(s@ != up_marker());
        }
    }
    r
}

} // verus!
