use vstd::prelude::*;

verus! {

/// Path strings in this crate are relative, `/`-separated paths as they appear
/// in manifests. Joining an empty directory with a relative path yields the
/// path itself; otherwise the two are separated by a single `/`.
pub open spec fn join_spec(dir: Seq<char>, rel: Seq<char>) -> Seq<char> {
    if dir.len() == 0 {
        rel
    } else {
        dir + seq!['/'] + rel
    }
}

/// Character-wise string equality.
pub fn str_eq(a: &str, b: &str) -> (r: bool)
    ensures
        r <==> a@ == b@,
{
    let la = a.unicode_len();
    let lb = b.unicode_len();
    if la != lb {
        return false;
    }
    let mut i: usize = 0;
    while i < la
        invariant
            la == a@.len(),
            lb == b@.len(),
            la == lb,
            0 <= i <= la,
            forall|j: int| 0 <= j < i ==> a@[j] == b@[j],
        decreases la - i,
    {
        if a.get_char(i) != b.get_char(i) {
            return false;
        }
        i = i + 1;
    }
    proof {
        assert(a@ =~= b@);
    }
    true
}

/// Join a directory path and a relative path.
pub fn join(dir: &str, rel: &str) -> (r: String)
    ensures
        r@ == join_spec(dir@, rel@),
{
    if dir.unicode_len() == 0 {
        rel.to_owned()
    } else {
        let mut out = dir.to_owned();
        out.append("/");
        out.append(rel);
        proof {
            reveal_strlit("/");
            assert(out@ =~= join_spec(dir@, rel@));
        }
        out
    }
}

/// The index of the dot that starts `p`'s extension, if `p` has one: the last
/// dot of the final path component, provided that dot is neither the first
/// character of the component nor of the whole path.
pub open spec fn is_ext_dot(p: Seq<char>, i: int) -> bool {
    &&& 0 < i < p.len()
    &&& p[i] == '.'
    &&& p[i - 1] != '/'
    &&& forall|j: int| i < j < p.len() ==> p[j] != '.' && p[j] != '/'
}

/// Find the extension dot of `p`, scanning from the end.
pub fn find_ext_dot(p: &str) -> (r: Option<usize>)
    ensures
        r matches Some(i) ==> is_ext_dot(p@, i as int),
        r is None ==> forall|j: int| !is_ext_dot(p@, j),
{
    let len = p.unicode_len();
    let mut i: usize = len;
    while i > 0
        invariant
            len == p@.len(),
            0 <= i <= len,
            forall|j: int| i <= j < len ==> p@[j] != '.' && p@[j] != '/',
        decreases i,
    {
        i = i - 1;
        let c = p.get_char(i);
        if c == '/' {
            proof {
                assert forall|j: int| !is_ext_dot(p@, j) by {
                    if i < j < p@.len() {
                        assert(p@[i as int] == '/');
                    }
                }
            }
            return None;
        }
        if c == '.' {
            if i > 0 && p.get_char(i - 1) != '/' {
                return Some(i);
            }
            proof {
                assert forall|j: int| !is_ext_dot(p@, j) by {
                    if j > i {
                        assert(p@[i as int] == '.');
                    }
                }
            }
            return None;
        }
    }
    None
}

/// `p` with its extension replaced by `ext`: everything from the extension dot
/// on is dropped, and `.` followed by `ext` is appended. A path without an
/// extension gets `.` and `ext` appended whole.
pub open spec fn replace_ext_spec(p: Seq<char>, ext: Seq<char>) -> Seq<char> {
    stem_spec(p) + seq!['.'] + ext
}

/// The part of `p` before its extension dot, or all of `p` if it has none.
pub open spec fn stem_spec(p: Seq<char>) -> Seq<char> {
    if exists|i: int| is_ext_dot(p, i) {
        p.subrange(0, choose|i: int| is_ext_dot(p, i))
    } else {
        p
    }
}

pub proof fn lemma_ext_dot_unique(p: Seq<char>, i: int, j: int)
    requires
        is_ext_dot(p, i),
        is_ext_dot(p, j),
    ensures
        i == j,
{
    if i < j {
        assert(p[j] != '.');
    }
    if j < i {
        assert(p[i] != '.');
    }
}

pub fn replace_extension(p: &str, ext: &str) -> (r: String)
    ensures
        r@ == replace_ext_spec(p@, ext@),
{
    let len = p.unicode_len();
    let stem: &str = match find_ext_dot(p) {
        Some(i) => {
            proof {
                lemma_ext_dot_unique(p@, i as int, choose|k: int| is_ext_dot(p@, k));
            }
            p.substring_char(0, i)
        },
        None => p,
    };
    let mut out = stem.to_owned();
    out.append(".");
    out.append(ext);
    proof {
        reveal_strlit(".");
        assert(out@ =~= replace_ext_spec(p@, ext@));
    }
    out
}

/// Law: for a fixed target directory and extension, two relative paths with
/// distinct stems are written to distinct output paths.
pub proof fn lemma_output_path_injective(
    dir: Seq<char>,
    p1: Seq<char>,
    p2: Seq<char>,
    ext: Seq<char>,
)
    requires
        stem_spec(p1) != stem_spec(p2),
    ensures
        join_spec(dir, replace_ext_spec(p1, ext)) != join_spec(dir, replace_ext_spec(p2, ext)),
{
    let s1 = stem_spec(p1);
    let s2 = stem_spec(p2);
    let o1 = join_spec(dir, replace_ext_spec(p1, ext));
    let o2 = join_spec(dir, replace_ext_spec(p2, ext));
    let pre: int = if dir.len() == 0 {
        0
    } else {
        dir.len() + 1int
    };
    assert(o1.len() == pre + s1.len() + 1 + ext.len());
    assert(o2.len() == pre + s2.len() + 1 + ext.len());
    if s1.len() != s2.len() {
        assert(o1.len() != o2.len());
    } else {
        assert(!(s1 =~= s2));
        let k = choose|k: int| 0 <= k < s1.len() && s1[k] != s2[k];
        assert(o1[pre + k] == s1[k]);
        assert(o2[pre + k] == s2[k]);
        assert(o1 != o2) by {
            if o1 == o2 {
                assert(o1[pre + k] == o2[pre + k]);
            }
        }
    }
}

} // verus!
