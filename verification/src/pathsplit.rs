//! Splitting a file path into its base file name and its extension.
//!
//! The base file name is what follows the last separator, after trailing
//! separators and trailing current-directory components (`.`) are dropped,
//! as the standard path splitter drops them; a path whose final component
//! is the parent directory (`..`) has no file name.  The extension is what
//! follows the last `'.'` of the file name, provided that dot is not the
//! leading character (a name such as `.gitignore` has no extension).

use vstd::prelude::*;
use vstd::string::StrSliceExecFns;

verus! {

/// The suffix of `s` that follows the last occurrence of `c`; `s` itself when
/// `c` does not occur.
pub open spec fn suffix_after_last(s: Seq<char>, c: char) -> Seq<char>
    decreases s.len(),
{
    if s.len() == 0 {
        s
    } else if s.last() == c {
        Seq::empty()
    } else {
        suffix_after_last(s.drop_last(), c).push(s.last())
    }
}

/// `path` with every trailing separator and every trailing
/// current-directory component removed.
pub open spec fn norm_path_end(path: Seq<char>) -> Seq<char>
    decreases path.len(),
{
    if path.len() > 0 && (path.last() == '/' || (path.last() == '.' && (path.len() == 1 || path[
        path.len() - 2
    ] == '/'))) {
        norm_path_end(path.drop_last())
    } else {
        path
    }
}

/// Whether `s` is the parent-directory component.
pub open spec fn is_parent_component(s: Seq<char>) -> bool {
    s.len() == 2 && s[0] == '.' && s[1] == '.'
}

/// The base file name of `path`.
pub open spec fn file_name_of(path: Seq<char>) -> Seq<char> {
    let name = suffix_after_last(norm_path_end(path), '/');
    if is_parent_component(name) {
        Seq::empty()
    } else {
        name
    }
}

/// Whether `name` carries an extension: a dot somewhere after its first
/// character.
pub open spec fn has_ext_dot(name: Seq<char>) -> bool {
    exists|i: int| 1 <= i < name.len() && name[i] == '.'
}

/// The extension of the file name `name`; empty when there is none.
pub open spec fn extension_of(name: Seq<char>) -> Seq<char> {
    if has_ext_dot(name) {
        suffix_after_last(name, '.')
    } else {
        Seq::empty()
    }
}

/// When `c` does not occur in `s`, the suffix after it is all of `s`.
pub proof fn lemma_suffix_no_occurrence(s: Seq<char>, c: char)
    requires
        forall|j: int| 0 <= j < s.len() ==> s[j] != c,
    ensures
        suffix_after_last(s, c) == s,
    decreases s.len(),
{
    if s.len() > 0 {
        lemma_suffix_no_occurrence(s.drop_last(), c);
        assert(suffix_after_last(s, c) =~= s);
    } else {
        assert(suffix_after_last(s, c) =~= s);
    }
}

/// When the last occurrence of `c` in `s` is at `k`, the suffix after it is
/// everything past `k`.
pub proof fn lemma_suffix_from(s: Seq<char>, c: char, k: int)
    requires
        0 <= k < s.len(),
        s[k] == c,
        forall|j: int| k < j < s.len() ==> s[j] != c,
    ensures
        suffix_after_last(s, c) == s.subrange(k + 1, s.len() as int),
    decreases s.len(),
{
    if k == s.len() - 1 {
        assert(suffix_after_last(s, c) =~= s.subrange(k + 1, s.len() as int));
    } else {
        assert(s.drop_last()[k] == c);
        lemma_suffix_from(s.drop_last(), c, k);
        assert(suffix_after_last(s.drop_last(), c).push(s.last()) =~= s.subrange(
            k + 1,
            s.len() as int,
        ));
    }
}

/// The base file name of `path`, as a slice of it.
pub fn file_name_str<'a>(path: &'a str) -> (r: &'a str)
    ensures
        r@ == file_name_of(path@),
{
    let n0 = path.unicode_len();
    let mut n = n0;
    proof {
        assert(path@.subrange(0, n as int) =~= path@);
    }
    while n > 0 && (path.get_char(n - 1) == '/' || (path.get_char(n - 1) == '.' && (n == 1
        || path.get_char(n - 2) == '/')))
        invariant
            n <= n0,
            n0 == path@.len(),
            norm_path_end(path@) =~= norm_path_end(path@.subrange(0, n as int)),
        decreases n,
    {
        proof {
            assert(path@.subrange(0, n as int).drop_last() =~= path@.subrange(0, n as int - 1));
            assert(path@.subrange(0, n as int).last() == path@[n as int - 1]);
            if n >= 2 {
                assert(path@.subrange(0, n as int)[n as int - 2] == path@[n as int - 2]);
            }
        }
        n = n - 1;
    }
    proof {
        if n > 0 {
            assert(path@.subrange(0, n as int).last() == path@[n as int - 1]);
            if n >= 2 {
                assert(path@.subrange(0, n as int)[n as int - 2] == path@[n as int - 2]);
            }
        }
        assert(norm_path_end(path@) =~= path@.subrange(0, n as int));
    }
    let mut i = n;
    while i > 0 && path.get_char(i - 1) != '/'
        invariant
            i <= n <= n0,
            n0 == path@.len(),
            forall|j: int| i <= j < n ==> path@[j] != '/',
        decreases i,
    {
        i = i - 1;
    }
    let name = path.substring_char(i, n);
    proof {
        let stripped = path@.subrange(0, n as int);
        if i > 0 {
            assert(stripped[i as int - 1] == '/');
            assert(forall|j: int| i as int <= j < stripped.len() ==> stripped[j] != '/');
            lemma_suffix_from(stripped, '/', i as int - 1);
            assert(stripped.subrange(i as int, n as int) =~= path@.subrange(i as int, n as int));
        } else {
            assert(forall|j: int| 0 <= j < stripped.len() ==> stripped[j] != '/');
            lemma_suffix_no_occurrence(stripped, '/');
            assert(stripped.subrange(0, n as int) =~= stripped);
        }
        assert(name@ == suffix_after_last(norm_path_end(path@), '/'));
    }
    if name.unicode_len() == 2 && name.get_char(0) == '.' && name.get_char(1) == '.' {
        proof {
            assert(is_parent_component(name@));
            reveal_strlit("");
            assert(""@ =~= file_name_of(path@));
        }
        ""
    } else {
        proof {
            assert(!is_parent_component(name@));
        }
        name
    }
}

/// The extension of the file name `name`, as a slice of it.
pub fn extension_str<'a>(name: &'a str) -> (r: &'a str)
    ensures
        r@ == extension_of(name@),
{
    let n = name.unicode_len();
    let mut i = n;
    while i > 1 && name.get_char(i - 1) != '.'
        invariant
            i <= n,
            n == name@.len(),
            forall|j: int| i <= j < n ==> name@[j] != '.',
        decreases i,
    {
        i = i - 1;
    }
    if i > 1 {
        let r = name.substring_char(i, n);
        proof {
            assert(name@[i as int - 1] == '.');
            assert(has_ext_dot(name@));
            lemma_suffix_from(name@, '.', i as int - 1);
        }
        r
    } else {
        proof {
            assert(!has_ext_dot(name@));
            reveal_strlit("");
            assert(""@ =~= extension_of(name@));
        }
        ""
    }
}

} // verus!
