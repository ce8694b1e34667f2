//! Path arithmetic for deriving the default destination file.
//!
//! A path is modelled as its character sequence, split at the last `/`
//! separator into a directory prefix (which keeps the separator) and a file
//! name. The file stem is the file name without its extension; a name with
//! no usable stem (empty, `.` or `..`) falls back to a fixed literal. The
//! default destination is the stem with `_pressed.pdf` appended, placed in
//! the source's own directory.

use vstd::prelude::*;
use vstd::string::StrSliceExecFns;
use vstd::string::StringExecFns;

verus! {

/// The path separator this model splits on.
pub open spec fn separator() -> char {
    '/'
}

/// Length of the directory prefix of `p`: everything up to and including the
/// last separator, 0 when `p` has none.
pub open spec fn dir_prefix_len(p: Seq<char>) -> int
    decreases p.len(),
{
    if p.len() == 0 {
        0
    } else if p.last() == separator() {
        p.len() as int
    } else {
        dir_prefix_len(p.drop_last())
    }
}

/// The directory prefix of `p`, separator included; empty when `p` has no
/// separator.
pub open spec fn spec_dir(p: Seq<char>) -> Seq<char> {
    p.take(dir_prefix_len(p))
}

/// The final component of `p`: everything after the last separator.
pub open spec fn spec_file_name(p: Seq<char>) -> Seq<char> {
    p.skip(dir_prefix_len(p))
}

/// The largest index `i` with `0 < i` at which `name` holds a `.`, if any.
/// The index 0 is excluded so a leading dot (a hidden file) is not taken for
/// an extension separator.
pub open spec fn last_dot_index(name: Seq<char>) -> Option<int>
    decreases name.len(),
{
    if name.len() <= 1 {
        None
    } else if name.last() == '.' {
        Some(name.len() - 1)
    } else {
        last_dot_index(name.drop_last())
    }
}

/// The stem of a file name: the name up to its last extension separator, or
/// the whole name when it has none. An empty name, `.` and `..` have no
/// stem.
pub open spec fn spec_stem(name: Seq<char>) -> Option<Seq<char>> {
    if name.len() == 0 || name == "."@ || name == ".."@ {
        None
    } else {
        match last_dot_index(name) {
            Some(i) => Some(name.take(i)),
            None => Some(name),
        }
    }
}

/// The stem used when the source path yields none.
pub open spec fn fallback_stem() -> Seq<char> {
    "pdfpress"@
}

/// The suffix appended to the stem to form the default destination name.
pub open spec fn pressed_suffix() -> Seq<char> {
    "_pressed.pdf"@
}

/// The destination path used when the caller names none: the source's stem
/// (or the fallback) with the suffix appended, in the source's directory.
pub open spec fn spec_default_destination(p: Seq<char>) -> Seq<char> {
    let stem = match spec_stem(spec_file_name(p)) {
        Some(s) => s,
        None => fallback_stem(),
    };
    spec_dir(p) + stem + pressed_suffix()
}

/// The directory prefix is well placed: it ends with the separator unless it
/// is empty, and no separator follows it.
pub proof fn lemma_dir_prefix_shape(p: Seq<char>)
    ensures
        0 <= dir_prefix_len(p) <= p.len(),
        dir_prefix_len(p) > 0 ==> p[dir_prefix_len(p) - 1] == separator(),
        forall|j: int| dir_prefix_len(p) <= j < p.len() ==> p[j] != separator(),
    decreases p.len(),
{
    if p.len() == 0 {
    } else if p.last() == separator() {
    } else {
        lemma_dir_prefix_shape(p.drop_last());
        assert(forall|j: int| 0 <= j < p.len() - 1 ==> p.drop_last()[j] == p[j]);
    }
}

/// Any cut of `p` that ends with a separator and has none after it is the
/// directory prefix.
pub proof fn lemma_dir_prefix_unique(p: Seq<char>, d: int)
    requires
        0 <= d <= p.len(),
        d > 0 ==> p[d - 1] == separator(),
        forall|j: int| d <= j < p.len() ==> p[j] != separator(),
    ensures
        d == dir_prefix_len(p),
    decreases p.len(),
{
    if p.len() == 0 {
    } else if p.last() == separator() {
        if d < p.len() {
            assert(p[p.len() - 1] != separator());
        }
    } else {
        if d == p.len() {
            assert(p[d - 1] == separator());
            assert(false);
        }
        assert(forall|j: int| 0 <= j < p.len() - 1 ==> p.drop_last()[j] == p[j]);
        lemma_dir_prefix_unique(p.drop_last(), d);
    }
}

/// The file name holds no separator, and appending any separator-free tail
/// to the directory prefix leaves the directory prefix unchanged.
pub proof fn lemma_dir_of_dir_plus_tail(p: Seq<char>, tail: Seq<char>)
    requires
        forall|j: int| 0 <= j < tail.len() ==> tail[j] != separator(),
    ensures
        dir_prefix_len(spec_dir(p) + tail) == dir_prefix_len(p),
        spec_dir(spec_dir(p) + tail) == spec_dir(p),
        spec_file_name(spec_dir(p) + tail) == tail,
{
    let d = dir_prefix_len(p);
    let q = spec_dir(p) + tail;
    lemma_dir_prefix_shape(p);
    assert(q.len() == d + tail.len());
    assert(forall|j: int| d <= j < q.len() ==> q[j] == tail[j - d]);
    if d > 0 {
        assert(q[d - 1] == p[d - 1]);
    }
    lemma_dir_prefix_unique(q, d);
    assert(spec_dir(q) =~= spec_dir(p));
    assert(spec_file_name(q) =~= tail);
}

/// `last_dot_index` indeed points at the last dot past the first position.
pub proof fn lemma_last_dot_shape(name: Seq<char>)
    ensures
        match last_dot_index(name) {
            Some(i) => {
                &&& 0 < i < name.len()
                &&& name[i] == '.'
                &&& forall|j: int| i < j < name.len() ==> name[j] != '.'
            },
            None => forall|j: int| 0 < j < name.len() ==> name[j] != '.',
        },
    decreases name.len(),
{
    if name.len() <= 1 {
    } else if name.last() == '.' {
    } else {
        lemma_last_dot_shape(name.drop_last());
        assert(forall|j: int| 0 <= j < name.len() - 1 ==> name.drop_last()[j] == name[j]);
    }
}

/// Any dot position past the first that has no dot after it is the one
/// `last_dot_index` finds.
pub proof fn lemma_last_dot_unique(name: Seq<char>, i: int)
    requires
        0 < i < name.len(),
        name[i] == '.',
        forall|j: int| i < j < name.len() ==> name[j] != '.',
    ensures
        last_dot_index(name) == Some(i),
    decreases name.len(),
{
    if name.last() == '.' && name.len() > 1 {
        if i < name.len() - 1 {
            assert(name[name.len() - 1] != '.');
        }
    } else {
        assert(i < name.len() - 1);
        assert(forall|j: int| 0 <= j < name.len() - 1 ==> name.drop_last()[j] == name[j]);
        lemma_last_dot_unique(name.drop_last(), i);
    }
}

/// Exec counterpart of `dir_prefix_len`.
pub fn find_dir_prefix_len(p: &str) -> (r: usize)
    ensures
        r == dir_prefix_len(p@),
{
    let n: usize = p.unicode_len();
    let mut i: usize = n;
    while i > 0
        invariant
            n == p@.len(),
            i <= n,
            forall|j: int| i <= j < n ==> p@[j] != separator(),
        decreases i,
    {
        if p.get_char(i - 1) == '/' {
            proof {
                lemma_dir_prefix_unique(p@, i as int);
            }
            return i;
        }
        i = i - 1;
    }
    proof {
        lemma_dir_prefix_unique(p@, 0);
    }
    0
}

/// The final component of `path`: everything after the last separator.
pub fn file_name_part(path: &str) -> (r: String)
    ensures
        r@ == spec_file_name(path@),
{
    let d = find_dir_prefix_len(path);
    let n: usize = path.unicode_len();
    proof {
        lemma_dir_prefix_shape(path@);
    }
    String::from_str(path.substring_char(d, n))
}

/// The stem of the file name `name` (not a whole path): the name up to its
/// last extension separator, the whole name when it has none, and `None`
/// for an empty name, `.` or `..`.
pub fn stem_of_name(name: &str) -> (r: Option<String>)
    ensures
        match r {
            Some(s) => spec_stem(name@) == Some(s@),
            None => spec_stem(name@) is None,
        },
{
    let n: usize = name.unicode_len();
    proof {
        reveal_strlit(".");
        reveal_strlit("..");
    }
    if n == 0 {
        proof {
            assert(name@.len() == 0);
        }
        return None;
    }
    if n == 1 && name.get_char(0) == '.' {
        proof {
            assert(name@ =~= "."@);
        }
        return None;
    }
    if n == 2 && name.get_char(0) == '.' && name.get_char(1) == '.' {
        proof {
            assert(name@ =~= ".."@);
        }
        return None;
    }
    proof {
        assert(name@ != "."@ && name@ != ".."@) by {
            if name@ == "."@ {
                assert(name@.len() == 1 && name@[0] == '.');
            }
            if name@ == ".."@ {
                assert(name@.len() == 2 && name@[0] == '.' && name@[1] == '.');
            }
        }
    }
    let mut i: usize = n;
    while i > 1
        invariant
            n == name@.len(),
            1 <= i <= n,
            name@ != "."@,
            name@ != ".."@,
            forall|j: int| i <= j < n ==> name@[j] != '.',
        decreases i,
    {
        if name.get_char(i - 1) == '.' {
            proof {
                lemma_last_dot_unique(name@, i - 1);
            }
            return Some(String::from_str(name.substring_char(0, i - 1)));
        }
        i = i - 1;
    }
    proof {
        lemma_last_dot_shape(name@);
        assert(last_dot_index(name@) is None) by {
            match last_dot_index(name@) {
                Some(k) => {
                    assert(name@[k] != '.');
                },
                None => {},
            }
        }
    }
    Some(String::from_str(name))
}

/// The destination used when the caller names none: `<stem>_pressed.pdf` in
/// the source's own directory, with the fixed fallback stem when the source
/// path yields no stem.
pub fn default_destination(source: &str) -> (r: String)
    ensures
        r@ == spec_default_destination(source@),
{
    let d = find_dir_prefix_len(source);
    let n: usize = source.unicode_len();
    proof {
        lemma_dir_prefix_shape(source@);
    }
    let name = source.substring_char(d, n);
    let mut out = String::from_str(source.substring_char(0, d));
    proof {
        assert(out@ =~= spec_dir(source@));
        assert(name@ =~= spec_file_name(source@));
    }
    match stem_of_name(name) {
        Some(stem) => {
            out.append(stem.as_str());
        },
        None => {
            out.append("pdfpress");
        },
    }
    out.append("_pressed.pdf");
    proof {
        assert(out@ =~= spec_default_destination(source@));
    }
    out
}

/// With a stem `s`, the derived destination is exactly `s` plus the fixed
/// suffix, in the source's own directory: the directory and file name of
/// the destination come apart as the lemma states.
pub proof fn lemma_default_destination_with_stem(p: Seq<char>, s: Seq<char>)
    requires
        spec_stem(spec_file_name(p)) == Some(s),
    ensures
        spec_default_destination(p) == spec_dir(p) + s + pressed_suffix(),
        spec_dir(spec_default_destination(p)) == spec_dir(p),
        spec_file_name(spec_default_destination(p)) == s + pressed_suffix(),
{
    reveal_strlit("_pressed.pdf");
    lemma_dir_prefix_shape(p);
    let name = spec_file_name(p);
    assert(s.len() <= name.len() && forall|j: int| 0 <= j < s.len() ==> s[j] == name[j]) by {
        match last_dot_index(name) {
            Some(i) => {
                lemma_last_dot_shape(name);
            },
            None => {},
        }
    }
    let tail = s + pressed_suffix();
    assert(forall|j: int| 0 <= j < pressed_suffix().len() ==> pressed_suffix()[j] != separator());
    assert(forall|j: int| 0 <= j < name.len() ==> name[j] != separator()) by {
        assert(forall|j: int|
            0 <= j < name.len() ==> name[j] == p[dir_prefix_len(p) + j]);
    }
    assert forall|j: int| 0 <= j < tail.len() implies tail[j] != separator() by {
        if j < s.len() {
            assert(tail[j] == s[j]);
        } else {
            assert(tail[j] == pressed_suffix()[j - s.len()]);
        }
    }
    assert(spec_dir(p) + s + pressed_suffix() =~= spec_dir(p) + tail);
    lemma_dir_of_dir_plus_tail(p, tail);
}

/// With no stem to take, the derived destination is the fallback stem plus
/// the fixed suffix, in the source's own directory.
pub proof fn lemma_default_destination_fallback(p: Seq<char>)
    requires
        spec_stem(spec_file_name(p)) is None,
    ensures
        spec_default_destination(p) == spec_dir(p) + "pdfpress_pressed.pdf"@,
{
    reveal_strlit("pdfpress");
    reveal_strlit("_pressed.pdf");
    reveal_strlit("pdfpress_pressed.pdf");
    assert(fallback_stem() + pressed_suffix() =~= "pdfpress_pressed.pdf"@);
    assert(spec_dir(p) + fallback_stem() + pressed_suffix() =~= spec_dir(p) + (fallback_stem()
        + pressed_suffix()));
}

} // verus!
