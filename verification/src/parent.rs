//! The parent aggregator update: locating the aggregator file named after
//! the working directory, and the guarded prepend of a feature's export
//! line.

use vstd::prelude::*;
use vstd::string::StrSliceExecFns;
use vstd::string::StringExecFns;

verus! {

/// The last `/`-separated component of a path: everything after the last
/// slash, the whole path when it holds no slash, and empty for a path
/// that ends in a slash.
pub open spec fn last_segment_of(s: Seq<char>) -> Seq<char>
    decreases s.len(),
{
    if s.len() == 0 {
        Seq::empty()
    } else if s[s.len() - 1] == '/' {
        Seq::empty()
    } else {
        last_segment_of(s.take(s.len() - 1)) + seq![s[s.len() - 1]]
    }
}

proof fn lemma_last_segment_whole(s: Seq<char>)
    requires
        forall|k: int| 0 <= k < s.len() ==> s[k] != '/',
    ensures
        last_segment_of(s) == s,
    decreases s.len(),
{
    if s.len() > 0 {
        lemma_last_segment_whole(s.take(s.len() - 1));
        assert(s.take(s.len() - 1) + seq![s[s.len() - 1]] =~= s);
    }
}

proof fn lemma_last_segment_suffix(s: Seq<char>, j: int)
    requires
        0 <= j < s.len(),
        s[j] == '/',
        forall|k: int| j < k < s.len() ==> s[k] != '/',
    ensures
        last_segment_of(s) == s.subrange(j + 1, s.len() as int),
    decreases s.len(),
{
    if j == s.len() - 1 {
        assert(s.subrange(j + 1, s.len() as int) =~= Seq::<char>::empty());
    } else {
        lemma_last_segment_suffix(s.take(s.len() - 1), j);
        assert(s.take(s.len() - 1).subrange(j + 1, s.len() - 1) + seq![s[s.len() - 1]] =~= s.subrange(
            j + 1,
            s.len() as int,
        ));
    }
}

/// The last path component of a `/`-separated path string.
pub fn get_last_path(dir: &str) -> (r: String)
    ensures
        r@ == last_segment_of(dir@),
{
    let n: usize = dir.unicode_len();
    let mut j: usize = n;
    while j > 0
        invariant
            j <= n,
            n == dir@.len(),
            forall|k: int| j <= k < n ==> dir@[k] != '/',
        decreases j,
    {
        if dir.get_char(j - 1) == '/' {
            let tail = dir.substring_char(j, n);
            proof {
                lemma_last_segment_suffix(dir@, j - 1);
            }
            return tail.to_owned();
        }
        j = j - 1;
    }
    proof {
        lemma_last_segment_whole(dir@);
    }
    dir.to_owned()
}

/// The name of the parent aggregator file for a working directory: the
/// directory's own last path component with the source extension.
pub fn parent_target_file(cwd: &str) -> (r: String)
    ensures
        r@ == last_segment_of(cwd@) + ".dart"@,
{
    let mut t = get_last_path(cwd);
    t.append(".dart");
    t
}

/// Whether a directory entry is the parent aggregator: its last path
/// component equals the target file name.
pub fn is_parent_target(entry_path: &str, target_file: &str) -> (r: bool)
    ensures
        r == (last_segment_of(entry_path@) == target_file@),
{
    let seg = get_last_path(entry_path);
    str_eq(seg.as_str(), target_file)
}

fn str_eq(a: &str, b: &str) -> (r: bool)
    ensures
        r == (a@ == b@),
{
    let an: usize = a.unicode_len();
    let bn: usize = b.unicode_len();
    if an != bn {
        return false;
    }
    let mut i: usize = 0;
    while i < an
        invariant
            i <= an,
            an == a@.len(),
            an == b@.len(),
            forall|k: int| 0 <= k < i ==> a@[k] == b@[k],
        decreases an - i,
    {
        if a.get_char(i) != b.get_char(i) {
            return false;
        }
        i = i + 1;
    }
    proof {
        assert(a@ =~= b@);
    }
    true
}

/// Whether `p` is a prefix of `s`.
pub open spec fn has_prefix(s: Seq<char>, p: Seq<char>) -> bool {
    p.len() <= s.len() && s.subrange(0, p.len() as int) == p
}

fn str_has_prefix(s: &str, p: &str) -> (r: bool)
    ensures
        r == has_prefix(s@, p@),
{
    let sn: usize = s.unicode_len();
    let pn: usize = p.unicode_len();
    if pn > sn {
        return false;
    }
    let mut i: usize = 0;
    while i < pn
        invariant
            i <= pn,
            pn <= sn,
            sn == s@.len(),
            pn == p@.len(),
            forall|k: int| 0 <= k < i ==> s@[k] == p@[k],
        decreases pn - i,
    {
        if s.get_char(i) != p.get_char(i) {
            proof {
                assert(s@.subrange(0, pn as int)[i as int] == s@[i as int]);
            }
            return false;
        }
        i = i + 1;
    }
    proof {
        assert(s@.subrange(0, pn as int) =~= p@);
    }
    true
}

/// The export line that references a feature from its parent aggregator.
pub open spec fn export_line_of(n: Seq<char>) -> Seq<char> {
    "export '"@ + n + "/"@ + n + ".dart';\n"@
}

/// Renders the export line that references a feature.
pub fn export_line(name: &str) -> (r: String)
    ensures
        r@ == export_line_of(name@),
{
    let mut r = String::from_str("export '");
    r.append(name);
    r.append("/");
    r.append(name);
    r.append(".dart';\n");
    proof {
        assert(r@ =~= export_line_of(name@));
    }
    r
}

/// The guarded prepend: when the aggregator's content does not already
/// start with the feature's export line, the new content is that line
/// followed by the old content; when it does, nothing is to be written.
pub fn prepend_export_if_missing(name: &str, content: &str) -> (r: Option<String>)
    ensures
        (r matches Option::None) <==> has_prefix(content@, export_line_of(name@)),
        (r matches Option::Some(c) ==> c@ == export_line_of(name@) + content@),
{
    let line = export_line(name);
    if str_has_prefix(content, line.as_str()) {
        None
    } else {
        let mut out = line;
        out.append(content);
        Some(out)
    }
}

/// Prepending the export line is idempotent: content that begins with the
/// line is exactly what a first update produces, so a second update finds
/// the line in place and writes nothing.
pub proof fn lemma_prepend_idempotent(n: Seq<char>, c: Seq<char>)
    ensures
        has_prefix(export_line_of(n) + c, export_line_of(n)),
{
    assert((export_line_of(n) + c).subrange(0, export_line_of(n).len() as int) =~= export_line_of(
        n,
    ));
}

} // verus!
