//! Textual paths: joining components and expanding `:name` templates.
use vstd::prelude::*;

verus! {

/// The directory prefix under which a child of `dir` is named: `dir` itself
/// when it is empty or already ends in a separator, otherwise `dir` + `/`.
pub open spec fn dir_prefix(dir: Seq<char>) -> Seq<char> {
    if dir.len() == 0 || dir.last() == '/' {
        dir
    } else {
        dir.push('/')
    }
}

/// A relative component `child` placed under `dir`.
pub open spec fn join(dir: Seq<char>, child: Seq<char>) -> Seq<char> {
    dir_prefix(dir) + child
}

/// Does `pat` occur in `s` at position `i`?
pub open spec fn occurs_at(s: Seq<char>, pat: Seq<char>, i: int) -> bool {
    0 <= i && i + pat.len() <= s.len() && s.subrange(i, i + pat.len()) == pat
}

/// `s` from position `i` on, with every occurrence of `pat` replaced by `rep`,
/// scanning left to right without overlaps.
pub open spec fn replace_from(s: Seq<char>, pat: Seq<char>, rep: Seq<char>, i: int) -> Seq<char>
    recommends
        pat.len() > 0,
    decreases s.len() - i,
{
    if i < 0 || i >= s.len() || pat.len() == 0 {
        s.subrange(if i < 0 { 0 } else if i > s.len() { s.len() as int } else { i }, s.len() as int)
    } else if occurs_at(s, pat, i) {
        rep + replace_from(s, pat, rep, i + pat.len())
    } else {
        seq![s[i]] + replace_from(s, pat, rep, i + 1)
    }
}

/// `s` with every occurrence of `pat` replaced by `rep`.
pub open spec fn replace_all(s: Seq<char>, pat: Seq<char>, rep: Seq<char>) -> Seq<char> {
    replace_from(s, pat, rep, 0)
}

/// The placeholder that stands for the parameter `name` in a template.
pub open spec fn placeholder(name: Seq<char>) -> Seq<char> {
    seq![':'] + name
}

/// A template with the parameters substituted one after another, in order.
pub open spec fn resolve(template: Seq<char>, params: Seq<(Seq<char>, Seq<char>)>) -> Seq<char>
    decreases params.len(),
{
    if params.len() == 0 {
        template
    } else {
        let (name, value) = params.last();
        replace_all(resolve(template, params.drop_last()), placeholder(name), value)
    }
}

/// The views of a list of parameter pairs.
pub open spec fn params_view(params: Seq<(String, String)>) -> Seq<(Seq<char>, Seq<char>)> {
    params.map_values(|p: (String, String)| (p.0@, p.1@))
}

/// `s` with the single character at position `i` appended to `out`.
fn push_char_at(out: &mut String, s: &str, i: usize)
    requires
        i < s@.len(),
    ensures
        final(out)@ == old(out)@.push(s@[i as int]),
{
    let _n = s.unicode_len();
    let c = s.substring_char(i, i + 1);
    out.append(c);
    assert(c@ =~= seq![s@[i as int]]);
}

/// Whether `pat` occurs in `s` at position `i`.
pub fn occurs_at_exec(s: &str, pat: &str, i: usize) -> (r: bool)
    requires
        i <= s@.len(),
    ensures
        r == occurs_at(s@, pat@, i as int),
{
    let n = s.unicode_len();
    let m = pat.unicode_len();
    if m > n - i {
        return false;
    }
    let mut k: usize = 0;
    while k < m
        invariant
            n == s@.len(),
            m == pat@.len(),
            i + m <= n,
            k <= m,
            forall|j: int| 0 <= j < k ==> s@[i + j] == pat@[j],
        decreases m - k,
    {
        if s.get_char(i + k) != pat.get_char(k) {
            assert(s@.subrange(i as int, i + m)[k as int] != pat@[k as int]);
            return false;
        }
        k = k + 1;
    }
    assert(s@.subrange(i as int, i + m) =~= pat@);
    true
}

proof fn lemma_replace_from_end(s: Seq<char>, pat: Seq<char>, rep: Seq<char>)
    ensures
        replace_from(s, pat, rep, s.len() as int) == Seq::<char>::empty(),
{
    assert(s.subrange(s.len() as int, s.len() as int) =~= Seq::<char>::empty());
}

/// `s` with every occurrence of `pat` replaced by `rep`, left to right.
pub fn replace_all_exec(s: &str, pat: &str, rep: &str) -> (r: String)
    requires
        pat@.len() > 0,
    ensures
        r@ == replace_all(s@, pat@, rep@),
{
    let n = s.unicode_len();
    let m = pat.unicode_len();
    let mut out = String::new();
    let mut i: usize = 0;
    while i < n
        invariant
            n == s@.len(),
            m == pat@.len(),
            m > 0,
            i <= n,
            out@ + replace_from(s@, pat@, rep@, i as int) == replace_all(s@, pat@, rep@),
        decreases n - i,
    {
        let hit = occurs_at_exec(s, pat, i);
        if hit {
            let ghost before = out@;
            out.append(rep);
            assert(before + replace_from(s@, pat@, rep@, i as int)
                =~= out@ + replace_from(s@, pat@, rep@, i + m));
            i = i + m;
        } else {
            let ghost before = out@;
            push_char_at(&mut out, s, i);
            assert(before + replace_from(s@, pat@, rep@, i as int)
                =~= out@ + replace_from(s@, pat@, rep@, i + 1));
            i = i + 1;
        }
    }
    proof {
        lemma_replace_from_end(s@, pat@, rep@);
    }
    assert(out@ + Seq::<char>::empty() =~= out@);
    out
}

/// A relative component `child` placed under `dir`.
pub fn join_exec(dir: &str, child: &str) -> (r: String)
    ensures
        r@ == join(dir@, child@),
{
    let n = dir.unicode_len();
    let mut out = String::from_str(dir);
    if n > 0 && dir.get_char(n - 1) != '/' {
        out.append("/");
        proof { reveal_strlit("/"); }
    }
    out.append(child);
    out
}

/// The placeholder `:name` as a string.
fn placeholder_exec(name: &str) -> (r: String)
    ensures
        r@ == placeholder(name@),
{
    let mut r = String::from_str(":");
    proof { reveal_strlit(":"); }
    r.append(name);
    r
}

/// A template with each `(name, value)` parameter substituted in turn: every
/// `:name` becomes `value`. Placeholders without a parameter stay as they are,
/// and parameters without a placeholder change nothing.
pub fn resolve_exec(template: &str, params: &Vec<(String, String)>) -> (r: String)
    ensures
        r@ == resolve(template@, params_view(params@)),
{
    let mut out = String::from_str(template);
    let mut k: usize = 0;
    while k < params.len()
        invariant
            k <= params@.len(),
            out@ == resolve(template@, params_view(params@.subrange(0, k as int))),
        decreases params@.len() - k,
    {
        let pat = placeholder_exec(params[k].0.as_str());
        let next = replace_all_exec(out.as_str(), pat.as_str(), params[k].1.as_str());
        proof {
            let done = params_view(params@.subrange(0, k as int));
            let more = params_view(params@.subrange(0, k + 1));
            assert(more.drop_last() =~= done);
            assert(more.last() == (params@[k as int].0@, params@[k as int].1@));
        }
        out = next;
        k = k + 1;
    }
    assert(params@.subrange(0, params@.len() as int) =~= params@);
    out
}

proof fn lemma_replace_from_absent(s: Seq<char>, pat: Seq<char>, rep: Seq<char>, i: int)
    requires
        pat.len() > 0,
        0 <= i <= s.len(),
        forall|j: int| 0 <= j < s.len() ==> !occurs_at(s, pat, j),
    ensures
        replace_from(s, pat, rep, i) == s.subrange(i, s.len() as int),
    decreases s.len() - i,
{
    if i < s.len() {
        assert(!occurs_at(s, pat, i));
        lemma_replace_from_absent(s, pat, rep, i + 1);
        assert(seq![s[i]] + s.subrange(i + 1, s.len() as int) =~= s.subrange(i, s.len() as int));
    }
}

/// A parameter whose placeholder does not occur in the template is ignored:
/// substituting it leaves the text unchanged.
pub proof fn lemma_absent_placeholder_ignored(s: Seq<char>, name: Seq<char>, value: Seq<char>)
    requires
        forall|j: int| 0 <= j < s.len() ==> !occurs_at(s, placeholder(name), j),
    ensures
        replace_all(s, placeholder(name), value) == s,
{
    lemma_replace_from_absent(s, placeholder(name), value, 0);
    assert(s.subrange(0, s.len() as int) =~= s);
}

} // verus!
