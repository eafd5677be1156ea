use vstd::prelude::*;
use vstd::string::*;

verus! {

/// The text in a worker script template that stands for the URL of the
/// `wasm_bindgen` generated shim script.
pub open spec fn shim_url_placeholder() -> Seq<char> {
    "WASM_BINDGEN_SHIM_URL"@
}

/// `s` with every non-overlapping occurrence of `pat`, taken from left to right,
/// replaced by `rep` (what `str::replace` computes for a non-empty pattern).
pub open spec fn replace_all(s: Seq<char>, pat: Seq<char>, rep: Seq<char>) -> Seq<char>
    decreases s.len(),
{
    if pat.len() == 0 || s.len() < pat.len() {
        s
    } else if s.subrange(0, pat.len() as int) == pat {
        rep + replace_all(s.skip(pat.len() as int), pat, rep)
    } else {
        seq![s[0]] + replace_all(s.skip(1), pat, rep)
    }
}

/// The worker script made from `template` for the shim script at `shim_url`.
pub open spec fn worker_script(template: Seq<char>, shim_url: Seq<char>) -> Seq<char> {
    replace_all(template, shim_url_placeholder(), shim_url)
}

/// Whether `pat` occurs anywhere in `s`.
pub open spec fn occurs_in(s: Seq<char>, pat: Seq<char>) -> bool {
    exists|i: int| 0 <= i && i + pat.len() <= s.len() && #[trigger] s.subrange(i, i + pat.len()) == pat
}

proof fn lemma_replace_without_occurrence(s: Seq<char>, pat: Seq<char>, rep: Seq<char>)
    requires
        !occurs_in(s, pat),
    ensures
        replace_all(s, pat, rep) == s,
    decreases s.len(),
{
    if pat.len() == 0 || s.len() < pat.len() {
    } else {
        assert(s.subrange(0, pat.len() as int) != pat) by {
            if s.subrange(0, pat.len() as int) == pat {
                assert(s.subrange(0int, 0int + pat.len()) == pat);
            }
        }
        let rest = s.skip(1);
        assert(!occurs_in(rest, pat)) by {
            if occurs_in(rest, pat) {
                let i = choose|i: int| 0 <= i && i + pat.len() <= rest.len() && #[trigger] rest.subrange(i, i + pat.len()) == pat;
                assert(s.subrange(i + 1, i + 1 + pat.len()) =~= rest.subrange(i, i + pat.len()));
            }
        }
        lemma_replace_without_occurrence(rest, pat, rep);
        assert(seq![s[0]] + rest =~= s);
    }
}

/// A template in which the placeholder does not occur is the script unchanged.
pub proof fn lemma_template_without_placeholder(template: Seq<char>, shim_url: Seq<char>)
    requires
        !occurs_in(template, shim_url_placeholder()),
    ensures
        worker_script(template, shim_url) == template,
{
    lemma_replace_without_occurrence(template, shim_url_placeholder(), shim_url);
}

/// A placeholder at the start of a template becomes the shim URL, and the rest
/// of the template is filled in the same way.
pub proof fn lemma_leading_placeholder(rest: Seq<char>, shim_url: Seq<char>)
    ensures
        worker_script(shim_url_placeholder() + rest, shim_url) == shim_url + worker_script(rest, shim_url),
{
    reveal_strlit("WASM_BINDGEN_SHIM_URL");
    let p = shim_url_placeholder();
    let s = p + rest;
    assert(s.subrange(0, p.len() as int) =~= p);
    assert(s.skip(p.len() as int) =~= rest);
}

/// Text that does not start with a placeholder keeps its first character, and
/// the rest of it is filled in the same way.
pub proof fn lemma_text_before_placeholder_is_kept(c: char, rest: Seq<char>, shim_url: Seq<char>)
    requires
        !((seq![c] + rest).len() >= shim_url_placeholder().len() && (seq![c] + rest).subrange(
            0,
            shim_url_placeholder().len() as int,
        ) == shim_url_placeholder()),
    ensures
        worker_script(seq![c] + rest, shim_url) == seq![c] + worker_script(rest, shim_url),
{
    reveal_strlit("WASM_BINDGEN_SHIM_URL");
    let p = shim_url_placeholder();
    let s = seq![c] + rest;
    assert(s.skip(1) =~= rest);
    assert(s[0] == c);
    if s.len() < p.len() {
        assert(rest.len() < p.len());
        assert(seq![c] + rest =~= s);
    }
}

/// The characters of `s`, in order.
fn chars_of(s: &str) -> (v: Vec<char>)
    ensures
        v@ == s@,
{
    broadcast use vstd::string::group_string_axioms;
    let mut v: Vec<char> = Vec::new();
    for c in it: s.chars()
        invariant
            it.seq() == s@,
            v@ == it.seq().take(it.index() as int),
    {
        v.push(c);
        assert(v@ =~= it.seq().take(it.index() + 1));
    }
    assert(v@ =~= s@);
    v
}

/// Whether `pat` occurs in `text` starting at index `at`.
fn occurs_at(text: &Vec<char>, pat: &Vec<char>, at: usize) -> (b: bool)
    requires
        at <= text@.len(),
        pat@.len() <= text@.len() - at,
    ensures
        b == (text@.subrange(at as int, at + pat@.len()) == pat@),
{
    let m: usize = pat.len();
    let mut j: usize = 0;
    while j < m
        invariant
            m == pat@.len(),
            at + m <= text.len(),
            j <= m,
            forall|k: int| 0 <= k < j ==> text@[at + k] == pat@[k],
        decreases m - j,
    {
        if text[at + j] != pat[j] {
            assert(text@.subrange(at as int, at + m)[j as int] != pat@[j as int]);
            return false;
        }
        j = j + 1;
    }
    assert(text@.subrange(at as int, at + m) =~= pat@);
    true
}

/// `template` with every occurrence of `pat` replaced by `rep`.
fn replace_all_str(template: &str, pat: &str, rep: &str) -> (out: String)
    requires
        pat@.len() > 0,
    ensures
        out@ == replace_all(template@, pat@, rep@),
{
    let t = chars_of(template);
    let p = chars_of(pat);
    let n: usize = t.len();
    let m: usize = p.len();
    let ghost ts = template@;
    let ghost ps = pat@;
    let ghost rs = rep@;
    let mut out = String::new();
    let mut last: usize = 0;
    let mut i: usize = 0;
    assert(ts.skip(0) =~= ts);
    assert(ts.subrange(0, 0) =~= Seq::<char>::empty());
    assert(out@ + ts.subrange(0, 0) + replace_all(ts.skip(0), ps, rs) =~= replace_all(ts, ps, rs));
    while m <= n - i
        invariant
            t@ == ts,
            p@ == ps,
            ts == template@,
            ps == pat@,
            rs == rep@,
            n == ts.len(),
            m == ps.len(),
            m > 0,
            last <= i <= n,
            replace_all(ts, ps, rs) == out@ + ts.subrange(last as int, i as int) + replace_all(
                ts.skip(i as int),
                ps,
                rs,
            ),
        decreases n - i,
    {
        let ghost rest = ts.skip(i as int);
        assert(rest.subrange(0, m as int) =~= ts.subrange(i as int, i + m));
        if occurs_at(&t, &p, i) {
            assert(rest.skip(m as int) =~= ts.skip(i + m));
            assert(replace_all(rest, ps, rs) == rs + replace_all(ts.skip(i + m), ps, rs));
            let piece = template.substring_char(last, i);
            let ghost before = out@;
            out.append(piece);
            out.append(rep);
            i = i + m;
            last = i;
            assert(ts.subrange(last as int, i as int) =~= Seq::<char>::empty());
            assert(out@ + ts.subrange(last as int, i as int) + replace_all(ts.skip(i as int), ps, rs)
                =~= before + piece@ + (rs + replace_all(ts.skip(i as int), ps, rs)));
        } else {
            assert(rest.skip(1) =~= ts.skip(i + 1));
            assert(replace_all(rest, ps, rs) == seq![ts[i as int]] + replace_all(ts.skip(i + 1), ps, rs));
            assert(ts.subrange(last as int, i as int) + seq![ts[i as int]] =~= ts.subrange(last as int, i + 1));
            i = i + 1;
        }
    }
    assert(replace_all(ts.skip(i as int), ps, rs) == ts.skip(i as int));
    let tail = template.substring_char(last, n);
    out.append(tail);
    assert(ts.subrange(last as int, i as int) + ts.skip(i as int) =~= ts.subrange(last as int, n as int));
    out
}

/// The worker script for the shim script at `shim_url`: `template` with every
/// placeholder replaced by `shim_url`.
pub fn worker_script_source(template: &str, shim_url: &str) -> (script: String)
    ensures
        script@ == worker_script(template@, shim_url@),
{
    let placeholder = "WASM_BINDGEN_SHIM_URL";
    proof {
        reveal_strlit("WASM_BINDGEN_SHIM_URL");
    }
    replace_all_str(template, placeholder, shim_url)
}

/// The URL of the worker script, once it has been made: every thread after the
/// first reuses it.
pub struct WorkerScriptCache {
    url: Option<String>,
}

impl View for WorkerScriptCache {
    type V = Option<Seq<char>>;

    closed spec fn view(&self) -> Option<Seq<char>> {
        self.url.deep_view()
    }
}

/// How the URL of the worker script is to be had.
pub enum ScriptPlan {
    /// The script was made before: use its URL.
    Cached(String),
    /// Publish this script, made for the shim URL the caller gave.
    Publish(String),
    /// Find out the URL of the shim script, then make the script for it.
    DetectShimUrl,
}

/// A [`ScriptPlan`] as plain values.
pub enum ScriptPlanView {
    Cached(Seq<char>),
    Publish(Seq<char>),
    DetectShimUrl,
}

impl View for ScriptPlan {
    type V = ScriptPlanView;

    open spec fn view(&self) -> ScriptPlanView {
        match self {
            ScriptPlan::Cached(u) => ScriptPlanView::Cached(u@),
            ScriptPlan::Publish(u) => ScriptPlanView::Publish(u@),
            ScriptPlan::DetectShimUrl => ScriptPlanView::DetectShimUrl,
        }
    }
}

/// The plan for a cache holding `cached`, the script template `template`, and a
/// caller that gives `shim_url`: a cached URL wins over everything; else the
/// script for a given shim URL is published; else the shim URL must be found out.
pub open spec fn plan_for(
    cached: Option<Seq<char>>,
    template: Seq<char>,
    shim_url: Option<Seq<char>>,
) -> ScriptPlanView {
    match cached {
        Some(u) => ScriptPlanView::Cached(u),
        None => match shim_url {
            Some(s) => ScriptPlanView::Publish(worker_script(template, s)),
            None => ScriptPlanView::DetectShimUrl,
        },
    }
}

impl WorkerScriptCache {
    /// A cache holding no URL.
    pub fn new() -> (c: Self)
        ensures
            c@ is None,
    {
        WorkerScriptCache { url: None }
    }

    /// How to get the URL of the worker script made from `template`, given the
    /// shim URL the caller set, if any.
    pub fn plan(&self, template: &str, shim_url: Option<String>) -> (p: ScriptPlan)
        ensures
            p@ == plan_for(self@, template@, shim_url.deep_view()),
    {
        match &self.url {
            Some(u) => ScriptPlan::Cached(u.clone()),
            None => match shim_url {
                Some(s) => ScriptPlan::Publish(worker_script_source(template, s.as_str())),
                None => ScriptPlan::DetectShimUrl,
            },
        }
    }

    /// Keeps `url` as the URL of the worker script.
    pub fn remember(&mut self, url: String)
        ensures
            final(self)@ == Some(url@),
    {
        self.url = Some(url);
    }
}

/// Once a URL is kept, every later plan uses it, whatever shim URL is given.
pub proof fn lemma_cached_url_is_reused(url: Seq<char>, template: Seq<char>, shim_url: Option<Seq<char>>)
    ensures
        plan_for(Some(url), template, shim_url) == ScriptPlanView::Cached(url),
{
}

/// The worker script that gets published, for a cache holding `cached`, a
/// caller who gives `shim_url`, and a shim URL that would be found out to be
/// `detected`; `None` when a cached URL is used instead. When the shim URL is
/// found out, the script is made for it by [`worker_script_source`].
pub open spec fn script_to_publish(
    cached: Option<Seq<char>>,
    template: Seq<char>,
    shim_url: Option<Seq<char>>,
    detected: Seq<char>,
) -> Option<Seq<char>> {
    match plan_for(cached, template, shim_url) {
        ScriptPlanView::Cached(_) => None,
        ScriptPlanView::Publish(script) => Some(script),
        ScriptPlanView::DetectShimUrl => Some(worker_script(template, detected)),
    }
}

/// A shim URL found out to be `p` gives the same worker script as `p` given by
/// the caller.
pub proof fn lemma_detected_shim_url_gives_same_script(
    template: Seq<char>,
    p: Seq<char>,
    other: Seq<char>,
)
    ensures
        script_to_publish(None, template, None, p) == script_to_publish(None, template, Some(p), other),
        script_to_publish(None, template, Some(p), other) == Some(worker_script(template, p)),
{
}

} // verus!
