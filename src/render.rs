//! The placeholder language: `{{key}}` is replaced by the value bound to
//! `key`; every other character, unknown keys included, is kept as it is.
use vstd::prelude::*;

verus! {

/// The value bound to `k` by the last pair in `es` whose key is `k`.
pub open spec fn lookup(es: Seq<(Seq<char>, Seq<char>)>, k: Seq<char>) -> Option<Seq<char>>
    decreases es.len(),
{
    if es.len() == 0 {
        None
    } else if es.last().0 == k {
        Some(es.last().1)
    } else {
        lookup(es.drop_last(), k)
    }
}

/// The map that a sequence of bindings defines; later bindings win.
pub open spec fn bindings_map(es: Seq<(Seq<char>, Seq<char>)>) -> Map<Seq<char>, Seq<char>> {
    Map::new(|k: Seq<char>| lookup(es, k) is Some, |k: Seq<char>| lookup(es, k)->0)
}

/// The position of the first `}}` in `s` at or after `j`.
pub open spec fn first_close(s: Seq<char>, j: int) -> Option<int>
    decreases s.len() - j,
{
    if j < 0 || j + 1 >= s.len() {
        None
    } else if s[j] == '}' && s[j + 1] == '}' {
        Some(j)
    } else {
        first_close(s, j + 1)
    }
}

/// The key of the placeholder that opens at position `i` of `s`: the text
/// between `{{` at `i` and the first `}}` after it.
pub open spec fn key_at(s: Seq<char>, i: int) -> Option<Seq<char>> {
    if 0 <= i && i + 1 < s.len() && s[i] == '{' && s[i + 1] == '{' {
        match first_close(s, i + 2) {
            Some(j) => Some(s.subrange(i + 2, j)),
            None => None,
        }
    } else {
        None
    }
}

/// `s` from position `i` on, with every placeholder of a bound key replaced.
pub open spec fn render_from(s: Seq<char>, i: int, ctx: Map<Seq<char>, Seq<char>>) -> Seq<char>
    decreases s.len() - i,
{
    if i < 0 || i >= s.len() {
        Seq::empty()
    } else {
        match key_at(s, i) {
            Some(k) if ctx.contains_key(k) && i + k.len() + 4 <= s.len() => ctx[k] + render_from(s, i + k.len() + 4, ctx),
            _ => seq![s[i]] + render_from(s, i + 1, ctx),
        }
    }
}

/// `s` with every placeholder of a key bound in `ctx` replaced by its value.
pub open spec fn render(s: Seq<char>, ctx: Map<Seq<char>, Seq<char>>) -> Seq<char> {
    render_from(s, 0, ctx)
}

/// A set of string bindings for rendering.
pub struct RenderContext {
    entries: Vec<(String, String)>,
}

impl RenderContext {
    pub closed spec fn pairs(&self) -> Seq<(Seq<char>, Seq<char>)> {
        self.entries@.map_values(|p: (String, String)| (p.0@, p.1@))
    }

    pub closed spec fn view(&self) -> Map<Seq<char>, Seq<char>> {
        bindings_map(self.pairs())
    }

    /// An empty context.
    pub fn new() -> (r: RenderContext)
        ensures
            r.view() == Map::<Seq<char>, Seq<char>>::empty(),
    {
        let r = RenderContext { entries: Vec::new() };
        assert(r.view() =~= Map::<Seq<char>, Seq<char>>::empty());
        r
    }

    /// Binds `key` to `value`, replacing an earlier binding of `key`.
    pub fn insert(&mut self, key: &str, value: &str)
        ensures
            final(self).view() == old(self).view().insert(key@, value@),
    {
        let ghost before = self.pairs();
        self.entries.push((key.to_owned(), value.to_owned()));
        assert(self.pairs() =~= before.push((key@, value@)));
        assert forall|k: Seq<char>| lookup(self.pairs(), k) == (if k == key@ {
            Some(value@)
        } else {
            lookup(before, k)
        }) by {
            assert(self.pairs().drop_last() =~= before);
        }
        assert(self.view() =~= old(self).view().insert(key@, value@));
    }

    /// The value bound to `key`.
    pub fn get(&self, key: &str) -> (r: Option<&String>)
        ensures
            r is Some == self.view().contains_key(key@),
            r is Some ==> r->0@ == self.view()[key@],
    {
        let ghost ps = self.pairs();
        let wanted = key.to_owned();
        let mut i: usize = self.entries.len();
        assert(ps.subrange(0, i as int) =~= ps);
        while i > 0
            invariant
                i <= self.entries.len(),
                ps == self.pairs(),
                wanted@ == key@,
                lookup(ps, key@) == lookup(ps.subrange(0, i as int), key@),
            decreases i,
        {
            let e = &self.entries[i - 1];
            let ghost pre = ps.subrange(0, i as int);
            assert(pre.drop_last() =~= ps.subrange(0, i - 1));
            if e.0 == wanted {
                return Some(&e.1);
            }
            i = i - 1;
        }
        None
    }
}

proof fn lemma_first_close_bounds(s: Seq<char>, j: int)
    ensures
        first_close(s, j) matches Some(k) ==> j <= k && k + 1 < s.len(),
    decreases s.len() - j,
{
    if !(j < 0 || j + 1 >= s.len()) && !(s[j] == '}' && s[j + 1] == '}') {
        lemma_first_close_bounds(s, j + 1);
    }
}

/// The position of the first `}}` in `s` at or after `from`, where `n` is
/// the length of `s` in characters.
fn find_close(s: &str, n: usize, from: usize) -> (r: Option<usize>)
    requires
        n == s@.len(),
        from <= n,
    ensures
        r matches Some(j) ==> first_close(s@, from as int) == Some(j as int),
        r is None ==> first_close(s@, from as int) is None,
{
    let mut j: usize = from;
    while j < n && j + 1 < n
        invariant
            n == s@.len(),
            from <= j <= n,
            first_close(s@, from as int) == first_close(s@, j as int),
        decreases n - j,
    {
        if s.get_char(j) == '}' && s.get_char(j + 1) == '}' {
            return Some(j);
        }
        j = j + 1;
    }
    None
}

/// Replaces, from left to right, each placeholder `{{key}}` of `source` whose
/// key is bound in `ctx` by the bound value. A placeholder runs from `{{` to
/// the first `}}` after it; text of any other shape stays as it is.
pub fn render_text(source: &str, ctx: &RenderContext) -> (r: String)
    ensures
        r@ == render(source@, ctx.view()),
{
    let ghost s = source@;
    let n = source.unicode_len();
    let mut out = String::new();
    let mut i: usize = 0;
    while i < n
        invariant
            n == s.len(),
            s == source@,
            i <= n,
            out@ + render_from(s, i as int, ctx.view()) == render(s, ctx.view()),
        decreases n - i,
    {
        let mut replaced = false;
        if i + 1 < n && source.get_char(i) == '{' && source.get_char(i + 1) == '{' {
            if let Some(j) = find_close(source, n, i + 2) {
                proof {
                    lemma_first_close_bounds(s, i + 2);
                }
                let key = source.substring_char(i + 2, j);
                if let Some(v) = ctx.get(key) {
                    assert(key_at(s, i as int) == Some(key@));
                    out.append(v.as_str());
                    i = j + 2;
                    replaced = true;
                }
            }
        }
        if !replaced {
            let c = source.substring_char(i, i + 1);
            assert(c@ =~= seq![s[i as int]]);
            out.append(c);
            i = i + 1;
        }
    }
    out
}

/// No position of `s` opens a placeholder.
pub open spec fn has_no_placeholder(s: Seq<char>) -> bool {
    forall|i: int| 0 <= i < s.len() ==> #[trigger] key_at(s, i) is None
}

proof fn lemma_render_from_plain(s: Seq<char>, i: int, ctx: Map<Seq<char>, Seq<char>>)
    requires
        has_no_placeholder(s),
        0 <= i <= s.len(),
    ensures
        render_from(s, i, ctx) == s.subrange(i, s.len() as int),
    decreases s.len() - i,
{
    if i < s.len() {
        assert(key_at(s, i) is None);
        lemma_render_from_plain(s, i + 1, ctx);
        assert(s.subrange(i, s.len() as int) =~= seq![s[i]] + s.subrange(i + 1, s.len() as int));
    } else {
        assert(s.subrange(i, s.len() as int) =~= Seq::<char>::empty());
    }
}

/// Rendering a text that holds no placeholder gives the text back, whatever
/// the context.
pub proof fn lemma_render_plain_text(s: Seq<char>, ctx: Map<Seq<char>, Seq<char>>)
    requires
        has_no_placeholder(s),
    ensures
        render(s, ctx) == s,
{
    lemma_render_from_plain(s, 0, ctx);
    assert(s.subrange(0, s.len() as int) =~= s);
}

proof fn lemma_first_close_shift(p: Seq<char>, t: Seq<char>, j: int)
    requires
        0 <= j,
    ensures
        first_close(t, j) matches Some(x) ==> first_close(p + t, p.len() + j) == Some(x + p.len()),
        first_close(t, j) is None ==> first_close(p + t, p.len() + j) is None,
    decreases t.len() - j,
{
    let s = p + t;
    if j + 1 < t.len() {
        assert(s[p.len() + j] == t[j] && s[p.len() + j + 1] == t[j + 1]);
        if !(t[j] == '}' && t[j + 1] == '}') {
            lemma_first_close_shift(p, t, j + 1);
        }
    }
}

proof fn lemma_key_at_shift(p: Seq<char>, t: Seq<char>, i: int)
    requires
        0 <= i,
    ensures
        key_at(p + t, p.len() + i) == key_at(t, i),
{
    let s = p + t;
    lemma_first_close_shift(p, t, i + 2);
    lemma_first_close_bounds(t, i + 2);
    if i + 1 < t.len() {
        assert(s[p.len() + i] == t[i] && s[p.len() + i + 1] == t[i + 1]);
        if let Some(j) = first_close(t, i + 2) {
            assert(s.subrange(p.len() + i + 2, p.len() + j) =~= t.subrange(i + 2, j));
        }
    }
}

proof fn lemma_render_from_shift(p: Seq<char>, t: Seq<char>, i: int, ctx: Map<Seq<char>, Seq<char>>)
    requires
        0 <= i,
    ensures
        render_from(p + t, p.len() + i, ctx) == render_from(t, i, ctx),
    decreases t.len() - i,
{
    let s = p + t;
    if i < t.len() {
        lemma_key_at_shift(p, t, i);
        assert(s[p.len() + i] == t[i]);
        match key_at(t, i) {
            Some(k) => {
                if ctx.contains_key(k) && i + k.len() + 4 <= t.len() {
                    assert(p.len() + i + k.len() + 4 == p.len() + (i + k.len() + 4));
                    lemma_render_from_shift(p, t, i + k.len() + 4, ctx);
                } else {
                    lemma_render_from_shift(p, t, i + 1, ctx);
                }
            },
            None => {
                lemma_render_from_shift(p, t, i + 1, ctx);
            },
        }
    }
}

proof fn lemma_render_from_plain_prefix(
    p: Seq<char>,
    t: Seq<char>,
    i: int,
    ctx: Map<Seq<char>, Seq<char>>,
)
    requires
        forall|j: int| 0 <= j < p.len() ==> p[j] != '{',
        0 <= i <= p.len(),
    ensures
        render_from(p + t, i, ctx) == p.subrange(i, p.len() as int) + render(t, ctx),
    decreases p.len() - i,
{
    let s = p + t;
    if i < p.len() {
        assert(s[i] == p[i]);
        assert(key_at(s, i) is None);
        lemma_render_from_plain_prefix(p, t, i + 1, ctx);
        assert(p.subrange(i, p.len() as int) =~= seq![p[i]] + p.subrange(i + 1, p.len() as int));
    } else {
        lemma_render_from_shift(p, t, 0, ctx);
        assert(p.subrange(i, p.len() as int) =~= Seq::<char>::empty());
    }
}

/// Text without `{` in front of the rest is kept as it is, and the rest is
/// rendered on its own.
pub proof fn lemma_render_plain_prefix(p: Seq<char>, t: Seq<char>, ctx: Map<Seq<char>, Seq<char>>)
    requires
        forall|j: int| 0 <= j < p.len() ==> p[j] != '{',
    ensures
        render(p + t, ctx) == p + render(t, ctx),
{
    lemma_render_from_plain_prefix(p, t, 0, ctx);
    assert(p.subrange(0, p.len() as int) =~= p);
}

/// The placeholder text `{{k}}`.
pub open spec fn placeholder(k: Seq<char>) -> Seq<char> {
    seq!['{', '{'] + k + seq!['}', '}']
}

/// A placeholder of a bound key, whose key holds no `}`, at the front of a
/// text is replaced by the key's value, and the rest is rendered on its own.
pub proof fn lemma_render_bound_placeholder(
    k: Seq<char>,
    rest: Seq<char>,
    ctx: Map<Seq<char>, Seq<char>>,
)
    requires
        ctx.contains_key(k),
        forall|j: int| 0 <= j < k.len() ==> k[j] != '}',
    ensures
        render(placeholder(k) + rest, ctx) == ctx[k] + render(rest, ctx),
{
    let ph = placeholder(k);
    let s = ph + rest;
    let end: int = 2 + k.len() as int;
    assert(s[end] == '}' && s[end + 1] == '}');
    assert forall|j: int| 2 <= j <= end implies first_close(s, j) == Some(end) by {
        lemma_first_close_from(s, j, end);
    }
    assert(s.subrange(2, end) =~= k);
    assert(key_at(s, 0) == Some(k));
    lemma_render_from_shift(ph, rest, 0, ctx);
}

proof fn lemma_first_close_from(s: Seq<char>, j: int, end: int)
    requires
        0 <= j <= end,
        end + 1 < s.len(),
        s[end] == '}' && s[end + 1] == '}',
        forall|x: int| j <= x < end ==> s[x] != '}',
    ensures
        first_close(s, j) == Some(end),
    decreases end - j,
{
    if j < end {
        lemma_first_close_from(s, j + 1, end);
    }
}

} // verus!
