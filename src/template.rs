use vstd::prelude::*;
use crate::text::{chars_of, has_prefix, occurs_at};

verus! {

/// The text of each token and value.
pub open spec fn pair_views(subs: Seq<(String, String)>) -> Seq<(Seq<char>, Seq<char>)> {
    subs.map_values(|p: (String, String)| (p.0@, p.1@))
}

/// The index of the first substitution at or after `k` whose token is not empty and
/// begins `t`.
pub open spec fn first_match_from(t: Seq<char>, subs: Seq<(Seq<char>, Seq<char>)>, k: int) -> Option<int>
    decreases subs.len() - k,
{
    if k < 0 || k >= subs.len() {
        None
    } else if subs[k].0.len() > 0 && has_prefix(t, subs[k].0) {
        Some(k)
    } else {
        first_match_from(t, subs, k + 1)
    }
}

/// The index of the first substitution whose token begins `t`.
pub open spec fn first_match(t: Seq<char>, subs: Seq<(Seq<char>, Seq<char>)>) -> Option<int> {
    first_match_from(t, subs, 0)
}

/// `t` read once from left to right: where a token of `subs` begins (the first one
/// listed, where several do), its value is written in its place and reading goes on
/// after the token; any other character is kept. Values are not read again.
pub open spec fn filled(t: Seq<char>, subs: Seq<(Seq<char>, Seq<char>)>) -> Seq<char>
    decreases t.len(),
{
    if t.len() == 0 {
        Seq::empty()
    } else {
        match first_match(t, subs) {
            Some(k) => {
                let n = subs[k].0.len();
                if 0 < n <= t.len() {
                    subs[k].1 + filled(t.skip(n as int), subs)
                } else {
                    seq![t[0]] + filled(t.skip(1), subs)
                }
            },
            None => seq![t[0]] + filled(t.skip(1), subs),
        }
    }
}

proof fn lemma_first_match_in_range(t: Seq<char>, subs: Seq<(Seq<char>, Seq<char>)>, k: int)
    requires
        0 <= k,
    ensures
        first_match_from(t, subs, k) matches Some(j) ==> k <= j < subs.len()
            && subs[j].0.len() > 0 && has_prefix(t, subs[j].0),
    decreases subs.len() - k,
{
    if k < subs.len() {
        lemma_first_match_in_range(t, subs, k + 1);
    }
}

/// The index of the first substitution whose token occurs in `t` at `at`.
fn match_at(t: &Vec<char>, at: usize, tokens: &Vec<Vec<char>>, subs: &Vec<(String, String)>) -> (r: Option<usize>)
    requires
        at <= t.len(),
        tokens.len() == subs.len(),
        forall|k: int| 0 <= k < subs.len() ==> (#[trigger] tokens@[k])@ == pair_views(subs@)[k].0,
    ensures
        r matches Some(k) ==> first_match(t@.skip(at as int), pair_views(subs@)) == Some(k as int),
        r is None ==> first_match(t@.skip(at as int), pair_views(subs@)) is None,
{
    let ghost s = t@.skip(at as int);
    let mut k: usize = 0;
    while k < tokens.len()
        invariant
            k <= tokens.len(),
            at <= t.len(),
            s == t@.skip(at as int),
            tokens.len() == subs.len(),
            forall|j: int| 0 <= j < subs.len() ==> (#[trigger] tokens@[j])@ == pair_views(subs@)[j].0,
            first_match(s, pair_views(subs@)) == first_match_from(s, pair_views(subs@), k as int),
        decreases tokens.len() - k,
    {
        if tokens[k].len() > 0 && occurs_at(t, at, &tokens[k]) {
            return Some(k);
        }
        k = k + 1;
    }
    None
}

/// Fills `template`: each token of `subs` that occurs in it is replaced by its value,
/// in one pass from left to right, every occurrence alike; text that is no token,
/// such as a placeholder that `subs` does not name, is kept as it stands.
pub fn fill_template(template: &str, subs: &Vec<(String, String)>) -> (r: String)
    ensures
        r@ == filled(template@, pair_views(subs@)),
{
    let t = chars_of(template);
    let mut tokens: Vec<Vec<char>> = Vec::new();
    let mut k: usize = 0;
    while k < subs.len()
        invariant
            k <= subs.len(),
            tokens.len() == k,
            forall|j: int| 0 <= j < k ==> (#[trigger] tokens@[j])@ == pair_views(subs@)[j].0,
        decreases subs.len() - k,
    {
        tokens.push(chars_of(subs[k].0.as_str()));
        k = k + 1;
    }
    let n = t.len();
    let mut out = String::new();
    let mut start: usize = 0;
    let mut i: usize = 0;
    assert(t@.skip(0) =~= t@);
    while i < n
        invariant
            start <= i <= n,
            n == t.len(),
            t@ == template@,
            tokens.len() == subs.len(),
            forall|j: int| 0 <= j < subs.len() ==> (#[trigger] tokens@[j])@ == pair_views(subs@)[j].0,
            filled(template@, pair_views(subs@)) == out@ + t@.subrange(start as int, i as int) + filled(
                t@.skip(i as int),
                pair_views(subs@),
            ),
        decreases n - i,
    {
        let ghost s = t@.skip(i as int);
        proof {
            lemma_first_match_in_range(s, pair_views(subs@), 0);
        }
        match match_at(&t, i, &tokens, subs) {
            Some(k) => {
                let len = tokens[k].len();
                assert(s.skip(len as int) =~= t@.skip(i + len));
                out.append(template.substring_char(start, i));
                out.append(subs[k].1.as_str());
                i = i + len;
                start = i;
                assert(t@.subrange(start as int, i as int) =~= Seq::<char>::empty());
            },
            None => {
                assert(s.skip(1) =~= t@.skip(i + 1));
                assert(t@.subrange(start as int, i as int) + seq![s[0]] =~= t@.subrange(
                    start as int,
                    i + 1,
                ));
                i = i + 1;
            },
        }
    }
    out.append(template.substring_char(start, n));
    assert(t@.skip(n as int) =~= Seq::<char>::empty());
    out
}

/// The placeholder `{{name}}`.
pub open spec fn placeholder(name: Seq<char>) -> Seq<char> {
    "{{"@ + name + "}}"@
}

/// No character of `s` opens a brace.
pub open spec fn no_open_brace(s: Seq<char>) -> bool {
    forall|i: int| 0 <= i < s.len() ==> s[i] != '{'
}

/// No character of `s` is a brace.
pub open spec fn brace_free(s: Seq<char>) -> bool {
    forall|i: int| 0 <= i < s.len() ==> s[i] != '{' && s[i] != '}'
}

/// Each substitution stands for the placeholder of a name without braces, and no
/// two stand for the same name.
pub open spec fn placeholders_for(subs: Seq<(Seq<char>, Seq<char>)>, names: Seq<Seq<char>>) -> bool {
    &&& subs.len() == names.len()
    &&& forall|k: int| 0 <= k < subs.len() ==> #[trigger] subs[k].0 == placeholder(names[k])
    &&& forall|k: int| 0 <= k < names.len() ==> brace_free(#[trigger] names[k])
    &&& forall|j: int, k: int| 0 <= j < k < names.len() ==> names[j] != names[k]
}

proof fn lemma_placeholder_shape(name: Seq<char>)
    ensures
        placeholder(name).len() == name.len() + 4,
        placeholder(name)[0] == '{',
        placeholder(name)[1] == '{',
        forall|i: int| 0 <= i < name.len() ==> #[trigger] placeholder(name)[i + 2] == name[i],
        placeholder(name)[name.len() + 2int] == '}',
        placeholder(name)[name.len() + 3int] == '}',
{
    reveal_strlit("{{");
    reveal_strlit("}}");
}

/// A placeholder begins a text that begins with another placeholder only where
/// the two names are the same.
proof fn lemma_placeholder_prefix(x: Seq<char>, y: Seq<char>, rest: Seq<char>)
    requires
        brace_free(x),
        brace_free(y),
    ensures
        has_prefix(placeholder(x) + rest, placeholder(y)) <==> x == y,
{
    lemma_placeholder_shape(x);
    lemma_placeholder_shape(y);
    let t = placeholder(x) + rest;
    let py = placeholder(y);
    if x == y {
        assert(t.take(py.len() as int) =~= py);
    } else if has_prefix(t, py) {
        if y.len() < x.len() {
            let i = y.len() + 2int;
            assert(t.take(py.len() as int)[i] == t[i]);
        } else if y.len() > x.len() {
            let i = x.len() + 2int;
            assert(t.take(py.len() as int)[i] == t[i]);
            assert(py[i] == y[x.len() as int]);
        } else {
            assert(!(x =~= y));
            let d = choose|d: int| 0 <= d < x.len() && x[d] != y[d];
            assert(t.take(py.len() as int)[d + 2] == t[d + 2]);
        }
    }
}

/// No placeholder begins a text whose first or second character is no opening
/// brace.
proof fn lemma_no_placeholder_here(
    t: Seq<char>,
    subs: Seq<(Seq<char>, Seq<char>)>,
    names: Seq<Seq<char>>,
    k: int,
)
    requires
        placeholders_for(subs, names),
        0 <= k,
        t.len() > 0,
        t[0] != '{' || (t.len() > 1 && t[1] != '{'),
    ensures
        first_match_from(t, subs, k) is None,
    decreases subs.len() - k,
{
    if k < subs.len() {
        lemma_placeholder_shape(names[k]);
        let p = subs[k].0;
        if has_prefix(t, p) {
            assert(t.take(p.len() as int)[0] == t[0]);
            assert(t.take(p.len() as int)[1] == t[1]);
        }
        lemma_no_placeholder_here(t, subs, names, k + 1);
    }
}

/// Which substitution, if any, a placeholder at the front of a text is read as.
proof fn lemma_placeholder_match(
    x: Seq<char>,
    rest: Seq<char>,
    subs: Seq<(Seq<char>, Seq<char>)>,
    names: Seq<Seq<char>>,
    k: int,
)
    requires
        placeholders_for(subs, names),
        brace_free(x),
        0 <= k <= subs.len(),
    ensures
        (forall|j: int| k <= j < names.len() ==> names[j] != x) ==> first_match_from(
            placeholder(x) + rest,
            subs,
            k,
        ) is None,
        forall|j: int|
            k <= j < names.len() && names[j] == x ==> first_match_from(
                placeholder(x) + rest,
                subs,
                k,
            ) == Some(j),
    decreases subs.len() - k,
{
    if k < subs.len() {
        lemma_placeholder_shape(names[k]);
        lemma_placeholder_prefix(x, names[k], rest);
        lemma_placeholder_match(x, rest, subs, names, k + 1);
    }
}

/// Text without braces in front of `rest` comes out as it stands.
proof fn lemma_plain_kept(
    p: Seq<char>,
    rest: Seq<char>,
    subs: Seq<(Seq<char>, Seq<char>)>,
    names: Seq<Seq<char>>,
)
    requires
        placeholders_for(subs, names),
        no_open_brace(p),
    ensures
        filled(p + rest, subs) == p + filled(rest, subs),
    decreases p.len(),
{
    if p.len() == 0 {
        assert(p + rest =~= rest);
    } else {
        let t = p + rest;
        lemma_no_placeholder_here(t, subs, names, 0);
        assert(t.skip(1) =~= p.skip(1) + rest);
        lemma_plain_kept(p.skip(1), rest, subs, names);
        assert(p =~= seq![p[0]] + p.skip(1));
    }
}

/// A known placeholder in front of `rest` gives way to its value.
proof fn lemma_known_replaced(
    k: int,
    rest: Seq<char>,
    subs: Seq<(Seq<char>, Seq<char>)>,
    names: Seq<Seq<char>>,
)
    requires
        placeholders_for(subs, names),
        0 <= k < subs.len(),
    ensures
        filled(placeholder(names[k]) + rest, subs) == subs[k].1 + filled(rest, subs),
{
    let t = placeholder(names[k]) + rest;
    lemma_placeholder_shape(names[k]);
    lemma_placeholder_match(names[k], rest, subs, names, 0);
    assert(t.skip(subs[k].0.len() as int) =~= rest);
}

/// Filling a template replaces every occurrence of a placeholder that a
/// substitution names, each by the same value, and keeps a placeholder that no
/// substitution names, and all other text, as it stands.
pub proof fn lemma_placeholders_filled(
    subs: Seq<(Seq<char>, Seq<char>)>,
    names: Seq<Seq<char>>,
    k: int,
    unknown: Seq<char>,
    p: Seq<char>,
    m: Seq<char>,
    s: Seq<char>,
)
    requires
        placeholders_for(subs, names),
        0 <= k < subs.len(),
        brace_free(unknown),
        forall|j: int| 0 <= j < names.len() ==> names[j] != unknown,
        no_open_brace(p),
        no_open_brace(m),
        no_open_brace(s),
    ensures
        filled(p + placeholder(names[k]) + m + placeholder(names[k]) + s, subs) == p + subs[k].1
            + m + subs[k].1 + s,
        filled(p + placeholder(unknown) + s, subs) == p + placeholder(unknown) + s,
{
    let tok = placeholder(names[k]);
    let v = subs[k].1;
    lemma_plain_kept(s, Seq::empty(), subs, names);
    assert(s + Seq::<char>::empty() =~= s);
    assert(filled(Seq::<char>::empty(), subs) =~= Seq::<char>::empty());
    let a = tok + s;
    lemma_known_replaced(k, s, subs, names);
    let b = m + a;
    lemma_plain_kept(m, a, subs, names);
    let c = tok + b;
    lemma_known_replaced(k, b, subs, names);
    lemma_plain_kept(p, c, subs, names);
    assert(p + tok + m + tok + s =~= p + c);
    assert(p + v + m + v + s =~= p + (v + (m + (v + s))));

    let u = placeholder(unknown);
    lemma_placeholder_shape(unknown);
    let t = u + s;
    lemma_placeholder_match(unknown, s, subs, names, 0);
    let t1 = t.skip(1);
    let tail = unknown + "}}"@ + s;
    assert(no_open_brace(tail)) by {
        reveal_strlit("}}");
    }
    assert(t1 =~= seq!['{'] + tail) by {
        reveal_strlit("{{");
    }
    assert(first_match(t, subs) is None);
    assert(filled(t, subs) == seq![t[0]] + filled(t1, subs));
    assert(t1.len() > 1 && t1[1] == tail[0] && tail[0] != '{') by {
        reveal_strlit("}}");
    }
    lemma_no_placeholder_here(t1, subs, names, 0);
    assert(t1.skip(1) =~= tail);
    assert(filled(t1, subs) == seq![t1[0]] + filled(tail, subs));
    lemma_plain_kept(tail, Seq::empty(), subs, names);
    assert(tail + Seq::<char>::empty() =~= tail);
    assert(t =~= seq![t[0]] + (seq![t1[0]] + tail));
    assert(u + s =~= seq!['{'] + (seq!['{'] + tail)) by {
        reveal_strlit("{{");
    }
    lemma_plain_kept(p, t, subs, names);
    assert(p + u + s =~= p + t);
}

} // verus!
