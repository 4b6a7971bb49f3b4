//! Path strings: joining, file stems, and sanitizing archive entry names.
//!
//! Paths are plain strings over `/`-separated components.  The bundle's stem
//! — its file name without the extension — picks the fallback manifest
//! folder, and an archive entry's stored name is sanitized before anything is
//! written under the extraction root: only normal components survive, so a
//! sanitized path can never climb out of the destination.

use vstd::prelude::*;

verus! {

/// The separator between path components.
pub open spec fn sep() -> char {
    '/'
}

/// The joined form of a base directory and a relative component.
pub open spec fn join_spec(base: Seq<char>, comp: Seq<char>) -> Seq<char> {
    base + seq![sep()] + comp
}

/// Joins a directory path and a relative component with a single separator.
pub fn join_path(base: &str, comp: &str) -> (r: String)
    ensures
        r@ == join_spec(base@, comp@),
{
    let mut r = base.to_owned();
    r.append("/");
    proof {
        reveal_strlit("/");
        assert(r@ == base@ + seq![sep()]);
    }
    r.append(comp);
    r
}

/// The index of the last occurrence of `c` in `s`, or `-1` if `c` does not
/// occur.
pub open spec fn last_index_of(s: Seq<char>, c: char) -> int
    decreases s.len(),
{
    if s.len() == 0 {
        -1
    } else if s[s.len() - 1] == c {
        s.len() - 1
    } else {
        last_index_of(s.drop_last(), c)
    }
}

proof fn lemma_last_index_of_unique(s: Seq<char>, c: char, i: int)
    requires
        -1 <= i < s.len(),
        i >= 0 ==> s[i] == c,
        forall|j: int| i < j < s.len() ==> s[j] != c,
    ensures
        last_index_of(s, c) == i,
    decreases s.len(),
{
    if s.len() == 0 {
    } else if s[s.len() - 1] == c {
        assert(i == s.len() - 1);
    } else {
        assert(i < s.len() - 1);
        assert forall|j: int| i < j < s.drop_last().len() implies s.drop_last()[j] != c by {
            assert(s.drop_last()[j] == s[j]);
        }
        lemma_last_index_of_unique(s.drop_last(), c, i);
    }
}

/// The length of `s` with its trailing separators removed.
pub open spec fn trim_len(s: Seq<char>) -> int
    decreases s.len(),
{
    if s.len() > 0 && s[s.len() - 1] == sep() {
        trim_len(s.drop_last())
    } else {
        s.len() as int
    }
}

proof fn lemma_trim_len_unique(s: Seq<char>, end: int)
    requires
        0 <= end <= s.len(),
        forall|j: int| end <= j < s.len() ==> s[j] == sep(),
        end > 0 ==> s[end - 1] != sep(),
    ensures
        trim_len(s) == end,
    decreases s.len(),
{
    if s.len() > 0 && s[s.len() - 1] == sep() {
        assert(end < s.len());
        assert forall|j: int| end <= j < s.drop_last().len() implies s.drop_last()[j] == sep() by {
            assert(s.drop_last()[j] == s[j]);
        }
        lemma_trim_len_unique(s.drop_last(), end);
    } else {
        assert(end == s.len());
    }
}

/// The final path component of `s`: what follows the last separator, after
/// trailing separators are dropped.
pub open spec fn final_component(s: Seq<char>) -> Seq<char> {
    let t = s.take(trim_len(s));
    t.subrange(last_index_of(t, sep()) + 1, t.len() as int)
}

/// A file name without its extension: the part before the last `.`, unless
/// the only `.` leads the name.
pub open spec fn stem_of_name(n: Seq<char>) -> Seq<char> {
    let i = last_index_of(n, '.');
    if i <= 0 {
        n
    } else {
        n.take(i)
    }
}

/// The stem of a path: its final component without the extension.  `None`
/// when the path has no usable file name — its final component is empty,
/// `.`, or `..`.
pub open spec fn file_stem_spec(s: Seq<char>) -> Option<Seq<char>> {
    let n = final_component(s);
    if n.len() == 0 || n == seq!['.'] || n == seq!['.', '.'] {
        None
    } else {
        Some(stem_of_name(n))
    }
}

/// Computes the stem of a path: the final component of `path` without its
/// extension, `None` when the path has no usable file name.
pub fn file_stem_of(path: &str) -> (r: Option<String>)
    ensures
        r is Some <==> file_stem_spec(path@) is Some,
        r matches Some(x) ==> Some(x@) == file_stem_spec(path@),
{
    let n = path.unicode_len();
    let mut end: usize = n;
    while end > 0 && path.get_char(end - 1) == '/'
        invariant
            end <= n,
            n == path@.len(),
            forall|j: int| end <= j < n ==> path@[j] == sep(),
        decreases end,
    {
        end = end - 1;
    }
    proof {
        lemma_trim_len_unique(path@, end as int);
    }
    let t = path.substring_char(0, end);
    let mut j: usize = end;
    while j > 0 && t.get_char(j - 1) != '/'
        invariant
            j <= end,
            t@.len() == end,
            forall|k: int| j <= k < end ==> t@[k] != sep(),
        decreases j,
    {
        j = j - 1;
    }
    proof {
        lemma_last_index_of_unique(t@, sep(), j as int - 1);
    }
    let name = t.substring_char(j, end);
    let m = end - j;
    proof {
        assert(name@ == final_component(path@));
    }
    if m == 0 {
        return None;
    }
    if m == 1 && name.get_char(0) == '.' {
        proof {
            assert(name@ == seq!['.']);
        }
        return None;
    }
    if m == 2 && name.get_char(0) == '.' && name.get_char(1) == '.' {
        proof {
            assert(name@ == seq!['.', '.']);
        }
        return None;
    }
    proof {
        if name@ == seq!['.'] {
            assert(name@[0] == '.');
            assert(false);
        }
        if name@ == seq!['.', '.'] {
            assert(name@[0] == '.' && name@[1] == '.');
            assert(false);
        }
    }
    let mut k: usize = m;
    while k > 0 && name.get_char(k - 1) != '.'
        invariant
            k <= m,
            name@.len() == m,
            forall|p: int| k <= p < m ==> name@[p] != '.',
        decreases k,
    {
        k = k - 1;
    }
    proof {
        lemma_last_index_of_unique(name@, '.', k as int - 1);
    }
    if k >= 2 {
        let stem = name.substring_char(0, k - 1);
        Some(stem.to_owned())
    } else {
        Some(name.to_owned())
    }
}

/// The index of the first occurrence of `c` in `s`, or `s.len()` if `c` does
/// not occur.
pub open spec fn first_index_of(s: Seq<char>, c: char) -> int
    decreases s.len(),
{
    if s.len() == 0 {
        0
    } else if s[0] == c {
        0
    } else {
        1 + first_index_of(s.drop_first(), c)
    }
}

proof fn lemma_first_index_of_unique(s: Seq<char>, c: char, i: int)
    requires
        0 <= i <= s.len(),
        forall|j: int| 0 <= j < i ==> s[j] != c,
        i < s.len() ==> s[i] == c,
    ensures
        first_index_of(s, c) == i,
    decreases s.len(),
{
    if s.len() == 0 {
    } else if s[0] == c {
        assert(i == 0);
    } else {
        assert(i >= 1);
        assert forall|j: int| 0 <= j < i - 1 implies s.drop_first()[j] != c by {
            assert(s.drop_first()[j] == s[j + 1]);
        }
        lemma_first_index_of_unique(s.drop_first(), c, i - 1);
    }
}

/// The components of a path: the maximal separator-free stretches, read left
/// to right.  A trailing separator contributes no empty final component.
pub open spec fn components(s: Seq<char>) -> Seq<Seq<char>>
    decreases s.len(),
{
    if s.len() == 0 {
        Seq::empty()
    } else {
        let i = first_index_of(s, sep());
        if 0 <= i < s.len() {
            seq![s.take(i)] + components(s.skip(i + 1))
        } else {
            seq![s]
        }
    }
}

/// A component that may be kept when sanitizing: non-empty, and neither the
/// current- nor the parent-directory reference.
pub open spec fn good_component(c: Seq<char>) -> bool {
    c.len() > 0 && c != seq!['.'] && c != seq!['.', '.']
}

/// The views of a vector of strings.
pub open spec fn views_of(v: Seq<String>) -> Seq<Seq<char>> {
    v.map_values(|x: String| x@)
}

/// The good components among `ps`, in order.
pub open spec fn good_of(ps: Seq<Seq<char>>) -> Seq<Seq<char>> {
    ps.filter(|c: Seq<char>| good_component(c))
}

/// The components `ps` joined with single separators.
pub open spec fn joined(ps: Seq<Seq<char>>) -> Seq<char>
    decreases ps.len(),
{
    if ps.len() == 0 {
        Seq::empty()
    } else if ps.len() == 1 {
        ps[0]
    } else {
        joined(ps.drop_last()) + seq![sep()] + ps.last()
    }
}

/// The sanitized form of an archive entry's stored name: its good components
/// — non-empty, not `.`, not `..` — joined again with single separators.
/// Absolute prefixes, traversal steps and empty stretches all vanish.
pub open spec fn sanitize_spec(s: Seq<char>) -> Seq<char> {
    joined(good_of(components(s)))
}

/// Splits a path into its components.
fn split_components(name: &str) -> (r: Vec<String>)
    ensures
        views_of(r@) == components(name@),
{
    let n = name.unicode_len();
    let mut comps: Vec<String> = Vec::new();
    let mut i: usize = 0;
    proof {
        assert(name@.skip(0) =~= name@);
        assert(views_of(comps@) =~= Seq::<Seq<char>>::empty());
        assert(views_of(comps@) + components(name@.skip(0)) =~= components(name@));
    }
    while i < n
        invariant
            i <= n,
            n == name@.len(),
            components(name@) == views_of(comps@) + components(name@.skip(i as int)),
        decreases n - i,
    {
        let mut j: usize = i;
        while j < n && name.get_char(j) != '/'
            invariant
                i <= j <= n,
                n == name@.len(),
                forall|k: int| i <= k < j ==> name@[k] != sep(),
            decreases n - j,
        {
            j = j + 1;
        }
        let comp = name.substring_char(i, j);
        let ghost old_views = views_of(comps@);
        comps.push(comp.to_owned());
        proof {
            let s = name@.skip(i as int);
            lemma_first_index_of_unique(s, sep(), j - i);
            assert(s.take(j - i) =~= name@.subrange(i as int, j as int));
            assert(views_of(comps@) =~= old_views.push(comp@));
            if j < n {
                assert(s.skip(j - i + 1) =~= name@.skip(j as int + 1));
                assert(components(s) == seq![comp@] + components(name@.skip(j as int + 1)));
            } else {
                assert(s =~= name@.subrange(i as int, n as int));
                assert(components(s) == seq![comp@]);
                assert(name@.skip(n as int) =~= Seq::<char>::empty());
            }
            assert(views_of(comps@) + components(name@.skip(if j < n {
                j as int + 1
            } else {
                n as int
            })) =~= old_views + components(s));
        }
        if j < n {
            i = j + 1;
        } else {
            i = n;
        }
    }
    proof {
        assert(name@.skip(i as int) =~= Seq::<char>::empty());
        assert(views_of(comps@) + components(name@.skip(i as int)) =~= views_of(comps@));
    }
    comps
}

/// Decides whether a component survives sanitizing.
fn is_good_component(c: &str) -> (b: bool)
    ensures
        b == good_component(c@),
{
    let m = c.unicode_len();
    if m == 0 {
        return false;
    }
    if m == 1 && c.get_char(0) == '.' {
        proof {
            assert(c@ == seq!['.']);
        }
        return false;
    }
    if m == 2 && c.get_char(0) == '.' && c.get_char(1) == '.' {
        proof {
            assert(c@ == seq!['.', '.']);
        }
        return false;
    }
    proof {
        if c@ == seq!['.'] {
            assert(c@[0] == '.');
            assert(false);
        }
        if c@ == seq!['.', '.'] {
            assert(c@[0] == '.' && c@[1] == '.');
            assert(false);
        }
    }
    true
}

/// Joins the good components of `comps` with single separators.
fn join_good(comps: &Vec<String>) -> (r: String)
    ensures
        r@ == joined(good_of(views_of(comps@))),
{
    let ghost v = views_of(comps@);
    let mut r = String::new();
    let mut started = false;
    let mut i: usize = 0;
    proof {
        assert(v.take(0) =~= Seq::<Seq<char>>::empty());
        reveal_with_fuel(Seq::filter, 1);
        assert(good_of(v.take(0)).len() == 0);
    }
    while i < comps.len()
        invariant
            i <= comps.len(),
            v == views_of(comps@),
            r@ == joined(good_of(v.take(i as int))),
            started <==> good_of(v.take(i as int)).len() > 0,
        decreases comps.len() - i,
    {
        let ghost ks = good_of(v.take(i as int));
        let c: &String = &comps[i];
        proof {
            assert(v.take(i as int + 1) =~= v.take(i as int).push(c@));
            assert(v.take(i as int + 1).drop_last() =~= v.take(i as int));
            assert(v.take(i as int + 1).last() == c@);
            reveal_with_fuel(Seq::filter, 2);
            if good_component(c@) {
                assert(good_of(v.take(i as int + 1)) == ks.push(c@));
                if ks.len() == 0 {
                    assert(joined(ks.push(c@)) == c@);
                } else {
                    assert(ks.push(c@).drop_last() =~= ks);
                    assert(joined(ks.push(c@)) == joined(ks) + seq![sep()] + c@);
                }
            } else {
                assert(good_of(v.take(i as int + 1)) == ks);
            }
        }
        if is_good_component(c.as_str()) {
            if started {
                r.append("/");
                proof {
                    reveal_strlit("/");
                    assert(r@ == joined(ks) + seq![sep()]);
                }
            }
            r.append(c.as_str());
            started = true;
        }
        i = i + 1;
    }
    proof {
        assert(v.take(comps@.len() as int) =~= v);
    }
    r
}

/// Sanitizes an archive entry's stored name into a safe relative path: keeps
/// only the normal components, so absolute prefixes and `..` traversal steps
/// are neutralized.  The result is empty when nothing survives.
pub fn sanitize_entry_path(name: &str) -> (r: String)
    ensures
        r@ == sanitize_spec(name@),
{
    let comps = split_components(name);
    join_good(&comps)
}

/// A stretch of characters free of separators.
pub open spec fn sep_free(c: Seq<char>) -> bool {
    forall|j: int| 0 <= j < c.len() ==> c[j] != sep()
}

proof fn lemma_first_index_of_props(s: Seq<char>, c: char)
    ensures
        0 <= first_index_of(s, c) <= s.len(),
        first_index_of(s, c) < s.len() ==> s[first_index_of(s, c)] == c,
        forall|j: int| 0 <= j < first_index_of(s, c) ==> s[j] != c,
    decreases s.len(),
{
    if s.len() == 0 {
    } else if s[0] == c {
    } else {
        lemma_first_index_of_props(s.drop_first(), c);
        assert forall|j: int| 0 <= j < first_index_of(s, c) implies s[j] != c by {
            if j >= 1 {
                assert(s.drop_first()[j - 1] == s[j]);
            }
        }
    }
}

proof fn lemma_components_sep_free(s: Seq<char>)
    ensures
        forall|i: int|
            0 <= i < components(s).len() ==> sep_free(#[trigger] components(s)[i]),
    decreases s.len(),
{
    if s.len() == 0 {
    } else {
        lemma_first_index_of_props(s, sep());
        let fi = first_index_of(s, sep());
        if 0 <= fi < s.len() {
            lemma_components_sep_free(s.skip(fi + 1));
            assert(sep_free(s.take(fi)));
            assert forall|i: int| 0 <= i < components(s).len() implies sep_free(
                #[trigger] components(s)[i],
            ) by {
                if i == 0 {
                    assert(components(s)[0] == s.take(fi));
                } else {
                    assert(components(s)[i] == components(s.skip(fi + 1))[i - 1]);
                }
            }
        } else {
            assert(sep_free(s));
        }
    }
}

proof fn lemma_good_of_keeps(ps: Seq<Seq<char>>)
    requires
        forall|i: int| 0 <= i < ps.len() ==> sep_free(#[trigger] ps[i]),
    ensures
        forall|i: int|
            0 <= i < good_of(ps).len() ==> good_component(#[trigger] good_of(ps)[i]) && sep_free(
                good_of(ps)[i],
            ),
    decreases ps.len(),
{
    reveal_with_fuel(Seq::filter, 2);
    if ps.len() == 0 {
        assert(good_of(ps) =~= Seq::<Seq<char>>::empty());
    } else {
        assert forall|i: int| 0 <= i < ps.drop_last().len() implies sep_free(
            #[trigger] ps.drop_last()[i],
        ) by {
            assert(ps.drop_last()[i] == ps[i]);
        }
        lemma_good_of_keeps(ps.drop_last());
        let g = good_of(ps);
        let gd = good_of(ps.drop_last());
        if good_component(ps.last()) {
            assert(g == gd.push(ps.last()));
            assert forall|i: int| 0 <= i < g.len() implies good_component(#[trigger] g[i])
                && sep_free(g[i]) by {
                if i < gd.len() {
                    assert(g[i] == gd[i]);
                } else {
                    assert(g[i] == ps.last());
                    assert(sep_free(ps.last()));
                }
            }
        } else {
            assert(g == gd);
        }
    }
}

proof fn lemma_good_of_all_good(ps: Seq<Seq<char>>)
    requires
        forall|i: int| 0 <= i < ps.len() ==> good_component(#[trigger] ps[i]),
    ensures
        good_of(ps) == ps,
    decreases ps.len(),
{
    reveal_with_fuel(Seq::filter, 2);
    if ps.len() == 0 {
        assert(good_of(ps) =~= ps);
    } else {
        assert forall|i: int| 0 <= i < ps.drop_last().len() implies good_component(
            #[trigger] ps.drop_last()[i],
        ) by {
            assert(ps.drop_last()[i] == ps[i]);
        }
        lemma_good_of_all_good(ps.drop_last());
        assert(good_component(ps.last()));
        assert(good_of(ps) =~= ps);
    }
}

proof fn lemma_joined_unfold_front(ps: Seq<Seq<char>>)
    requires
        ps.len() >= 2,
    ensures
        joined(ps) == ps[0] + seq![sep()] + joined(ps.drop_first()),
    decreases ps.len(),
{
    if ps.len() == 2 {
        assert(ps.drop_last() =~= seq![ps[0]]);
        assert(joined(ps.drop_last()) == ps[0]);
        assert(ps.drop_first() =~= seq![ps[1]]);
        assert(joined(ps.drop_first()) == ps[1]);
    } else {
        let q = ps.drop_last();
        lemma_joined_unfold_front(q);
        assert(q[0] == ps[0]);
        assert(q.drop_first() =~= ps.drop_first().drop_last());
        assert(ps.drop_first().len() >= 2);
        assert(ps.drop_first().last() == ps.last());
        assert(joined(ps.drop_first()) == joined(ps.drop_first().drop_last()) + seq![sep()]
            + ps.drop_first().last());
        assert(joined(ps) =~= ps[0] + seq![sep()] + joined(ps.drop_first()));
    }
}

proof fn lemma_components_of_joined(ps: Seq<Seq<char>>)
    requires
        forall|i: int|
            0 <= i < ps.len() ==> good_component(#[trigger] ps[i]) && sep_free(ps[i]),
    ensures
        components(joined(ps)) == ps,
    decreases ps.len(),
{
    if ps.len() == 0 {
        assert(components(joined(ps)) =~= ps);
    } else if ps.len() == 1 {
        let c = ps[0];
        assert(joined(ps) == c);
        lemma_first_index_of_unique(c, sep(), c.len() as int);
        assert(components(c) == seq![c]);
        assert(seq![c] =~= ps);
    } else {
        lemma_joined_unfold_front(ps);
        let s = joined(ps);
        let c = ps[0];
        assert forall|j: int| 0 <= j < c.len() implies s[j] != sep() by {
            assert(s[j] == c[j]);
        }
        assert(s[c.len() as int] == sep());
        lemma_first_index_of_unique(s, sep(), c.len() as int);
        assert(s.take(c.len() as int) =~= c);
        assert(s.skip(c.len() as int + 1) =~= joined(ps.drop_first()));
        assert forall|i: int| 0 <= i < ps.drop_first().len() implies good_component(
            #[trigger] ps.drop_first()[i],
        ) && sep_free(ps.drop_first()[i]) by {
            assert(ps.drop_first()[i] == ps[i + 1]);
        }
        lemma_components_of_joined(ps.drop_first());
        assert(components(s) == seq![c] + components(joined(ps.drop_first())));
        assert(seq![c] + ps.drop_first() =~= ps);
    }
}

/// Sanitizing an entry name never yields a path that can escape the
/// directory it is joined under: the sanitized name's components are exactly
/// the name's good components — each non-empty and neither `.` nor `..` —
/// and the result never begins with a separator, so it is never absolute.
pub proof fn law_sanitized_stays_within(s: Seq<char>)
    ensures
        components(sanitize_spec(s)) == good_of(components(s)),
        forall|i: int|
            0 <= i < components(sanitize_spec(s)).len() ==> good_component(
                #[trigger] components(sanitize_spec(s))[i],
            ),
        sanitize_spec(s).len() > 0 ==> sanitize_spec(s)[0] != sep(),
{
    lemma_components_sep_free(s);
    lemma_good_of_keeps(components(s));
    let ps = good_of(components(s));
    lemma_components_of_joined(ps);
    if sanitize_spec(s).len() > 0 {
        assert(ps.len() > 0);
        if ps.len() == 1 {
            assert(sanitize_spec(s) == ps[0]);
        } else {
            lemma_joined_unfold_front(ps);
            assert(sanitize_spec(s)[0] == ps[0][0]);
        }
    }
}

/// Sanitizing is idempotent: a sanitized name passes through sanitizing
/// unchanged.
pub proof fn law_sanitize_idempotent(s: Seq<char>)
    ensures
        sanitize_spec(sanitize_spec(s)) == sanitize_spec(s),
{
    law_sanitized_stays_within(s);
    lemma_good_of_all_good(components(sanitize_spec(s)));
}

} // verus!
