//! What a clause means for a row: the pattern match behind the text
//! clauses and the comparisons behind the others.

use crate::filter::{clauses_view, like_pattern, pattern_of, AdFilterView, Clause, ClauseView};
use crate::model::{Ad, AdView};
use vstd::prelude::*;
use vstd::string::StrSliceExecFns;

verus! {

/// Two characters are equal up to the case of an ASCII letter.
pub open spec fn same_letter(a: char, b: char) -> bool {
    a == b || ('A' <= a && a <= 'Z' && b as u32 == a as u32 + 32) || ('A' <= b && b <= 'Z' && a as u32
        == b as u32 + 32)
}

/// Case-insensitive pattern match of a whole text: `%` stands for any run
/// of characters, `_` for any one character, and a backslash takes the
/// character after it literally.
pub open spec fn like_match(p: Seq<char>, t: Seq<char>) -> bool
    decreases p.len(), t.len(),
{
    if p.len() == 0 {
        t.len() == 0
    } else if p[0] == '%' {
        like_match(p.skip(1), t) || (t.len() > 0 && like_match(p, t.skip(1)))
    } else if p[0] == '_' {
        t.len() > 0 && like_match(p.skip(1), t.skip(1))
    } else if p[0] == '\\' {
        p.len() >= 2 && t.len() > 0 && same_letter(p[1], t[0]) && like_match(p.skip(2), t.skip(1))
    } else {
        t.len() > 0 && same_letter(p[0], t[0]) && like_match(p.skip(1), t.skip(1))
    }
}

/// No character of the term has a special meaning in a pattern.
pub open spec fn plain(term: Seq<char>) -> bool {
    forall|i: int|
        0 <= i < term.len() ==> (#[trigger] term[i]) != '%' && term[i] != '_' && term[i] != '\\'
}

/// The term stands in the text at offset `k`, up to the case of ASCII
/// letters.
pub open spec fn occurs_at(term: Seq<char>, text: Seq<char>, k: int) -> bool {
    &&& 0 <= k
    &&& k + term.len() <= text.len()
    &&& forall|j: int| 0 <= j < term.len() ==> same_letter(#[trigger] term[j], text[k + j])
}

/// The pattern `%` matches every text.
pub proof fn lemma_wildcard_matches_all(t: Seq<char>)
    ensures
        like_match(seq!['%'], t),
    decreases t.len(),
{
    let p = seq!['%'];
    assert(p[0] == '%');
    assert(p.skip(1) =~= Seq::<char>::empty());
    if t.len() > 0 {
        lemma_wildcard_matches_all(t.skip(1));
    } else {
        assert(like_match(Seq::<char>::empty(), t));
    }
}

/// A pattern that starts with `%` matches a text exactly when the rest of
/// the pattern matches some suffix of the text.
pub proof fn lemma_leading_wildcard(q: Seq<char>, t: Seq<char>)
    ensures
        like_match(seq!['%'] + q, t) <==> exists|k: int|
            0 <= k <= t.len() && like_match(q, #[trigger] t.skip(k)),
    decreases t.len(),
{
    let p = seq!['%'] + q;
    assert(p[0] == '%');
    assert(p.skip(1) =~= q);
    assert(t.skip(0) =~= t);
    if t.len() == 0 {
        if exists|k: int| 0 <= k <= t.len() && like_match(q, #[trigger] t.skip(k)) {
            let k = choose|k: int| 0 <= k <= t.len() && like_match(q, #[trigger] t.skip(k));
            assert(k == 0);
        }
    } else {
        let rest = t.skip(1);
        lemma_leading_wildcard(q, rest);
        if like_match(p, t) {
            if like_match(q, t) {
                assert(like_match(q, t.skip(0)));
            } else {
                assert(like_match(p, rest));
                let k = choose|k: int| 0 <= k <= rest.len() && like_match(q, #[trigger] rest.skip(k));
                assert(rest.skip(k) =~= t.skip(k + 1));
                assert(like_match(q, t.skip(k + 1)));
            }
        }
        if exists|k: int| 0 <= k <= t.len() && like_match(q, #[trigger] t.skip(k)) {
            let k = choose|k: int| 0 <= k <= t.len() && like_match(q, #[trigger] t.skip(k));
            if k > 0 {
                assert(rest.skip(k - 1) =~= t.skip(k));
                assert(like_match(q, rest.skip(k - 1)));
                assert(like_match(p, rest));
            }
        }
    }
}

/// A pattern that starts with a plain term matches a text exactly when the
/// text starts with the term, up to case, and the rest of the pattern
/// matches the rest of the text.
pub proof fn lemma_plain_prefix(term: Seq<char>, r: Seq<char>, t: Seq<char>)
    requires
        plain(term),
    ensures
        like_match(term + r, t) <==> occurs_at(term, t, 0) && like_match(
            r,
            t.skip(term.len() as int),
        ),
    decreases term.len(),
{
    let p = term + r;
    if term.len() == 0 {
        assert(p =~= r);
        assert(t.skip(0) =~= t);
    } else {
        let tail = term.skip(1);
        assert(p[0] == term[0]);
        assert(p.skip(1) =~= tail + r);
        assert forall|i: int| 0 <= i < tail.len() implies (#[trigger] tail[i]) != '%' && tail[i]
            != '_' && tail[i] != '\\' by {
            assert(tail[i] == term[i + 1]);
        }
        if t.len() > 0 {
            let rest = t.skip(1);
            lemma_plain_prefix(tail, r, rest);
            if term.len() <= t.len() {
                assert(rest.skip(tail.len() as int) =~= t.skip(term.len() as int));
            }
            if occurs_at(tail, rest, 0) && same_letter(term[0], t[0]) {
                assert forall|j: int| 0 <= j < term.len() implies same_letter(
                    #[trigger] term[j],
                    t[0 + j],
                ) by {
                    if j > 0 {
                        assert(same_letter(tail[j - 1], rest[0 + (j - 1)]));
                    }
                }
            }
            if occurs_at(term, t, 0) {
                assert(same_letter(term[0], t[0int + 0]));
                assert forall|j: int| 0 <= j < tail.len() implies same_letter(
                    #[trigger] tail[j],
                    rest[0 + j],
                ) by {
                    assert(same_letter(term[j + 1], t[0 + (j + 1)]));
                }
            }
        }
    }
}

/// The text clauses are case-insensitive substring matches: for a term
/// without pattern characters, the wrapped pattern matches a text exactly
/// when the term occurs somewhere in it, up to the case of ASCII letters.
pub proof fn law_pattern_is_substring_match(term: Seq<char>, text: Seq<char>)
    requires
        plain(term),
    ensures
        like_match(pattern_of(term), text) <==> exists|k: int| occurs_at(term, text, k),
{
    reveal_strlit("%");
    let any = seq!['%'];
    assert("%"@ =~= any);
    let q = term + any;
    assert(pattern_of(term) =~= any + q);
    lemma_leading_wildcard(q, text);
    assert forall|k: int| 0 <= k <= text.len() implies (like_match(q, #[trigger] text.skip(k))
        <==> occurs_at(term, text, k)) by {
        let suffix = text.skip(k);
        lemma_plain_prefix(term, any, suffix);
        lemma_wildcard_matches_all(suffix.skip(term.len() as int));
        if occurs_at(term, suffix, 0) {
            assert forall|j: int| 0 <= j < term.len() implies same_letter(
                #[trigger] term[j],
                text[k + j],
            ) by {
                assert(same_letter(term[j], suffix[0 + j]));
            }
        }
        if occurs_at(term, text, k) {
            assert forall|j: int| 0 <= j < term.len() implies same_letter(
                #[trigger] term[j],
                suffix[0 + j],
            ) by {
                assert(same_letter(term[j], text[k + j]));
            }
        }
    }
    if like_match(pattern_of(term), text) {
        let k = choose|k: int| 0 <= k <= text.len() && like_match(q, #[trigger] text.skip(k));
        assert(occurs_at(term, text, k));
    }
    if exists|k: int| occurs_at(term, text, k) {
        let k = choose|k: int| occurs_at(term, text, k);
        assert(like_match(q, text.skip(k)));
    }
}

/// Whether a row satisfies one clause.
pub open spec fn clause_holds(clause: ClauseView, ad: AdView) -> bool {
    match clause {
        ClauseView::TitleContains(term) => like_match(pattern_of(term), ad.title),
        ClauseView::DescriptionContains(term) => like_match(pattern_of(term), ad.description),
        ClauseView::PriceLessThan(bound) => ad.price.less_than(&bound),
        ClauseView::PriceGreaterThan(bound) => bound.less_than(&ad.price),
        ClauseView::UpdatedBefore(bound) => ad.updated_at.micros < bound.micros,
        ClauseView::UpdatedAfter(bound) => ad.updated_at.micros > bound.micros,
    }
}

/// Whether a row satisfies every clause of a list.
pub open spec fn satisfies(clauses: Seq<ClauseView>, ad: AdView) -> bool {
    forall|i: int| 0 <= i < clauses.len() ==> clause_holds(#[trigger] clauses[i], ad)
}

/// The rows that satisfy every clause, in the order of `rows`.
pub open spec fn matching(rows: Seq<AdView>, clauses: Seq<ClauseView>) -> Seq<AdView>
    decreases rows.len(),
{
    if rows.len() == 0 {
        Seq::empty()
    } else {
        let before = matching(rows.drop_last(), clauses);
        if satisfies(clauses, rows.last()) {
            before.push(rows.last())
        } else {
            before
        }
    }
}

/// The decimal bound of a clause, if it has one, is within the supported
/// scale.
pub open spec fn clause_valid(clause: ClauseView) -> bool {
    match clause {
        ClauseView::PriceLessThan(bound) => bound.well_formed(),
        ClauseView::PriceGreaterThan(bound) => bound.well_formed(),
        _ => true,
    }
}

/// Every clause of a list is valid.
pub open spec fn clauses_valid(clauses: Seq<ClauseView>) -> bool {
    forall|i: int| 0 <= i < clauses.len() ==> clause_valid(#[trigger] clauses[i])
}

/// The decimal bounds of a filter are within the supported scale.
pub open spec fn filter_valid(f: AdFilterView) -> bool {
    &&& f.price_lt.is_some() ==> f.price_lt.unwrap().well_formed()
    &&& f.price_gt.is_some() ==> f.price_gt.unwrap().well_formed()
}

fn letters_agree(a: char, b: char) -> (r: bool)
    ensures
        r == same_letter(a, b),
{
    a == b || ('A' <= a && a <= 'Z' && b as u32 == a as u32 + 32) || ('A' <= b && b <= 'Z' && a as u32
        == b as u32 + 32)
}

fn like_from(pattern: &str, pi: usize, text: &str, ti: usize) -> (r: bool)
    requires
        pi <= pattern@.len(),
        ti <= text@.len(),
    ensures
        r == like_match(pattern@.skip(pi as int), text@.skip(ti as int)),
    decreases pattern@.len() - pi, text@.len() - ti,
{
    let plen = pattern.unicode_len();
    let tlen = text.unicode_len();
    let ghost p = pattern@.skip(pi as int);
    let ghost t = text@.skip(ti as int);
    proof {
        assert(p.len() == plen - pi);
        assert(t.len() == tlen - ti);
        if pi < plen {
            assert(p[0] == pattern@[pi as int]);
            assert(p.skip(1) =~= pattern@.skip(pi + 1));
        }
        if pi + 1 < plen {
            assert(p[1] == pattern@[pi + 1]);
            assert(p.skip(2) =~= pattern@.skip(pi + 2));
        }
        if pi + 2 == plen {
            assert(p.skip(2) =~= pattern@.skip(pi + 2));
        }
        if ti < tlen {
            assert(t[0] == text@[ti as int]);
            assert(t.skip(1) =~= text@.skip(ti + 1));
        }
    }
    if pi == plen {
        return ti == tlen;
    }
    let c = pattern.get_char(pi);
    if c == '%' {
        if like_from(pattern, pi + 1, text, ti) {
            true
        } else {
            ti < tlen && like_from(pattern, pi, text, ti + 1)
        }
    } else if c == '_' {
        ti < tlen && like_from(pattern, pi + 1, text, ti + 1)
    } else if c == '\\' {
        pi + 1 < plen && ti < tlen && letters_agree(pattern.get_char(pi + 1), text.get_char(ti))
            && like_from(pattern, pi + 2, text, ti + 1)
    } else {
        ti < tlen && letters_agree(c, text.get_char(ti)) && like_from(pattern, pi + 1, text, ti + 1)
    }
}

/// Matches a whole text against a pattern, ignoring the case of ASCII
/// letters. The search backtracks at every `%`, so it suits the short
/// texts of an ad, not arbitrary input.
pub fn like(pattern: &str, text: &str) -> (r: bool)
    ensures
        r == like_match(pattern@, text@),
{
    proof {
        assert(pattern@.skip(0) =~= pattern@);
        assert(text@.skip(0) =~= text@);
    }
    like_from(pattern, 0, text, 0)
}

/// Whether `text` contains `term`, by the pattern match of the text
/// clauses.
pub fn contains(text: &str, term: &str) -> (r: bool)
    ensures
        r == like_match(pattern_of(term@), text@),
{
    let pattern = like_pattern(term);
    like(pattern.as_str(), text)
}

impl Clause {
    /// Evaluates the clause on a row.
    pub fn holds(&self, ad: &Ad) -> (r: bool)
        requires
            ad.price.well_formed(),
            clause_valid(self@),
        ensures
            r == clause_holds(self@, ad@),
    {
        match self {
            Clause::TitleContains(term) => contains(ad.title.as_str(), term.as_str()),
            Clause::DescriptionContains(term) => contains(ad.description.as_str(), term.as_str()),
            Clause::PriceLessThan(bound) => ad.price.lt(bound),
            Clause::PriceGreaterThan(bound) => bound.lt(&ad.price),
            Clause::UpdatedBefore(bound) => ad.updated_at.micros < bound.micros,
            Clause::UpdatedAfter(bound) => ad.updated_at.micros > bound.micros,
        }
    }
}

/// Evaluates a clause list on a row: the conjunction of its clauses.
pub fn row_matches(clauses: &Vec<Clause>, ad: &Ad) -> (r: bool)
    requires
        ad.price.well_formed(),
        clauses_valid(clauses_view(clauses@)),
    ensures
        r == satisfies(clauses_view(clauses@), ad@),
{
    let mut i: usize = 0;
    let ghost views = clauses_view(clauses@);
    while i < clauses.len()
        invariant
            i <= clauses.len(),
            ad.price.well_formed(),
            views == clauses_view(clauses@),
            clauses_valid(views),
            forall|j: int| 0 <= j < i ==> clause_holds(#[trigger] views[j], ad@),
        decreases clauses.len() - i,
    {
        proof {
            assert(views[i as int] == clauses[i as int]@);
        }
        if !clauses[i].holds(ad) {
            return false;
        }
        i = i + 1;
    }
    true
}

} // verus!
