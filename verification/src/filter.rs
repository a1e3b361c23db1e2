//! The filter predicate builder: a sparse filter becomes one ordered list of
//! clauses, which every query path consumes.

use crate::model::{Decimal, Timestamp};
use vstd::prelude::*;
use vstd::string::StringExecFns;

verus! {

/// A sparse set of optional predicates; absent fields impose no constraint
/// and present ones combine with logical AND.
#[derive(Clone, Debug, PartialEq, Eq)]
pub struct AdFilter {
    pub title_contains: Option<String>,
    pub description_contains: Option<String>,
    pub price_lt: Option<Decimal>,
    pub price_gt: Option<Decimal>,
    pub updated_at_lt: Option<Timestamp>,
    pub updated_at_gt: Option<Timestamp>,
}

/// The mathematical value of an [`AdFilter`].
pub struct AdFilterView {
    pub title_contains: Option<Seq<char>>,
    pub description_contains: Option<Seq<char>>,
    pub price_lt: Option<Decimal>,
    pub price_gt: Option<Decimal>,
    pub updated_at_lt: Option<Timestamp>,
    pub updated_at_gt: Option<Timestamp>,
}

/// The view of an optional text.
pub open spec fn optional_text(text: Option<String>) -> Option<Seq<char>> {
    match text {
        Some(t) => Some(t@),
        None => None,
    }
}

impl View for AdFilter {
    type V = AdFilterView;

    open spec fn view(&self) -> AdFilterView {
        AdFilterView {
            title_contains: optional_text(self.title_contains),
            description_contains: optional_text(self.description_contains),
            price_lt: self.price_lt,
            price_gt: self.price_gt,
            updated_at_lt: self.updated_at_lt,
            updated_at_gt: self.updated_at_gt,
        }
    }
}

/// The filter that constrains nothing.
pub open spec fn empty_filter() -> AdFilterView {
    AdFilterView {
        title_contains: None,
        description_contains: None,
        price_lt: None,
        price_gt: None,
        updated_at_lt: None,
        updated_at_gt: None,
    }
}

impl Default for AdFilter {
    fn default() -> (f: AdFilter)
        ensures
            f@ == empty_filter(),
    {
        AdFilter {
            title_contains: None,
            description_contains: None,
            price_lt: None,
            price_gt: None,
            updated_at_lt: None,
            updated_at_gt: None,
        }
    }
}

/// A single filter condition: the field it constrains, how, and the bound.
#[derive(Clone, Debug, PartialEq, Eq)]
pub enum Clause {
    TitleContains(String),
    DescriptionContains(String),
    PriceLessThan(Decimal),
    PriceGreaterThan(Decimal),
    UpdatedBefore(Timestamp),
    UpdatedAfter(Timestamp),
}

/// The mathematical value of a [`Clause`].
pub enum ClauseView {
    TitleContains(Seq<char>),
    DescriptionContains(Seq<char>),
    PriceLessThan(Decimal),
    PriceGreaterThan(Decimal),
    UpdatedBefore(Timestamp),
    UpdatedAfter(Timestamp),
}

impl View for Clause {
    type V = ClauseView;

    open spec fn view(&self) -> ClauseView {
        match self {
            Clause::TitleContains(t) => ClauseView::TitleContains(t@),
            Clause::DescriptionContains(t) => ClauseView::DescriptionContains(t@),
            Clause::PriceLessThan(d) => ClauseView::PriceLessThan(*d),
            Clause::PriceGreaterThan(d) => ClauseView::PriceGreaterThan(*d),
            Clause::UpdatedBefore(t) => ClauseView::UpdatedBefore(*t),
            Clause::UpdatedAfter(t) => ClauseView::UpdatedAfter(*t),
        }
    }
}

/// A value bound to a positional parameter of a statement.
#[derive(Clone, Debug, PartialEq, Eq)]
pub enum Param {
    Text(String),
    Number(Decimal),
    Instant(Timestamp),
}

/// The mathematical value of a [`Param`].
pub enum ParamView {
    Text(Seq<char>),
    Number(Decimal),
    Instant(Timestamp),
}

impl View for Param {
    type V = ParamView;

    open spec fn view(&self) -> ParamView {
        match self {
            Param::Text(t) => ParamView::Text(t@),
            Param::Number(d) => ParamView::Number(*d),
            Param::Instant(t) => ParamView::Instant(*t),
        }
    }
}

/// The search term wrapped in a wildcard on both sides.
pub open spec fn pattern_of(term: Seq<char>) -> Seq<char> {
    "%"@ + term + "%"@
}

impl ClauseView {
    /// The column the clause constrains.
    pub open spec fn column(self) -> Seq<char> {
        match self {
            ClauseView::TitleContains(_) => "title"@,
            ClauseView::DescriptionContains(_) => "description"@,
            ClauseView::PriceLessThan(_) => "price"@,
            ClauseView::PriceGreaterThan(_) => "price"@,
            ClauseView::UpdatedBefore(_) => "updated_at"@,
            ClauseView::UpdatedAfter(_) => "updated_at"@,
        }
    }

    /// The comparison the clause applies, as it stands between the column
    /// and the bound.
    pub open spec fn operator(self) -> Seq<char> {
        match self {
            ClauseView::TitleContains(_) => " ILIKE "@,
            ClauseView::DescriptionContains(_) => " ILIKE "@,
            ClauseView::PriceLessThan(_) => " < "@,
            ClauseView::PriceGreaterThan(_) => " > "@,
            ClauseView::UpdatedBefore(_) => " < "@,
            ClauseView::UpdatedAfter(_) => " > "@,
        }
    }

    /// The value bound for the clause: a wildcard pattern for the text
    /// clauses, the bound itself for the others.
    pub open spec fn param(self) -> ParamView {
        match self {
            ClauseView::TitleContains(t) => ParamView::Text(pattern_of(t)),
            ClauseView::DescriptionContains(t) => ParamView::Text(pattern_of(t)),
            ClauseView::PriceLessThan(d) => ParamView::Number(d),
            ClauseView::PriceGreaterThan(d) => ParamView::Number(d),
            ClauseView::UpdatedBefore(t) => ParamView::Instant(t),
            ClauseView::UpdatedAfter(t) => ParamView::Instant(t),
        }
    }
}

/// The clauses of a filter, one per present field, always in the order
/// title, description, price below, price above, updated before, updated
/// after.
pub open spec fn clause_list(f: AdFilterView) -> Seq<ClauseView> {
    let s0 = Seq::<ClauseView>::empty();
    let s1 = match f.title_contains {
        Some(t) => s0.push(ClauseView::TitleContains(t)),
        None => s0,
    };
    let s2 = match f.description_contains {
        Some(t) => s1.push(ClauseView::DescriptionContains(t)),
        None => s1,
    };
    let s3 = match f.price_lt {
        Some(d) => s2.push(ClauseView::PriceLessThan(d)),
        None => s2,
    };
    let s4 = match f.price_gt {
        Some(d) => s3.push(ClauseView::PriceGreaterThan(d)),
        None => s3,
    };
    let s5 = match f.updated_at_lt {
        Some(t) => s4.push(ClauseView::UpdatedBefore(t)),
        None => s4,
    };
    match f.updated_at_gt {
        Some(t) => s5.push(ClauseView::UpdatedAfter(t)),
        None => s5,
    }
}

/// The number of fields a filter sets.
pub open spec fn present_fields(f: AdFilterView) -> nat {
    let a: nat = if f.title_contains.is_some() { 1 } else { 0 };
    let b: nat = if f.description_contains.is_some() { 1 } else { 0 };
    let c: nat = if f.price_lt.is_some() { 1 } else { 0 };
    let d: nat = if f.price_gt.is_some() { 1 } else { 0 };
    let e: nat = if f.updated_at_lt.is_some() { 1 } else { 0 };
    let g: nat = if f.updated_at_gt.is_some() { 1 } else { 0 };
    a + b + c + d + e + g
}

/// Each present field yields exactly one clause.
pub proof fn lemma_one_clause_per_field(f: AdFilterView)
    ensures
        clause_list(f).len() == present_fields(f),
        clause_list(f).len() <= 6,
{
}

/// The views of a list of clauses, item by item.
pub open spec fn clauses_view(clauses: Seq<Clause>) -> Seq<ClauseView> {
    Seq::new(clauses.len(), |i: int| clauses[i]@)
}

/// The views of a list of parameters, item by item.
pub open spec fn params_view(params: Seq<Param>) -> Seq<ParamView> {
    Seq::new(params.len(), |i: int| params[i]@)
}

/// The parameters a clause list binds: one per clause, in clause order.
pub open spec fn param_list(clauses: Seq<ClauseView>) -> Seq<ParamView> {
    Seq::new(clauses.len(), |i: int| clauses[i].param())
}

/// Wraps a search term in wildcards for a case-insensitive pattern match.
pub fn like_pattern(term: &str) -> (pattern: String)
    ensures
        pattern@ == pattern_of(term@),
{
    let mut pattern = String::from_str("%");
    pattern.append(term);
    pattern.append("%");
    pattern
}

fn push_clause(list: &mut Vec<Clause>, clause: Clause)
    ensures
        clauses_view(final(list)@) == clauses_view(old(list)@).push(clause@),
{
    list.push(clause);
    assert(clauses_view(list@) =~= clauses_view(old(list)@).push(clause@));
}

impl Clause {
    /// The column the clause constrains.
    pub fn column(&self) -> (name: &'static str)
        ensures
            name@ == self@.column(),
    {
        match self {
            Clause::TitleContains(_) => "title",
            Clause::DescriptionContains(_) => "description",
            Clause::PriceLessThan(_) => "price",
            Clause::PriceGreaterThan(_) => "price",
            Clause::UpdatedBefore(_) => "updated_at",
            Clause::UpdatedAfter(_) => "updated_at",
        }
    }

    /// The comparison the clause applies.
    pub fn operator(&self) -> (text: &'static str)
        ensures
            text@ == self@.operator(),
    {
        match self {
            Clause::TitleContains(_) => " ILIKE ",
            Clause::DescriptionContains(_) => " ILIKE ",
            Clause::PriceLessThan(_) => " < ",
            Clause::PriceGreaterThan(_) => " > ",
            Clause::UpdatedBefore(_) => " < ",
            Clause::UpdatedAfter(_) => " > ",
        }
    }

    /// The value to bind for the clause.
    pub fn param(&self) -> (p: Param)
        ensures
            p@ == self@.param(),
    {
        match self {
            Clause::TitleContains(t) => Param::Text(like_pattern(t.as_str())),
            Clause::DescriptionContains(t) => Param::Text(like_pattern(t.as_str())),
            Clause::PriceLessThan(d) => Param::Number(*d),
            Clause::PriceGreaterThan(d) => Param::Number(*d),
            Clause::UpdatedBefore(t) => Param::Instant(*t),
            Clause::UpdatedAfter(t) => Param::Instant(*t),
        }
    }
}

/// The parameters to bind for a clause list, in clause order.
pub fn bound_params(clauses: &Vec<Clause>) -> (params: Vec<Param>)
    ensures
        params_view(params@) == param_list(clauses_view(clauses@)),
{
    let mut params: Vec<Param> = Vec::new();
    let mut i: usize = 0;
    while i < clauses.len()
        invariant
            i <= clauses.len(),
            params.len() == i,
            forall|j: int| 0 <= j < i ==> params[j]@ == clauses[j]@.param(),
        decreases clauses.len() - i,
    {
        params.push(clauses[i].param());
        i = i + 1;
    }
    assert(params_view(params@) =~= param_list(clauses_view(clauses@)));
    params
}

impl AdFilter {
    /// Turns the filter into its clause list. Both the bounded page
    /// query and the cursor declaration are built from this one list.
    pub fn clauses(&self) -> (list: Vec<Clause>)
        ensures
            clauses_view(list@) == clause_list(self@),
            list.len() <= 6,
    {
        let mut list: Vec<Clause> = Vec::new();
        assert(clauses_view(list@) =~= Seq::<ClauseView>::empty());
        if let Some(t) = &self.title_contains {
            push_clause(&mut list, Clause::TitleContains(t.clone()));
        }
        if let Some(t) = &self.description_contains {
            push_clause(&mut list, Clause::DescriptionContains(t.clone()));
        }
        if let Some(d) = &self.price_lt {
            push_clause(&mut list, Clause::PriceLessThan(*d));
        }
        if let Some(d) = &self.price_gt {
            push_clause(&mut list, Clause::PriceGreaterThan(*d));
        }
        if let Some(t) = &self.updated_at_lt {
            push_clause(&mut list, Clause::UpdatedBefore(*t));
        }
        if let Some(t) = &self.updated_at_gt {
            push_clause(&mut list, Clause::UpdatedAfter(*t));
        }
        proof {
            lemma_one_clause_per_field(self@);
            assert(clauses_view(list@).len() == list@.len());
        }
        list
    }
}

} // verus!
