//! The decisions of the HTTP surface: request defaults, page numbering,
//! identifier parsing and the status each outcome maps to.

use crate::filter::{empty_filter, AdFilter};
use crate::model::Ad;
use crate::numeral::{integer_from, parse_integer};
use crate::literal::{filter_of_raw, parse_filter, RawAdFilter};
use crate::matching::filter_valid;
use crate::repo::{ErrorKind, RepoError};
use vstd::prelude::*;

verus! {

/// The statuses the ad endpoints answer with.
#[derive(Clone, Copy, Debug, PartialEq, Eq, Structural)]
pub enum Status {
    Success,
    NoContent,
    BadRequest,
    NotFound,
    InternalServerError,
}

impl Status {
    /// The numeric status code.
    pub fn code(&self) -> (code: u16)
        ensures
            code == match *self {
                Status::Success => 200u16,
                Status::NoContent => 204u16,
                Status::BadRequest => 400u16,
                Status::NotFound => 404u16,
                Status::InternalServerError => 500u16,
            },
    {
        match self {
            Status::Success => 200,
            Status::NoContent => 204,
            Status::BadRequest => 400,
            Status::NotFound => 404,
            Status::InternalServerError => 500,
        }
    }
}

/// The page size used when a listing request names none.
pub const DEFAULT_PER_PAGE: u32 = 10;

/// The body of a listing request; every part is optional.
#[derive(Clone, Debug, PartialEq, Eq)]
pub struct PageRequest {
    pub per_page: Option<u32>,
    pub offset: Option<u32>,
    pub filters: Option<AdFilter>,
}

/// A listing request with its defaults filled in.
#[derive(Clone, Debug, PartialEq, Eq)]
pub struct PageParams {
    pub offset: u32,
    pub per_page: u32,
    pub filter: AdFilter,
}

/// One page of a listing.
#[derive(Clone, Debug, PartialEq, Eq)]
pub struct Page {
    pub page: u64,
    pub items: Vec<Ad>,
}

/// Fills in the defaults of a listing request: ten per page, from the
/// first row, unfiltered. A request without a body is all defaults.
pub fn page_params(request: Option<PageRequest>) -> (params: PageParams)
    ensures
        params.per_page == match request {
            Some(r) => match r.per_page {
                Some(n) => n,
                None => DEFAULT_PER_PAGE,
            },
            None => DEFAULT_PER_PAGE,
        },
        params.offset == match request {
            Some(r) => match r.offset {
                Some(n) => n,
                None => 0u32,
            },
            None => 0u32,
        },
        params.filter@ == match request {
            Some(r) => match r.filters {
                Some(f) => f@,
                None => empty_filter(),
            },
            None => empty_filter(),
        },
{
    match request {
        Some(r) => {
            let per_page = match r.per_page {
                Some(n) => n,
                None => DEFAULT_PER_PAGE,
            };
            let offset = match r.offset {
                Some(n) => n,
                None => 0,
            };
            let filter = match r.filters {
                Some(f) => f,
                None => AdFilter::default(),
            };
            PageParams { offset, per_page, filter }
        },
        None => PageParams { offset: 0, per_page: DEFAULT_PER_PAGE, filter: AdFilter::default() },
    }
}

/// The one-based number of the page that starts at `offset`. With a page
/// size of zero every page is empty, and the listing counts as its first
/// page.
pub open spec fn page_of(offset: nat, per_page: nat) -> nat {
    if per_page == 0 {
        1
    } else {
        offset / per_page + 1
    }
}

/// The one-based page number for an offset; derived, never stored. It is
/// defined for every offset and page size, and wide enough for the largest.
pub fn page_number(offset: u32, per_page: u32) -> (page: u64)
    ensures
        page == page_of(offset as nat, per_page as nat),
        page >= 1,
{
    if per_page == 0 {
        1
    } else {
        (offset / per_page) as u64 + 1
    }
}

/// The status that reports a repository error. The surface does not tell
/// the kinds of fault apart: each is answered as a server fault.
pub open spec fn status_of(kind: ErrorKind) -> Status {
    Status::InternalServerError
}

/// The status that reports a repository error.
pub fn error_status(error: &RepoError) -> (status: Status)
    ensures
        status == status_of(error.kind),
{
    Status::InternalServerError
}

/// The body of a listing request as a client writes it: the filter's
/// bounds are still texts.
#[derive(Clone, Debug, PartialEq, Eq)]
pub struct RawPageRequest {
    pub per_page: Option<u32>,
    pub offset: Option<u32>,
    pub filters: Option<RawAdFilter>,
}

/// Reads the filter of a listing request, before storage is asked. Fails
/// with a filter parse error exactly when a present bound is malformed;
/// page size and offset pass through.
pub fn read_page_request(raw: RawPageRequest) -> (r: Result<PageRequest, RepoError>)
    ensures
        match r {
            Ok(request) => {
                &&& request.per_page == raw.per_page
                &&& request.offset == raw.offset
                &&& match raw.filters {
                    Some(f) => request.filters.is_some() && filter_of_raw(f) == Some(
                        request.filters.unwrap()@,
                    ) && filter_valid(request.filters.unwrap()@),
                    None => request.filters.is_none(),
                }
            },
            Err(e) => {
                &&& raw.filters.is_some()
                &&& filter_of_raw(raw.filters.unwrap()).is_none()
                &&& e.kind == ErrorKind::FilterParse
            },
        },
{
    let filters = match raw.filters {
        Some(f) => match parse_filter(f) {
            Ok(filter) => Some(filter),
            Err(e) => {
                return Err(e);
            },
        },
        None => None,
    };
    Ok(PageRequest { per_page: raw.per_page, offset: raw.offset, filters })
}

/// Answers a listing: the items with their page number, or the status of
/// the repository's error. Every offset and page size has an answer.
pub fn listing_response(
    offset: u32,
    per_page: u32,
    outcome: Result<Vec<Ad>, RepoError>,
) -> (r: Result<Page, Status>)
    ensures
        match outcome {
            Ok(items) => r == Ok::<Page, Status>(
                Page { page: page_of(offset as nat, per_page as nat) as u64, items },
            ),
            Err(e) => r == Err::<Page, Status>(status_of(e.kind)),
        },
{
    match outcome {
        Ok(items) => Ok(Page { page: page_number(offset, per_page), items }),
        Err(e) => Err(error_status(&e)),
    }
}

/// Answers a lookup: the ad, not found when no row matched, or the status
/// of the repository's error.
pub fn ad_response(outcome: Result<Option<Ad>, RepoError>) -> (r: Result<Ad, Status>)
    ensures
        match outcome {
            Ok(Some(ad)) => r == Ok::<Ad, Status>(ad),
            Ok(None) => r == Err::<Ad, Status>(Status::NotFound),
            Err(e) => r == Err::<Ad, Status>(status_of(e.kind)),
        },
{
    match outcome {
        Ok(Some(ad)) => Ok(ad),
        Ok(None) => Err(Status::NotFound),
        Err(e) => Err(error_status(&e)),
    }
}

/// The identifier a path segment denotes: an optional sign, then one or
/// more decimal digits, whose value fits in 32 bits. Anything else denotes
/// none.
pub open spec fn parse_id(s: Seq<char>) -> Option<int> {
    parse_integer(s, i32::MIN as int, i32::MAX as int)
}

/// Parses the identifier in a path segment.
pub fn ad_id_from(text: &str) -> (id: Option<i32>)
    ensures
        match id {
            Some(v) => parse_id(text@) == Some(v as int),
            None => parse_id(text@).is_none(),
        },
{
    match integer_from(text, i32::MIN as i64, i32::MAX as i64) {
        Some(v) => Some(v as i32),
        None => None,
    }
}

/// Reads the identifier of a lookup request. A segment that denotes no
/// identifier is a client error, decided before storage is asked and
/// distinct from an identifier that matches no row.
pub fn ad_request(id_text: &str) -> (r: Result<i32, Status>)
    ensures
        match parse_id(id_text@) {
            Some(v) => r == Ok::<i32, Status>(v as i32),
            None => r == Err::<i32, Status>(Status::BadRequest),
        },
{
    match ad_id_from(id_text) {
        Some(id) => Ok(id),
        None => Err(Status::BadRequest),
    }
}

} // verus!
