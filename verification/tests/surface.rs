use bazaars::filter::AdFilter;
use bazaars::images::{
    loaded_image, new_image_id, parts_complete, ImageMetadata, ImagePart, LocalImageRepo,
};
use bazaars::matching::{contains, like};
use bazaars::model::{copy_texts, power_of_ten, Ad, AdContent, Decimal, Timestamp};
use bazaars::repo::{ErrorKind, RepoError};
use bazaars::literal::RawAdFilter;
use bazaars::routes::{
    ad_id_from, ad_request, ad_response, error_status, listing_response, page_number, page_params,
    read_page_request, Page, PageRequest, RawPageRequest, Status, DEFAULT_PER_PAGE,
};

fn sample_ad(id: i32) -> Ad {
    Ad::from_content(
        id,
        AdContent {
            title: "Test Ad".to_string(),
            description: "Test Description".to_string(),
            price: Decimal::from_units(100),
            user_email: "test@test.com".to_string(),
            user_phone: "1234567890".to_string(),
            top_ad: false,
        },
        vec!["a".to_string()],
        Timestamp { micros: 5 },
    )
}

fn storage_error() -> RepoError {
    RepoError { kind: ErrorKind::Storage, cause: "broken".to_string() }
}

#[test]
fn identifiers_parse_like_integers() {
    assert_eq!(ad_id_from("42"), Some(42));
    assert_eq!(ad_id_from("0"), Some(0));
    assert_eq!(ad_id_from("007"), Some(7));
    assert_eq!(ad_id_from("-7"), Some(-7));
    assert_eq!(ad_id_from("+5"), Some(5));
    assert_eq!(ad_id_from("-0"), Some(0));
    assert_eq!(ad_id_from("2147483647"), Some(i32::MAX));
    assert_eq!(ad_id_from("-2147483648"), Some(i32::MIN));
}

#[test]
fn malformed_identifiers_are_rejected() {
    for text in
        ["", "abc", "-", "+", "1 ", " 1", "1.0", "12a", "--1", "+-1", "2147483648", "-2147483649", "99999999999999999999", "١٢"]
    {
        assert_eq!(ad_id_from(text), None, "{:?}", text);
        assert_eq!(text.parse::<i32>().ok(), None, "{:?}", text);
    }
}

#[test]
fn identifier_parsing_agrees_with_std() {
    for text in ["1", "+1", "-1", "000", "2147483647", "2147483648", "-2147483648", "4x", "x4", ""] {
        assert_eq!(ad_id_from(text), text.parse::<i32>().ok(), "{:?}", text);
    }
}

#[test]
fn non_numeric_id_is_a_client_error_not_a_miss() {
    assert_eq!(ad_request("abc"), Err(Status::BadRequest));
    assert_eq!(ad_request("12"), Ok(12));
    assert_eq!(ad_response(Ok(None)), Err(Status::NotFound));
    assert_ne!(Status::BadRequest, Status::NotFound);
    assert_ne!(Status::BadRequest.code(), Status::NotFound.code());
}

#[test]
fn lookup_outcomes_map_to_statuses() {
    assert_eq!(ad_response(Ok(Some(sample_ad(3)))), Ok(sample_ad(3)));
    assert_eq!(ad_response(Ok(None)), Err(Status::NotFound));
    assert_eq!(ad_response(Err(storage_error())), Err(Status::InternalServerError));
}

#[test]
fn status_codes() {
    assert_eq!(Status::Success.code(), 200);
    assert_eq!(Status::NoContent.code(), 204);
    assert_eq!(Status::BadRequest.code(), 400);
    assert_eq!(Status::NotFound.code(), 404);
    assert_eq!(Status::InternalServerError.code(), 500);
}

#[test]
fn page_numbers_are_one_based() {
    assert_eq!(page_number(0, 10), 1);
    assert_eq!(page_number(9, 10), 1);
    assert_eq!(page_number(10, 10), 2);
    assert_eq!(page_number(25, 10), 3);
    assert_eq!(page_number(u32::MAX, 2), 2_147_483_648);
    assert_eq!(page_number(u32::MAX - 1, 1), 4_294_967_295);
    assert_eq!(page_number(u32::MAX, 1), 4_294_967_296);
    assert_eq!(page_number(u32::MAX, u32::MAX), 2);
}

#[test]
fn page_size_zero_counts_as_the_first_page() {
    assert_eq!(page_number(0, 0), 1);
    assert_eq!(page_number(500, 0), 1);
    assert_eq!(page_number(u32::MAX, 0), 1);
    assert_eq!(listing_response(7, 0, Ok(vec![])), Ok(Page { page: 1, items: vec![] }));
}

#[test]
fn largest_offset_has_a_page_number() {
    let items = vec![sample_ad(1)];
    assert_eq!(
        listing_response(u32::MAX, 1, Ok(items.clone())),
        Ok(Page { page: 4_294_967_296, items })
    );
}

#[test]
fn every_error_kind_is_a_server_fault() {
    for kind in [
        ErrorKind::Pool,
        ErrorKind::FilterParse,
        ErrorKind::CursorCreation,
        ErrorKind::CursorFetch,
        ErrorKind::Storage,
    ] {
        let e = RepoError { kind, cause: "x".to_string() };
        assert_eq!(error_status(&e), Status::InternalServerError);
        assert_eq!(listing_response(0, 10, Err(e.clone())), Err(Status::InternalServerError));
        assert_eq!(ad_response(Err(e)), Err(Status::InternalServerError));
    }
}

fn raw_filter() -> RawAdFilter {
    RawAdFilter {
        title_contains: Some("bike".to_string()),
        description_contains: None,
        price_lt: Some("19.99".to_string()),
        price_gt: None,
        updated_at_lt: None,
        updated_at_gt: None,
    }
}

#[test]
fn page_request_reads_its_filter() {
    let read = read_page_request(RawPageRequest {
        per_page: Some(0),
        offset: Some(9),
        filters: Some(raw_filter()),
    });
    let mut filter = AdFilter::default();
    filter.title_contains = Some("bike".to_string());
    filter.price_lt = Some(Decimal { mantissa: 1999, scale: 2 });
    assert_eq!(read, Ok(PageRequest { per_page: Some(0), offset: Some(9), filters: Some(filter) }));

    let bare = read_page_request(RawPageRequest { per_page: None, offset: None, filters: None });
    assert_eq!(bare, Ok(PageRequest { per_page: None, offset: None, filters: None }));
}

#[test]
fn page_request_with_a_malformed_bound_fails() {
    let mut filters = raw_filter();
    filters.price_lt = Some("cheap".to_string());
    let e = read_page_request(RawPageRequest { per_page: None, offset: None, filters: Some(filters) })
        .unwrap_err();
    assert_eq!(e.kind, ErrorKind::FilterParse);
    assert_eq!(e.cause, "cheap");
    assert_eq!(error_status(&e), Status::InternalServerError);
}

#[test]
fn listing_defaults() {
    let params = page_params(None);
    assert_eq!(params.per_page, 10);
    assert_eq!(params.per_page, DEFAULT_PER_PAGE);
    assert_eq!(params.offset, 0);
    assert_eq!(params.filter, AdFilter::default());

    let params = page_params(Some(PageRequest { per_page: None, offset: Some(30), filters: None }));
    assert_eq!(params.per_page, 10);
    assert_eq!(params.offset, 30);

    let mut filter = AdFilter::default();
    filter.title_contains = Some("x".to_string());
    let params = page_params(Some(PageRequest {
        per_page: Some(5),
        offset: None,
        filters: Some(filter.clone()),
    }));
    assert_eq!(params.per_page, 5);
    assert_eq!(params.offset, 0);
    assert_eq!(params.filter, filter);
}

#[test]
fn listing_outcomes_map_to_responses() {
    let items = vec![sample_ad(1), sample_ad(2)];
    assert_eq!(
        listing_response(20, 10, Ok(items.clone())),
        Ok(Page { page: 3, items })
    );
    assert_eq!(listing_response(0, 10, Err(storage_error())), Err(Status::InternalServerError));
    assert_eq!(listing_response(0, 0, Err(storage_error())), Err(Status::InternalServerError));
}

#[test]
fn image_paths() {
    let repo = LocalImageRepo::new("images".to_string());
    assert_eq!(repo.image_dir(), "images");
    assert_eq!(repo.content_path("abc"), "images/abc");
    assert_eq!(repo.meta_path("abc"), "images/abc.meta");
}

#[test]
fn loaded_image_keeps_content_and_metadata() {
    let image = loaded_image(
        "abc",
        vec![1, 2, 3],
        ImageMetadata { file_name: "cat.png".to_string(), mime_type: "image/png".to_string() },
    );
    assert_eq!(image.id, Some("abc".to_string()));
    assert_eq!(image.file_name, "cat.png");
    assert_eq!(image.mime_type, "image/png");
    assert_eq!(image.bytes, vec![1, 2, 3]);
}

#[test]
fn image_ids_are_hyphenated_uuids() {
    let id = new_image_id();
    assert_eq!(id.len(), 36);
    for (i, c) in id.chars().enumerate() {
        if i == 8 || i == 13 || i == 18 || i == 23 {
            assert_eq!(c, '-');
        } else {
            assert!(c.is_ascii_digit() || ('a'..='f').contains(&c), "{}", id);
        }
    }
    assert_ne!(id, new_image_id());
}

#[test]
fn one_incomplete_part_fails_the_upload() {
    let whole = ImagePart {
        file_name: Some("a.png".to_string()),
        content_type: Some("image/png".to_string()),
        bytes: vec![1],
    };
    let nameless = ImagePart { file_name: None, ..whole.clone() };
    let typeless = ImagePart { content_type: None, ..whole.clone() };
    assert!(parts_complete(&vec![]));
    assert!(parts_complete(&vec![whole.clone(), whole.clone()]));
    assert!(!parts_complete(&vec![whole.clone(), nameless]));
    assert!(!parts_complete(&vec![typeless, whole]));
}

#[test]
fn decimals_compare_by_value() {
    let a = Decimal { mantissa: 15, scale: 1 };
    let b = Decimal::from_units(2);
    assert!(a.lt(&b));
    assert!(!b.lt(&a));
    let one = Decimal::from_units(1);
    let also_one = Decimal { mantissa: 10, scale: 1 };
    assert!(!one.lt(&also_one));
    assert!(!also_one.lt(&one));
    let low = Decimal { mantissa: i64::MIN, scale: 0 };
    let high = Decimal { mantissa: i64::MAX, scale: 18 };
    assert!(low.lt(&high));
    assert!(!high.lt(&low));
    assert!(Decimal { mantissa: -3, scale: 2 }.lt(&Decimal { mantissa: -2, scale: 2 }));
    assert_eq!(Decimal::new(5, 18), Some(Decimal { mantissa: 5, scale: 18 }));
    assert_eq!(Decimal::new(5, 19), None);
}

#[test]
fn text_clauses_ignore_case() {
    assert!(contains("Test Ad", "test"));
    assert!(contains("Test Ad", "AD"));
    assert!(contains("Test Ad", ""));
    assert!(contains("", ""));
    assert!(!contains("Test Ad", "bike"));
    assert!(!contains("", "a"));
}

#[test]
fn patterns_know_wildcards_and_escapes() {
    assert!(like("t_st", "TEST"));
    assert!(!like("t_st", "tst"));
    assert!(like("%", ""));
    assert!(like("a%c", "abbbc"));
    assert!(!like("a%c", "abbbd"));
    assert!(like("50\\%", "50%"));
    assert!(!like("50\\%", "500"));
    assert!(!like("abc\\", "abc"));
    assert!(contains("a_b", "_"));
    assert!(!like("abc", "abcd"));
}

#[test]
fn powers_of_ten() {
    assert_eq!(power_of_ten(0), 1);
    assert_eq!(power_of_ten(1), 10);
    assert_eq!(power_of_ten(6), 1_000_000);
    assert_eq!(power_of_ten(18), 1_000_000_000_000_000_000);
}

#[test]
fn new_ad_is_active_and_stamped_once() {
    let ad = sample_ad(9);
    assert_eq!(ad.id, 9);
    assert_eq!(ad.status, "active");
    assert_eq!(ad.title, "Test Ad");
    assert_eq!(ad.description, "Test Description");
    assert_eq!(ad.price, Decimal { mantissa: 100, scale: 0 });
    assert_eq!(ad.user_email, "test@test.com");
    assert_eq!(ad.user_phone, "1234567890");
    assert!(!ad.top_ad);
    assert_eq!(ad.created_at, Timestamp { micros: 5 });
    assert_eq!(ad.updated_at, Timestamp { micros: 5 });
    assert_eq!(ad.images, vec!["a".to_string()]);
}

#[test]
fn copies_are_equal() {
    let ad = sample_ad(2);
    assert_eq!(ad.duplicate(), ad);
    let texts = vec!["b".to_string(), "a".to_string(), "b".to_string()];
    assert_eq!(copy_texts(&texts), texts);
    assert_eq!(copy_texts(&Vec::new()), Vec::<String>::new());
}
