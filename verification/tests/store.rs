use bazaars::filter::AdFilter;
use bazaars::model::{Ad, AdContent, Decimal, Timestamp};
use bazaars::repo::ErrorKind;
use bazaars::store::MemoryAdRepo;

fn content(title: &str, price: i64) -> AdContent {
    AdContent {
        title: title.to_string(),
        description: "Test Description".to_string(),
        price: Decimal::from_units(price),
        user_email: "test@test.com".to_string(),
        user_phone: "1234567890".to_string(),
        top_ad: false,
    }
}

fn title_filter(term: &str) -> AdFilter {
    AdFilter {
        title_contains: Some(term.to_string()),
        description_contains: None,
        price_lt: None,
        price_gt: None,
        updated_at_lt: None,
        updated_at_gt: None,
    }
}

fn ids(ads: &[Ad]) -> Vec<i32> {
    ads.iter().map(|ad| ad.id).collect()
}

fn ten_test_ads() -> MemoryAdRepo {
    let mut repo = MemoryAdRepo::new();
    for i in 0..10 {
        repo.create_at(content("Test Ad", 100), vec![], Timestamp { micros: i })
            .expect("Failed to create ad");
    }
    repo
}

#[test]
fn test_ad_repo() {
    let mut ad_repo = MemoryAdRepo::new();

    for _ in 0..10 {
        let ad = AdContent {
            title: "Test Ad".to_string(),
            description: "Test Description".to_string(),
            price: Decimal::from_units(100),
            user_email: "test@test.com".to_string(),
            user_phone: "1234567890".to_string(),
            top_ad: false,
        };

        ad_repo.create(ad, vec![]).expect("Failed to create ad");
    }

    let cursor_name = ad_repo.new_cursor(&title_filter("test")).expect("Failed to get cursor");

    let ads = ad_repo.fetch_from_cursor(cursor_name, 2);

    if ads.is_err() {
        println!("{:?}", ads);
    }

    assert_eq!(ads.is_ok(), true);
    assert_eq!(ads.unwrap().len(), 2);
}

#[test]
fn cursor_yields_every_row_in_batches_of_two() {
    let mut repo = ten_test_ads();
    let name = repo.new_cursor(&title_filter("test")).unwrap();
    let mut total = 0;
    let mut seen = Vec::new();
    loop {
        let batch = repo.fetch_from_cursor(name.clone(), 2).unwrap();
        total += batch.len();
        seen.extend(ids(&batch));
        if batch.len() < 2 {
            assert_eq!(batch.len(), 0);
            break;
        }
    }
    assert_eq!(total, 10);
    assert_eq!(seen, (1..=10).collect::<Vec<i32>>());
    assert_eq!(repo.fetch_from_cursor(name, 2).unwrap().len(), 0);
}

#[test]
fn short_final_batch() {
    let mut repo = ten_test_ads();
    let name = repo.new_cursor(&AdFilter::default()).unwrap();
    assert_eq!(ids(&repo.fetch_from_cursor(name.clone(), 4).unwrap()), vec![1, 2, 3, 4]);
    assert_eq!(ids(&repo.fetch_from_cursor(name.clone(), 4).unwrap()), vec![5, 6, 7, 8]);
    assert_eq!(ids(&repo.fetch_from_cursor(name.clone(), 4).unwrap()), vec![9, 10]);
    assert_eq!(ids(&repo.fetch_from_cursor(name, 4).unwrap()), Vec::<i32>::new());
}

#[test]
fn paging_and_cursor_return_the_same_ids() {
    let mut repo = MemoryAdRepo::new();
    let titles = ["Red bike", "Blue car", "BIKE rack", "Boat", "bikes", "Motorbike"];
    for (i, title) in titles.iter().enumerate() {
        repo.create_at(content(title, 10 * (i as i64 + 1)), vec![], Timestamp { micros: i as i64 })
            .unwrap();
    }
    let filter = AdFilter {
        title_contains: Some("bike".to_string()),
        description_contains: Some("test".to_string()),
        price_lt: Some(Decimal::from_units(60)),
        price_gt: Some(Decimal { mantissa: 105, scale: 1 }),
        updated_at_lt: None,
        updated_at_gt: Some(Timestamp { micros: 0 }),
    };
    let paged = ids(&repo.get_page(0, 100, &filter));
    assert_eq!(paged, vec![3, 5]);

    let name = repo.new_cursor(&filter).unwrap();
    let fetched = ids(&repo.fetch_from_cursor(name, 255).unwrap());
    assert_eq!(fetched, paged);

    let first = ids(&repo.get_page(0, 1, &filter));
    let second = ids(&repo.get_page(1, 1, &filter));
    assert_eq!([first, second].concat(), paged);
}

#[test]
fn cursor_rows_are_fixed_at_declaration() {
    let mut repo = ten_test_ads();
    let name = repo.new_cursor(&title_filter("test")).unwrap();
    assert_eq!(repo.delete(1), 1);
    repo.create_at(content("Test Ad", 1), vec![], Timestamp { micros: 99 }).unwrap();
    let fetched = ids(&repo.fetch_from_cursor(name, 255).unwrap());
    assert_eq!(fetched, (1..=10).collect::<Vec<i32>>());
    assert_eq!(ids(&repo.get_page(0, 100, &title_filter("test"))), (2..=11).collect::<Vec<i32>>());
}

#[test]
fn created_ad_round_trips() {
    let mut repo = MemoryAdRepo::new();
    let c = AdContent {
        title: "Sofa".to_string(),
        description: "Three seats".to_string(),
        price: Decimal { mantissa: 14999, scale: 2 },
        user_email: "a@b.c".to_string(),
        user_phone: "555".to_string(),
        top_ad: true,
    };
    let images = vec!["img-2".to_string(), "img-1".to_string(), "img-3".to_string()];
    let now = Timestamp { micros: 1_700_000_000_000_000 };
    let created = repo.create_at(c.clone(), images.clone(), now).unwrap();
    assert_eq!(created.id, 1);
    assert_eq!(created.status, "active");
    assert_eq!(created.created_at, now);
    assert_eq!(created.updated_at, now);

    let found = repo.get_by_id(created.id).expect("created ad is found");
    assert_eq!(found, created);
    assert_eq!(found.title, c.title);
    assert_eq!(found.description, c.description);
    assert_eq!(found.price, c.price);
    assert_eq!(found.user_email, c.user_email);
    assert_eq!(found.user_phone, c.user_phone);
    assert_eq!(found.top_ad, c.top_ad);
    assert_eq!(found.images, images);

    let second = repo.create_at(c, vec![], now).unwrap();
    assert_eq!(second.id, 2);
}

#[test]
fn missing_id_is_none() {
    let repo = ten_test_ads();
    assert_eq!(repo.get_by_id(11), None);
    assert_eq!(repo.get_by_id(0), None);
    assert_eq!(repo.get_by_id(-1), None);
    assert_eq!(repo.get_by_id(10).map(|ad| ad.id), Some(10));
}

#[test]
fn delete_twice_counts_one_then_zero() {
    let mut repo = ten_test_ads();
    assert_eq!(repo.delete(4), 1);
    assert_eq!(repo.delete(4), 0);
    assert_eq!(repo.get_by_id(4), None);
    assert_eq!(ids(&repo.get_page(0, 100, &AdFilter::default())), vec![1, 2, 3, 5, 6, 7, 8, 9, 10]);
    assert_eq!(repo.delete(500), 0);
}

#[test]
fn zero_sized_page_and_fetch_are_empty() {
    let mut repo = ten_test_ads();
    assert_eq!(repo.get_page(0, 0, &AdFilter::default()).len(), 0);
    assert_eq!(repo.get_page(3, 0, &title_filter("test")).len(), 0);
    let name = repo.new_cursor(&AdFilter::default()).unwrap();
    assert_eq!(repo.fetch_from_cursor(name.clone(), 0).unwrap().len(), 0);
    assert_eq!(repo.fetch_from_cursor(name, 255).unwrap().len(), 10);
}

#[test]
fn page_beyond_the_last_is_empty() {
    let repo = ten_test_ads();
    assert_eq!(repo.get_page(10, 5, &AdFilter::default()).len(), 0);
    assert_eq!(repo.get_page(u32::MAX, u32::MAX, &AdFilter::default()).len(), 0);
    assert_eq!(ids(&repo.get_page(8, 5, &AdFilter::default())), vec![9, 10]);
    assert_eq!(ids(&repo.get_page(2, 3, &AdFilter::default())), vec![3, 4, 5]);
}

#[test]
fn update_replaces_the_row_but_not_its_id() {
    let mut repo = ten_test_ads();
    let mut changed = repo.get_by_id(3).unwrap();
    changed.id = 77;
    changed.title = "Changed".to_string();
    changed.status = "sold".to_string();
    changed.price = Decimal { mantissa: 5, scale: 1 };
    let stored = repo.update(3, changed.clone()).unwrap();
    assert_eq!(stored.id, 3);
    assert_eq!(stored.title, "Changed");
    assert_eq!(stored.status, "sold");
    assert_eq!(repo.get_by_id(3), Some(stored));
    assert_eq!(repo.get_by_id(77), None);
    assert_eq!(ids(&repo.get_page(0, 100, &AdFilter::default())), (1..=10).collect::<Vec<i32>>());

    let missing = repo.update(42, changed).unwrap_err();
    assert_eq!(missing.kind, ErrorKind::Storage);
}

#[test]
fn unknown_cursor_is_a_fetch_error() {
    let mut repo = ten_test_ads();
    let e = repo.fetch_from_cursor("c_0000000000".to_string(), 2).unwrap_err();
    assert_eq!(e.kind, ErrorKind::CursorFetch);
}

#[test]
fn duplicate_cursor_name_is_a_creation_error() {
    let mut repo = ten_test_ads();
    assert_eq!(repo.declare_cursor("c_0000000000".to_string(), &AdFilter::default()), Ok(()));
    let e = repo.declare_cursor("c_0000000000".to_string(), &title_filter("x")).unwrap_err();
    assert_eq!(e.kind, ErrorKind::CursorCreation);
    assert_eq!(repo.fetch_from_cursor("c_0000000000".to_string(), 255).unwrap().len(), 10);
}

#[test]
fn price_and_time_bounds_are_strict() {
    let mut repo = MemoryAdRepo::new();
    for i in 1..=5 {
        repo.create_at(content("Ad", i * 10), vec![], Timestamp { micros: i }).unwrap();
    }
    let mut filter = AdFilter::default();
    filter.price_lt = Some(Decimal::from_units(30));
    assert_eq!(ids(&repo.get_page(0, 10, &filter)), vec![1, 2]);
    filter.price_lt = None;
    filter.price_gt = Some(Decimal { mantissa: 3000, scale: 2 });
    assert_eq!(ids(&repo.get_page(0, 10, &filter)), vec![4, 5]);
    filter.updated_at_lt = Some(Timestamp { micros: 5 });
    assert_eq!(ids(&repo.get_page(0, 10, &filter)), vec![4]);
    filter.updated_at_gt = Some(Timestamp { micros: 4 });
    assert_eq!(ids(&repo.get_page(0, 10, &filter)), Vec::<i32>::new());
}

#[test]
fn create_stamps_both_times_from_the_clock() {
    let mut repo = MemoryAdRepo::new();
    let row = repo.create(content("Now", 1), vec!["i".to_string()]).unwrap();
    assert_eq!(row.id, 1);
    assert_eq!(row.status, "active");
    assert_eq!(row.created_at, row.updated_at);
    assert!(row.created_at.micros > 1_600_000_000_000_000);
    assert_eq!(repo.get_by_id(1), Some(row));
}

#[test]
fn closed_cursor_is_gone() {
    let mut repo = ten_test_ads();
    let first = repo.new_cursor(&AdFilter::default()).unwrap();
    assert_eq!(repo.declare_cursor("c_0000000000".to_string(), &AdFilter::default()), Ok(()));
    assert!(repo.close_cursor(first.clone()));
    assert!(!repo.close_cursor(first.clone()));
    let e = repo.fetch_from_cursor(first, 1).unwrap_err();
    assert_eq!(e.kind, ErrorKind::CursorFetch);
    assert_eq!(ids(&repo.fetch_from_cursor("c_0000000000".to_string(), 1).unwrap()), vec![1]);
    assert!(!repo.close_cursor("c_ffffffffff".to_string()));
}

#[test]
fn first_cursor_is_always_declared() {
    for _ in 0..50 {
        let mut repo = ten_test_ads();
        let name = repo.new_cursor(&title_filter("test")).expect("no cursor is open yet");
        assert_eq!(name.len(), 12);
        assert_eq!(ids(&repo.fetch_from_cursor(name, 255).unwrap()), (1..=10).collect::<Vec<i32>>());
    }
}

#[test]
fn fetching_to_exhaustion_equals_one_large_page() {
    let mut repo = MemoryAdRepo::new();
    let titles = ["Red bike", "Blue car", "BIKE rack", "Boat", "bikes", "Motorbike", "bike"];
    for (i, title) in titles.iter().enumerate() {
        repo.create_at(content(title, 10), vec![], Timestamp { micros: i as i64 }).unwrap();
    }
    let filter = title_filter("bike");
    let page = ids(&repo.get_page(0, u32::MAX, &filter));
    for count in [1u8, 2, 3, 255] {
        let name = repo.new_cursor(&filter).unwrap();
        let mut fetched = Vec::new();
        loop {
            let batch = repo.fetch_from_cursor(name.clone(), count).unwrap();
            if batch.is_empty() {
                break;
            }
            fetched.extend(ids(&batch));
        }
        assert_eq!(fetched, page);
        assert_eq!(fetched, vec![1, 3, 5, 6, 7]);
        assert!(repo.close_cursor(name));
    }
}

#[test]
fn fetch_all_drains_the_cursor() {
    let mut repo = ten_test_ads();
    let filter = title_filter("TEST");
    let page = repo.get_page(0, u32::MAX, &filter);
    let name = repo.new_cursor(&filter).unwrap();
    assert_eq!(ids(&repo.fetch_from_cursor(name.clone(), 3).unwrap()), vec![1, 2, 3]);
    let rest = repo.fetch_all(name.clone(), 4).unwrap();
    assert_eq!(ids(&rest), vec![4, 5, 6, 7, 8, 9, 10]);
    assert_eq!(repo.fetch_all(name.clone(), 4).unwrap(), Vec::<Ad>::new());
    assert_eq!(repo.fetch_from_cursor(name, 1).unwrap(), Vec::<Ad>::new());

    let fresh = repo.new_cursor(&filter).unwrap();
    assert_eq!(repo.fetch_all(fresh, 255).unwrap(), page);
}

#[test]
fn fetch_all_with_count_zero_moves_nothing() {
    let mut repo = ten_test_ads();
    let name = repo.new_cursor(&AdFilter::default()).unwrap();
    assert_eq!(repo.fetch_all(name.clone(), 0).unwrap(), Vec::<Ad>::new());
    assert_eq!(repo.fetch_all(name, 1).unwrap().len(), 10);
}

#[test]
fn fetch_all_of_an_unknown_cursor_fails() {
    let mut repo = ten_test_ads();
    let e = repo.fetch_all("c_0000000000".to_string(), 2).unwrap_err();
    assert_eq!(e.kind, ErrorKind::CursorFetch);
}
