use audible_provider::audible::narrow_to_search_item;
use audible_provider::audible::AudibleCategoryLadderCollection;
use audible_provider::audible::AudibleConfig;
use audible_provider::audible::AudibleItem;
use audible_provider::audible::AudiblePoster;
use audible_provider::audible::AudibleService;
use audible_provider::audible::SearchQuery;
use audible_provider::models::MediaDetails;
use audible_provider::models::MediaSpecifics;
use audible_provider::models::MetadataImage;
use audible_provider::models::MetadataImageLot;
use audible_provider::models::MetadataImageUrl;
use audible_provider::models::MetadataLot;
use audible_provider::models::MetadataSource;
use audible_provider::models::NamedObject;
use audible_provider::models::ProviderError;

fn service() -> AudibleService {
    AudibleService::new(&AudibleConfig {
        locale: "us".to_string(),
    })
}

fn named(names: &[&str]) -> Vec<NamedObject> {
    names
        .iter()
        .map(|n| NamedObject {
            name: n.to_string(),
        })
        .collect()
}

fn sample_item(asin: &str) -> AudibleItem {
    AudibleItem {
        asin: asin.to_string(),
        title: "The Fall of Arthur".to_string(),
        authors: Some(named(&["J. R. R. Tolkien"])),
        narrators: Some(named(&["Christopher Lee"])),
        product_images: AudiblePoster {
            image: Some("https://m.media.example/poster.jpg".to_string()),
        },
        merchandising_summary: Some("A short pitch.".to_string()),
        publisher_summary: Some("The full summary.".to_string()),
        release_date: Some("2013-05-23".to_string()),
        runtime_length_min: Some(238),
        category_ladders: Some(vec![AudibleCategoryLadderCollection {
            ladder: named(&["Fiction", "Fantasy"]),
        }]),
    }
}

#[test]
fn fixed_fields_round_trip() {
    let d = service()
        .audible_response_to_search_response(sample_item("B00C5VDLQA"))
        .unwrap();
    assert_eq!(d.identifier, "B00C5VDLQA");
    assert_eq!(d.lot, MetadataLot::AudioBook);
    assert_eq!(d.source, MetadataSource::Audible);
    assert_eq!(d.title, "The Fall of Arthur");
}

#[test]
fn normalization_is_idempotent() {
    let svc = service();
    let d1 = svc
        .audible_response_to_search_response(sample_item("B00C5VDLQA"))
        .unwrap();
    let d2 = svc
        .audible_response_to_search_response(sample_item("B00C5VDLQA"))
        .unwrap();
    assert_eq!(d1, d2);
}

#[test]
fn empty_identifier_fails_the_item() {
    let r = service().audible_response_to_search_response(sample_item(""));
    assert_eq!(r.unwrap_err(), ProviderError::UpstreamShape);
}

#[test]
fn genres_flatten_and_deduplicate() {
    let mut item = sample_item("a");
    item.category_ladders = Some(vec![
        AudibleCategoryLadderCollection {
            ladder: named(&["A"]),
        },
        AudibleCategoryLadderCollection {
            ladder: named(&["B", "A"]),
        },
    ]);
    let d = service().audible_response_to_search_response(item).unwrap();
    assert_eq!(d.genres.len(), 2);
    assert!(d.genres.contains(&"A".to_string()));
    assert!(d.genres.contains(&"B".to_string()));
}

#[test]
fn description_prefers_the_primary_field() {
    let d = service()
        .audible_response_to_search_response(sample_item("a"))
        .unwrap();
    assert_eq!(d.description.as_deref(), Some("The full summary."));
}

#[test]
fn description_falls_back_to_the_secondary_field() {
    let mut item = sample_item("a");
    item.publisher_summary = None;
    let d = service().audible_response_to_search_response(item).unwrap();
    assert_eq!(d.description.as_deref(), Some("A short pitch."));
}

#[test]
fn description_absent_when_both_fields_are() {
    let mut item = sample_item("a");
    item.publisher_summary = None;
    item.merchandising_summary = None;
    let d = service().audible_response_to_search_response(item).unwrap();
    assert_eq!(d.description, None);
}

#[test]
fn creators_keep_authors_before_narrators() {
    let mut item = sample_item("a");
    item.authors = Some(named(&["First Author", "Second Author"]));
    item.narrators = Some(named(&["The Narrator"]));
    let d = service().audible_response_to_search_response(item).unwrap();
    assert_eq!(d.creators.len(), 3);
    assert_eq!(d.creators[0].name, "First Author");
    assert_eq!(d.creators[0].role, "Author");
    assert_eq!(d.creators[1].name, "Second Author");
    assert_eq!(d.creators[1].role, "Author");
    assert_eq!(d.creators[2].name, "The Narrator");
    assert_eq!(d.creators[2].role, "Narrator");
    assert!(d.creators[0].image_urls.is_empty());
}

#[test]
fn missing_contributor_lists_yield_no_creators() {
    let mut item = sample_item("a");
    item.authors = None;
    item.narrators = None;
    let d = service().audible_response_to_search_response(item).unwrap();
    assert!(d.creators.is_empty());
}

#[test]
fn malformed_date_degrades_to_absent_fields() {
    let mut item = sample_item("a");
    item.release_date = Some("".to_string());
    let d = service().audible_response_to_search_response(item).unwrap();
    assert_eq!(d.publish_year, None);
    assert_eq!(d.publish_date, None);
}

#[test]
fn absent_date_behaves_like_the_empty_string() {
    let mut item = sample_item("a");
    item.release_date = None;
    let d = service().audible_response_to_search_response(item).unwrap();
    assert_eq!(d.publish_year, None);
    assert_eq!(d.publish_date, None);
}

#[test]
fn year_and_date_derive_from_the_release_date() {
    let d = service()
        .audible_response_to_search_response(sample_item("a"))
        .unwrap();
    assert_eq!(d.publish_year, Some(2013));
    let date = d.publish_date.unwrap();
    assert_eq!((date.year, date.month, date.day), (2013, 5, 23));
}

#[test]
fn runtime_lands_in_the_audio_book_specifics() {
    let d = service()
        .audible_response_to_search_response(sample_item("a"))
        .unwrap();
    match d.specifics {
        MediaSpecifics::AudioBook(s) => assert_eq!(s.runtime, Some(238)),
        _ => panic!("wrong specifics variant"),
    }
}

#[test]
fn poster_becomes_the_single_remote_image() {
    let d = service()
        .audible_response_to_search_response(sample_item("a"))
        .unwrap();
    assert_eq!(d.images.len(), 1);
    assert_eq!(d.images[0].lot, MetadataImageLot::Poster);
    assert_eq!(
        d.images[0].url,
        MetadataImageUrl::Url("https://m.media.example/poster.jpg".to_string())
    );
}

#[test]
fn absent_poster_means_no_images() {
    let mut item = sample_item("a");
    item.product_images = AudiblePoster { image: None };
    let d = service().audible_response_to_search_response(item).unwrap();
    assert!(d.images.is_empty());
}

#[test]
fn narrowing_rejects_content_addressed_images() {
    let svc = service();
    let mut d = svc
        .audible_response_to_search_response(sample_item("a"))
        .unwrap();
    d.images = vec![MetadataImage {
        url: MetadataImageUrl::S3("key".to_string()),
        lot: MetadataImageLot::Poster,
    }];
    let r = narrow_to_search_item(d);
    assert_eq!(r.unwrap_err(), ProviderError::NormalizationAssertion);
}

#[test]
fn narrowing_flattens_remote_images() {
    let svc = service();
    let d = svc
        .audible_response_to_search_response(sample_item("a"))
        .unwrap();
    let it = narrow_to_search_item(d).unwrap();
    assert_eq!(it.identifier, "a");
    assert_eq!(it.lot, MetadataLot::AudioBook);
    assert_eq!(it.title, "The Fall of Arthur");
    assert_eq!(it.publish_year, Some(2013));
    assert_eq!(it.images, vec!["https://m.media.example/poster.jpg".to_string()]);
}

#[test]
fn search_on_page_two_of_forty_five_points_to_page_three() {
    let svc = service();
    let products = vec![sample_item("x1"), sample_item("x2")];
    let env = svc
        .search_from_response(true, 200, Some((45, products)), Some(2))
        .unwrap();
    assert_eq!(env.total, 45);
    assert_eq!(env.items.len(), 2);
    assert_eq!(env.next_page, Some(3));
}

#[test]
fn search_on_the_last_page_has_no_next_cursor() {
    let svc = service();
    let env = svc
        .search_from_response(true, 200, Some((40, vec![sample_item("x")])), Some(2))
        .unwrap();
    assert_eq!(env.next_page, None);
}

#[test]
fn search_defaults_to_the_first_page() {
    let svc = service();
    let env = svc
        .search_from_response(true, 200, Some((21, vec![])), None)
        .unwrap();
    assert_eq!(env.next_page, Some(2));
}

#[test]
fn search_fails_on_transport_failure() {
    let svc = service();
    let r = svc.search_from_response(false, 0, None, Some(1));
    assert_eq!(r.unwrap_err(), ProviderError::UpstreamTransport);
}

#[test]
fn search_fails_on_an_item_without_identifier() {
    let svc = service();
    let r = svc.search_from_response(true, 200, Some((1, vec![sample_item("")])), Some(1));
    assert_eq!(r.unwrap_err(), ProviderError::UpstreamShape);
}

#[test]
fn details_of_a_nonexistent_id_is_not_found() {
    let svc = service();
    let r = svc.details_from_response(true, 404, None);
    assert_eq!(r.unwrap_err(), ProviderError::NotFound);
}

#[test]
fn details_maps_server_errors_to_transport_failures() {
    let svc = service();
    assert_eq!(
        svc.details_from_response(true, 500, None).unwrap_err(),
        ProviderError::UpstreamTransport
    );
    assert_eq!(
        svc.details_from_response(false, 0, None).unwrap_err(),
        ProviderError::UpstreamTransport
    );
}

#[test]
fn details_without_a_parsed_body_is_a_shape_failure() {
    let svc = service();
    let r = svc.details_from_response(true, 200, None);
    assert_eq!(r.unwrap_err(), ProviderError::UpstreamShape);
}

#[test]
fn details_normalizes_a_parsed_product() {
    let svc = service();
    let d = svc
        .details_from_response(true, 200, Some(sample_item("B00C5VDLQA")))
        .unwrap();
    assert_eq!(d.identifier, "B00C5VDLQA");
    assert_eq!(d.lot, MetadataLot::AudioBook);
}

#[test]
fn search_query_translates_the_page_and_fixes_the_defaults() {
    let q = SearchQuery::for_search("foo", 2);
    assert_eq!(q.title, "foo");
    assert_eq!(q.num_results, 20);
    assert_eq!(q.page, 1);
    assert_eq!(q.products_sort_by, "Relevance");
    assert_eq!(
        q.primary.response_groups,
        "contributors,category_ladders,media,product_attrs,product_extended_attrs"
    );
    assert_eq!(q.primary.image_sizes, "2400");
}

#[test]
fn locales_resolve_to_regional_endpoints() {
    let us = AudibleService::new(&AudibleConfig {
        locale: "us".to_string(),
    });
    assert_eq!(us.base_url, "https://api.audible.com/1.0/catalog/products/");
    let gb = AudibleService::new(&AudibleConfig {
        locale: "gb".to_string(),
    });
    assert_eq!(gb.base_url, "https://api.audible.co.uk/1.0/catalog/products/");
    let uk = AudibleService::new(&AudibleConfig {
        locale: "uk".to_string(),
    });
    assert_eq!(uk.base_url, "https://api.audible.co.uk/1.0/catalog/products/");
    let jp = AudibleService::new(&AudibleConfig {
        locale: "jp".to_string(),
    });
    assert_eq!(jp.base_url, "https://api.audible.co.jp/1.0/catalog/products/");
}

#[test]
fn every_declared_locale_constructs_an_adapter() {
    for locale in AudibleService::supported_languages() {
        let r = AudibleService::try_new(&AudibleConfig { locale });
        assert!(r.is_ok());
    }
}

#[test]
fn unsupported_locales_are_a_configuration_error() {
    let r = AudibleService::try_new(&AudibleConfig {
        locale: "zz".to_string(),
    });
    assert_eq!(r.unwrap_err(), ProviderError::Configuration);
    let r = AudibleService::try_new(&AudibleConfig {
        locale: "".to_string(),
    });
    assert_eq!(r.unwrap_err(), ProviderError::Configuration);
}

#[test]
fn language_capabilities_are_static() {
    let langs = AudibleService::supported_languages();
    assert_eq!(langs.len(), 10);
    assert!(langs.contains(&"us".to_string()));
    assert!(langs.contains(&"gb".to_string()));
    assert_eq!(AudibleService::default_language(), "us");
}

#[test]
fn an_empty_search_page_yields_an_empty_envelope() {
    let svc = service();
    let env = svc
        .search_from_response(true, 200, Some((0, vec![])), Some(1))
        .unwrap();
    assert_eq!(env.total, 0);
    assert!(env.items.is_empty());
    assert_eq!(env.next_page, None);
}

#[test]
fn records_keep_duplicate_creator_pairs() {
    let mut item = sample_item("a");
    item.authors = Some(named(&["Same Person", "Same Person"]));
    item.narrators = Some(named(&["Same Person"]));
    let d = service().audible_response_to_search_response(item).unwrap();
    let pairs: Vec<(&str, &str)> = d
        .creators
        .iter()
        .map(|c| (c.name.as_str(), c.role.as_str()))
        .collect();
    assert_eq!(
        pairs,
        vec![
            ("Same Person", "Author"),
            ("Same Person", "Author"),
            ("Same Person", "Narrator"),
        ]
    );
}

#[test]
fn genres_keep_the_first_seen_order() {
    let d: MediaDetails = service()
        .audible_response_to_search_response(sample_item("id1"))
        .unwrap();
    assert_eq!(d.identifier, "id1");
    assert_eq!(d.genres, vec!["Fiction".to_string(), "Fantasy".to_string()]);
}
