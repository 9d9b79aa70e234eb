//! The Audible catalog adapter: its native payload shapes, its region table,
//! its outbound query shapes, and the normalization of its items into
//! canonical media records.
use vstd::prelude::*;
use vstd::string::StrSliceExecFns;
use vstd::string::StringExecFns;

use crate::dates::convert_date_to_year;
use crate::dates::convert_string_to_date;
use crate::dates::spec_date_of;
use crate::dates::spec_year_of;
use crate::dedup::dedup_first;
use crate::dedup::unique_strings;
use crate::models::opt_names_view;
use crate::models::opt_string_view;
use crate::models::names_view;
use crate::models::AudioBookSpecifics;
use crate::models::MediaDetails;
use crate::models::MediaSearchItem;
use crate::models::MediaSearchResults;
use crate::models::MediaSpecifics;
use crate::models::MetadataCreator;
use crate::models::MetadataImage;
use crate::models::MetadataImageLot;
use crate::models::MetadataImageUrl;
use crate::models::MetadataLot;
use crate::models::MetadataSource;
use crate::models::NamedObject;
use crate::models::ProviderError;
use crate::pagination::next_page_cursor;
use crate::pagination::spec_next_page;
use crate::text::str_equal;
use crate::PAGE_LIMIT;
use vstd::pervasive::unreached;

verus! {

/// The locale codes the adapter advertises to its callers; the region table
/// defines an endpoint for every one of them.
pub open spec fn spec_supported_languages() -> Seq<Seq<char>> {
    seq!["au"@, "ca"@, "de"@, "es"@, "fr"@, "in"@, "it"@, "jp"@, "gb"@, "us"@]
}

/// The region table: the host-name suffix of the upstream endpoint for each
/// locale code it is defined for. It covers every advertised code — the
/// United Kingdom under `gb` — and also accepts `uk` as an alias for the
/// same endpoint.
pub open spec fn spec_locale_suffix(l: Seq<char>) -> Option<Seq<char>> {
    if l == "us"@ {
        Option::Some("com"@)
    } else if l == "ca"@ {
        Option::Some("ca"@)
    } else if l == "gb"@ {
        Option::Some("co.uk"@)
    } else if l == "uk"@ {
        Option::Some("co.uk"@)
    } else if l == "au"@ {
        Option::Some("co.au"@)
    } else if l == "fr"@ {
        Option::Some("fr"@)
    } else if l == "de"@ {
        Option::Some("de"@)
    } else if l == "jp"@ {
        Option::Some("co.jp"@)
    } else if l == "it"@ {
        Option::Some("it"@)
    } else if l == "in"@ {
        Option::Some("co.in"@)
    } else if l == "es"@ {
        Option::Some("es"@)
    } else {
        Option::None
    }
}

/// A locale code the region table defines an endpoint for.
pub open spec fn supported_locale(l: Seq<char>) -> bool {
    spec_locale_suffix(l) is Some
}

/// The region-specific base endpoint for a supported locale code.
pub open spec fn spec_url_from_locale(l: Seq<char>) -> Seq<char> {
    "https://api.audible."@ + spec_locale_suffix(l)->0 + "/1.0/catalog/products/"@
}

/// The static configuration an adapter instance is constructed from.
pub struct AudibleConfig {
    pub locale: String,
}

/// The auxiliary data groups and the image resolution requested from the
/// upstream on every call.
pub struct PrimaryQuery {
    pub response_groups: String,
    pub image_sizes: String,
}

/// The response groups every request asks the upstream to include.
pub open spec fn spec_response_groups() -> Seq<char> {
    "contributors,category_ladders,media,product_attrs,product_extended_attrs"@
}

/// The single image resolution every request asks for.
pub open spec fn spec_image_sizes() -> Seq<char> {
    "2400"@
}

impl Default for PrimaryQuery {
    /// The fixed defaults merged into every outbound request.
    fn default() -> (r: Self)
        ensures
            r.response_groups@ == spec_response_groups(),
            r.image_sizes@ == spec_image_sizes(),
    {
        PrimaryQuery {
            response_groups: String::from_str(
                "contributors,category_ladders,media,product_attrs,product_extended_attrs",
            ),
            image_sizes: String::from_str("2400"),
        }
    }
}

/// The outbound query of one search call, with the page already translated to
/// the upstream's 0-based numbering.
pub struct SearchQuery {
    pub title: String,
    pub num_results: i32,
    pub page: i32,
    pub products_sort_by: String,
    pub primary: PrimaryQuery,
}

impl SearchQuery {
    /// Builds the outbound search query: the caller's 1-based page becomes
    /// the upstream's 0-based one, the page size and sort order are fixed,
    /// and the default data groups are merged in.
    pub fn for_search(query: &str, page: i32) -> (r: SearchQuery)
        requires
            1 <= page,
        ensures
            r.title@ == query@,
            r.num_results == PAGE_LIMIT,
            r.page == page - 1,
            r.products_sort_by@ == "Relevance"@,
            r.primary.response_groups@ == spec_response_groups(),
            r.primary.image_sizes@ == spec_image_sizes(),
    {
        SearchQuery {
            title: query.to_owned(),
            num_results: PAGE_LIMIT,
            page: page - 1,
            products_sort_by: String::from_str("Relevance"),
            primary: PrimaryQuery::default(),
        }
    }
}

/// The image field of a native Audible item: at most one URL, at the single
/// resolution the query asked for.
pub struct AudiblePoster {
    pub image: Option<String>,
}

/// One rung group of the upstream's genre taxonomy.
pub struct AudibleCategoryLadderCollection {
    pub ladder: Vec<NamedObject>,
}

/// One item in the upstream's native shape: every field beyond the identifier
/// and the title is optional.
pub struct AudibleItem {
    pub asin: String,
    pub title: String,
    pub authors: Option<Vec<NamedObject>>,
    pub narrators: Option<Vec<NamedObject>>,
    pub product_images: AudiblePoster,
    pub merchandising_summary: Option<String>,
    pub publisher_summary: Option<String>,
    pub release_date: Option<String>,
    pub runtime_length_min: Option<i32>,
    pub category_ladders: Option<Vec<AudibleCategoryLadderCollection>>,
}

/// One adapter instance: its base endpoint is fixed by the configured locale
/// for the instance's lifetime. The network client that carries the requests
/// is owned by the hosting application.
#[derive(Clone, Debug)]
pub struct AudibleService {
    pub base_url: String,
}

/// The raw date string of an item; an absent one reads as the empty string.
pub open spec fn release_view(item: AudibleItem) -> Seq<char> {
    match item.release_date {
        Option::Some(s) => s@,
        Option::None => Seq::empty(),
    }
}

/// The summary chosen for an item: the primary field when present, else the
/// secondary one, else none. The two are never concatenated.
pub open spec fn spec_description(item: AudibleItem) -> Option<Seq<char>> {
    if item.publisher_summary is Some {
        Option::Some(item.publisher_summary->0@)
    } else {
        opt_string_view(item.merchandising_summary)
    }
}

/// The canonical creator list of an item: every author-like contributor under
/// the fixed author role, followed by every narrator-like one under the fixed
/// narrator role, with no interleaving and no merging.
pub open spec fn creators_match(item: AudibleItem, cs: Seq<MetadataCreator>) -> bool {
    let a = opt_names_view(item.authors);
    let n = opt_names_view(item.narrators);
    &&& cs.len() == a.len() + n.len()
    &&& forall|i: int|
        0 <= i < a.len() ==> (#[trigger] cs[i]).name@ == a[i] && cs[i].role@ == "Author"@
            && cs[i].image_urls@.len() == 0
    &&& forall|i: int|
        a.len() <= i < cs.len() ==> (#[trigger] cs[i]).name@ == n[i - a.len()] && cs[i].role@
            == "Narrator"@ && cs[i].image_urls@.len() == 0
}

/// The display names of a sequence of ladder groups, flattened in order.
pub open spec fn ladders_names(ls: Seq<AudibleCategoryLadderCollection>) -> Seq<Seq<char>>
    decreases ls.len(),
{
    if ls.len() == 0 {
        Seq::empty()
    } else {
        ladders_names(ls.drop_last()) + names_view(ls.last().ladder@)
    }
}

/// The flat genre label list of an item, before deduplication; an absent
/// taxonomy reads as empty.
pub open spec fn genre_names(item: AudibleItem) -> Seq<Seq<char>> {
    match item.category_ladders {
        Option::Some(v) => ladders_names(v@),
        Option::None => Seq::empty(),
    }
}

/// The canonical image list of an item: the single requested remote-URL
/// poster when the upstream sent one, empty otherwise (never a failure).
pub open spec fn images_match(p: AudiblePoster, imgs: Seq<MetadataImage>) -> bool {
    match p.image {
        Option::Some(u) => imgs.len() == 1 && imgs[0].lot == MetadataImageLot::Poster && (imgs[0].url
            matches MetadataImageUrl::Url(x) && x@ == u@),
        Option::None => imgs.len() == 0,
    }
}

/// Every image of a record is a plain remote URL; the list-view narrowing is
/// defined only for such records.
pub open spec fn only_remote_images(d: MediaDetails) -> bool {
    forall|i: int| 0 <= i < d.images@.len() ==> (#[trigger] d.images@[i]).url is Url
}

/// How the lighter list-view item is read off a canonical record.
pub open spec fn narrowed_item(d: MediaDetails, it: MediaSearchItem) -> bool {
    &&& it.identifier@ == d.identifier@
    &&& it.lot == MetadataLot::AudioBook
    &&& it.title@ == d.title@
    &&& it.publish_year == d.publish_year
    &&& it.images@.len() == d.images@.len()
    &&& forall|i: int|
        0 <= i < d.images@.len() ==> ((#[trigger] d.images@[i]).url matches MetadataImageUrl::Url(u)
            && it.images@[i]@ == u@)
}

/// How one native search result maps to its list-view item: normalization
/// followed by the narrowing.
pub open spec fn search_item_of(prod: AudibleItem, it: MediaSearchItem) -> bool {
    &&& it.identifier@ == prod.asin@
    &&& it.lot == MetadataLot::AudioBook
    &&& it.title@ == prod.title@
    &&& it.publish_year == spec_year_of(release_view(prod))
    &&& match prod.product_images.image {
        Option::Some(u) => it.images@.len() == 1 && it.images@[0]@ == u@,
        Option::None => it.images@.len() == 0,
    }
}

/// Every native item of a batch carries a non-empty identifier; a search call
/// succeeds as a whole exactly on such batches.
pub open spec fn all_items_identified(prods: Seq<AudibleItem>) -> bool {
    forall|i: int| 0 <= i < prods.len() ==> (#[trigger] prods[i]).asin@.len() > 0
}

/// A 2xx upstream HTTP status.
pub open spec fn success_status(status: u16) -> bool {
    200 <= status < 300
}

/// The 1-based page a caller asked for; an absent page reads as the first.
pub open spec fn resolved_page(page: Option<i32>) -> i32 {
    match page {
        Option::Some(p) => p,
        Option::None => 1,
    }
}

/// The full normalization contract: how every field of a canonical record is
/// determined by the native item it was normalized from.
pub open spec fn normalized_details(item: AudibleItem, d: MediaDetails) -> bool {
    &&& d.identifier@ == item.asin@
    &&& d.lot == MetadataLot::AudioBook
    &&& d.source == MetadataSource::Audible
    &&& d.title@ == item.title@
    &&& opt_string_view(d.description) == spec_description(item)
    &&& creators_match(item, d.creators@)
    &&& d.genres.deep_view() == dedup_first(genre_names(item))
    &&& d.publish_year == spec_year_of(release_view(item))
    &&& d.publish_date == spec_date_of(release_view(item))
    &&& d.specifics == MediaSpecifics::AudioBook(
        AudioBookSpecifics { runtime: item.runtime_length_min },
    )
    &&& images_match(item.product_images, d.images@)
}

impl AudibleService {
    /// The locale codes this adapter declares support for.
    pub fn supported_languages() -> (r: Vec<String>)
        ensures
            r.deep_view() == spec_supported_languages(),
    {
        let mut v: Vec<String> = Vec::new();
        v.push(String::from_str("au"));
        v.push(String::from_str("ca"));
        v.push(String::from_str("de"));
        v.push(String::from_str("es"));
        v.push(String::from_str("fr"));
        v.push(String::from_str("in"));
        v.push(String::from_str("it"));
        v.push(String::from_str("jp"));
        v.push(String::from_str("gb"));
        v.push(String::from_str("us"));
        proof {
            assert(v.deep_view() =~= spec_supported_languages());
        }
        v
    }

    /// The designated default locale code.
    pub fn default_language() -> (r: String)
        ensures
            r@ == "us"@,
    {
        String::from_str("us")
    }

    /// Whether the region table defines an endpoint for `locale`.
    pub fn locale_is_supported(locale: &str) -> (r: bool)
        ensures
            r == supported_locale(locale@),
    {
        str_equal(locale, "us") || str_equal(locale, "ca") || str_equal(locale, "gb") || str_equal(
            locale,
            "uk",
        ) || str_equal(locale, "au") || str_equal(locale, "fr") || str_equal(locale, "de")
            || str_equal(locale, "jp") || str_equal(locale, "it") || str_equal(locale, "in")
            || str_equal(locale, "es")
    }

    /// The region-specific base endpoint for a supported locale code. The
    /// mapping is the fixed table `spec_locale_suffix`, not derived
    /// computation.
    pub fn url_from_locale(locale: &str) -> (r: String)
        requires
            supported_locale(locale@),
        ensures
            r@ == spec_url_from_locale(locale@),
    {
        let suffix: &str = if str_equal(locale, "us") {
            "com"
        } else if str_equal(locale, "ca") {
            "ca"
        } else if str_equal(locale, "gb") {
            "co.uk"
        } else if str_equal(locale, "uk") {
            "co.uk"
        } else if str_equal(locale, "au") {
            "co.au"
        } else if str_equal(locale, "fr") {
            "fr"
        } else if str_equal(locale, "de") {
            "de"
        } else if str_equal(locale, "jp") {
            "co.jp"
        } else if str_equal(locale, "it") {
            "it"
        } else if str_equal(locale, "in") {
            "co.in"
        } else {
            "es"
        };
        let mut url = String::from_str("https://api.audible.");
        url.append(suffix);
        url.append("/1.0/catalog/products/");
        url
    }

    /// Constructs an adapter for a locale the region table supports; an
    /// unsupported locale is a configuration defect the caller must rule out
    /// beforehand.
    pub fn new(config: &AudibleConfig) -> (r: Self)
        requires
            supported_locale(config.locale@),
        ensures
            r.base_url@ == spec_url_from_locale(config.locale@),
    {
        let base_url = Self::url_from_locale(config.locale.as_str());
        AudibleService { base_url }
    }

    /// Maps one native item to the canonical record, per the normalization
    /// rules: identifier passthrough (an empty upstream identifier fails the
    /// item), the single requested image or none, year and date derived
    /// independently from the raw date string and degrading to absent, all
    /// author-role creators followed by all narrator-role ones, the primary
    /// summary field falling back to the secondary, the genre taxonomy
    /// flattened and deduplicated, and the audio-book specifics.
    pub fn audible_response_to_search_response(&self, item: AudibleItem) -> (r: Result<
        MediaDetails,
        ProviderError,
    >)
        ensures
            r is Ok <==> item.asin@.len() > 0,
            r matches Ok(d) ==> normalized_details(item, d),
            r matches Err(e) ==> e == ProviderError::UpstreamShape,
    {
        let ghost item0 = item;
        let AudibleItem {
            asin,
            title,
            authors,
            narrators,
            product_images,
            merchandising_summary,
            publisher_summary,
            release_date,
            runtime_length_min,
            category_ladders,
        } = item;
        if asin.as_str().is_empty() {
            return Err(ProviderError::UpstreamShape);
        }
        let mut images: Vec<MetadataImage> = Vec::new();
        match product_images.image {
            Some(u) => {
                images.push(
                    MetadataImage { url: MetadataImageUrl::Url(u), lot: MetadataImageLot::Poster },
                );
            },
            None => {},
        }
        proof {
            assert(images_match(item0.product_images, images@));
        }
        let release_date: String = match release_date {
            Some(s) => s,
            None => String::new(),
        };
        proof {
            assert(release_date@ == release_view(item0));
        }
        let no_names: Vec<NamedObject> = Vec::new();
        let ghost author_names = opt_names_view(item0.authors);
        let ghost narrator_names = opt_names_view(item0.narrators);
        let author_list: &Vec<NamedObject> = match &authors {
            Some(v) => v,
            None => &no_names,
        };
        proof {
            assert(names_view(author_list@) =~= author_names);
        }
        let mut creators: Vec<MetadataCreator> = Vec::new();
        let mut k: usize = 0;
        while k < author_list.len()
            invariant
                k <= author_list.len(),
                names_view(author_list@) == author_names,
                creators@.len() == k,
                forall|i: int|
                    0 <= i < k ==> (#[trigger] creators@[i]).name@ == author_names[i]
                        && creators@[i].role@ == "Author"@ && creators@[i].image_urls@.len() == 0,
            decreases author_list.len() - k,
        {
            creators.push(
                MetadataCreator {
                    name: author_list[k].name.clone(),
                    role: String::from_str("Author"),
                    image_urls: Vec::new(),
                },
            );
            k += 1;
        }
        let narrator_list: &Vec<NamedObject> = match &narrators {
            Some(v) => v,
            None => &no_names,
        };
        proof {
            assert(names_view(narrator_list@) =~= narrator_names);
        }
        let mut k2: usize = 0;
        while k2 < narrator_list.len()
            invariant
                k2 <= narrator_list.len(),
                names_view(narrator_list@) == narrator_names,
                creators@.len() == author_names.len() + k2,
                forall|i: int|
                    0 <= i < author_names.len() ==> (#[trigger] creators@[i]).name@
                        == author_names[i] && creators@[i].role@ == "Author"@
                        && creators@[i].image_urls@.len() == 0,
                forall|i: int|
                    author_names.len() <= i < creators@.len() ==> (#[trigger] creators@[i]).name@
                        == narrator_names[i - author_names.len()] && creators@[i].role@
                        == "Narrator"@ && creators@[i].image_urls@.len() == 0,
            decreases narrator_list.len() - k2,
        {
            creators.push(
                MetadataCreator {
                    name: narrator_list[k2].name.clone(),
                    role: String::from_str("Narrator"),
                    image_urls: Vec::new(),
                },
            );
            k2 += 1;
        }
        proof {
            assert(creators_match(item0, creators@));
        }
        let description: Option<String> = match publisher_summary {
            Some(s) => Some(s),
            None => merchandising_summary,
        };
        let no_ladders: Vec<AudibleCategoryLadderCollection> = Vec::new();
        let ladder_list: &Vec<AudibleCategoryLadderCollection> = match &category_ladders {
            Some(v) => v,
            None => &no_ladders,
        };
        proof {
            assert(ladders_names(ladder_list@) == genre_names(item0));
        }
        let mut flat: Vec<String> = Vec::new();
        let mut li: usize = 0;
        while li < ladder_list.len()
            invariant
                li <= ladder_list.len(),
                flat.deep_view() == ladders_names(ladder_list@.subrange(0, li as int)),
            decreases ladder_list.len() - li,
        {
            let rungs: &Vec<NamedObject> = &ladder_list[li].ladder;
            let ghost flat_before = flat.deep_view();
            let mut rj: usize = 0;
            while rj < rungs.len()
                invariant
                    rj <= rungs.len(),
                    li < ladder_list.len(),
                    rungs@ == ladder_list@[li as int].ladder@,
                    flat_before == ladders_names(ladder_list@.subrange(0, li as int)),
                    flat.deep_view() == flat_before + names_view(rungs@.subrange(0, rj as int)),
                decreases rungs.len() - rj,
            {
                let ghost fv = flat.deep_view();
                flat.push(rungs[rj].name.clone());
                proof {
                    let target = flat_before + names_view(rungs@.subrange(0, rj as int + 1));
                    assert(names_view(rungs@.subrange(0, rj as int + 1)).len() == rj + 1);
                    assert(fv.len() == flat_before.len() + rj);
                    assert(flat@.len() == fv.len() + 1);
                    assert(flat.deep_view().len() == flat@.len());
                    assert(flat.deep_view().len() == target.len());
                    assert forall|i: int| 0 <= i < target.len() implies flat.deep_view()[i]
                        == target[i] by {
                        if i < fv.len() {
                            assert(flat.deep_view()[i] == fv[i]);
                            assert(fv[i] == (flat_before + names_view(
                                rungs@.subrange(0, rj as int),
                            ))[i]);
                            if i >= flat_before.len() {
                                let j = i - flat_before.len();
                                assert(names_view(rungs@.subrange(0, rj as int))[j] == rungs@.subrange(
                                    0,
                                    rj as int,
                                )[j].name@);
                                assert(names_view(rungs@.subrange(0, rj as int + 1))[j] == rungs@.subrange(
                                    0,
                                    rj as int + 1,
                                )[j].name@);
                            }
                        } else {
                            assert(flat.deep_view()[i] == rungs@[rj as int].name@);
                            assert(names_view(rungs@.subrange(0, rj as int + 1))[rj as int]
                                == rungs@.subrange(0, rj as int + 1)[rj as int].name@);
                        }
                    }
                    assert(flat.deep_view() =~= target);
                }
                rj += 1;
            }
            proof {
                assert(rungs@.subrange(0, rj as int) =~= rungs@);
                assert(ladder_list@.subrange(0, li as int + 1).drop_last() =~= ladder_list@.subrange(
                    0,
                    li as int,
                ));
                assert(ladder_list@.subrange(0, li as int + 1).last() == ladder_list@[li as int]);
                assert(flat.deep_view() =~~= ladders_names(
                    ladder_list@.subrange(0, li as int + 1),
                ));
            }
            li += 1;
        }
        proof {
            assert(ladder_list@.subrange(0, li as int) =~= ladder_list@);
        }
        let genres = unique_strings(flat);
        let publish_year = convert_date_to_year(release_date.as_str());
        let publish_date = convert_string_to_date(release_date.as_str());
        let details = MediaDetails {
            identifier: asin,
            lot: MetadataLot::AudioBook,
            source: MetadataSource::Audible,
            title,
            description,
            creators,
            genres,
            publish_year,
            publish_date,
            specifics: MediaSpecifics::AudioBook(AudioBookSpecifics { runtime: runtime_length_min }),
            images,
        };
        Ok(details)
    }

    /// Aggregates one upstream search page: normalizes every native item,
    /// narrows each to its list-view shape, and wraps them with the reported
    /// total and the next-page cursor. One item without an identifier fails
    /// the whole call; the narrowing itself can never fail here, since
    /// normalization only produces remote-URL images.
    #[verifier::loop_isolation(false)]
    pub fn audible_search_to_results(
        &self,
        total_results: i32,
        products: Vec<AudibleItem>,
        page: i32,
    ) -> (r: Result<MediaSearchResults, ProviderError>)
        requires
            1 <= page,
        ensures
            r is Ok <==> all_items_identified(products@),
            r matches Err(e) ==> e == ProviderError::UpstreamShape,
            r matches Ok(env) ==> {
                &&& env.total == total_results
                &&& env.items@.len() == products@.len()
                &&& forall|i: int|
                    0 <= i < products@.len() ==> search_item_of(
                        products@[i],
                        #[trigger] env.items@[i],
                    )
                &&& env.next_page == spec_next_page(
                    total_results as int,
                    page as int,
                    PAGE_LIMIT as int,
                )
            },
    {
        let ghost prods0 = products@;
        let mut products = products;
        let mut items: Vec<MediaSearchItem> = Vec::new();
        while products.len() > 0
            invariant
                items@.len() + products@.len() == prods0.len(),
                products@ == prods0.subrange(items@.len() as int, prods0.len() as int),
                forall|i: int|
                    0 <= i < items@.len() ==> search_item_of(prods0[i], #[trigger] items@[i]),
                forall|i: int| 0 <= i < items@.len() ==> (#[trigger] prods0[i]).asin@.len() > 0,
            decreases products@.len(),
        {
            let ghost done = items@.len() as int;
            let prod = products.remove(0);
            proof {
                assert(prod == prods0[done]);
            }
            match self.audible_response_to_search_response(prod) {
                Err(_) => {
                    proof {
                        assert(prods0[done].asin@.len() == 0);
                        assert(!all_items_identified(prods0));
                    }
                    return Err(ProviderError::UpstreamShape);
                },
                Ok(d) => {
                    proof {
                        assert forall|i: int| 0 <= i < d.images@.len() implies (
                        #[trigger] d.images@[i]).url is Url by {
                            assert(images_match(prods0[done].product_images, d.images@));
                        }
                        assert(only_remote_images(d));
                    }
                    match narrow_to_search_item(d) {
                        Ok(it) => {
                            proof {
                                assert(search_item_of(prods0[done], it));
                            }
                            items.push(it);
                        },
                        Err(_) => unreached(),
                    }
                },
            }
            proof {
                assert(products@ =~= prods0.subrange(items@.len() as int, prods0.len() as int));
            }
        }
        proof {
            assert(prods0.subrange(items@.len() as int, prods0.len() as int).len() == 0);
            assert(all_items_identified(prods0));
        }
        let next_page = next_page_cursor(total_results, page, PAGE_LIMIT);
        Ok(MediaSearchResults { total: total_results, items, next_page })
    }

    /// Decides the outcome of one details call from what came back over the
    /// wire: a transport failure or a non-success status (other than the
    /// not-found signal) is an upstream failure, an unparsable body is a
    /// shape failure, and a parsed product is normalized.
    pub fn details_from_response(
        &self,
        transport_ok: bool,
        status: u16,
        product: Option<AudibleItem>,
    ) -> (r: Result<MediaDetails, ProviderError>)
        ensures
            !transport_ok ==> (r matches Err(e) && e == ProviderError::UpstreamTransport),
            transport_ok && status == 404 ==> (r matches Err(e) && e == ProviderError::NotFound),
            transport_ok && status != 404 && !success_status(status) ==> (r matches Err(e) && e
                == ProviderError::UpstreamTransport),
            transport_ok && success_status(status) && product is None ==> (r matches Err(e) && e
                == ProviderError::UpstreamShape),
            transport_ok && success_status(status) && product is Some ==> {
                &&& (r is Ok <==> (product->0).asin@.len() > 0)
                &&& (r matches Ok(d) ==> normalized_details(product->0, d))
                &&& (r matches Err(e) ==> e == ProviderError::UpstreamShape)
            },
    {
        if !transport_ok {
            return Err(ProviderError::UpstreamTransport);
        }
        if status == 404 {
            return Err(ProviderError::NotFound);
        }
        if !(200 <= status && status < 300) {
            return Err(ProviderError::UpstreamTransport);
        }
        match product {
            None => Err(ProviderError::UpstreamShape),
            Some(p) => self.audible_response_to_search_response(p),
        }
    }

    /// Decides the outcome of one search call from what came back over the
    /// wire: a transport failure or a non-success status is an upstream
    /// failure, an unparsable body is a shape failure, and a parsed payload
    /// is aggregated into the envelope for the caller's page (the first page
    /// when none was given).
    pub fn search_from_response(
        &self,
        transport_ok: bool,
        status: u16,
        payload: Option<(i32, Vec<AudibleItem>)>,
        page: Option<i32>,
    ) -> (r: Result<MediaSearchResults, ProviderError>)
        requires
            page matches Some(p) ==> 1 <= p,
        ensures
            !transport_ok ==> (r matches Err(e) && e == ProviderError::UpstreamTransport),
            transport_ok && !success_status(status) ==> (r matches Err(e) && e
                == ProviderError::UpstreamTransport),
            transport_ok && success_status(status) && payload is None ==> (r matches Err(e) && e
                == ProviderError::UpstreamShape),
            transport_ok && success_status(status) && payload is Some ==> {
                &&& (r is Ok <==> all_items_identified((payload->0).1@))
                &&& (r matches Err(e) ==> e == ProviderError::UpstreamShape)
                &&& (r matches Ok(env) ==> {
                    &&& env.total == (payload->0).0
                    &&& env.items@.len() == (payload->0).1@.len()
                    &&& (forall|i: int|
                        0 <= i < (payload->0).1@.len() ==> search_item_of(
                            (payload->0).1@[i],
                            #[trigger] env.items@[i],
                        ))
                    &&& env.next_page == spec_next_page(
                        (payload->0).0 as int,
                        resolved_page(page) as int,
                        PAGE_LIMIT as int,
                    )
                })
            },
    {
        if !transport_ok {
            return Err(ProviderError::UpstreamTransport);
        }
        if !(200 <= status && status < 300) {
            return Err(ProviderError::UpstreamTransport);
        }
        let current_page = resolve_page(page);
        match payload {
            None => Err(ProviderError::UpstreamShape),
            Some((total_results, products)) => self.audible_search_to_results(
                total_results,
                products,
                current_page,
            ),
        }
    }

    /// Constructs an adapter, rejecting an unsupported locale with the
    /// configuration error instead of assuming it away.
    pub fn try_new(config: &AudibleConfig) -> (r: Result<Self, ProviderError>)
        ensures
            r is Ok <==> supported_locale(config.locale@),
            r matches Ok(s) ==> s.base_url@ == spec_url_from_locale(config.locale@),
            r matches Err(e) ==> e == ProviderError::Configuration,
    {
        if Self::locale_is_supported(config.locale.as_str()) {
            Ok(Self::new(config))
        } else {
            Err(ProviderError::Configuration)
        }
    }
}

/// Narrows a canonical record to the list-view item. A content-addressed
/// image is an invariant violation of the upstream contract — the upstream
/// never produces one for search results — and is reported as the assertion
/// failure, not tolerated.
#[verifier::loop_isolation(false)]
pub fn narrow_to_search_item(details: MediaDetails) -> (r: Result<MediaSearchItem, ProviderError>)
    ensures
        r is Ok <==> only_remote_images(details),
        r matches Ok(it) ==> narrowed_item(details, it),
        r matches Err(e) ==> e == ProviderError::NormalizationAssertion,
{
    let ghost d0 = details;
    let MediaDetails { identifier, title, publish_year, images, .. } = details;
    let mut urls: Vec<String> = Vec::new();
    let mut i: usize = 0;
    while i < images.len()
        invariant
            i <= images@.len(),
            images@ == d0.images@,
            urls@.len() == i,
            forall|j: int|
                0 <= j < i ==> ((#[trigger] images@[j]).url matches MetadataImageUrl::Url(u)
                    && urls@[j]@ == u@),
        decreases images@.len() - i,
    {
        match &images[i].url {
            MetadataImageUrl::S3(_) => {
                proof {
                    assert(!(d0.images@[i as int].url is Url));
                    assert(!only_remote_images(d0));
                }
                return Err(ProviderError::NormalizationAssertion);
            },
            MetadataImageUrl::Url(u) => {
                urls.push(u.clone());
            },
        }
        i += 1;
    }
    proof {
        assert(only_remote_images(d0));
    }
    Ok(
        MediaSearchItem {
            identifier,
            lot: MetadataLot::AudioBook,
            title,
            images: urls,
            publish_year,
        },
    )
}

/// The 1-based page of a search call: the page the caller asked for, or the
/// first page when none was given.
pub fn resolve_page(page: Option<i32>) -> (r: i32)
    ensures
        r == resolved_page(page),
{
    match page {
        Some(p) => p,
        None => 1,
    }
}

} // verus!
