//! General laws of the normalization pipeline, stated once over all inputs
//! and proved from the contracts the pipeline's functions carry.
use vstd::prelude::*;

use crate::audible::genre_names;
use crate::audible::normalized_details;
use crate::audible::release_view;
use crate::audible::spec_supported_languages;
use crate::audible::supported_locale;
use crate::audible::AudibleItem;
use crate::dedup::lemma_dedup_first_no_duplicates;
use crate::dedup::lemma_dedup_first_same_set;
use crate::models::opt_string_view;
use crate::models::MediaDetails;
use crate::models::MediaSpecifics;
use crate::models::MetadataCreator;
use crate::models::MetadataImage;
use crate::models::MetadataImageUrl;
use crate::models::MetadataLot;
use crate::models::MetadataSource;
use crate::pagination::spec_next_page;

verus! {

/// Two creator lists agree in every observable field.
pub open spec fn creators_equivalent(a: Seq<MetadataCreator>, b: Seq<MetadataCreator>) -> bool {
    &&& a.len() == b.len()
    &&& forall|i: int|
        0 <= i < a.len() ==> (#[trigger] a[i]).name@ == b[i].name@ && a[i].role@ == b[i].role@
            && a[i].image_urls.deep_view() == b[i].image_urls.deep_view()
}

/// Two images agree: same kind of location, same value, same depiction.
pub open spec fn image_equivalent(x: MetadataImage, y: MetadataImage) -> bool {
    &&& x.lot == y.lot
    &&& match (x.url, y.url) {
        (MetadataImageUrl::Url(u), MetadataImageUrl::Url(v)) => u@ == v@,
        (MetadataImageUrl::S3(u), MetadataImageUrl::S3(v)) => u@ == v@,
        _ => false,
    }
}

/// Two image lists agree element by element.
pub open spec fn images_equivalent(a: Seq<MetadataImage>, b: Seq<MetadataImage>) -> bool {
    &&& a.len() == b.len()
    &&& forall|i: int| 0 <= i < a.len() ==> image_equivalent(#[trigger] a[i], b[i])
}

/// Two canonical records agree in every observable field.
pub open spec fn details_equivalent(a: MediaDetails, b: MediaDetails) -> bool {
    &&& a.identifier@ == b.identifier@
    &&& a.lot == b.lot
    &&& a.source == b.source
    &&& a.title@ == b.title@
    &&& opt_string_view(a.description) == opt_string_view(b.description)
    &&& creators_equivalent(a.creators@, b.creators@)
    &&& a.genres.deep_view() == b.genres.deep_view()
    &&& a.publish_year == b.publish_year
    &&& a.publish_date == b.publish_date
    &&& a.specifics == b.specifics
    &&& images_equivalent(a.images@, b.images@)
}

/// Normalization is deterministic: any two canonical records normalized from
/// the same native item agree in every observable field, so normalizing an
/// item twice yields equal records.
pub proof fn lemma_normalization_deterministic(
    item: AudibleItem,
    d1: MediaDetails,
    d2: MediaDetails,
)
    requires
        normalized_details(item, d1),
        normalized_details(item, d2),
    ensures
        details_equivalent(d1, d2),
{
    assert forall|i: int| 0 <= i < d1.creators@.len() implies (#[trigger] d1.creators@[i]).name@
        == d2.creators@[i].name@ && d1.creators@[i].role@ == d2.creators@[i].role@
        && d1.creators@[i].image_urls.deep_view() == d2.creators@[i].image_urls.deep_view() by {
        assert(d1.creators@[i].image_urls.deep_view() =~= d2.creators@[i].image_urls.deep_view());
    }
    assert forall|i: int| 0 <= i < d1.images@.len() implies image_equivalent(
        #[trigger] d1.images@[i],
        d2.images@[i],
    ) by {
        assert(item.product_images.image is Some);
    }
}

/// Round-trip of the fixed fields: a normalized record reproduces the item's
/// own identifier verbatim and the adapter's constant media kind and source.
pub proof fn lemma_fixed_fields_round_trip(item: AudibleItem, d: MediaDetails)
    requires
        normalized_details(item, d),
    ensures
        d.identifier@ == item.asin@,
        d.lot == MetadataLot::AudioBook,
        d.source == MetadataSource::Audible,
{
}

/// The genre list of a normalized record holds no duplicates, and holds
/// exactly the labels of the item's flattened taxonomy.
pub proof fn lemma_genres_deduplicated(item: AudibleItem, d: MediaDetails)
    requires
        normalized_details(item, d),
    ensures
        d.genres.deep_view().no_duplicates(),
        d.genres.deep_view().to_set() == genre_names(item).to_set(),
{
    lemma_dedup_first_no_duplicates(genre_names(item));
    lemma_dedup_first_same_set(genre_names(item));
}

/// When the primary summary field is absent and the secondary one is present,
/// the description is exactly the secondary field's value.
pub proof fn lemma_description_fallback(item: AudibleItem, d: MediaDetails)
    requires
        normalized_details(item, d),
        item.publisher_summary is None,
        item.merchandising_summary is Some,
    ensures
        d.description is Some,
        (d.description->0)@ == (item.merchandising_summary->0)@,
{
}

/// When both contributor lists are absent, the creator list is empty — an
/// absent list is not a failure.
pub proof fn lemma_creators_absent(item: AudibleItem, d: MediaDetails)
    requires
        normalized_details(item, d),
        item.authors is None,
        item.narrators is None,
    ensures
        d.creators@.len() == 0,
{
}

/// A raw date string too short to hold a year token — the empty string among
/// them — yields an absent year and an absent date, while the record itself
/// still normalizes.
pub proof fn lemma_malformed_date_degrades(item: AudibleItem, d: MediaDetails)
    requires
        normalized_details(item, d),
        release_view(item).len() < 4,
    ensures
        d.publish_year is None,
        d.publish_date is None,
{
}

/// Which type-specifics variant belongs to which media kind.
pub open spec fn specifics_match_lot(lot: MetadataLot, s: MediaSpecifics) -> bool {
    match s {
        MediaSpecifics::AudioBook(_) => lot == MetadataLot::AudioBook,
        MediaSpecifics::Book(_) => lot == MetadataLot::Book,
    }
}

/// The type-specifics variant of a normalized record always matches the
/// record's media kind.
pub proof fn lemma_specifics_match_the_lot(item: AudibleItem, d: MediaDetails)
    requires
        normalized_details(item, d),
    ensures
        specifics_match_lot(d.lot, d.specifics),
{
}

/// A record that normalized successfully never carries an empty identifier:
/// an empty upstream identifier fails the item instead.
pub proof fn lemma_identifier_nonempty(item: AudibleItem, d: MediaDetails)
    requires
        normalized_details(item, d),
        item.asin@.len() > 0,
    ensures
        d.identifier@.len() > 0,
{
}

/// Every locale code the capability declaration advertises resolves to an
/// endpoint in the region table. Together with `try_new`'s contract, adapter
/// construction succeeds for the whole declared list, and the configuration
/// error is reserved for codes outside it.
pub proof fn lemma_declared_locales_resolve(l: Seq<char>)
    requires
        spec_supported_languages().contains(l),
    ensures
        supported_locale(l),
{
    reveal_strlit("au");
    reveal_strlit("ca");
    reveal_strlit("de");
    reveal_strlit("es");
    reveal_strlit("fr");
    reveal_strlit("in");
    reveal_strlit("it");
    reveal_strlit("jp");
    reveal_strlit("gb");
    reveal_strlit("us");
    reveal_strlit("uk");
    let langs = spec_supported_languages();
    let i = choose|i: int| 0 <= i < langs.len() && langs[i] == l;
    assert(supported_locale(langs[0]));
    assert(supported_locale(langs[1]));
    assert(supported_locale(langs[2]));
    assert(supported_locale(langs[3]));
    assert(supported_locale(langs[4]));
    assert(supported_locale(langs[5]));
    assert(supported_locale(langs[6]));
    assert(supported_locale(langs[7]));
    assert(supported_locale(langs[8]));
    assert(supported_locale(langs[9]));
}

/// The next-page cursor exists exactly when the reported total exceeds what
/// the pages up to the current one can hold, and it then names the successor
/// page.
pub proof fn lemma_next_page_iff(total: int, page: int, size: int)
    requires
        0 <= page < 0x7fff_ffff,
    ensures
        spec_next_page(total, page, size) is Some <==> total - page * size > 0,
        spec_next_page(total, page, size) is Some ==> spec_next_page(total, page, size)->0 == page
            + 1,
{
}

} // verus!
