//! A show as listed in the search and library grids, and the content
//! filters applied to those grids.

use vstd::prelude::*;
use crate::show_data::{copy_jikan, same_jikan, JikanData};
use crate::text::{split_words, str_equals, texts, words};

verus! {

/// A listed show: the title shown on its card, its cover image and the
/// metadata it was made from.
#[derive(Clone, Debug, Default)]
pub struct ShowObject {
    pub name: String,
    pub image: String,
    pub data: Option<JikanData>,
}

/// The title a show is listed under: its English title when it has one, its
/// title otherwise.
pub open spec fn listed_title(data: JikanData) -> Seq<char> {
    match data.title_english {
        Some(t) => t@,
        None => data.title@,
    }
}

/// Whether the first word of a rating is `w`.
pub open spec fn rating_starts_with(rating: Seq<char>, w: Seq<char>) -> bool {
    words(rating).len() > 0 && words(rating)[0] == w
}

/// Whether a rating marks adult content (its first word is `Rx`).
pub open spec fn adult_rating(rating: Seq<char>) -> bool {
    rating_starts_with(rating, "Rx"@)
}

/// Whether a rating marks ecchi content (its first word is `R+`).
pub open spec fn ecchi_rating(rating: Seq<char>) -> bool {
    rating_starts_with(rating, "R+"@)
}

/// Whether the object carries metadata whose rating has a first word.
pub open spec fn has_rating(o: ShowObject) -> bool {
    o.data matches Some(d) && words(d.rating@).len() > 0
}

/// Whether the first word of `rating` is `w`.
fn first_word_is(rating: &str, w: &str) -> (b: bool)
    requires
        words(rating@).len() > 0,
    ensures
        b == rating_starts_with(rating@, w@),
{
    let ws = split_words(rating);
    assert(texts(ws@)[0] == ws@[0]@);
    str_equals(ws[0].as_str(), w)
}

impl ShowObject {
    /// The listing of a show: its listed title, its large cover image and
    /// its metadata.
    pub fn new(data: JikanData) -> (o: ShowObject)
        ensures
            o.name@ == listed_title(data),
            o.image@ == data.images.jpg.large_image_url@,
            o.data == Some(data),
    {
        let name = match &data.title_english {
            Some(t) => t.clone(),
            None => data.title.clone(),
        };
        let image = data.images.jpg.large_image_url.clone();
        ShowObject { name, image, data: Some(data) }
    }

    /// The metadata of the listed show.
    pub fn data(&self) -> (d: JikanData)
        requires
            self.data is Some,
        ensures
            same_jikan(d, self.data->0),
    {
        copy_jikan(self.data.as_ref().unwrap())
    }

    /// Whether the show is rated for adults.
    pub fn is_adult(&self) -> (b: bool)
        requires
            has_rating(*self),
        ensures
            b == adult_rating(self.data->0.rating@),
    {
        proof {
            reveal_strlit("Rx");
        }
        match &self.data {
            Some(d) => first_word_is(d.rating.as_str(), "Rx"),
            None => false,
        }
    }

    /// Whether the show is rated ecchi.
    pub fn is_ecchi(&self) -> (b: bool)
        requires
            has_rating(*self),
        ensures
            b == ecchi_rating(self.data->0.rating@),
    {
        proof {
            reveal_strlit("R+");
        }
        match &self.data {
            Some(d) => first_word_is(d.rating.as_str(), "R+"),
            None => false,
        }
    }
}

/// A content filter over listed shows.
#[derive(Clone, Copy, Debug, PartialEq, Eq)]
pub enum ShowFilter {
    /// Hides adult and ecchi shows.
    NoAdultOrEcchi,
    /// Hides adult shows.
    NoAdult,
}

/// The values the `filter` setting takes.
pub open spec fn is_filter_state(s: Seq<char>) -> bool {
    s == "sfw"@ || s == "nsfw"@ || s == "sfw-with-ecchi"@ || s == "nsfw-with-ecchi"@
}

/// The filter of a `filter` setting: safe-for-work hides adult and ecchi
/// shows, safe-for-work with ecchi hides adult shows, and the other settings
/// show everything.
pub open spec fn filter_of(state: Seq<char>) -> Option<ShowFilter> {
    if state == "sfw"@ {
        Some(ShowFilter::NoAdultOrEcchi)
    } else if state == "sfw-with-ecchi"@ {
        Some(ShowFilter::NoAdult)
    } else {
        None
    }
}

/// Whether a filter lets a show with the given rating through.
pub open spec fn filter_accepts(f: ShowFilter, rating: Seq<char>) -> bool {
    match f {
        ShowFilter::NoAdultOrEcchi => !(ecchi_rating(rating) || adult_rating(rating)),
        ShowFilter::NoAdult => !adult_rating(rating),
    }
}

/// Decides `is_filter_state`.
pub fn known_filter_state(state: &str) -> (b: bool)
    ensures
        b == is_filter_state(state@),
{
    str_equals(state, "sfw") || str_equals(state, "nsfw") || str_equals(state, "sfw-with-ecchi")
        || str_equals(state, "nsfw-with-ecchi")
}

/// The filter of a `filter` setting.
pub fn filter(state: &str) -> (f: Option<ShowFilter>)
    requires
        is_filter_state(state@),
    ensures
        f == filter_of(state@),
{
    if str_equals(state, "sfw") {
        Some(ShowFilter::NoAdultOrEcchi)
    } else if str_equals(state, "sfw-with-ecchi") {
        Some(ShowFilter::NoAdult)
    } else {
        None
    }
}

impl ShowFilter {
    /// Whether the filter lets a listed show through.
    pub fn accepts(&self, show: &ShowObject) -> (b: bool)
        requires
            has_rating(*show),
        ensures
            b == filter_accepts(*self, show.data->0.rating@),
    {
        match self {
            ShowFilter::NoAdultOrEcchi => !(show.is_ecchi() || show.is_adult()),
            ShowFilter::NoAdult => !show.is_adult(),
        }
    }
}

/// A show rated adult is never also rated ecchi: a rating has one first
/// word.
pub proof fn adult_and_ecchi_exclusive(rating: Seq<char>)
    ensures
        !(adult_rating(rating) && ecchi_rating(rating)),
{
    reveal_strlit("Rx");
    reveal_strlit("R+");
    if adult_rating(rating) && ecchi_rating(rating) {
        assert(words(rating)[0][1] == 'x');
    }
}

/// Every show that the safe-for-work filter lets through is also let through
/// by the safe-for-work-with-ecchi filter.
pub proof fn sfw_filter_is_stricter(rating: Seq<char>)
    ensures
        filter_accepts(ShowFilter::NoAdultOrEcchi, rating) ==> filter_accepts(
            ShowFilter::NoAdult,
            rating,
        ),
{
}

/// What each filter lets through, by the first word of the rating: the
/// safe-for-work filter hides exactly the shows rated `Rx` or `R+` (so `R`,
/// `PG-13` and every other rating pass), and the filter that allows ecchi
/// hides exactly the shows rated `Rx`.
pub proof fn filters_hide_exactly(rating: Seq<char>)
    requires
        words(rating).len() > 0,
    ensures
        filter_accepts(ShowFilter::NoAdultOrEcchi, rating) <==> (words(rating)[0] != "Rx"@
            && words(rating)[0] != "R+"@),
        filter_accepts(ShowFilter::NoAdult, rating) <==> words(rating)[0] != "Rx"@,
        adult_rating(rating) <==> words(rating)[0] == "Rx"@,
        ecchi_rating(rating) <==> words(rating)[0] == "R+"@,
{
}

/// The settings that filter, and which filter each selects: `sfw` hides
/// adult and ecchi shows, `sfw-with-ecchi` hides adult shows, and `nsfw`
/// and `nsfw-with-ecchi` list everything.
pub proof fn filter_settings(state: Seq<char>)
    ensures
        state == "sfw"@ ==> filter_of(state) == Some(ShowFilter::NoAdultOrEcchi),
        state == "sfw-with-ecchi"@ ==> filter_of(state) == Some(ShowFilter::NoAdult),
        state == "nsfw"@ ==> filter_of(state) is None,
        state == "nsfw-with-ecchi"@ ==> filter_of(state) is None,
{
    reveal_strlit("sfw");
    reveal_strlit("nsfw");
    reveal_strlit("sfw-with-ecchi");
    reveal_strlit("nsfw-with-ecchi");
    assert("sfw"@.len() != "sfw-with-ecchi"@.len());
    assert("nsfw"@[0] != "sfw"@[0]);
    assert("nsfw-with-ecchi"@[0] != "sfw"@[0]);
    assert("nsfw"@[0] != "sfw-with-ecchi"@[0]);
    assert("nsfw-with-ecchi"@[0] != "sfw-with-ecchi"@[0]);
}

} // verus!
