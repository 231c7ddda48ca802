//! Show catalogue data and the decoding of stream identifiers.

use vstd::prelude::*;
use crate::text::{lowercase, texts, trimmed, trim_text, to_lowercase_text};

verus! {

/// The referer the catalogue service expects on its requests.
pub const API_REFERER: &'static str = "https://allanime.to";

/// The host that serves stream link lists.
pub const API_BASE: &'static str = "allanime.day";

/// The endpoint of the catalogue's query interface.
pub const API: &'static str = "https://api.allanime.day/api";

/// The user agent sent with catalogue requests.
pub const API_USERAGENT: &'static str =
    "Mozilla/5.0 (Windows NT 10.0; Win64; x64; rv:109.0) Gecko/20100101 Firefox/121.0";

/// What the library keeps of a show: its catalogue identifiers, titles,
/// classification, episode counts and whether it is in the user's library.
#[derive(Debug, Default, Clone)]
pub struct ShowData {
    pub mal_id: u32,
    pub allanime_id: Option<String>,
    pub title: String,
    pub title_english: Option<String>,
    pub rating: String,
    pub status: String,
    pub dub_episodes: u32,
    pub sub_episodes: u32,
    pub genres: Vec<String>,
    pub studios: Vec<String>,
    pub image: String,
    pub synopsis: Option<String>,
    pub in_library: bool,
}

/// One search result of the streaming catalogue.
#[derive(Debug, Default, Clone)]
pub struct AllanimeData {
    pub id: String,
    pub name: String,
    pub available_episodes: AvailableEpisode,
    pub typename: String,
}

/// One show as the metadata service describes it.
#[derive(Debug, Default, Clone)]
pub struct JikanData {
    pub mal_id: u32,
    pub title: String,
    pub title_english: Option<String>,
    pub status: String,
    pub rating: String,
    pub synopsis: Option<String>,
    pub studios: Vec<StudioData>,
    pub images: ImageData,
    pub genres: Vec<GenreData>,
}

/// A studio credited for a show.
#[derive(Debug, Default, Clone)]
pub struct StudioData {
    pub name: String,
}

/// The cover images of a show.
#[derive(Debug, Default, Clone)]
pub struct ImageData {
    pub jpg: JpgShowImage,
}

/// Cover image addresses in three sizes.
#[derive(Debug, Default, Clone)]
pub struct JpgShowImage {
    pub image_url: String,
    pub large_image_url: String,
    pub small_image_url: String,
}

/// A genre a show belongs to.
#[derive(Debug, Default, Clone)]
pub struct GenreData {
    pub name: String,
}

/// How many episodes the catalogue offers with subtitles and dubbed.
#[derive(Debug, Default, Clone, Copy)]
pub struct AvailableEpisode {
    pub sub: u32,
    pub dub: u32,
}

/// The stream sources the catalogue lists for one episode.
#[derive(Debug, Default, Clone)]
pub struct EpisodeData {
    pub source_urls: Vec<SourceUrl>,
}

/// One stream source of an episode: where it points and which provider
/// serves it.
#[derive(Debug, Default, Clone)]
pub struct SourceUrl {
    pub source_url: String,
    pub source_name: String,
    pub source_type: String,
    pub class_name: String,
    pub streamer_id: String,
}

/// One playable link of a stream source.
#[derive(Debug, Default, Clone)]
pub struct LinkData {
    pub link: String,
    pub resolution_str: String,
}

/// The names of a list of studios.
pub open spec fn studio_names(v: Seq<StudioData>) -> Seq<Seq<char>> {
    v.map_values(|s: StudioData| s.name@)
}

/// The names of a list of genres.
pub open spec fn genre_names(v: Seq<GenreData>) -> Seq<Seq<char>> {
    v.map_values(|g: GenreData| g.name@)
}

/// The text of an optional string.
pub open spec fn opt_text(o: Option<String>) -> Option<Seq<char>> {
    match o {
        Some(s) => Some(s@),
        None => None,
    }
}

/// A copy of an optional string.
pub fn clone_opt(o: &Option<String>) -> (r: Option<String>)
    ensures
        opt_text(r) == opt_text(*o),
{
    match o {
        Some(s) => Some(s.clone()),
        None => None,
    }
}

/// The names of the studios, in order.
fn studio_name_list(v: &Vec<StudioData>) -> (r: Vec<String>)
    ensures
        texts(r@) == studio_names(v@),
{
    let mut r: Vec<String> = Vec::new();
    for i in 0..v.len()
        invariant
            r@.len() == i,
            forall|k: int| 0 <= k < i ==> #[trigger] r@[k]@ == v@[k].name@,
    {
        r.push(v[i].name.clone());
    }
    assert(texts(r@) =~= studio_names(v@));
    r
}

/// The names of the genres, in order.
fn genre_name_list(v: &Vec<GenreData>) -> (r: Vec<String>)
    ensures
        texts(r@) == genre_names(v@),
{
    let mut r: Vec<String> = Vec::new();
    for i in 0..v.len()
        invariant
            r@.len() == i,
            forall|k: int| 0 <= k < i ==> #[trigger] r@[k]@ == v@[k].name@,
    {
        r.push(v[i].name.clone());
    }
    assert(texts(r@) =~= genre_names(v@));
    r
}

/// Studios carrying the given names, in order.
fn studios_named(v: &Vec<String>) -> (r: Vec<StudioData>)
    ensures
        studio_names(r@) == texts(v@),
{
    let mut r: Vec<StudioData> = Vec::new();
    for i in 0..v.len()
        invariant
            r@.len() == i,
            forall|k: int| 0 <= k < i ==> #[trigger] r@[k].name@ == v@[k]@,
    {
        r.push(StudioData { name: v[i].clone() });
    }
    assert(studio_names(r@) =~= texts(v@));
    r
}

/// Genres carrying the given names, in order.
fn genres_named(v: &Vec<String>) -> (r: Vec<GenreData>)
    ensures
        genre_names(r@) == texts(v@),
{
    let mut r: Vec<GenreData> = Vec::new();
    for i in 0..v.len()
        invariant
            r@.len() == i,
            forall|k: int| 0 <= k < i ==> #[trigger] r@[k].name@ == v@[k]@,
    {
        r.push(GenreData { name: v[i].clone() });
    }
    assert(genre_names(r@) =~= texts(v@));
    r
}

impl ShowData {
    /// The metadata-service record that describes this show: titles,
    /// identifier, synopsis, status, rating, studios, genres and the large
    /// cover image; the other image sizes are left empty.
    pub fn to_jikan_data(&self) -> (j: JikanData)
        ensures
            describes(j, *self),
            j.images.jpg.image_url@ == Seq::<char>::empty(),
            j.images.jpg.small_image_url@ == Seq::<char>::empty(),
    {
        JikanData {
            mal_id: self.mal_id,
            title: self.title.clone(),
            title_english: clone_opt(&self.title_english),
            status: self.status.clone(),
            rating: self.rating.clone(),
            synopsis: clone_opt(&self.synopsis),
            studios: studios_named(&self.studios),
            images: ImageData {
                jpg: JpgShowImage {
                    image_url: String::new(),
                    large_image_url: self.image.clone(),
                    small_image_url: String::new(),
                },
            },
            genres: genres_named(&self.genres),
        }
    }
}

/// The key by which a title is compared: trimmed, then lower-cased.
pub open spec fn title_key(s: Seq<char>) -> Seq<char> {
    lowercase(trimmed(s))
}

/// Whether position `i` holds the first key equal to `key`.
pub open spec fn is_first_match(keys: Seq<Seq<char>>, key: Seq<char>, i: int) -> bool {
    &&& 0 <= i < keys.len()
    &&& keys[i] == key
    &&& forall|j: int| 0 <= j < i ==> keys[j] != key
}

/// The comparison keys of the names of search results.
pub open spec fn result_keys(results: Seq<AllanimeData>) -> Seq<Seq<char>> {
    results.map_values(|r: AllanimeData| title_key(r.name@))
}

/// The comparison key of a title.
pub fn title_key_of(s: &str) -> (k: String)
    ensures
        k@ == title_key(s@),
{
    let t = trim_text(s);
    to_lowercase_text(t.as_str())
}

/// The position of the first key equal to `key`, if any.
pub fn first_title_match(key: &String, keys: &Vec<String>) -> (r: Option<usize>)
    ensures
        match r {
            Some(i) => is_first_match(texts(keys@), key@, i as int),
            None => forall|j: int| 0 <= j < keys@.len() ==> keys@[j]@ != key@,
        },
{
    for i in 0..keys.len()
        invariant
            forall|j: int| 0 <= j < i ==> keys@[j]@ != key@,
    {
        if keys[i] == *key {
            return Some(i);
        }
    }
    None
}

impl ShowData {
    /// Builds the show record from its metadata, whether it is in the user's
    /// library, and the streaming catalogue's search results for its title:
    /// the first result whose trimmed, lower-cased name equals the trimmed,
    /// lower-cased title supplies the catalogue identifier and the episode
    /// counts; without such a result they stay unset.
    pub fn from_jikan_data(data: JikanData, in_library: bool, search: &Vec<AllanimeData>) -> (show:
        ShowData)
        ensures
            built_from(show, data),
            show.in_library == in_library,
            match show.allanime_id {
                Some(id) => exists|i: int|
                    is_first_match(result_keys(search@), title_key(data.title@), i)
                        && id@ == search@[i].id@ && show.sub_episodes
                        == search@[i].available_episodes.sub && show.dub_episodes
                        == search@[i].available_episodes.dub,
                None => (forall|j: int|
                    0 <= j < search@.len() ==> title_key(#[trigger] search@[j].name@) != title_key(
                        data.title@,
                    )) && show.sub_episodes == 0 && show.dub_episodes == 0,
            },
    {
        let key = title_key_of(data.title.as_str());
        let mut keys: Vec<String> = Vec::new();
        for i in 0..search.len()
            invariant
                keys@.len() == i,
                forall|k: int| 0 <= k < i ==> #[trigger] keys@[k]@ == title_key(search@[k].name@),
        {
            keys.push(title_key_of(search[i].name.as_str()));
        }
        assert(texts(keys@) =~= result_keys(search@));
        let found = first_title_match(&key, &keys);
        let (allanime_id, sub_episodes, dub_episodes) = match found {
            Some(i) => (
                Some(search[i].id.clone()),
                search[i].available_episodes.sub,
                search[i].available_episodes.dub,
            ),
            None => (None, 0, 0),
        };
        proof {
            if found is None {
                assert forall|j: int| 0 <= j < search@.len() implies title_key(
                    #[trigger] search@[j].name@,
                ) != title_key(data.title@) by {
                    assert(keys@[j]@ == title_key(search@[j].name@));
                }
            }
        }
        ShowData {
            mal_id: data.mal_id,
            allanime_id,
            title: data.title.clone(),
            title_english: clone_opt(&data.title_english),
            rating: data.rating.clone(),
            status: data.status.clone(),
            dub_episodes,
            sub_episodes,
            genres: genre_name_list(&data.genres),
            studios: studio_name_list(&data.studios),
            image: data.images.jpg.large_image_url.clone(),
            synopsis: clone_opt(&data.synopsis),
            in_library,
        }
    }
}

/// Whether two metadata records agree on every field.
pub open spec fn same_jikan(a: JikanData, b: JikanData) -> bool {
    &&& a.mal_id == b.mal_id
    &&& a.title@ == b.title@
    &&& opt_text(a.title_english) == opt_text(b.title_english)
    &&& a.status@ == b.status@
    &&& a.rating@ == b.rating@
    &&& opt_text(a.synopsis) == opt_text(b.synopsis)
    &&& studio_names(a.studios@) == studio_names(b.studios@)
    &&& a.images.jpg.image_url@ == b.images.jpg.image_url@
    &&& a.images.jpg.large_image_url@ == b.images.jpg.large_image_url@
    &&& a.images.jpg.small_image_url@ == b.images.jpg.small_image_url@
    &&& genre_names(a.genres@) == genre_names(b.genres@)
}

/// A copy of a metadata record.
pub fn copy_jikan(d: &JikanData) -> (c: JikanData)
    ensures
        same_jikan(c, *d),
{
    let studios = studios_named(&studio_name_list(&d.studios));
    let genres = genres_named(&genre_name_list(&d.genres));
    JikanData {
        mal_id: d.mal_id,
        title: d.title.clone(),
        title_english: clone_opt(&d.title_english),
        status: d.status.clone(),
        rating: d.rating.clone(),
        synopsis: clone_opt(&d.synopsis),
        studios,
        images: ImageData {
            jpg: JpgShowImage {
                image_url: d.images.jpg.image_url.clone(),
                large_image_url: d.images.jpg.large_image_url.clone(),
                small_image_url: d.images.jpg.small_image_url.clone(),
            },
        },
        genres,
    }
}

/// Whether a metadata record describes a show record: they agree on the
/// identifier, titles, synopsis, status, rating, studios, genres, and the
/// show's image is the record's large cover image.
pub open spec fn describes(j: JikanData, show: ShowData) -> bool {
    &&& j.mal_id == show.mal_id
    &&& j.title@ == show.title@
    &&& opt_text(j.title_english) == opt_text(show.title_english)
    &&& opt_text(j.synopsis) == opt_text(show.synopsis)
    &&& j.status@ == show.status@
    &&& j.rating@ == show.rating@
    &&& j.images.jpg.large_image_url@ == show.image@
    &&& studio_names(j.studios@) == texts(show.studios@)
    &&& genre_names(j.genres@) == texts(show.genres@)
}

/// Whether a show record was built from a metadata record: it takes the
/// record's identifier, titles, synopsis, status, rating, studio and genre
/// names and large cover image.
pub open spec fn built_from(show: ShowData, data: JikanData) -> bool {
    describes(data, show)
}

/// Two metadata records agree on everything a listing shows of a show.
pub open spec fn same_listing(a: JikanData, b: JikanData) -> bool {
    &&& a.mal_id == b.mal_id
    &&& a.title@ == b.title@
    &&& opt_text(a.title_english) == opt_text(b.title_english)
    &&& opt_text(a.synopsis) == opt_text(b.synopsis)
    &&& a.status@ == b.status@
    &&& a.rating@ == b.rating@
    &&& a.images.jpg.large_image_url@ == b.images.jpg.large_image_url@
    &&& studio_names(a.studios@) == studio_names(b.studios@)
    &&& genre_names(a.genres@) == genre_names(b.genres@)
}

/// A show built from a metadata record and saved to the library with
/// `to_jikan_data` is listed again with the same metadata: identifier,
/// titles, synopsis, status, rating, cover image, studios and genres.
pub proof fn library_record_round_trip(data: JikanData, show: ShowData, saved: JikanData)
    requires
        built_from(show, data),
        describes(saved, show),
    ensures
        same_listing(saved, data),
{
}

} // verus!
