//! The request addresses of the show catalogue and the metadata service.

use vstd::prelude::*;
use vstd::utf8::encode_utf8;
use crate::show_data::API;
use crate::text::{decimal, push_decimal};
use crate::url_encoding::{form_encoded, form_urlencode};

verus! {

/// The catalogue query that searches shows.
pub const SEARCH_QUERY: &'static str = "query(        $search: SearchInput        $limit: Int        $page: Int        $translationType: VaildTranslationTypeEnumType        $countryOrigin: VaildCountryOriginEnumType    ) {    shows(        search: $search        limit: $limit        page: $page        translationType: $translationType        countryOrigin: $countryOrigin    ) {        edges {            _id name availableEpisodes __typename       }    }}";

/// The catalogue query that lists the stream sources of one episode.
pub const EPISODE_QUERY: &'static str = "query ($showId: String!, $translationType: VaildTranslationTypeEnumType!, $episodeString: String!) {    episode(        showId: $showId        translationType: $translationType        episodeString: $episodeString    ) {        episodeString sourceUrls    }}";

/// The variables of a show search: adult shows are allowed exactly when the
/// search is not restricted to safe-for-work results.
pub open spec fn search_variables(name: Seq<char>, translation: Seq<char>, sfw: bool) -> Seq<
    char,
> {
    "{\"search\":{\"allowAdult\":"@ + (if sfw {
        "false"@
    } else {
        "true"@
    }) + ",\"allowUnknown\":false,\"query\":\""@ + name
        + "\"},\"limit\":40,\"page\":1,\"translationType\":\""@ + translation
        + "\",\"countryOrigin\":\"ALL\"}"@
}

/// The variables of an episode request.
pub open spec fn episode_variables(id: Seq<char>, translation: Seq<char>, episode: nat) -> Seq<
    char,
> {
    "{\"showId\":\""@ + id + "\",\"translationType\":\""@ + translation
        + "\",\"episodeString\":\""@ + decimal(episode) + "\"}"@
}

/// A catalogue request address for a query and its variables, both
/// form-encoded.
pub open spec fn query_address(query: Seq<char>, variables: Seq<char>) -> Seq<char> {
    API@ + "?query="@ + form_encoded(encode_utf8(query)) + "&variables="@ + form_encoded(
        encode_utf8(variables),
    )
}

/// The metadata-service search address for a show name.
pub open spec fn jikan_address(name: Seq<char>) -> Seq<char> {
    "https://api.jikan.moe/v4/anime?q="@ + form_encoded(encode_utf8(name))
        + "&limit=10&sfw&type=tv"@
}

fn query_url(query: &str, variables: &str) -> (url: String)
    ensures
        url@ == query_address(query@, variables@),
{
    let mut url = String::from_str(API);
    url.append("?query=");
    let q = form_urlencode(query);
    url.append(q.as_str());
    url.append("&variables=");
    let v = form_urlencode(variables);
    url.append(v.as_str());
    url
}

/// The variables of a show search.
pub fn search_variables_text(name: &str, translation: &str, sfw: bool) -> (v: String)
    ensures
        v@ == search_variables(name@, translation@, sfw),
{
    let mut v = String::from_str("{\"search\":{\"allowAdult\":");
    if sfw {
        v.append("false");
    } else {
        v.append("true");
    }
    v.append(",\"allowUnknown\":false,\"query\":\"");
    v.append(name);
    v.append("\"},\"limit\":40,\"page\":1,\"translationType\":\"");
    v.append(translation);
    v.append("\",\"countryOrigin\":\"ALL\"}");
    v
}

/// The address of a catalogue search for `name` in the given translation.
pub fn api_search_url(name: &str, translation: &str, sfw: bool) -> (url: String)
    ensures
        url@ == query_address(SEARCH_QUERY@, search_variables(name@, translation@, sfw)),
{
    let v = search_variables_text(name, translation, sfw);
    query_url(SEARCH_QUERY, v.as_str())
}

/// The variables of an episode request.
pub fn episode_variables_text(id: &str, translation: &str, episode_number: u32) -> (v: String)
    ensures
        v@ == episode_variables(id@, translation@, episode_number as nat),
{
    let mut v = String::from_str("{\"showId\":\"");
    v.append(id);
    v.append("\",\"translationType\":\"");
    v.append(translation);
    v.append("\",\"episodeString\":\"");
    push_decimal(&mut v, episode_number as u64);
    v.append("\"}");
    v
}

/// The address of the request that lists the stream sources of an episode.
pub fn api_episode_url(id: &str, translation: &str, episode_number: u32) -> (url: String)
    ensures
        url@ == query_address(
            EPISODE_QUERY@,
            episode_variables(id@, translation@, episode_number as nat),
        ),
{
    let v = episode_variables_text(id, translation, episode_number);
    query_url(EPISODE_QUERY, v.as_str())
}

/// The address of a metadata-service search for `name`.
pub fn jikan_search_url(name: &str) -> (url: String)
    ensures
        url@ == jikan_address(name@),
{
    let mut url = String::from_str("https://api.jikan.moe/v4/anime?q=");
    let n = form_urlencode(name);
    url.append(n.as_str());
    url.append("&limit=10&sfw&type=tv");
    url
}

/// The searched name stands verbatim, whatever its length, between
/// `"query":"` and `"},"limit":40`, and the variables of two searches differ
/// only there: for any two names (with the same translation and safety
/// choice) the text before the name and the text after it are the same.
pub proof fn search_variables_hold_name_verbatim(
    name: Seq<char>,
    other: Seq<char>,
    translation: Seq<char>,
    sfw: bool,
)
    ensures
        ({
            let v = search_variables(name, translation, sfw);
            let w = search_variables(other, translation, sfw);
            let k = (if sfw {
                "{\"search\":{\"allowAdult\":false,\"allowUnknown\":false,\"query\":\""@
            } else {
                "{\"search\":{\"allowAdult\":true,\"allowUnknown\":false,\"query\":\""@
            }).len() as int;
            &&& v.take(k) == (if sfw {
                "{\"search\":{\"allowAdult\":false,\"allowUnknown\":false,\"query\":\""@
            } else {
                "{\"search\":{\"allowAdult\":true,\"allowUnknown\":false,\"query\":\""@
            })
            &&& v.subrange(k, k + name.len()) == name
            &&& v.skip(k + name.len()) == "\"},\"limit\":40,\"page\":1,\"translationType\":\""@
                + translation + "\",\"countryOrigin\":\"ALL\"}"@
            &&& v.take(k) == w.take(k)
            &&& v.skip(k + name.len()) == w.skip(k + other.len())
        }),
{
    reveal_strlit("{\"search\":{\"allowAdult\":");
    reveal_strlit("false");
    reveal_strlit("true");
    reveal_strlit(",\"allowUnknown\":false,\"query\":\"");
    reveal_strlit("{\"search\":{\"allowAdult\":false,\"allowUnknown\":false,\"query\":\"");
    reveal_strlit("{\"search\":{\"allowAdult\":true,\"allowUnknown\":false,\"query\":\"");
    let pre = "{\"search\":{\"allowAdult\":"@ + (if sfw {
        "false"@
    } else {
        "true"@
    }) + ",\"allowUnknown\":false,\"query\":\""@;
    let lit = if sfw {
        "{\"search\":{\"allowAdult\":false,\"allowUnknown\":false,\"query\":\""@
    } else {
        "{\"search\":{\"allowAdult\":true,\"allowUnknown\":false,\"query\":\""@
    };
    assert(pre =~= lit);
    let tail = "\"},\"limit\":40,\"page\":1,\"translationType\":\""@ + translation
        + "\",\"countryOrigin\":\"ALL\"}"@;
    let v = search_variables(name, translation, sfw);
    let w = search_variables(other, translation, sfw);
    assert(v =~= pre + name + tail);
    assert(w =~= pre + other + tail);
    let k = lit.len() as int;
    assert(v.take(k) =~= pre);
    assert(w.take(k) =~= pre);
    assert(v.subrange(k, k + name.len()) =~= name);
    assert(v.skip(k + name.len()) =~= tail);
    assert(w.skip(k + other.len()) =~= tail);
}

/// The show identifier, the translation and the decimal episode number
/// stand verbatim in the episode request's variables, in that order, and
/// nothing else varies with them.
pub proof fn episode_variables_hold_fields_verbatim(id: Seq<char>, translation: Seq<char>, episode: nat)
    ensures
        episode_variables(id, translation, episode) == "{\"showId\":\""@ + id
            + "\",\"translationType\":\""@ + translation + "\",\"episodeString\":\""@ + decimal(
            episode,
        ) + "\"}"@,
        episode_variables(id, translation, episode).take(("{\"showId\":\""@).len() as int)
            == "{\"showId\":\""@,
        episode_variables(id, translation, episode).subrange(
            ("{\"showId\":\""@).len() as int,
            (("{\"showId\":\""@).len() + id.len()) as int,
        ) == id,
{
    let v = episode_variables(id, translation, episode);
    let p = "{\"showId\":\""@;
    let rest = "\",\"translationType\":\""@ + translation + "\",\"episodeString\":\""@ + decimal(
        episode,
    ) + "\"}"@;
    assert(v =~= p + id + rest);
    assert(v.take(p.len() as int) =~= p);
    assert(v.subrange(p.len() as int, (p.len() + id.len()) as int) =~= id);
}

} // verus!
