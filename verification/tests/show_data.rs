use ronajo::show_data::{first_title_match, title_key_of};
use ronajo::show_data::{
    AllanimeData, AvailableEpisode, GenreData, ImageData, JikanData, JpgShowImage, ShowData,
    StudioData,
};

fn jikan(title: &str, english: Option<&str>) -> JikanData {
    JikanData {
        mal_id: 20,
        title: title.to_string(),
        title_english: english.map(|s| s.to_string()),
        status: "Finished Airing".to_string(),
        rating: "PG-13 - Teens 13 or older".to_string(),
        synopsis: Some("A ninja story.".to_string()),
        studios: vec![StudioData { name: "Pierrot".to_string() }],
        images: ImageData {
            jpg: JpgShowImage {
                image_url: "https://img/s.jpg".to_string(),
                large_image_url: "https://img/l.jpg".to_string(),
                small_image_url: "https://img/t.jpg".to_string(),
            },
        },
        genres: vec![
            GenreData { name: "Action".to_string() },
            GenreData { name: "Adventure".to_string() },
        ],
    }
}

fn result(id: &str, name: &str, sub: u32, dub: u32) -> AllanimeData {
    AllanimeData {
        id: id.to_string(),
        name: name.to_string(),
        available_episodes: AvailableEpisode { sub, dub },
        typename: "Show".to_string(),
    }
}

#[test]
fn from_jikan_data_takes_first_matching_result() {
    let results = vec![
        result("a1", "Naruto Shippuden", 500, 500),
        result("a2", "  NARUTO ", 220, 220),
        result("a3", "naruto", 1, 1),
    ];
    let show = ShowData::from_jikan_data(jikan("Naruto", Some("Naruto")), true, &results);
    assert_eq!(show.allanime_id.as_deref(), Some("a2"));
    assert_eq!(show.sub_episodes, 220);
    assert_eq!(show.dub_episodes, 220);
    assert_eq!(show.mal_id, 20);
    assert_eq!(show.title, "Naruto");
    assert_eq!(show.title_english.as_deref(), Some("Naruto"));
    assert_eq!(show.image, "https://img/l.jpg");
    assert_eq!(show.studios, vec!["Pierrot".to_string()]);
    assert_eq!(show.genres, vec!["Action".to_string(), "Adventure".to_string()]);
    assert_eq!(show.synopsis.as_deref(), Some("A ninja story."));
    assert_eq!(show.rating, "PG-13 - Teens 13 or older");
    assert!(show.in_library);
}

#[test]
fn from_jikan_data_without_match() {
    let results = vec![result("a1", "Bleach", 366, 366)];
    let show = ShowData::from_jikan_data(jikan("Naruto", None), false, &results);
    assert_eq!(show.allanime_id, None);
    assert_eq!(show.sub_episodes, 0);
    assert_eq!(show.dub_episodes, 0);
    assert!(!show.in_library);
}

#[test]
fn from_jikan_data_compares_unicode_case() {
    let results = vec![result("x", "\u{c9}COLE", 3, 0)];
    let show = ShowData::from_jikan_data(jikan(" \u{e9}cole\u{3000}", None), false, &results);
    assert_eq!(show.allanime_id.as_deref(), Some("x"));
}

#[test]
fn to_jikan_data_copies_metadata() {
    let show = ShowData::from_jikan_data(jikan("Naruto", Some("Naruto EN")), false, &Vec::new());
    let j = show.to_jikan_data();
    assert_eq!(j.mal_id, 20);
    assert_eq!(j.title, "Naruto");
    assert_eq!(j.title_english.as_deref(), Some("Naruto EN"));
    assert_eq!(j.images.jpg.large_image_url, "https://img/l.jpg");
    assert_eq!(j.images.jpg.image_url, "");
    assert_eq!(j.images.jpg.small_image_url, "");
    assert_eq!(j.studios.len(), 1);
    assert_eq!(j.studios[0].name, "Pierrot");
    assert_eq!(j.genres[1].name, "Adventure");
}

#[test]
fn library_record_round_trip() {
    let original = jikan("Naruto", Some("Naruto EN"));
    let show = ShowData::from_jikan_data(original.clone(), true, &vec![result("a", "naruto", 2, 1)]);
    let saved = show.to_jikan_data();
    assert_eq!(saved.mal_id, original.mal_id);
    assert_eq!(saved.title, original.title);
    assert_eq!(saved.title_english, original.title_english);
    assert_eq!(saved.synopsis, original.synopsis);
    assert_eq!(saved.status, original.status);
    assert_eq!(saved.rating, original.rating);
    assert_eq!(saved.images.jpg.large_image_url, original.images.jpg.large_image_url);
    let names = |v: &Vec<StudioData>| v.iter().map(|s| s.name.clone()).collect::<Vec<_>>();
    assert_eq!(names(&saved.studios), names(&original.studios));
    let genres = |v: &Vec<GenreData>| v.iter().map(|s| s.name.clone()).collect::<Vec<_>>();
    assert_eq!(genres(&saved.genres), genres(&original.genres));
}

#[test]
fn title_keys() {
    assert_eq!(title_key_of("  One PIECE\t"), "one piece");
    let keys = vec!["a".to_string(), "b".to_string(), "b".to_string()];
    assert_eq!(first_title_match(&"b".to_string(), &keys), Some(1));
    assert_eq!(first_title_match(&"c".to_string(), &keys), None);
}
