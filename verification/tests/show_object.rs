use ronajo::show_data::{ImageData, JikanData, JpgShowImage};
use ronajo::show_object::{filter, known_filter_state, ShowFilter, ShowObject};

fn data(rating: &str, english: Option<&str>) -> JikanData {
    JikanData {
        mal_id: 7,
        title: "Title".to_string(),
        title_english: english.map(|s| s.to_string()),
        rating: rating.to_string(),
        images: ImageData {
            jpg: JpgShowImage { large_image_url: "https://img/l.jpg".to_string(), ..Default::default() },
        },
        ..Default::default()
    }
}

#[test]
fn listed_under_english_title() {
    let o = ShowObject::new(data("G - All Ages", Some("English")));
    assert_eq!(o.name, "English");
    assert_eq!(o.image, "https://img/l.jpg");
    assert_eq!(ShowObject::new(data("G", None)).name, "Title");
    assert_eq!(o.data().mal_id, 7);
}

#[test]
fn adult_and_ecchi_ratings() {
    let adult = ShowObject::new(data("Rx - Hentai", None));
    let ecchi = ShowObject::new(data("R+ - Mild Nudity", None));
    let teen = ShowObject::new(data("PG-13 - Teens 13 or older", None));
    assert!(adult.is_adult() && !adult.is_ecchi());
    assert!(ecchi.is_ecchi() && !ecchi.is_adult());
    assert!(!teen.is_adult() && !teen.is_ecchi());
    assert!(!ShowObject::new(data("Rx+", None)).is_adult());
    assert!(ShowObject::new(data("  Rx", None)).is_adult());
}

#[test]
fn filters_by_setting() {
    assert_eq!(filter("sfw"), Some(ShowFilter::NoAdultOrEcchi));
    assert_eq!(filter("sfw-with-ecchi"), Some(ShowFilter::NoAdult));
    assert_eq!(filter("nsfw"), None);
    assert_eq!(filter("nsfw-with-ecchi"), None);
    assert!(known_filter_state("sfw"));
    assert!(!known_filter_state("SFW"));
}

#[test]
fn filter_acceptance() {
    let adult = ShowObject::new(data("Rx - Hentai", None));
    let ecchi = ShowObject::new(data("R+ - Mild Nudity", None));
    let kids = ShowObject::new(data("G - All Ages", None));
    assert!(!ShowFilter::NoAdultOrEcchi.accepts(&adult));
    assert!(!ShowFilter::NoAdultOrEcchi.accepts(&ecchi));
    assert!(ShowFilter::NoAdultOrEcchi.accepts(&kids));
    assert!(!ShowFilter::NoAdult.accepts(&adult));
    assert!(ShowFilter::NoAdult.accepts(&ecchi));
    assert!(ShowFilter::NoAdult.accepts(&kids));
}

#[test]
fn sfw_filter_is_stricter() {
    for rating in ["Rx", "R+", "R - 17+", "PG", "G"] {
        let o = ShowObject::new(data(rating, None));
        if ShowFilter::NoAdultOrEcchi.accepts(&o) {
            assert!(ShowFilter::NoAdult.accepts(&o));
        }
        assert!(!(o.is_adult() && o.is_ecchi()));
    }
}
