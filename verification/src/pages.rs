//! Decisions of the show page and the two playback pages: how a show is
//! presented, which episodes are listed, and what happens when an episode
//! ends.

use vstd::prelude::*;
use crate::show_data::ShowData;
use crate::text::{decimal, push_decimal, split_words, str_equals, texts, words};

verus! {

/// The style class of a rating label, by the rating's first word: `G` and
/// `PG` are fine for everyone, `PG-13` and `R` call for caution, and other
/// ratings get no style.
pub open spec fn rating_style_of(rating: Seq<char>) -> Option<Seq<char>> {
    let w = words(rating)[0];
    if w == "G"@ || w == "PG"@ {
        Some("success"@)
    } else if w == "PG-13"@ || w == "R"@ {
        Some("warning"@)
    } else {
        None
    }
}

/// The style class of a rating label.
pub fn rating_style(rating: &str) -> (r: Option<&'static str>)
    requires
        words(rating@).len() > 0,
    ensures
        match r {
            Some(s) => rating_style_of(rating@) == Some(s@),
            None => rating_style_of(rating@) is None,
        },
{
    let ws = split_words(rating);
    assert(texts(ws@)[0] == ws@[0]@);
    let w = ws[0].as_str();
    if str_equals(w, "G") || str_equals(w, "PG") {
        Some("success")
    } else if str_equals(w, "PG-13") || str_equals(w, "R") {
        Some("warning")
    } else {
        None
    }
}

/// The title a show page shows: the English title when there is one.
pub fn display_title(show: &ShowData) -> (t: String)
    ensures
        t@ == (match show.title_english {
            Some(e) => e@,
            None => show.title@,
        }),
{
    match &show.title_english {
        Some(e) => e.clone(),
        None => show.title.clone(),
    }
}

/// Texts joined with a separator between consecutive ones.
pub open spec fn joined(parts: Seq<Seq<char>>, sep: Seq<char>) -> Seq<char>
    decreases parts.len(),
{
    if parts.len() == 0 {
        Seq::empty()
    } else if parts.len() == 1 {
        parts[0]
    } else {
        joined(parts.drop_last(), sep) + sep + parts.last()
    }
}

/// The studio line of a show page: the studios separated by `, `.
pub fn studios_label(studios: &Vec<String>) -> (s: String)
    ensures
        s@ == joined(texts(studios@), ", "@),
{
    let mut s = String::new();
    for i in 0..studios.len()
        invariant
            s@ == joined(texts(studios@).take(i as int), ", "@),
    {
        let ghost prev = texts(studios@).take(i as int);
        assert(texts(studios@).take(i + 1).drop_last() =~= prev);
        if i > 0 {
            s.append(", ");
        }
        s.append(studios[i].as_str());
        assert(texts(studios@).take(i + 1).last() == studios@[i as int]@);
    }
    assert(texts(studios@).take(studios@.len() as int) =~= texts(studios@));
    s
}

/// The episode numbers listed for a translation with `count` episodes:
/// one to `count`.
pub fn episode_numbers(count: u32) -> (v: Vec<u32>)
    requires
        count < u32::MAX,
    ensures
        v@.len() == count,
        forall|i: int| 0 <= i < count ==> v@[i] == i + 1,
{
    let mut v: Vec<u32> = Vec::new();
    let mut i: u32 = 1;
    while i < count + 1
        invariant
            1 <= i <= count + 1,
            count < u32::MAX,
            v@.len() == i - 1,
            forall|j: int| 0 <= j < i - 1 ==> v@[j] == j + 1,
        decreases count + 1 - i,
    {
        v.push(i);
        i = i + 1;
    }
    v
}

/// The episode count and translation listed for a translation row label:
/// `Sub` lists the subtitled episodes, `Dub` the dubbed ones.
pub fn episodes_for(show: &ShowData, label: &str) -> (r: (u32, &'static str))
    requires
        label@ == "Sub"@ || label@ == "Dub"@,
    ensures
        label@ == "Sub"@ ==> r.0 == show.sub_episodes && r.1@ == "sub"@,
        label@ == "Dub"@ ==> r.0 == show.dub_episodes && r.1@ == "dub"@,
{
    proof {
        reveal_strlit("Sub");
        reveal_strlit("Dub");
        assert("Sub"@[0] != "Dub"@[0]);
    }
    if str_equals(label, "Sub") {
        (show.sub_episodes, "sub")
    } else {
        (show.dub_episodes, "dub")
    }
}

/// The label of an episode: `Episode ` and its number.
pub fn episode_label(number: u32) -> (s: String)
    ensures
        s@ == "Episode "@ + decimal(number as nat),
{
    let mut s = String::from_str("Episode ");
    push_decimal(&mut s, number as u64);
    s
}

/// Whether an edited note is removed instead of saved: when it is empty.
pub fn note_removed(text: &str) -> (b: bool)
    ensures
        b == (text@.len() == 0),
{
    text.is_empty()
}

/// What a playback page does when an episode has finished.
#[derive(Clone, Copy, Debug, PartialEq, Eq)]
pub enum PlaybackEnd {
    /// Play the same episode again.
    Replay,
    /// Leave the playback page.
    Close,
    /// Play the following episode.
    PlayNext,
}

/// What follows the end of an episode: replay when looping, leave after the
/// last episode, play the next one otherwise.
pub open spec fn end_of(looping: bool, episode: u32, total: u32) -> PlaybackEnd {
    if looping {
        PlaybackEnd::Replay
    } else if episode == total {
        PlaybackEnd::Close
    } else {
        PlaybackEnd::PlayNext
    }
}

/// Decides what follows the end of an episode.
pub fn end_of_episode(looping: bool, episode: u32, total: u32) -> (e: PlaybackEnd)
    ensures
        e == end_of(looping, episode, total),
{
    if looping {
        PlaybackEnd::Replay
    } else if episode == total {
        PlaybackEnd::Close
    } else {
        PlaybackEnd::PlayNext
    }
}

/// The episode played next.
pub fn next_episode(episode: u32) -> (n: u32)
    requires
        episode < u32::MAX,
    ensures
        n == episode + 1,
{
    episode + 1
}

/// The page of the library grid: an empty-state page without shows.
pub fn library_page(n_items: u32) -> (page: &'static str)
    ensures
        page@ == (if n_items == 0 {
            "empty-library"@
        } else {
            "library-page"@
        }),
{
    if n_items == 0 {
        "empty-library"
    } else {
        "library-page"
    }
}

/// The page of the search grid once results arrived: an empty-state page
/// without results.
pub fn search_page(n_results: usize) -> (page: &'static str)
    ensures
        page@ == (if n_results == 0 {
            "empty-shows"@
        } else {
            "show-page"@
        }),
{
    if n_results == 0 {
        "empty-shows"
    } else {
        "show-page"
    }
}

/// Nanoseconds in a second, the unit of the stream clock.
pub const SECOND_NS: u64 = 1000000000;

/// Where a seek ten seconds forward lands, in stream nanoseconds: ten
/// seconds later, or one second before the end when that passes the end in
/// whole seconds.
pub open spec fn forward_target(position: u64, duration: u64) -> int {
    let target = position + 10 * SECOND_NS;
    if target / (SECOND_NS as int) > duration / SECOND_NS {
        duration - SECOND_NS
    } else {
        target
    }
}

/// Whether a forward seek can be computed without leaving the clock's range.
pub open spec fn forward_seek_defined(position: u64, duration: u64) -> bool {
    &&& position + 10 * SECOND_NS <= u64::MAX
    &&& (position + 10 * SECOND_NS) / (SECOND_NS as int) > duration / SECOND_NS ==> duration
        >= SECOND_NS
}

/// The target of a seek ten seconds forward.
pub fn forward_seek_target(position: u64, duration: u64) -> (t: u64)
    requires
        forward_seek_defined(position, duration),
    ensures
        t == forward_target(position, duration),
{
    let target = position + 10 * SECOND_NS;
    if target / SECOND_NS > duration / SECOND_NS {
        duration - SECOND_NS
    } else {
        target
    }
}

/// The target of a seek ten seconds backward: ten seconds earlier, or the
/// start when that is before it.
pub fn backward_seek_target(position: u64) -> (t: u64)
    ensures
        t == (if position < 10 * SECOND_NS {
            0
        } else {
            position - 10 * SECOND_NS
        }),
{
    if position < 10 * SECOND_NS {
        0
    } else {
        position - 10 * SECOND_NS
    }
}

/// Whether the header and controls of the video page are shown: always
/// without auto-hiding, otherwise until five seconds without pointer
/// activity have passed.
pub fn controls_revealed(autohide: bool, idle_secs: u64) -> (b: bool)
    ensures
        b == (!autohide || idle_secs < 5),
{
    !autohide || idle_secs < 5
}

/// Whether the volume slider is shown: for two seconds after the volume
/// changed.
pub fn volume_slider_revealed(secs_since_change: u64) -> (b: bool)
    ensures
        b == (secs_since_change < 2),
{
    secs_since_change < 2
}

/// Whether the rate label is shown: for one second after the rate changed.
pub fn rate_label_revealed(secs_since_change: u64) -> (b: bool)
    ensures
        b == (secs_since_change < 1),
{
    secs_since_change < 1
}

/// A forward seek never lands in a whole second past the end of the stream.
pub proof fn forward_seek_stays_in_stream(position: u64, duration: u64)
    requires
        forward_seek_defined(position, duration),
    ensures
        forward_target(position, duration) >= 0,
        forward_target(position, duration) / (SECOND_NS as int) <= (duration as int) / (
        SECOND_NS as int),
{
    let d = duration as int;
    let s = SECOND_NS as int;
    let target = position + 10 * SECOND_NS;
    if target / s > d / s {
        assert((d - s) / s <= d / s) by (nonlinear_arith)
            requires
                d >= s,
                s > 0,
        ;
    }
}

/// The icon of the play button: a start icon while it is active (paused), a
/// pause icon otherwise.
pub fn play_icon(active: bool) -> (name: &'static str)
    ensures
        name@ == (if active {
            "media-playback-start-symbolic"@
        } else {
            "media-playback-pause-symbolic"@
        }),
{
    if active {
        "media-playback-start-symbolic"
    } else {
        "media-playback-pause-symbolic"
    }
}

/// The tooltip of the play button.
pub fn play_tooltip(active: bool) -> (text: &'static str)
    ensures
        text@ == (if active {
            "Play"@
        } else {
            "Pause"@
        }),
{
    if active {
        "Play"
    } else {
        "Pause"
    }
}

/// The icon of the fullscreen button.
pub fn fullscreen_icon(active: bool) -> (name: &'static str)
    ensures
        name@ == (if active {
            "arrows-pointing-inward-symbolic"@
        } else {
            "arrows-pointing-outward-symbolic"@
        }),
{
    if active {
        "arrows-pointing-inward-symbolic"
    } else {
        "arrows-pointing-outward-symbolic"
    }
}

/// The icon of the button that keeps the controls shown.
pub fn lock_icon(active: bool) -> (name: &'static str)
    ensures
        name@ == (if active {
            "padlock2-symbolic"@
        } else {
            "padlock2-open-symbolic"@
        }),
{
    if active {
        "padlock2-symbolic"
    } else {
        "padlock2-open-symbolic"
    }
}

/// The label of the synopsis expander.
pub fn expand_label(active: bool) -> (text: &'static str)
    ensures
        text@ == (if active {
            "Show Less"@
        } else {
            "Show More"@
        }),
{
    if active {
        "Show Less"
    } else {
        "Show More"
    }
}

/// The icon of the library button of a show page.
pub fn favourite_icon(in_library: bool) -> (name: &'static str)
    ensures
        name@ == (if in_library {
            "heart-filled-symbolic"@
        } else {
            "heart-outline-thick-symbolic"@
        }),
{
    if in_library {
        "heart-filled-symbolic"
    } else {
        "heart-outline-thick-symbolic"
    }
}

/// When looping is on, the end of any episode replays it; otherwise the
/// page is left exactly after the last episode and the next episode plays
/// after any other.
pub proof fn episode_end_follows_looping(looping: bool, episode: u32, total: u32)
    ensures
        looping ==> end_of(looping, episode, total) == PlaybackEnd::Replay,
        !looping && episode == total ==> end_of(looping, episode, total) == PlaybackEnd::Close,
        !looping && episode != total ==> end_of(looping, episode, total) == PlaybackEnd::PlayNext,
{
}

/// The style of a rating label by its first word: `G` and `PG` are styled
/// as fine, `PG-13` and `R` as a warning, and every other rating (`R+`,
/// `Rx`, ...) gets no style.
pub proof fn rating_styles(rating: Seq<char>)
    requires
        words(rating).len() > 0,
    ensures
        ({
            let w = words(rating)[0];
            &&& (w == "G"@ || w == "PG"@) ==> rating_style_of(rating) == Some("success"@)
            &&& (w == "PG-13"@ || w == "R"@) ==> rating_style_of(rating) == Some("warning"@)
            &&& !(w == "G"@ || w == "PG"@ || w == "PG-13"@ || w == "R"@) ==> rating_style_of(
                rating,
            ) is None
        }),
{
    reveal_strlit("G");
    reveal_strlit("PG");
    reveal_strlit("PG-13");
    reveal_strlit("R");
    assert("G"@ != "PG-13"@ && "G"@ != "R"@) by {
        assert("G"@[0] != "PG-13"@[0]);
        assert("G"@[0] != "R"@[0]);
    }
    assert("PG"@ != "PG-13"@ && "PG"@ != "R"@) by {
        assert("PG"@.len() != "PG-13"@.len());
        assert("PG"@[0] != "R"@[0]);
    }
}

/// A forward seek lands exactly ten seconds later unless that passes the
/// end in whole seconds, and then one second before the end.
pub proof fn seek_targets(position: u64, duration: u64)
    ensures
        (position + 10000000000) / 1000000000 <= duration / 1000000000 ==> forward_target(
            position,
            duration,
        ) == position + 10000000000,
        (position + 10000000000) / 1000000000 > duration / 1000000000 ==> forward_target(
            position,
            duration,
        ) == duration - 1000000000,
{
}

} // verus!
