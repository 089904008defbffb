//! The display snapshot and the values it is built from.

use crate::artwork::ArtFetch;
use crate::artwork::Artwork;
use crate::artwork::ArtworkView;
use vstd::prelude::*;

verus! {

/// The screen corner the widget is anchored to.
#[derive(Clone, Copy, Debug, PartialEq, Eq, Structural)]
pub enum ScreenLoc {
    TopRight,
    TopLeft,
    BottomLeft,
    BottomRight,
}

impl ScreenLoc {
    /// Whether the corner lies on the top edge of the screen.
    pub open spec fn on_top(self) -> bool {
        self == ScreenLoc::TopRight || self == ScreenLoc::TopLeft
    }

    /// Whether the corner lies on the left edge of the screen.
    pub open spec fn on_left(self) -> bool {
        self == ScreenLoc::TopLeft || self == ScreenLoc::BottomLeft
    }

    /// The corner in which the chosen edges meet.
    pub open spec fn corner(top: bool, left: bool) -> ScreenLoc {
        if top {
            if left {
                ScreenLoc::TopLeft
            } else {
                ScreenLoc::TopRight
            }
        } else {
            if left {
                ScreenLoc::BottomLeft
            } else {
                ScreenLoc::BottomRight
            }
        }
    }

    /// The two edge flags and the four corners stand for each other: a corner
    /// lies on the edges it was chosen by, and its edges choose it again.
    pub proof fn lemma_corner_edges(top: bool, left: bool, loc: ScreenLoc)
        ensures
            ScreenLoc::corner(top, left).on_top() == top,
            ScreenLoc::corner(top, left).on_left() == left,
            ScreenLoc::corner(loc.on_top(), loc.on_left()) == loc,
    {
    }

    /// The corner in which the chosen edges meet.
    pub fn from_edges(top: bool, left: bool) -> (loc: ScreenLoc)
        ensures
            loc == ScreenLoc::corner(top, left),
    {
        if top {
            if left {
                ScreenLoc::TopLeft
            } else {
                ScreenLoc::TopRight
            }
        } else {
            if left {
                ScreenLoc::BottomLeft
            } else {
                ScreenLoc::BottomRight
            }
        }
    }

    /// Whether the corner lies on the top edge of the screen.
    pub fn is_top(&self) -> (top: bool)
        ensures
            top == self.on_top(),
    {
        match self {
            ScreenLoc::TopRight => true,
            ScreenLoc::TopLeft => true,
            ScreenLoc::BottomLeft => false,
            ScreenLoc::BottomRight => false,
        }
    }

    /// Whether the corner lies on the left edge of the screen.
    pub fn is_left(&self) -> (left: bool)
        ensures
            left == self.on_left(),
    {
        match self {
            ScreenLoc::TopRight => false,
            ScreenLoc::TopLeft => true,
            ScreenLoc::BottomLeft => true,
            ScreenLoc::BottomRight => false,
        }
    }
}

/// A transport command issued by the user through the widget's buttons.
#[derive(Clone, Copy, Debug, PartialEq, Eq, Structural)]
pub enum PlayerCommand {
    Pause,
    Next,
    Prev,
}

/// What a player says it is doing.
#[derive(Clone, Copy, Debug, PartialEq, Eq, Structural)]
pub enum PlaybackStatus {
    Playing,
    Paused,
    Stopped,
}

/// What the track description of a player holds. A field is `None` where the
/// player does not report it.
#[derive(Clone, Debug)]
pub struct TrackMetadata {
    pub title: Option<String>,
    pub artists: Option<Vec<String>>,
    pub album_name: Option<String>,
    pub art_url: Option<String>,
}

/// The answers of a player to one round of queries. A field is `None` where
/// the query failed.
#[derive(Clone, Debug)]
pub struct PlayerReport {
    pub metadata: Option<TrackMetadata>,
    pub can_go_previous: Option<bool>,
    pub can_pause: Option<bool>,
    pub can_go_next: Option<bool>,
    pub playback_status: Option<PlaybackStatus>,
}

/// The text of a field, empty where it is missing.
pub open spec fn text_or_empty(text: Option<String>) -> Seq<char> {
    match text {
        Some(t) => t@,
        None => Seq::empty(),
    }
}

/// The texts that a list of strings holds.
pub open spec fn texts(names: Seq<String>) -> Seq<Seq<char>> {
    Seq::new(names.len(), |i: int| names[i]@)
}

/// The names one after the other, in order, with nothing between them.
pub open spec fn joined(names: Seq<Seq<char>>) -> Seq<char>
    decreases names.len(),
{
    if names.len() == 0 {
        Seq::empty()
    } else {
        joined(names.drop_last()) + names.last()
    }
}

/// The flag kept for a capability query: the negation of the answer, where a
/// failed query counts as the answer "no". The window disables a button
/// while its flag is set.
pub open spec fn negated_capability(query: Option<bool>) -> bool {
    match query {
        Some(capable) => !capable,
        None => true,
    }
}

/// Whether a status query says "paused"; a failed query counts as "playing".
pub open spec fn reads_paused(status: Option<PlaybackStatus>) -> bool {
    status == Some(PlaybackStatus::Paused)
}

impl PlayerReport {
    /// The reported title, empty where there is none.
    pub open spec fn title(self) -> Seq<char> {
        match self.metadata {
            Some(m) => text_or_empty(m.title),
            None => Seq::empty(),
        }
    }

    /// The reported artists joined, empty where there are none.
    pub open spec fn artists(self) -> Seq<char> {
        match self.metadata {
            Some(m) => match m.artists {
                Some(names) => joined(texts(names@)),
                None => Seq::empty(),
            },
            None => Seq::empty(),
        }
    }

    /// The reported album name, empty where there is none.
    pub open spec fn album_name(self) -> Seq<char> {
        match self.metadata {
            Some(m) => text_or_empty(m.album_name),
            None => Seq::empty(),
        }
    }

    /// The reported artwork address, empty where there is none.
    pub open spec fn art_url(self) -> Seq<char> {
        match self.metadata {
            Some(m) => text_or_empty(m.art_url),
            None => Seq::empty(),
        }
    }
}

/// Everything the widget shows at one instant, with the placement it was
/// started with.
#[derive(Debug)]
pub struct Info {
    pub title: String,
    pub artists: String,
    pub art_url: String,
    pub album_name: String,
    pub art: Option<Artwork>,
    pub can_prev: bool,
    pub can_next: bool,
    pub can_pause: bool,
    pub is_paused: bool,
    pub minimize: bool,
    pub location: ScreenLoc,
    pub offset: (i32, i32),
}

/// The mathematical content of an [`Info`].
pub struct InfoView {
    pub title: Seq<char>,
    pub artists: Seq<char>,
    pub art_url: Seq<char>,
    pub album_name: Seq<char>,
    pub art: Option<ArtworkView>,
    pub can_prev: bool,
    pub can_next: bool,
    pub can_pause: bool,
    pub is_paused: bool,
    pub minimize: bool,
    pub location: ScreenLoc,
    pub offset: (i32, i32),
}

impl View for Info {
    type V = InfoView;

    open spec fn view(&self) -> InfoView {
        InfoView {
            title: self.title@,
            artists: self.artists@,
            art_url: self.art_url@,
            album_name: self.album_name@,
            art: match self.art {
                Some(art) => Some(art@),
                None => None,
            },
            can_prev: self.can_prev,
            can_next: self.can_next,
            can_pause: self.can_pause,
            is_paused: self.is_paused,
            minimize: self.minimize,
            location: self.location,
            offset: self.offset,
        }
    }
}

impl Clone for Info {
    fn clone(&self) -> (info: Info)
        ensures
            info@ == self@,
    {
        Info {
            title: self.title.clone(),
            artists: self.artists.clone(),
            art_url: self.art_url.clone(),
            album_name: self.album_name.clone(),
            art: match &self.art {
                Some(art) => Some(art.clone()),
                None => None,
            },
            can_prev: self.can_prev,
            can_next: self.can_next,
            can_pause: self.can_pause,
            is_paused: self.is_paused,
            minimize: self.minimize,
            location: self.location,
            offset: self.offset,
        }
    }
}

impl Info {
    /// What the widget shows before any player was found: no texts, no
    /// artwork, every button disabled.
    pub open spec fn blank(location: ScreenLoc, offset: (i32, i32)) -> InfoView {
        InfoView {
            title: Seq::empty(),
            artists: Seq::empty(),
            art_url: Seq::empty(),
            album_name: Seq::empty(),
            art: None,
            can_prev: true,
            can_next: true,
            can_pause: true,
            is_paused: false,
            minimize: false,
            location,
            offset,
        }
    }

    /// The snapshot the widget starts with.
    pub fn initial(location: ScreenLoc, offset: (i32, i32)) -> (info: Info)
        ensures
            info@ == Info::blank(location, offset),
    {
        Info {
            title: String::new(),
            artists: String::new(),
            art_url: String::new(),
            album_name: String::new(),
            art: None,
            can_prev: true,
            can_next: true,
            can_pause: true,
            is_paused: false,
            minimize: false,
            location,
            offset,
        }
    }
}

/// The picture a snapshot carries: the empty one unless an address was
/// reported and fetching it gave a picture.
pub open spec fn snapshot_art(player: PlayerReport, art: ArtFetch) -> ArtworkView {
    if player.art_url().len() == 0 {
        ArtworkView::empty()
    } else {
        art.picture()
    }
}

/// The snapshot that a report and the outcome of the artwork fetch give.
pub open spec fn snapshot(
    player: PlayerReport,
    art: ArtFetch,
    location: ScreenLoc,
    offset: (i32, i32),
) -> InfoView {
    InfoView {
        title: player.title(),
        artists: player.artists(),
        art_url: player.art_url(),
        album_name: player.album_name(),
        art: Some(snapshot_art(player, art)),
        can_prev: negated_capability(player.can_go_previous),
        can_next: negated_capability(player.can_go_next),
        can_pause: negated_capability(player.can_pause),
        is_paused: reads_paused(player.playback_status),
        minimize: false,
        location,
        offset,
    }
}

/// Joining keeps the order and adds nothing: no names give the empty text,
/// one name gives itself, and two lists joined one after the other give the
/// two joined texts one after the other.
pub proof fn lemma_joined_concat(first: Seq<Seq<char>>, second: Seq<Seq<char>>, name: Seq<char>)
    ensures
        joined(Seq::empty()) == Seq::<char>::empty(),
        joined(seq![name]) == name,
        joined(first + second) == joined(first) + joined(second),
    decreases second.len(),
{
    assert(joined(seq![name]) =~= name) by {
        let one = seq![name];
        assert(one.len() == 1);
        assert(one.last() == name);
        assert(one.drop_last() =~= Seq::<Seq<char>>::empty());
        assert(joined(one.drop_last()) =~= Seq::<char>::empty());
        assert(joined(one) == joined(one.drop_last()) + one.last());
    }
    if second.len() == 0 {
        assert(first + second =~= first);
        assert(joined(first) + joined(second) =~= joined(first));
    } else {
        lemma_joined_concat(first, second.drop_last(), name);
        assert((first + second).drop_last() =~= first + second.drop_last());
        assert(joined(first + second) =~= joined(first) + joined(second));
    }
}

/// Each button flag of a snapshot is the negation of what the player said
/// of the capability, and `true` where the query failed. The three flags do
/// not depend on each other.
pub proof fn lemma_flags_negate_capabilities(
    player: PlayerReport,
    art: ArtFetch,
    location: ScreenLoc,
    offset: (i32, i32),
)
    ensures
        negated_capability(Some(true)) == false,
        negated_capability(Some(false)) == true,
        negated_capability(None) == true,
        snapshot(player, art, location, offset).can_prev == negated_capability(
            player.can_go_previous,
        ),
        snapshot(player, art, location, offset).can_pause == negated_capability(player.can_pause),
        snapshot(player, art, location, offset).can_next == negated_capability(player.can_go_next),
{
}

/// Whatever the address, a fetch that did not end in a decoded picture
/// gives a snapshot with the empty picture.
pub proof fn lemma_failed_art_is_empty(
    player: PlayerReport,
    art: ArtFetch,
    location: ScreenLoc,
    offset: (i32, i32),
)
    requires
        !(art is Decoded),
    ensures
        snapshot(player, art, location, offset).art == Some(ArtworkView::empty()),
{
}

/// A copy of the text of a field, empty where it is missing.
pub fn text_or_default(text: &Option<String>) -> (out: String)
    ensures
        out@ == text_or_empty(*text),
{
    match text {
        Some(t) => t.clone(),
        None => String::new(),
    }
}

/// Joins the names in order, with nothing between them.
pub fn join_artists(names: &Vec<String>) -> (out: String)
    ensures
        out@ == joined(texts(names@)),
{
    let mut out = String::new();
    let mut i: usize = 0;
    while i < names.len()
        invariant
            i <= names.len(),
            out@ == joined(texts(names@).take(i as int)),
        decreases names.len() - i,
    {
        proof {
            let upto = texts(names@).take(i + 1);
            assert(upto.drop_last() =~= texts(names@).take(i as int));
            assert(upto.last() == names@[i as int]@);
        }
        out.append(names[i].as_str());
        i = i + 1;
    }
    proof {
        assert(texts(names@).take(names.len() as int) =~= texts(names@));
    }
    out
}

/// The flag kept for a capability query.
pub fn capability_flag(query: Option<bool>) -> (flag: bool)
    ensures
        flag == negated_capability(query),
{
    match query {
        Some(capable) => !capable,
        None => true,
    }
}

/// Whether a status query says "paused".
pub fn is_paused(status: Option<PlaybackStatus>) -> (paused: bool)
    ensures
        paused == reads_paused(status),
{
    match status {
        Some(PlaybackStatus::Paused) => true,
        _ => false,
    }
}

/// The address to fetch the artwork from, or `None` where the player reports
/// none or an empty one.
pub fn art_request(player: &PlayerReport) -> (url: Option<String>)
    ensures
        url is Some <==> player.art_url().len() > 0,
        url matches Some(u) ==> u@ == player.art_url(),
{
    match &player.metadata {
        Some(m) => match &m.art_url {
            Some(u) => {
                if u.as_str().is_empty() {
                    None
                } else {
                    Some(u.clone())
                }
            },
            None => None,
        },
        None => None,
    }
}

/// Builds the snapshot for a report. Never fails: every missing answer has
/// its default, and every way in which the artwork can be missing gives the
/// empty picture.
pub fn get_metadata(
    player: &PlayerReport,
    art: ArtFetch,
    location: &ScreenLoc,
    offset: (i32, i32),
) -> (info: Info)
    ensures
        info@ == snapshot(*player, art, *location, offset),
{
    let mut title = String::new();
    let mut artists = String::new();
    let mut art_url = String::new();
    let mut album_name = String::new();
    match &player.metadata {
        Some(m) => {
            title = text_or_default(&m.title);
            match &m.artists {
                Some(names) => {
                    artists = join_artists(names);
                },
                None => {},
            }
            art_url = text_or_default(&m.art_url);
            album_name = text_or_default(&m.album_name);
        },
        None => {},
    }
    let picture = if art_url.as_str().is_empty() {
        Artwork::empty()
    } else {
        art.into_artwork()
    };
    Info {
        title,
        artists,
        art_url,
        album_name,
        art: Some(picture),
        can_prev: capability_flag(player.can_go_previous),
        can_pause: capability_flag(player.can_pause),
        can_next: capability_flag(player.can_go_next),
        is_paused: is_paused(player.playback_status),
        minimize: false,
        location: *location,
        offset,
    }
}

} // verus!
