//! The settings pages, their route identifiers and the navigation table.
use vstd::prelude::*;

verus! {

/// A page of the settings screen.
#[derive(Clone, Copy, Debug, PartialEq, Eq, Structural)]
pub enum Page {
    Audio,
    Developer,
    Extensions,
    General,
    Files,
    Privacy,
    Profile,
    Notifications,
}

/// The icon shown beside a page's name in the navigation list.
#[derive(Clone, Copy, Debug, PartialEq, Eq, Structural)]
pub enum NavIcon {
    Cog6Tooth,
    User,
    LockClosed,
    MusicalNote,
    Folder,
    Beaker,
    BellAlert,
    CommandLine,
}

/// The route identifier of each page.
pub open spec fn route_of(p: Page) -> Seq<char> {
    match p {
        Page::Audio => seq!['a', 'u', 'd', 'i', 'o'],
        Page::Developer => seq!['d', 'e', 'v', 'e', 'l', 'o', 'p', 'e', 'r'],
        Page::Extensions => seq!['e', 'x', 't', 'e', 'n', 's', 'i', 'o', 'n', 's'],
        Page::General => seq!['g', 'e', 'n', 'e', 'r', 'a', 'l'],
        Page::Files => seq!['f', 'i', 'l', 'e', 's'],
        Page::Privacy => seq!['p', 'r', 'i', 'v', 'a', 'c', 'y'],
        Page::Profile => seq!['p', 'r', 'o', 'f', 'i', 'l', 'e'],
        Page::Notifications => seq![
            'n', 'o', 't', 'i', 'f', 'i', 'c', 'a', 't', 'i', 'o', 'n', 's'
        ],
    }
}

/// The localization key of each page's name: `settings.` followed by the
/// route identifier, but for the notifications page, whose key uses a dash.
pub open spec fn label_key_of(p: Page) -> Seq<char> {
    let sep = if p == Page::Notifications {
        '-'
    } else {
        '.'
    };
    seq!['s', 'e', 't', 't', 'i', 'n', 'g', 's', sep] + route_of(p)
}

/// The page a route identifier selects: the page whose identifier it is, and
/// the general page for any other string.
pub open spec fn page_of_route(r: Seq<char>) -> Page {
    if r == route_of(Page::Audio) {
        Page::Audio
    } else if r == route_of(Page::Developer) {
        Page::Developer
    } else if r == route_of(Page::Extensions) {
        Page::Extensions
    } else if r == route_of(Page::Files) {
        Page::Files
    } else if r == route_of(Page::General) {
        Page::General
    } else if r == route_of(Page::Privacy) {
        Page::Privacy
    } else if r == route_of(Page::Profile) {
        Page::Profile
    } else if r == route_of(Page::Notifications) {
        Page::Notifications
    } else {
        Page::General
    }
}

/// The pages in the order the navigation list shows them.
pub open spec fn nav_order() -> Seq<Page> {
    seq![
        Page::General,
        Page::Profile,
        Page::Privacy,
        Page::Audio,
        Page::Files,
        Page::Extensions,
        Page::Notifications,
        Page::Developer,
    ]
}

pub open spec fn icon_of(p: Page) -> NavIcon {
    match p {
        Page::General => NavIcon::Cog6Tooth,
        Page::Profile => NavIcon::User,
        Page::Privacy => NavIcon::LockClosed,
        Page::Audio => NavIcon::MusicalNote,
        Page::Files => NavIcon::Folder,
        Page::Extensions => NavIcon::Beaker,
        Page::Notifications => NavIcon::BellAlert,
        Page::Developer => NavIcon::CommandLine,
    }
}

/// Whether `a` and `b` hold the same characters.
fn str_equal(a: &str, b: &str) -> (r: bool)
    ensures
        r == (a@ == b@),
{
    let n = a.unicode_len();
    if n != b.unicode_len() {
        return false;
    }
    let mut i: usize = 0;
    while i < n
        invariant
            n == a@.len(),
            n == b@.len(),
            i <= n,
            forall|j: int| 0 <= j < i ==> a@[j] == b@[j],
        decreases n - i,
    {
        if a.get_char(i) != b.get_char(i) {
            return false;
        }
        i = i + 1;
    }
    assert(a@ =~= b@);
    true
}

impl Page {
    /// The page's route identifier.
    pub fn route(&self) -> (r: &'static str)
        ensures
            r@ == route_of(*self),
    {
        match self {
            Page::Audio => {
                proof {
                    reveal_strlit("audio");
                }
                "audio"
            },
            Page::Developer => {
                proof {
                    reveal_strlit("developer");
                }
                "developer"
            },
            Page::Extensions => {
                proof {
                    reveal_strlit("extensions");
                }
                "extensions"
            },
            Page::General => {
                proof {
                    reveal_strlit("general");
                }
                "general"
            },
            Page::Files => {
                proof {
                    reveal_strlit("files");
                }
                "files"
            },
            Page::Privacy => {
                proof {
                    reveal_strlit("privacy");
                }
                "privacy"
            },
            Page::Profile => {
                proof {
                    reveal_strlit("profile");
                }
                "profile"
            },
            Page::Notifications => {
                proof {
                    reveal_strlit("notifications");
                }
                "notifications"
            },
        }
    }

    /// The localization key of the page's name.
    pub fn label_key(&self) -> (r: &'static str)
        ensures
            r@ == label_key_of(*self),
    {
        match self {
            Page::Audio => {
                proof {
                    reveal_strlit("settings.audio");
                }
                assert("settings.audio"@ =~= label_key_of(Page::Audio));
                "settings.audio"
            },
            Page::Developer => {
                proof {
                    reveal_strlit("settings.developer");
                }
                assert("settings.developer"@ =~= label_key_of(Page::Developer));
                "settings.developer"
            },
            Page::Extensions => {
                proof {
                    reveal_strlit("settings.extensions");
                }
                assert("settings.extensions"@ =~= label_key_of(Page::Extensions));
                "settings.extensions"
            },
            Page::General => {
                proof {
                    reveal_strlit("settings.general");
                }
                assert("settings.general"@ =~= label_key_of(Page::General));
                "settings.general"
            },
            Page::Files => {
                proof {
                    reveal_strlit("settings.files");
                }
                assert("settings.files"@ =~= label_key_of(Page::Files));
                "settings.files"
            },
            Page::Privacy => {
                proof {
                    reveal_strlit("settings.privacy");
                }
                assert("settings.privacy"@ =~= label_key_of(Page::Privacy));
                "settings.privacy"
            },
            Page::Profile => {
                proof {
                    reveal_strlit("settings.profile");
                }
                assert("settings.profile"@ =~= label_key_of(Page::Profile));
                "settings.profile"
            },
            Page::Notifications => {
                proof {
                    reveal_strlit("settings-notifications");
                }
                assert("settings-notifications"@ =~= label_key_of(Page::Notifications));
                "settings-notifications"
            },
        }
    }

    pub fn icon(&self) -> (r: NavIcon)
        ensures
            r == icon_of(*self),
    {
        match self {
            Page::General => NavIcon::Cog6Tooth,
            Page::Profile => NavIcon::User,
            Page::Privacy => NavIcon::LockClosed,
            Page::Audio => NavIcon::MusicalNote,
            Page::Files => NavIcon::Folder,
            Page::Extensions => NavIcon::Beaker,
            Page::Notifications => NavIcon::BellAlert,
            Page::Developer => NavIcon::CommandLine,
        }
    }
}

/// The page that `route` selects; an unknown route selects the general page.
pub fn page_for_route(route: &str) -> (p: Page)
    ensures
        p == page_of_route(route@),
{
    if str_equal(route, Page::Audio.route()) {
        Page::Audio
    } else if str_equal(route, Page::Developer.route()) {
        Page::Developer
    } else if str_equal(route, Page::Extensions.route()) {
        Page::Extensions
    } else if str_equal(route, Page::Files.route()) {
        Page::Files
    } else if str_equal(route, Page::General.route()) {
        Page::General
    } else if str_equal(route, Page::Privacy.route()) {
        Page::Privacy
    } else if str_equal(route, Page::Profile.route()) {
        Page::Profile
    } else if str_equal(route, Page::Notifications.route()) {
        Page::Notifications
    } else {
        Page::General
    }
}

impl std::str::FromStr for Page {
    type Err = ();

    /// Never fails: an unknown route selects the general page.
    fn from_str(input: &str) -> (r: Result<Page, ()>)
        ensures
            r == Ok::<Page, ()>(page_of_route(input@)),
    {
        Ok(page_for_route(input))
    }
}

/// The page the navigation list marks active when the settings screen opens.
pub open spec fn initial_page() -> Page {
    nav_order()[0]
}

/// The page marked active when the settings screen opens: the first of the
/// list, the general page.
pub fn initial_active_page() -> (p: Page)
    ensures
        p == initial_page(),
        p == Page::General,
{
    Page::General
}

/// The pages of the navigation list, in order.
pub fn settings_pages() -> (r: Vec<Page>)
    ensures
        r@ == nav_order(),
{
    let r = vec![
        Page::General,
        Page::Profile,
        Page::Privacy,
        Page::Audio,
        Page::Files,
        Page::Extensions,
        Page::Notifications,
        Page::Developer,
    ];
    assert(r@ =~= nav_order());
    r
}

/// What selecting an entry of the navigation list does.
#[derive(Clone, Copy, Debug, PartialEq, Eq, Structural)]
pub struct Navigation {
    /// Whether the interaction sound plays.
    pub play_sound: bool,
    /// The page to show.
    pub page: Page,
}

/// The entry with route identifier `route` was selected; the interaction
/// sound plays when interface sounds are enabled.
pub fn navigate(interface_sounds: bool, route: &str) -> (r: Navigation)
    ensures
        r.play_sound == interface_sounds,
        r.page == page_of_route(route@),
{
    Navigation { play_sound: interface_sounds, page: page_for_route(route) }
}

/// Each page's own route identifier selects that page, so distinct pages
/// have distinct identifiers.
pub proof fn lemma_route_round_trip(p: Page)
    ensures
        page_of_route(route_of(p)) == p,
{
}

/// Pages with the same route identifier are the same page.
pub proof fn lemma_routes_distinct(p: Page, q: Page)
    requires
        route_of(p) == route_of(q),
    ensures
        p == q,
{
    lemma_route_round_trip(p);
    lemma_route_round_trip(q);
}

} // verus!
