//! The pages of the client, each put together from the components it holds.
use vstd::prelude::*;
use vstd::string::*;

use crate::component::{
    all_render, concat_html, lemma_concat_around, lemma_concat_holds_each, lemma_concat_in_order, optional_html, optional_renders, render_all,
    render_optional, Component,
};
use crate::text::{
    contains_text, lemma_contains_extend, lemma_contains_self, lemma_in_order_extend, occurs_in_order,
};
use crate::post::AccountInfo;

verus! {

pub const PAGE_OPEN: &'static str = "\n<div class=\"page\">\n    ";
pub const PAGE_CLOSE: &'static str = "\n    <div class=\"secondary-column\"></div>\n</div>\n";
pub const MAIN_OPEN: &'static str = "\n    <div id=\"main-column\" class=\"main-column\">\n        ";
pub const MAIN_SEP: &'static str = "\n        ";
pub const MAIN_CLOSE: &'static str = "\n    </div>";

pub const EDIT_1: &'static str = "\n    <div class=\"main-column\">\n        <div class=\"account-info-wrapper\">\n            ";
pub const EDIT_2: &'static str = "\n            <div class=\"new-account-info\">\n                <input id=\"image-field\" class=\"account-info-field\" type=\"text\" placeholder=\"Image here...\">\n                <input id=\"name-field\" class=\"account-info-field\" type=\"text\" placeholder=\"Name here...\">\n                <div class=\"new-account-info-buttons\">\n                    <div id=\"preview-button\" class=\"button\">Preview</div>\n                    <div id=\"reset-button\" class=\"button\">Reset</div>\n                </div>\n            </div>\n            <div id=\"update-profile\" class=\"button\">Update Profile</div>\n        </div>\n    </div>";

pub const FAUCET_1: &'static str = "\n    <div id=\"main\" class=\"main-column\">\n        <div class=\"faucet-page\">\n            <div class=\"faucet-page-header\">\n                ";
pub const FAUCET_HEADER: &'static str = "Complete sign up process by solving the captcha!";
pub const FAUCET_2: &'static str = "\n            </div>\n            <div class=\"h-captcha\" data-sitekey=\"";
pub const FAUCET_3: &'static str = "\" data-callback=\"captcha\" data-theme=\"dark\"></div>\n        </div>\n    </div>";

pub const LOGGED_IN_0: &'static str = "\n                <div class=\"login-page-header\">Currently logged in as</div>\n                <div class=\"account-info-wrapper\">\n                    ";
pub const LOGGED_IN_1: &'static str = "\n                    <div id=\"logout-button\" class=\"button\">Logout</div>\n                </div>\n                ";
pub const LOGIN_1: &'static str = "\n    <div class=\"main-column\">\n        ";
pub const LOGIN_2: &'static str = "\n        <div class=\"login-component\">\n            <textarea id=\"wallet-mnemonic\" class=\"login-component-mnemonic\" placeholder=\"Mnemonic here...\"></textarea>\n            <input id=\"wallet-password\" class=\"login-component-password\" placeholder=\"Password here...\">\n            <div class=\"login-component-buttons\">\n                <div id=\"generate-account\" class=\"button\">Generate Account</div>\n                <div id=\"login\" class=\"button\">Login</div>\n            </div>\n        </div>\n    </div>";

pub const PROFILE_0: &'static str = "\n                <div class=\"account-info-wrapper\">\n                    ";
pub const PROFILE_1: &'static str = "\n                    ";
pub const PROFILE_2: &'static str = "\n                </div>\n                ";
pub const EDIT_BUTTON: &'static str = "<a href=\"/edit-profile\" class=\"button\">Edit Profile</a>";
pub const UNFOLLOW_BUTTON: &'static str = "<a id=\"follow-toggle\" class=\"button\">Unfollow</a>";
pub const FOLLOW_BUTTON: &'static str = "<a id=\"follow-toggle\" class=\"button\">Follow</a>";

/// The page frame: the navigation bar, then `main`, then an empty side column.
pub open spec fn page_frame(nav: Seq<char>, main: Seq<char>) -> Seq<char> {
    PAGE_OPEN@ + nav + main + PAGE_CLOSE@
}

/// The main column of a feed: its parts one after the other.
pub open spec fn feed_column(parts: Seq<Seq<char>>) -> Seq<char>
    decreases parts.len(),
{
    if parts.len() == 0 {
        MAIN_OPEN@
    } else if parts.len() == 1 {
        MAIN_OPEN@ + parts[0]
    } else {
        feed_column(parts.drop_last()) + MAIN_SEP@ + parts.last()
    }
}

pub open spec fn feed_main(parts: Seq<Seq<char>>) -> Seq<char> {
    feed_column(parts) + MAIN_CLOSE@
}

fn push_page_open<N: Component>(out: &mut String, nav: &N)
    requires
        nav.renders(),
    ensures
        final(out)@ == old(out)@ + PAGE_OPEN@ + nav.html(),
{
    out.append(PAGE_OPEN);
    let n = nav.to_html();
    out.append(n.as_str());
}

/// Writes the main column of a feed, with `parts` one after the other.
fn feed_main_of(parts: &Vec<String>) -> (r: String)
    requires
        parts.len() > 0,
    ensures
        r@ == feed_main(parts@.map_values(|s: String| s@)),
{
    let ghost views = parts@.map_values(|s: String| s@);
    let mut out = String::from_str(MAIN_OPEN);
    out.append(parts[0].as_str());
    assert(views.subrange(0, 1).drop_last() =~= Seq::<Seq<char>>::empty());
    assert(views.subrange(0, 1)[0] == views[0]);
    let mut i: usize = 1;
    while i < parts.len()
        invariant
            1 <= i <= parts.len(),
            views == parts@.map_values(|s: String| s@),
            out@ == feed_column(views.subrange(0, i as int)),
        decreases parts.len() - i,
    {
        out.append(MAIN_SEP);
        out.append(parts[i].as_str());
        assert(views.subrange(0, i + 1).drop_last() =~= views.subrange(0, i as int));
        i = i + 1;
    }
    assert(views.subrange(0, i as int) =~= views);
    out.append(MAIN_CLOSE);
    out
}

/// The page in which the signed-in user edits the name and photo of the account.
pub struct EditProfilePage<N: Component, A: Component> {
    nav_bar: N,
    account_info: A,
}

pub open spec fn edit_profile_html(nav: Seq<char>, account: Seq<char>) -> Seq<char> {
    page_frame(nav, EDIT_1@ + account + EDIT_2@)
}

impl<N: Component, A: Component> EditProfilePage<N, A> {
    pub closed spec fn nav_bar_part(&self) -> N {
        self.nav_bar
    }

    pub closed spec fn account_info_part(&self) -> A {
        self.account_info
    }

    pub fn new(nav_bar: N, account_info: A) -> (r: Box<EditProfilePage<N, A>>)
        ensures
            r.nav_bar_part() == nav_bar,
            r.account_info_part() == account_info,
    {
        Box::new(EditProfilePage { nav_bar, account_info })
    }
}

impl<N: Component, A: Component> Component for EditProfilePage<N, A> {
    open spec fn html(&self) -> Seq<char> {
        edit_profile_html(self.nav_bar_part().html(), self.account_info_part().html())
    }

    open spec fn renders(&self) -> bool {
        self.nav_bar_part().renders() && self.account_info_part().renders()
    }

    fn to_html(&self) -> (r: String) {
        let mut out = String::new();
        push_page_open(&mut out, &self.nav_bar);
        out.append(EDIT_1);
        let a = self.account_info.to_html();
        out.append(a.as_str());
        out.append(EDIT_2);
        out.append(PAGE_CLOSE);
        assert(out@ =~= self.html());
        out
    }
}

/// The page in which a new account asks the faucet for its first tokens,
/// behind a captcha of the site `site_key`.
pub struct FaucetPage<N: Component> {
    nav_bar: N,
    site_key: String,
}

pub open spec fn faucet_html(nav: Seq<char>, site_key: Seq<char>) -> Seq<char> {
    page_frame(nav, FAUCET_1@ + FAUCET_HEADER@ + FAUCET_2@ + site_key + FAUCET_3@)
}

impl<N: Component> FaucetPage<N> {
    pub closed spec fn nav_bar_part(&self) -> N {
        self.nav_bar
    }

    pub closed spec fn site_key_view(&self) -> Seq<char> {
        self.site_key@
    }

    pub fn new(nav_bar: N, site_key: String) -> (r: Box<FaucetPage<N>>)
        ensures
            r.nav_bar_part() == nav_bar,
            r.site_key_view() == site_key@,
    {
        Box::new(FaucetPage { nav_bar, site_key })
    }
}

impl<N: Component> Component for FaucetPage<N> {
    open spec fn html(&self) -> Seq<char> {
        faucet_html(self.nav_bar_part().html(), self.site_key_view())
    }

    open spec fn renders(&self) -> bool {
        self.nav_bar_part().renders()
    }

    fn to_html(&self) -> (r: String) {
        let mut out = String::new();
        push_page_open(&mut out, &self.nav_bar);
        out.append(FAUCET_1);
        out.append(FAUCET_HEADER);
        out.append(FAUCET_2);
        out.append(self.site_key.as_str());
        out.append(FAUCET_3);
        out.append(PAGE_CLOSE);
        assert(out@ =~= self.html());
        out
    }
}

/// The page in which a user signs in with a mnemonic, or signs out.
pub struct LoginPage<N: Component, A: Component> {
    nav_bar: N,
    account_info: Option<A>,
}

/// The "currently logged in as" block, shown where an account is signed in.
pub open spec fn logged_in_html<A: Component>(account: Option<A>) -> Seq<char> {
    match account {
        Some(a) => LOGGED_IN_0@ + a.html() + LOGGED_IN_1@,
        None => Seq::empty(),
    }
}

pub open spec fn login_html<A: Component>(nav: Seq<char>, account: Option<A>) -> Seq<char> {
    page_frame(nav, LOGIN_1@ + logged_in_html(account) + LOGIN_2@)
}

impl<N: Component, A: Component> LoginPage<N, A> {
    pub closed spec fn nav_bar_part(&self) -> N {
        self.nav_bar
    }

    pub closed spec fn account_info_part(&self) -> Option<A> {
        self.account_info
    }

    pub fn new(nav_bar: N, account_info: Option<A>) -> (r: Box<LoginPage<N, A>>)
        ensures
            r.nav_bar_part() == nav_bar,
            r.account_info_part() == account_info,
    {
        Box::new(LoginPage { nav_bar, account_info })
    }
}

impl<N: Component, A: Component> Component for LoginPage<N, A> {
    open spec fn html(&self) -> Seq<char> {
        login_html(self.nav_bar_part().html(), self.account_info_part())
    }

    open spec fn renders(&self) -> bool {
        self.nav_bar_part().renders() && optional_renders(self.account_info_part())
    }

    fn to_html(&self) -> (r: String) {
        let mut out = String::new();
        push_page_open(&mut out, &self.nav_bar);
        out.append(LOGIN_1);
        let ghost before = out@;
        match &self.account_info {
            Some(a) => {
                out.append(LOGGED_IN_0);
                let h = a.to_html();
                out.append(h.as_str());
                out.append(LOGGED_IN_1);
            },
            None => {},
        }
        assert(out@ =~= before + logged_in_html(self.account_info_part()));
        out.append(LOGIN_2);
        out.append(PAGE_CLOSE);
        assert(out@ =~= self.html());
        out
    }
}

/// The markup of a feed page: the navigation bar, then the main column with
/// the leading parts and then the posts.
pub open spec fn feed_page_html<P: Component>(
    nav: Seq<char>,
    lead: Seq<Seq<char>>,
    posts: Seq<P>,
) -> Seq<char> {
    page_frame(nav, feed_main(lead.push(concat_html(posts))))
}

/// A feed page shows every one of its posts, whatever leads its main column.
pub proof fn law_feed_page_shows_every_post<P: Component>(
    nav: Seq<char>,
    lead: Seq<Seq<char>>,
    posts: Seq<P>,
    i: int,
)
    requires
        0 <= i < posts.len(),
    ensures
        contains_text(feed_page_html(nav, lead, posts), posts[i].html()),
{
    let c = concat_html(posts);
    let parts = lead.push(c);
    let e = Seq::<char>::empty();
    lemma_concat_holds_each(posts, i);
    assert(parts.last() == c);
    assert(parts.drop_last() =~= lead);
    let before = if lead.len() == 0 {
        MAIN_OPEN@
    } else {
        feed_column(lead) + MAIN_SEP@
    };
    assert(feed_column(parts) =~= before + c);
    lemma_contains_extend(c, posts[i].html(), PAGE_OPEN@ + nav + before, MAIN_CLOSE@ + PAGE_CLOSE@);
    assert(PAGE_OPEN@ + nav + before + c + (MAIN_CLOSE@ + PAGE_CLOSE@) =~= feed_page_html(
        nav,
        lead,
        posts,
    ));
}

/// Renders the frame of a feed page around the given parts of its main column.
fn feed_page<N: Component>(nav: &N, parts: Vec<String>) -> (r: String)
    requires
        nav.renders(),
        parts.len() > 0,
    ensures
        r@ == page_frame(nav.html(), feed_main(parts@.map_values(|s: String| s@))),
{
    let mut out = String::new();
    push_page_open(&mut out, nav);
    let main = feed_main_of(&parts);
    out.append(main.as_str());
    out.append(PAGE_CLOSE);
    out
}

/// The home page: every top-level post, newest first, and a post creator for a
/// signed-in user.
pub struct HomePage<N: Component, C: Component, P: Component> {
    nav_bar: N,
    post_creator: Option<C>,
    posts: Box<[P]>,
}

impl<N: Component, C: Component, P: Component> HomePage<N, C, P> {
    pub closed spec fn nav_bar_part(&self) -> N {
        self.nav_bar
    }

    pub closed spec fn post_creator_part(&self) -> Option<C> {
        self.post_creator
    }

    pub closed spec fn posts_part(&self) -> Seq<P> {
        self.posts@
    }

    pub fn new(nav_bar: N, post_creator: Option<C>, posts: Box<[P]>) -> (r: Box<HomePage<N, C, P>>)
        ensures
            r.nav_bar_part() == nav_bar,
            r.post_creator_part() == post_creator,
            r.posts_part() == posts@,
    {
        Box::new(HomePage { nav_bar, post_creator, posts })
    }
}

impl<N: Component, C: Component, P: Component> Component for HomePage<N, C, P> {
    open spec fn html(&self) -> Seq<char> {
        feed_page_html(
            self.nav_bar_part().html(),
            seq![optional_html(self.post_creator_part())],
            self.posts_part(),
        )
    }

    open spec fn renders(&self) -> bool {
        &&& self.nav_bar_part().renders()
        &&& optional_renders(self.post_creator_part())
        &&& all_render(self.posts_part())
    }

    fn to_html(&self) -> (r: String) {
        let posts = render_all(&self.posts);
        let creator = render_optional(&self.post_creator);
        let mut parts: Vec<String> = Vec::new();
        parts.push(creator);
        parts.push(posts);
        let r = feed_page(&self.nav_bar, parts);
        assert(parts@.map_values(|s: String| s@) =~= seq![
            optional_html(self.post_creator_part()),
        ].push(concat_html(self.posts_part())));
        r
    }
}

/// The timeline: the posts of the accounts the signed-in user follows.
pub struct TimelinePage<N: Component, C: Component, P: Component> {
    nav_bar: N,
    post_creator: Option<C>,
    posts: Box<[P]>,
}

impl<N: Component, C: Component, P: Component> TimelinePage<N, C, P> {
    pub closed spec fn nav_bar_part(&self) -> N {
        self.nav_bar
    }

    pub closed spec fn post_creator_part(&self) -> Option<C> {
        self.post_creator
    }

    pub closed spec fn posts_part(&self) -> Seq<P> {
        self.posts@
    }

    pub fn new(nav_bar: N, post_creator: Option<C>, posts: Box<[P]>) -> (r: Box<TimelinePage<N, C, P>>)
        ensures
            r.nav_bar_part() == nav_bar,
            r.post_creator_part() == post_creator,
            r.posts_part() == posts@,
    {
        Box::new(TimelinePage { nav_bar, post_creator, posts })
    }
}

impl<N: Component, C: Component, P: Component> Component for TimelinePage<N, C, P> {
    open spec fn html(&self) -> Seq<char> {
        feed_page_html(
            self.nav_bar_part().html(),
            seq![optional_html(self.post_creator_part())],
            self.posts_part(),
        )
    }

    open spec fn renders(&self) -> bool {
        &&& self.nav_bar_part().renders()
        &&& optional_renders(self.post_creator_part())
        &&& all_render(self.posts_part())
    }

    fn to_html(&self) -> (r: String) {
        let posts = render_all(&self.posts);
        let creator = render_optional(&self.post_creator);
        let mut parts: Vec<String> = Vec::new();
        parts.push(creator);
        parts.push(posts);
        let r = feed_page(&self.nav_bar, parts);
        assert(parts@.map_values(|s: String| s@) =~= seq![
            optional_html(self.post_creator_part()),
        ].push(concat_html(self.posts_part())));
        r
    }
}

/// The page of a post: the post itself, a reply box for a signed-in user, and
/// the replies.
pub struct PostPage<N: Component, M: Component, C: Component, P: Component> {
    nav_bar: N,
    main_post: M,
    post_creator: Option<C>,
    posts: Box<[P]>,
}

impl<N: Component, M: Component, C: Component, P: Component> PostPage<N, M, C, P> {
    pub closed spec fn nav_bar_part(&self) -> N {
        self.nav_bar
    }

    pub closed spec fn main_post_part(&self) -> M {
        self.main_post
    }

    pub closed spec fn post_creator_part(&self) -> Option<C> {
        self.post_creator
    }

    pub closed spec fn posts_part(&self) -> Seq<P> {
        self.posts@
    }

    pub fn new(nav_bar: N, main_post: M, post_creator: Option<C>, posts: Box<[P]>) -> (r: Box<
        PostPage<N, M, C, P>,
    >)
        ensures
            r.nav_bar_part() == nav_bar,
            r.main_post_part() == main_post,
            r.post_creator_part() == post_creator,
            r.posts_part() == posts@,
    {
        Box::new(PostPage { nav_bar, main_post, post_creator, posts })
    }
}

impl<N: Component, M: Component, C: Component, P: Component> Component for PostPage<N, M, C, P> {
    open spec fn html(&self) -> Seq<char> {
        feed_page_html(
            self.nav_bar_part().html(),
            seq![self.main_post_part().html(), optional_html(self.post_creator_part())],
            self.posts_part(),
        )
    }

    open spec fn renders(&self) -> bool {
        &&& self.nav_bar_part().renders()
        &&& self.main_post_part().renders()
        &&& optional_renders(self.post_creator_part())
        &&& all_render(self.posts_part())
    }

    fn to_html(&self) -> (r: String) {
        let posts = render_all(&self.posts);
        let creator = render_optional(&self.post_creator);
        let main = self.main_post.to_html();
        let mut parts: Vec<String> = Vec::new();
        parts.push(main);
        parts.push(creator);
        parts.push(posts);
        let r = feed_page(&self.nav_bar, parts);
        assert(parts@.map_values(|s: String| s@) =~= seq![
            self.main_post_part().html(),
            optional_html(self.post_creator_part()),
        ].push(concat_html(self.posts_part())));
        r
    }
}

/// The button of a profile: edit one's own profile, or follow or unfollow
/// another account.
#[derive(Clone, Copy, Debug)]
pub enum ButtonType {
    Edit,
    Follow,
    Unfollow,
}

pub open spec fn button_html(button: Option<ButtonType>) -> Seq<char> {
    match button {
        Some(ButtonType::Edit) => EDIT_BUTTON@,
        Some(ButtonType::Unfollow) => UNFOLLOW_BUTTON@,
        Some(ButtonType::Follow) => FOLLOW_BUTTON@,
        None => Seq::empty(),
    }
}

/// Renders the button of a profile.
pub fn render_button(button: Option<ButtonType>) -> (r: String)
    ensures
        r@ == button_html(button),
{
    match button {
        Some(ButtonType::Edit) => String::from_str(EDIT_BUTTON),
        Some(ButtonType::Unfollow) => String::from_str(UNFOLLOW_BUTTON),
        Some(ButtonType::Follow) => String::from_str(FOLLOW_BUTTON),
        None => String::new(),
    }
}

/// The profile block: the account's card and its button.
pub open spec fn profile_block(card: Seq<char>, button: Option<ButtonType>) -> Seq<char> {
    PROFILE_0@ + card + PROFILE_1@ + button_html(button) + PROFILE_2@
}

/// The page of an account: its card, its button and its posts. `account_info`
/// is the account shown, and `account_info_comp` renders its card.
pub struct ProfilePage<N: Component, A: Component, P: Component> {
    nav_bar: N,
    account_info: AccountInfo,
    account_info_comp: A,
    button: Option<ButtonType>,
    posts: Box<[P]>,
}

impl<N: Component, A: Component, P: Component> ProfilePage<N, A, P> {
    pub closed spec fn nav_bar_part(&self) -> N {
        self.nav_bar
    }

    pub closed spec fn account(&self) -> AccountInfo {
        self.account_info
    }

    pub closed spec fn card_part(&self) -> A {
        self.account_info_comp
    }

    pub closed spec fn button_part(&self) -> Option<ButtonType> {
        self.button
    }

    pub closed spec fn posts_part(&self) -> Seq<P> {
        self.posts@
    }

    pub fn new(
        nav_bar: N,
        account_info: AccountInfo,
        account_info_comp: A,
        button: Option<ButtonType>,
        posts: Box<[P]>,
    ) -> (r: Box<ProfilePage<N, A, P>>)
        ensures
            r.nav_bar_part() == nav_bar,
            r.account() == account_info,
            r.card_part() == account_info_comp,
            r.button_part() == button,
            r.posts_part() == posts@,
    {
        Box::new(ProfilePage { nav_bar, account_info, account_info_comp, button, posts })
    }

    /// The account the page shows.
    pub fn account_info(&self) -> (r: &AccountInfo)
        ensures
            *r == self.account(),
    {
        &self.account_info
    }

    /// The button the page shows.
    pub fn button(&self) -> (r: Option<ButtonType>)
        ensures
            r == self.button_part(),
    {
        self.button
    }
}

impl<N: Component, A: Component, P: Component> Component for ProfilePage<N, A, P> {
    open spec fn html(&self) -> Seq<char> {
        feed_page_html(
            self.nav_bar_part().html(),
            seq![profile_block(self.card_part().html(), self.button_part())],
            self.posts_part(),
        )
    }

    open spec fn renders(&self) -> bool {
        &&& self.nav_bar_part().renders()
        &&& self.card_part().renders()
        &&& all_render(self.posts_part())
    }

    fn to_html(&self) -> (r: String) {
        let posts = render_all(&self.posts);
        let mut block = String::from_str(PROFILE_0);
        let card = self.account_info_comp.to_html();
        block.append(card.as_str());
        block.append(PROFILE_1);
        let button = render_button(self.button);
        block.append(button.as_str());
        block.append(PROFILE_2);
        assert(block@ =~= profile_block(self.card_part().html(), self.button_part()));
        let mut parts: Vec<String> = Vec::new();
        parts.push(block);
        parts.push(posts);
        let r = feed_page(&self.nav_bar, parts);
        assert(parts@.map_values(|s: String| s@) =~= seq![
            profile_block(self.card_part().html(), self.button_part()),
        ].push(concat_html(self.posts_part())));
        r
    }
}

/// The frame of a feed page around its main column.
proof fn lemma_feed_page_frame<P: Component>(nav: Seq<char>, lead: Seq<Seq<char>>, posts: Seq<P>)
    requires
        lead.len() > 0,
    ensures
        feed_page_html(nav, lead, posts) == (PAGE_OPEN@ + nav) + (feed_column(lead) + MAIN_SEP@
            + concat_html(posts)) + (MAIN_CLOSE@ + PAGE_CLOSE@),
{
    let parts = lead.push(concat_html(posts));
    assert(parts.drop_last() =~= lead);
    assert(parts.last() == concat_html(posts));
    assert(feed_column(parts) == feed_column(lead) + MAIN_SEP@ + concat_html(posts));
    assert(feed_page_html(nav, lead, posts) =~= (PAGE_OPEN@ + nav) + (feed_column(lead) + MAIN_SEP@
        + concat_html(posts)) + (MAIN_CLOSE@ + PAGE_CLOSE@));
}

/// In a feed page, text of the main column's lead that comes before `tail`
/// occurs before every post.
proof fn lemma_lead_text_before_posts<P: Component>(
    nav: Seq<char>,
    lead: Seq<Seq<char>>,
    posts: Seq<P>,
    head: Seq<char>,
    x: Seq<char>,
    tail: Seq<char>,
    i: int,
)
    requires
        lead.len() > 0,
        feed_column(lead) == head + x + tail,
    ensures
        contains_text(feed_page_html(nav, lead, posts), x),
        0 <= i < posts.len() ==> occurs_in_order(feed_page_html(nav, lead, posts), x, posts[i].html()),
{
    lemma_feed_page_frame(nav, lead, posts);
    let l = PAGE_OPEN@ + nav;
    let r = MAIN_CLOSE@ + PAGE_CLOSE@;
    let c = concat_html(posts);
    if 0 <= i < posts.len() {
        lemma_concat_around(posts, i);
        let a = concat_html(posts.subrange(0, i));
        let b = concat_html(posts.subrange(i + 1, posts.len() as int));
        let m = head + x + (tail + MAIN_SEP@ + a) + posts[i].html() + b;
        assert(m =~= feed_column(lead) + MAIN_SEP@ + c);
        lemma_in_order_extend(m, x, posts[i].html(), l, r);
    } else {
        let m = head + x + Seq::<char>::empty() + Seq::<char>::empty() + (tail + MAIN_SEP@ + c);
        assert(m =~= feed_column(lead) + MAIN_SEP@ + c);
        lemma_in_order_extend(m, x, Seq::<char>::empty(), l, r);
    }
}

/// A feed page shows its posts in the order it was given them: the markup of
/// post `i` comes before that of every later post.
pub proof fn law_feed_page_keeps_post_order<P: Component>(
    nav: Seq<char>,
    lead: Seq<Seq<char>>,
    posts: Seq<P>,
    i: int,
    j: int,
)
    requires
        lead.len() > 0,
        0 <= i < j < posts.len(),
    ensures
        occurs_in_order(feed_page_html(nav, lead, posts), posts[i].html(), posts[j].html()),
{
    lemma_feed_page_frame(nav, lead, posts);
    lemma_concat_in_order(posts, i, j);
    lemma_in_order_extend(
        concat_html(posts),
        posts[i].html(),
        posts[j].html(),
        PAGE_OPEN@ + nav + (feed_column(lead) + MAIN_SEP@),
        MAIN_CLOSE@ + PAGE_CLOSE@,
    );
    assert(PAGE_OPEN@ + nav + (feed_column(lead) + MAIN_SEP@) + concat_html(posts) + (MAIN_CLOSE@
        + PAGE_CLOSE@) =~= feed_page_html(nav, lead, posts));
}

/// The home page shows its post creator, where it has one, above every post.
pub proof fn law_home_page_shows_post_creator_first<N: Component, C: Component, P: Component>(
    page: HomePage<N, C, P>,
    i: int,
)
    ensures
        contains_text(page.html(), page.nav_bar_part().html()),
        page.post_creator_part() matches Some(c) ==> contains_text(page.html(), c.html()) && (0 <= i
            < page.posts_part().len() ==> occurs_in_order(
            page.html(),
            c.html(),
            page.posts_part()[i].html(),
        )),
{
    lemma_frame_shows_nav(
        page.nav_bar_part().html(),
        feed_main(seq![optional_html(page.post_creator_part())].push(concat_html(page.posts_part()))),
    );
    if let Some(c) = page.post_creator_part() {
        let lead = seq![c.html()];
        assert(feed_column(lead) == Seq::<char>::empty() + MAIN_OPEN@ + c.html() + Seq::<char>::empty());
        lemma_lead_text_before_posts(
            page.nav_bar_part().html(),
            lead,
            page.posts_part(),
            Seq::<char>::empty() + MAIN_OPEN@,
            c.html(),
            Seq::<char>::empty(),
            i,
        );
    }
}

/// The home page shows its posts in the order it was given them.
pub proof fn law_home_page_keeps_post_order<N: Component, C: Component, P: Component>(
    page: HomePage<N, C, P>,
    i: int,
    j: int,
)
    requires
        0 <= i < j < page.posts_part().len(),
    ensures
        occurs_in_order(page.html(), page.posts_part()[i].html(), page.posts_part()[j].html()),
{
    law_feed_page_keeps_post_order(
        page.nav_bar_part().html(),
        seq![optional_html(page.post_creator_part())],
        page.posts_part(),
        i,
        j,
    );
}

/// The timeline shows its post creator, where it has one, above every post.
pub proof fn law_timeline_shows_post_creator_first<N: Component, C: Component, P: Component>(
    page: TimelinePage<N, C, P>,
    i: int,
)
    ensures
        contains_text(page.html(), page.nav_bar_part().html()),
        page.post_creator_part() matches Some(c) ==> contains_text(page.html(), c.html()) && (0 <= i
            < page.posts_part().len() ==> occurs_in_order(
            page.html(),
            c.html(),
            page.posts_part()[i].html(),
        )),
{
    lemma_frame_shows_nav(
        page.nav_bar_part().html(),
        feed_main(seq![optional_html(page.post_creator_part())].push(concat_html(page.posts_part()))),
    );
    if let Some(c) = page.post_creator_part() {
        let lead = seq![c.html()];
        assert(feed_column(lead) == Seq::<char>::empty() + MAIN_OPEN@ + c.html() + Seq::<char>::empty());
        lemma_lead_text_before_posts(
            page.nav_bar_part().html(),
            lead,
            page.posts_part(),
            Seq::<char>::empty() + MAIN_OPEN@,
            c.html(),
            Seq::<char>::empty(),
            i,
        );
    }
}

/// The timeline shows its posts in the order it was given them.
pub proof fn law_timeline_keeps_post_order<N: Component, C: Component, P: Component>(
    page: TimelinePage<N, C, P>,
    i: int,
    j: int,
)
    requires
        0 <= i < j < page.posts_part().len(),
    ensures
        occurs_in_order(page.html(), page.posts_part()[i].html(), page.posts_part()[j].html()),
{
    law_feed_page_keeps_post_order(
        page.nav_bar_part().html(),
        seq![optional_html(page.post_creator_part())],
        page.posts_part(),
        i,
        j,
    );
}

/// The page of a post shows the post first, then its reply box where it has
/// one, and both above every reply.
pub proof fn law_post_page_shows_post_then_reply_box<N: Component, M: Component, C: Component, P: Component>(
    page: PostPage<N, M, C, P>,
    i: int,
)
    ensures
        contains_text(page.html(), page.nav_bar_part().html()),
        contains_text(page.html(), page.main_post_part().html()),
        0 <= i < page.posts_part().len() ==> occurs_in_order(
            page.html(),
            page.main_post_part().html(),
            page.posts_part()[i].html(),
        ),
        page.post_creator_part() matches Some(c) ==> occurs_in_order(
            page.html(),
            page.main_post_part().html(),
            c.html(),
        ) && (0 <= i < page.posts_part().len() ==> occurs_in_order(
            page.html(),
            c.html(),
            page.posts_part()[i].html(),
        )),
{
    lemma_frame_shows_nav(
        page.nav_bar_part().html(),
        feed_main(seq![page.main_post_part().html(), optional_html(page.post_creator_part())].push(concat_html(page.posts_part()))),
    );
    let nav = page.nav_bar_part().html();
    let m = page.main_post_part().html();
    let o = optional_html(page.post_creator_part());
    let lead = seq![m, o];
    let posts = page.posts_part();
    assert(lead.drop_last() =~= seq![m]);
    assert(lead.last() == o);
    assert(feed_column(seq![m]) == MAIN_OPEN@ + seq![m][0]);
    assert(feed_column(lead) == feed_column(seq![m]) + MAIN_SEP@ + o);
    assert(feed_column(lead) =~= MAIN_OPEN@ + m + MAIN_SEP@ + o);
    assert(feed_column(lead) =~= MAIN_OPEN@ + m + (MAIN_SEP@ + o));
    assert(feed_column(lead) =~= MAIN_OPEN@ + m + MAIN_SEP@ + o + Seq::<char>::empty());
    lemma_lead_text_before_posts(nav, lead, posts, MAIN_OPEN@, m, MAIN_SEP@ + o, i);
    lemma_lead_text_before_posts(nav, lead, posts, MAIN_OPEN@ + m + MAIN_SEP@, o, Seq::<char>::empty(), i);
    lemma_feed_page_frame(nav, lead, posts);
    let inner = MAIN_OPEN@ + m + MAIN_SEP@ + o + (MAIN_SEP@ + concat_html(posts));
    assert(inner =~= feed_column(lead) + MAIN_SEP@ + concat_html(posts));
    assert(occurs_in_order(inner, m, o)) by {
        assert(MAIN_OPEN@ + m + MAIN_SEP@ + o + (MAIN_SEP@ + concat_html(posts)) == inner);
    }
    lemma_in_order_extend(inner, m, o, PAGE_OPEN@ + nav, MAIN_CLOSE@ + PAGE_CLOSE@);
}

/// The page of a post shows its replies in the order it was given them.
pub proof fn law_post_page_keeps_reply_order<N: Component, M: Component, C: Component, P: Component>(
    page: PostPage<N, M, C, P>,
    i: int,
    j: int,
)
    requires
        0 <= i < j < page.posts_part().len(),
    ensures
        occurs_in_order(page.html(), page.posts_part()[i].html(), page.posts_part()[j].html()),
{
    law_feed_page_keeps_post_order(
        page.nav_bar_part().html(),
        seq![page.main_post_part().html(), optional_html(page.post_creator_part())],
        page.posts_part(),
        i,
        j,
    );
}

/// The profile page shows every post it was built from, below the account's
/// card.
pub proof fn law_profile_page_shows_every_post<N: Component, A: Component, P: Component>(
    page: ProfilePage<N, A, P>,
    i: int,
)
    ensures
        contains_text(page.html(), page.nav_bar_part().html()),
        contains_text(page.html(), page.card_part().html()),
        0 <= i < page.posts_part().len() ==> contains_text(page.html(), page.posts_part()[i].html()),
        0 <= i < page.posts_part().len() ==> occurs_in_order(
            page.html(),
            page.card_part().html(),
            page.posts_part()[i].html(),
        ),
{
    lemma_frame_shows_nav(
        page.nav_bar_part().html(),
        feed_main(seq![profile_block(page.card_part().html(), page.button_part())].push(concat_html(page.posts_part()))),
    );
    let card = page.card_part().html();
    let block = profile_block(card, page.button_part());
    let lead = seq![block];
    assert(feed_column(lead) == MAIN_OPEN@ + PROFILE_0@ + card + (PROFILE_1@ + button_html(
        page.button_part(),
    ) + PROFILE_2@));
    lemma_lead_text_before_posts(
        page.nav_bar_part().html(),
        lead,
        page.posts_part(),
        MAIN_OPEN@ + PROFILE_0@,
        card,
        PROFILE_1@ + button_html(page.button_part()) + PROFILE_2@,
        i,
    );
    if 0 <= i < page.posts_part().len() {
        law_feed_page_shows_every_post(page.nav_bar_part().html(), lead, page.posts_part(), i);
    }
}

/// The profile page shows its posts in the order it was given them.
pub proof fn law_profile_page_keeps_post_order<N: Component, A: Component, P: Component>(
    page: ProfilePage<N, A, P>,
    i: int,
    j: int,
)
    requires
        0 <= i < j < page.posts_part().len(),
    ensures
        occurs_in_order(page.html(), page.posts_part()[i].html(), page.posts_part()[j].html()),
{
    law_feed_page_keeps_post_order(
        page.nav_bar_part().html(),
        seq![profile_block(page.card_part().html(), page.button_part())],
        page.posts_part(),
        i,
        j,
    );
}

/// Every page shows its navigation bar.
proof fn lemma_frame_shows_nav(nav: Seq<char>, main: Seq<char>)
    ensures
        contains_text(page_frame(nav, main), nav),
{
    let e = Seq::<char>::empty();
    lemma_contains_self(nav);
    lemma_contains_extend(nav, nav, PAGE_OPEN@, main + PAGE_CLOSE@);
    assert(PAGE_OPEN@ + nav + (main + PAGE_CLOSE@) =~= page_frame(nav, main));
}

/// The navigation bar comes first on a page, above the text `x` that its
/// main column holds at the given place.
proof fn lemma_frame_in_order(nav: Seq<char>, a: Seq<char>, x: Seq<char>, b: Seq<char>)
    ensures
        occurs_in_order(page_frame(nav, a + x + b), nav, x),
        contains_text(page_frame(nav, a + x + b), nav),
        contains_text(page_frame(nav, a + x + b), x),
{
    let e = Seq::<char>::empty();
    let inner = e + nav + a + x + (b + PAGE_CLOSE@);
    assert(occurs_in_order(inner, nav, x)) by {
        assert(e + nav + a + x + (b + PAGE_CLOSE@) == inner);
    }
    lemma_in_order_extend(inner, nav, x, PAGE_OPEN@, e);
    assert(PAGE_OPEN@ + inner + e =~= page_frame(nav, a + x + b));
}

/// The profile editor shows the navigation bar, then the card of the account
/// being edited.
pub proof fn law_edit_profile_page_shows_account<N: Component, A: Component>(page: EditProfilePage<N, A>)
    ensures
        contains_text(page.html(), page.nav_bar_part().html()),
        contains_text(page.html(), page.account_info_part().html()),
        occurs_in_order(page.html(), page.nav_bar_part().html(), page.account_info_part().html()),
{
    lemma_frame_in_order(page.nav_bar_part().html(), EDIT_1@, page.account_info_part().html(), EDIT_2@);
}

/// The faucet page shows the navigation bar, then a captcha of its own site
/// key.
pub proof fn law_faucet_page_uses_its_site_key<N: Component>(page: FaucetPage<N>)
    ensures
        contains_text(page.html(), page.nav_bar_part().html()),
        contains_text(page.html(), FAUCET_2@ + page.site_key_view() + FAUCET_3@),
        occurs_in_order(page.html(), page.nav_bar_part().html(), FAUCET_2@ + page.site_key_view() + FAUCET_3@),
{
    let x = FAUCET_2@ + page.site_key_view() + FAUCET_3@;
    assert(FAUCET_1@ + FAUCET_HEADER@ + x + Seq::<char>::empty() =~= FAUCET_1@ + FAUCET_HEADER@ + FAUCET_2@
        + page.site_key_view() + FAUCET_3@);
    lemma_frame_in_order(page.nav_bar_part().html(), FAUCET_1@ + FAUCET_HEADER@, x, Seq::<char>::empty());
}

/// The login page shows the navigation bar and, where an account is signed
/// in, that account's card; with none signed in it shows no card.
pub proof fn law_login_page_shows_signed_in_account<N: Component, A: Component>(page: LoginPage<N, A>)
    ensures
        contains_text(page.html(), page.nav_bar_part().html()),
        page.account_info_part() matches Some(a) ==> occurs_in_order(
            page.html(),
            page.nav_bar_part().html(),
            LOGGED_IN_0@ + a.html() + LOGGED_IN_1@,
        ) && contains_text(page.html(), a.html()),
        page.account_info_part() is None ==> page.html() == page_frame(
            page.nav_bar_part().html(),
            LOGIN_1@ + LOGIN_2@,
        ),
{
    let nav = page.nav_bar_part().html();
    let e = Seq::<char>::empty();
    match page.account_info_part() {
        Some(a) => {
            let x = LOGGED_IN_0@ + a.html() + LOGGED_IN_1@;
            let main = LOGIN_1@ + logged_in_html(page.account_info_part()) + LOGIN_2@;
            assert(main =~= LOGIN_1@ + x + LOGIN_2@);
            lemma_frame_in_order(nav, LOGIN_1@, x, LOGIN_2@);
            assert(main =~= (LOGIN_1@ + LOGGED_IN_0@) + a.html() + (LOGGED_IN_1@ + LOGIN_2@));
            lemma_frame_in_order(nav, LOGIN_1@ + LOGGED_IN_0@, a.html(), LOGGED_IN_1@ + LOGIN_2@);
        },
        None => {
            lemma_frame_in_order(nav, LOGIN_1@, e, LOGIN_2@);
            assert(LOGIN_1@ + e + LOGIN_2@ =~= LOGIN_1@ + LOGIN_2@);
            assert(logged_in_html(page.account_info_part()) == e);
            assert(LOGIN_1@ + logged_in_html(page.account_info_part()) + LOGIN_2@ =~= LOGIN_1@ + LOGIN_2@);
        },
    }
}

} // verus!
