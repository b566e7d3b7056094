//! The pages as the client assembles them from what the chain reports and
//! from whether a user is signed in.
use vstd::prelude::*;
use vstd::string::*;

use crate::component::{all_render, concat_html, Component};
use crate::feed::posts_html;
use crate::pages::{law_feed_page_shows_every_post, ButtonType, HomePage, PostPage, TimelinePage};
use crate::post::post_html;
use crate::text::contains_text;
use crate::post::{renderable, PostComponent, PostView};
use crate::post_creator::{PostCreator, DEFAULT_BUTTON_TEXT};
use crate::text::same_text;
use crate::util::follows;

verus! {

/// `Vec::into_boxed_slice`: the same elements, in the same order, in a boxed
/// slice (as its documentation says).
#[verifier::external_body]
fn into_boxed<T>(v: Vec<T>) -> (r: Box<[T]>)
    ensures
        r@ == v@,
{
    v.into_boxed_slice()
}

/// The components of `posts` in `out` show each post, in order, unhighlighted.
pub open spec fn shows_posts(out: Seq<PostComponent>, posts: Seq<PostView>) -> bool {
    &&& out.len() == posts.len()
    &&& forall|i: int|
        0 <= i < posts.len() ==> (#[trigger] out[i]).post_data() == posts[i] && !out[i].focused()
}

/// Components that show the given posts render exactly when every post has
/// the authors its markup shows.
proof fn lemma_shown_posts_render(out: Seq<PostComponent>, posts: Seq<PostView>)
    requires
        shows_posts(out, posts),
    ensures
        all_render(out) == forall|i: int| 0 <= i < posts.len() ==> renderable(#[trigger] posts[i]),
{
    assert forall|i: int| 0 <= i < posts.len() implies (#[trigger] out[i]).renders() == renderable(
        posts[i],
    ) by {}
    if all_render(out) {
        assert forall|i: int| 0 <= i < posts.len() implies renderable(#[trigger] posts[i]) by {
            assert(out[i].renders());
        }
    }
    if forall|i: int| 0 <= i < posts.len() ==> renderable(#[trigger] posts[i]) {
        assert forall|i: int| 0 <= i < out.len() implies (#[trigger] out[i]).renders() by {
            assert(renderable(posts[i]));
        }
    }
}

/// A component for each post, in order.
pub fn post_components(posts: Vec<PostView>) -> (r: Box<[PostComponent]>)
    ensures
        shows_posts(r@, posts@),
{
    let ghost all = posts@;
    let mut rest = posts;
    let mut out: Vec<PostComponent> = Vec::new();
    while rest.len() > 0
        invariant
            all == out@.map_values(|c: PostComponent| c.post_data()) + rest@,
            forall|i: int| 0 <= i < out@.len() ==> !(#[trigger] out@[i]).focused(),
        decreases rest@.len(),
    {
        let ghost before = out@.map_values(|c: PostComponent| c.post_data());
        let ghost rest_before = rest@;
        let p = rest.remove(0);
        let c = PostComponent::new(p);
        out.push(*c);
        assert(out@.map_values(|c: PostComponent| c.post_data()) =~= before.push(
            rest_before[0],
        ));
        assert(all =~= out@.map_values(|c: PostComponent| c.post_data()) + rest@);
    }
    assert forall|i: int| 0 <= i < all.len() implies (#[trigger] out@[i]).post_data() == all[i]
        && !out@[i].focused() by {
        assert(out@.map_values(|c: PostComponent| c.post_data())[i] == out@[i].post_data());
    }
    into_boxed(out)
}

/// The post creator of a signed-in user, answering `parent_post`; none for a
/// visitor.
pub open spec fn creator_for(c: Option<PostCreator>, signed_in: bool, parent: Seq<char>, button: Seq<char>) -> bool {
    match c {
        Some(p) => signed_in && p.parent_post_view() == parent && p.button_text_view() == button,
        None => !signed_in,
    }
}

/// The home page: the first page of top-level posts, and a post creator for a
/// signed-in user.
pub fn home_page<N: Component>(nav_bar: N, signed_in: bool, posts: Vec<PostView>) -> (r: Box<
    HomePage<N, PostCreator, PostComponent>,
>)
    ensures
        r.nav_bar_part() == nav_bar,
        creator_for(r.post_creator_part(), signed_in, Seq::empty(), DEFAULT_BUTTON_TEXT@),
        signed_in ==> (r.post_creator_part() matches Some(c) && c.parent_post_view().len() == 0
            && c.button_text_view() == DEFAULT_BUTTON_TEXT@),
        !signed_in ==> r.post_creator_part() is None,
        shows_posts(r.posts_part(), posts@),
        r.renders() == (nav_bar.renders() && forall|i: int|
            0 <= i < posts@.len() ==> renderable(#[trigger] posts@[i])),
{
    let post_creator = if signed_in {
        let c = PostCreator::new(String::new());
        Some(*c)
    } else {
        None
    };
    let ghost all = posts@;
    let r = HomePage::new(nav_bar, post_creator, post_components(posts));
    proof {
        lemma_shown_posts_render(r.posts_part(), all);
    }
    r
}

/// The timeline: the first page of the posts of the followed accounts, and a
/// post creator for a signed-in user.
pub fn timeline_page<N: Component>(nav_bar: N, signed_in: bool, posts: Vec<PostView>) -> (r: Box<
    TimelinePage<N, PostCreator, PostComponent>,
>)
    ensures
        r.nav_bar_part() == nav_bar,
        creator_for(r.post_creator_part(), signed_in, Seq::empty(), DEFAULT_BUTTON_TEXT@),
        signed_in ==> (r.post_creator_part() matches Some(c) && c.parent_post_view().len() == 0
            && c.button_text_view() == DEFAULT_BUTTON_TEXT@),
        !signed_in ==> r.post_creator_part() is None,
        shows_posts(r.posts_part(), posts@),
        r.renders() == (nav_bar.renders() && forall|i: int|
            0 <= i < posts@.len() ==> renderable(#[trigger] posts@[i])),
{
    let post_creator = if signed_in {
        let c = PostCreator::new(String::new());
        Some(*c)
    } else {
        None
    };
    let ghost all = posts@;
    let r = TimelinePage::new(nav_bar, post_creator, post_components(posts));
    proof {
        lemma_shown_posts_render(r.posts_part(), all);
    }
    r
}

pub const REPLY_BUTTON_TEXT: &'static str = "Reply";

/// The page of a post: the post highlighted, a reply box for a signed-in user,
/// and the first page of replies.
pub fn post_page<N: Component>(
    nav_bar: N,
    main_post: PostView,
    signed_in: bool,
    replies: Vec<PostView>,
) -> (r: Box<PostPage<N, PostComponent, PostCreator, PostComponent>>)
    ensures
        r.nav_bar_part() == nav_bar,
        r.main_post_part().post_data() == main_post,
        r.main_post_part().focused(),
        creator_for(r.post_creator_part(), signed_in, main_post.id@, REPLY_BUTTON_TEXT@),
        signed_in ==> (r.post_creator_part() matches Some(c) && c.parent_post_view()
            == main_post.id@ && c.button_text_view() == REPLY_BUTTON_TEXT@),
        !signed_in ==> r.post_creator_part() is None,
        shows_posts(r.posts_part(), replies@),
        r.renders() == (nav_bar.renders() && renderable(main_post) && forall|i: int|
            0 <= i < replies@.len() ==> renderable(#[trigger] replies@[i])),
{
    let ghost id = main_post.id@;
    let post_creator = if signed_in {
        let mut c = PostCreator::new(String::from_str(main_post.id.as_str()));
        c.set_button_text(REPLY_BUTTON_TEXT);
        Some(*c)
    } else {
        None
    };
    let mut main = PostComponent::new(main_post);
    main.focus();
    let ghost all = replies@;
    let r = PostPage::new(nav_bar, *main, post_creator, post_components(replies));
    proof {
        lemma_shown_posts_render(r.posts_part(), all);
    }
    r
}

/// The home page shows every post it was built from, unhighlighted.
pub proof fn law_home_page_shows_every_post<N: Component>(
    page: HomePage<N, PostCreator, PostComponent>,
    posts: Seq<PostView>,
    i: int,
)
    requires
        shows_posts(page.posts_part(), posts),
        0 <= i < posts.len(),
    ensures
        contains_text(page.html(), post_html(posts[i], false)),
{
    law_feed_page_shows_every_post(
        page.nav_bar_part().html(),
        seq![crate::component::optional_html(page.post_creator_part())],
        page.posts_part(),
        i,
    );
}

/// The timeline shows every post it was built from, unhighlighted.
pub proof fn law_timeline_shows_every_post<N: Component>(
    page: TimelinePage<N, PostCreator, PostComponent>,
    posts: Seq<PostView>,
    i: int,
)
    requires
        shows_posts(page.posts_part(), posts),
        0 <= i < posts.len(),
    ensures
        contains_text(page.html(), post_html(posts[i], false)),
{
    law_feed_page_shows_every_post(
        page.nav_bar_part().html(),
        seq![crate::component::optional_html(page.post_creator_part())],
        page.posts_part(),
        i,
    );
}

/// The page of a post shows every reply it was built from, unhighlighted.
pub proof fn law_post_page_shows_every_reply<N: Component>(
    page: PostPage<N, PostComponent, PostCreator, PostComponent>,
    replies: Seq<PostView>,
    i: int,
)
    requires
        shows_posts(page.posts_part(), replies),
        0 <= i < replies.len(),
    ensures
        contains_text(page.html(), post_html(replies[i], false)),
{
    law_feed_page_shows_every_post(
        page.nav_bar_part().html(),
        seq![page.main_post_part().html(), crate::component::optional_html(page.post_creator_part())],
        page.posts_part(),
        i,
    );
}

/// A batch that scrolling appends is written just as the same posts are
/// written on a page built from them.
pub proof fn law_appended_batch_renders_like_page(cs: Seq<PostComponent>, posts: Seq<PostView>)
    requires
        shows_posts(cs, posts),
    ensures
        concat_html(cs) == posts_html(posts),
    decreases posts.len(),
{
    if posts.len() > 0 {
        let (cs0, ps0) = (cs.drop_last(), posts.drop_last());
        assert forall|i: int| 0 <= i < ps0.len() implies (#[trigger] cs0[i]).post_data() == ps0[i]
            && !cs0[i].focused() by {
            assert(cs0[i] == cs[i]);
        }
        law_appended_batch_renders_like_page(cs0, ps0);
        assert(cs.last() == cs[cs.len() - 1]);
    }
}

/// Whether the button of a profile depends on whom the viewer follows: only
/// for a signed-in viewer on another account's profile.
pub open spec fn needs_followings(viewer: Option<Seq<char>>, profile: Seq<char>) -> bool {
    match viewer {
        Some(v) => v != profile,
        None => false,
    }
}

/// The button of a profile: none for a visitor, "edit" on one's own profile,
/// else "unfollow" or "follow" as the viewer follows the account or not.
pub open spec fn profile_button_spec(
    viewer: Option<Seq<char>>,
    profile: Seq<char>,
    viewer_follows: bool,
) -> Option<ButtonType> {
    match viewer {
        None => None,
        Some(v) => if v == profile {
            Some(ButtonType::Edit)
        } else if viewer_follows {
            Some(ButtonType::Unfollow)
        } else {
            Some(ButtonType::Follow)
        },
    }
}

/// Whether the profile button needs the viewer's following list.
pub fn profile_needs_followings(viewer: Option<&str>, profile: &str) -> (r: bool)
    ensures
        r == needs_followings(
            match viewer {
                Some(v) => Some(v@),
                None => None,
            },
            profile@,
        ),
{
    match viewer {
        Some(v) => !same_text(v, profile),
        None => false,
    }
}

/// The button of the profile of `profile` for the viewer, given the accounts
/// the viewer follows (consulted only where `profile_needs_followings`).
pub fn profile_button(viewer: Option<&str>, profile: &str, viewer_followings: &Vec<String>) -> (r:
    Option<ButtonType>)
    ensures
        r == profile_button_spec(
            match viewer {
                Some(v) => Some(v@),
                None => None,
            },
            profile@,
            exists|i: int|
                0 <= i < viewer_followings@.len() && #[trigger] viewer_followings@[i]@ == profile@,
        ),
{
    match viewer {
        None => None,
        Some(v) => {
            if same_text(v, profile) {
                Some(ButtonType::Edit)
            } else if follows(viewer_followings, profile) {
                Some(ButtonType::Unfollow)
            } else {
                Some(ButtonType::Follow)
            }
        },
    }
}

} // verus!
