//! A post as the chain reports it, its rendering, and the like and repost
//! counters that a click on a rendered post advances.
use vstd::prelude::*;
use vstd::string::*;

use crate::component::Component;
use crate::text::{
    contains_text, decimal, has_prefix, has_suffix, lemma_contains_extend, lemma_contains_self, int_text, parse_i32, parse_i32_spec, push_decimal, push_i64,
    strip_suffix,
};

verus! {

/// The public profile of an account.
pub struct AccountInfo {
    pub address: String,
    pub name: String,
    pub photo: String,
}

/// A post with the counters the chain keeps for it. `creator` is the author;
/// a repost carries the post it reposts in `repost_parent`.
pub struct PostView {
    pub id: String,
    pub creator: Option<AccountInfo>,
    pub content: String,
    pub parent_post: String,
    pub repost_parent: Option<Box<PostView>>,
    pub like_count: u64,
    pub repost_count: u64,
    pub comments_count: u64,
}

/// What `PostComponent::to_html` needs of a post: an author, and an author of
/// the reposted post where it is a repost.
pub open spec fn renderable(post: PostView) -> bool {
    &&& post.creator.is_some()
    &&& (post.repost_parent matches Some(r) ==> r.creator.is_some())
}

pub const REPLY_HEAD_0: &'static str = "<a href=\"/post/";
pub const REPLY_HEAD_1: &'static str = "\" class=\"post-component-header\">Replying to post ";
pub const HEAD_END: &'static str = "</a>";
pub const REPOST_HEAD_0: &'static str = "<a href=\"/profile/";
pub const REPOST_HEAD_1: &'static str = "\" class=\"post-component-header\">Reposted by ";

pub const POST_0: &'static str = "\n        <div class=\"post-component\">\n            ";
pub const POST_1: &'static str = "\n            <div class=\"post-component-text-wrapper\">\n                <a href=\"/profile/";
pub const POST_2: &'static str = "\"><img src=\"";
pub const POST_3: &'static str = "\" class=\"post-component-account-info-image\"></a>\n                <div class=\"post-component-text-content\">\n                    <div class=\"post-component-account-info\">\n                        <a href=\"/profile/";
pub const POST_4: &'static str = "\" class=\"post-component-account-info-name\">";
pub const POST_5: &'static str = "</a>\n                        <div class=\"post-component-account-info-address\">@";
pub const POST_6: &'static str = "</div>\n                    </div>\n                    <div class=\"";
pub const POST_7: &'static str = "\">\n                        ";
pub const POST_8: &'static str = "\n                    </div>\n                </div>\n            </div>\n            <div class=\"post-component-bar\">\n                ";
pub const BUTTON_OPEN: &'static str = "<div id=\"";
pub const BUTTON_MID: &'static str = "\" class=\"post-component-bar-button\">";
pub const CONTENT_MID: &'static str = "\" class=\"post-component-bar-button-content\">";
pub const BUTTON_CLOSE: &'static str = "</div></div>\n                ";
pub const POST_9: &'static str = "<a href=\"/post/";
pub const POST_10: &'static str = "\" class=\"post-component-bar-button\"><div class=\"post-component-bar-button-content\">";
pub const POST_11: &'static str = " Comments</div></a>\n            </div>\n        </div>";

pub const TEXT_CLASS: &'static str = "post-component-text";
pub const TEXT_CLASS_FOCUS: &'static str = "post-component-text-focus";

pub const ID_PREFIX: &'static str = "post-";
pub const LIKE_SUFFIX: &'static str = "-like";
pub const LIKE_CONTENT_SUFFIX: &'static str = "-like-content";
pub const REPOST_SUFFIX: &'static str = "-repost";
pub const REPOST_CONTENT_SUFFIX: &'static str = "-repost-content";
pub const LIKES: &'static str = " Likes";
pub const REPOSTS: &'static str = " Reposts";

/// The header of a reply: a link to the post it answers; empty for a post
/// that answers none.
pub open spec fn reply_header(parent: Seq<char>) -> Seq<char> {
    if parent.len() == 0 {
        Seq::empty()
    } else {
        REPLY_HEAD_0@ + parent + REPLY_HEAD_1@ + parent + HEAD_END@
    }
}

/// The header of a repost: a link to the reposting account.
pub open spec fn repost_header(by: AccountInfo) -> Seq<char> {
    REPOST_HEAD_0@ + by.address@ + REPOST_HEAD_1@ + by.name@ + HEAD_END@
}

pub open spec fn post_header(post: PostView) -> Seq<char> {
    match post.repost_parent {
        Some(_) => repost_header(post.creator.unwrap()) + reply_header(post.parent_post@),
        None => reply_header(post.parent_post@),
    }
}

/// The text shown: that of the reposted post for a repost.
pub open spec fn shown_content(post: PostView) -> Seq<char> {
    match post.repost_parent {
        Some(r) => r.content@,
        None => post.content@,
    }
}

/// The author shown: that of the reposted post for a repost.
pub open spec fn shown_author(post: PostView) -> AccountInfo {
    match post.repost_parent {
        Some(r) => r.creator.unwrap(),
        None => post.creator.unwrap(),
    }
}

pub open spec fn text_class(focus: bool) -> Seq<char> {
    if focus {
        TEXT_CLASS_FOCUS@
    } else {
        TEXT_CLASS@
    }
}

/// `post-{id}-like`: the element that takes the click on the like button.
pub open spec fn like_button_id(id: Seq<char>) -> Seq<char> {
    ID_PREFIX@ + id + LIKE_SUFFIX@
}

/// `post-{id}-like-content`: the element that shows the like count.
pub open spec fn like_content_id(id: Seq<char>) -> Seq<char> {
    ID_PREFIX@ + id + LIKE_CONTENT_SUFFIX@
}

/// `post-{id}-repost`: the element that takes the click on the repost button.
pub open spec fn repost_button_id(id: Seq<char>) -> Seq<char> {
    ID_PREFIX@ + id + REPOST_SUFFIX@
}

/// `post-{id}-repost-content`: the element that shows the repost count.
pub open spec fn repost_content_id(id: Seq<char>) -> Seq<char> {
    ID_PREFIX@ + id + REPOST_CONTENT_SUFFIX@
}

/// `{n} Likes`: the text of a like counter.
pub open spec fn like_label(n: int) -> Seq<char> {
    int_text(n) + LIKES@
}

/// `{n} Reposts`: the text of a repost counter.
pub open spec fn repost_label(n: int) -> Seq<char> {
    int_text(n) + REPOSTS@
}

/// A bar button: `<div id="{button}" class=..><div id="{content}" class=..>{label}</div></div>`.
pub open spec fn bar_button(button: Seq<char>, content: Seq<char>, label: Seq<char>) -> Seq<char> {
    BUTTON_OPEN@ + button + BUTTON_MID@ + BUTTON_OPEN@ + content + CONTENT_MID@ + label
        + BUTTON_CLOSE@
}

/// The markup of the author line and text of a post.
pub open spec fn post_body(author: AccountInfo, class: Seq<char>, content: Seq<char>) -> Seq<char> {
    POST_1@ + author.address@ + POST_2@ + author.photo@ + POST_3@ + author.address@ + POST_4@
        + author.name@ + POST_5@ + author.address@ + POST_6@ + class + POST_7@ + content + POST_8@
}

/// The markup of the like, repost and comment buttons of a post.
pub open spec fn post_bar(post: PostView) -> Seq<char> {
    bar_button(
        like_button_id(post.id@),
        like_content_id(post.id@),
        like_label(post.like_count as int),
    ) + bar_button(
        repost_button_id(post.id@),
        repost_content_id(post.id@),
        repost_label(post.repost_count as int),
    ) + POST_9@ + post.id@ + POST_10@ + decimal(post.comments_count as nat) + POST_11@
}

/// The markup of a post, highlighted where `focus` holds.
pub open spec fn post_html(post: PostView, focus: bool) -> Seq<char> {
    POST_0@ + post_header(post) + post_body(shown_author(post), text_class(focus), shown_content(post))
        + post_bar(post)
}

/// A post on a page.
pub struct PostComponent {
    post: PostView,
    focus: bool,
}

impl PostComponent {
    pub closed spec fn post_data(&self) -> PostView {
        self.post
    }

    pub closed spec fn focused(&self) -> bool {
        self.focus
    }

    /// A component for any post; it starts unhighlighted. It renders only
    /// where the post has the authors its markup shows.
    pub fn new(post: PostView) -> (r: Box<PostComponent>)
        ensures
            r.post_data() == post,
            !r.focused(),
    {
        Box::new(PostComponent { post, focus: false })
    }

    /// Highlights the post, as on the page of the post itself.
    pub fn focus(&mut self)
        ensures
            final(self).post_data() == old(self).post_data(),
            final(self).focused(),
    {
        self.focus = true;
    }
}

/// `post-{id}{suffix}`.
fn element_id(id: &str, suffix: &str) -> (r: String)
    ensures
        r@ == ID_PREFIX@ + id@ + suffix@,
{
    let mut out = String::new();
    out.append(ID_PREFIX);
    out.append(id);
    out.append(suffix);
    assert(out@ =~= ID_PREFIX@ + id@ + suffix@);
    out
}

pub fn like_button_element_id(id: &str) -> (r: String)
    ensures
        r@ == like_button_id(id@),
{
    element_id(id, LIKE_SUFFIX)
}

pub fn like_content_element_id(id: &str) -> (r: String)
    ensures
        r@ == like_content_id(id@),
{
    element_id(id, LIKE_CONTENT_SUFFIX)
}

pub fn repost_button_element_id(id: &str) -> (r: String)
    ensures
        r@ == repost_button_id(id@),
{
    element_id(id, REPOST_SUFFIX)
}

pub fn repost_content_element_id(id: &str) -> (r: String)
    ensures
        r@ == repost_content_id(id@),
{
    element_id(id, REPOST_CONTENT_SUFFIX)
}

fn push_bar_button(out: &mut String, button: &str, content: &str, count: u64, word: &str)
    ensures
        final(out)@ == old(out)@ + bar_button(button@, content@, int_text(count as int) + word@),
{
    out.append(BUTTON_OPEN);
    out.append(button);
    out.append(BUTTON_MID);
    out.append(BUTTON_OPEN);
    out.append(content);
    out.append(CONTENT_MID);
    push_decimal(out, count);
    out.append(word);
    out.append(BUTTON_CLOSE);
    assert(final(out)@ =~= old(out)@ + bar_button(button@, content@, int_text(count as int) + word@));
}

fn push_header(out: &mut String, post: &PostView)
    requires
        renderable(*post),
    ensures
        final(out)@ == old(out)@ + post_header(*post),
{
    let ghost start = out@;
    if post.repost_parent.is_some() {
        let by = post.creator.as_ref().unwrap();
        out.append(REPOST_HEAD_0);
        out.append(by.address.as_str());
        out.append(REPOST_HEAD_1);
        out.append(by.name.as_str());
        out.append(HEAD_END);
        assert(out@ =~= start + repost_header(post.creator.unwrap()));
    }
    let ghost mid = out@;
    if post.parent_post.as_str().unicode_len() != 0 {
        let p = post.parent_post.as_str();
        out.append(REPLY_HEAD_0);
        out.append(p);
        out.append(REPLY_HEAD_1);
        out.append(p);
        out.append(HEAD_END);
        assert(out@ =~= mid + reply_header(post.parent_post@));
    } else {
        assert(out@ =~= mid + reply_header(post.parent_post@));
    }
    assert(out@ =~= start + post_header(*post));
}

fn push_body(out: &mut String, author: &AccountInfo, class: &str, content: &str)
    ensures
        final(out)@ == old(out)@ + post_body(*author, class@, content@),
{
    out.append(POST_1);
    out.append(author.address.as_str());
    out.append(POST_2);
    out.append(author.photo.as_str());
    out.append(POST_3);
    out.append(author.address.as_str());
    out.append(POST_4);
    out.append(author.name.as_str());
    out.append(POST_5);
    out.append(author.address.as_str());
    out.append(POST_6);
    out.append(class);
    out.append(POST_7);
    out.append(content);
    out.append(POST_8);
    assert(final(out)@ =~= old(out)@ + post_body(*author, class@, content@));
}

fn push_bar(out: &mut String, post: &PostView)
    ensures
        final(out)@ == old(out)@ + post_bar(*post),
{
    let ghost start = out@;
    let id = post.id.as_str();
    let like_button = like_button_element_id(id);
    let like_content = like_content_element_id(id);
    push_bar_button(out, like_button.as_str(), like_content.as_str(), post.like_count, LIKES);
    let repost_button = repost_button_element_id(id);
    let repost_content = repost_content_element_id(id);
    push_bar_button(
        out,
        repost_button.as_str(),
        repost_content.as_str(),
        post.repost_count,
        REPOSTS,
    );
    out.append(POST_9);
    out.append(id);
    out.append(POST_10);
    push_decimal(out, post.comments_count);
    out.append(POST_11);
    assert(out@ =~= start + post_bar(*post));
}

impl Component for PostComponent {
    open spec fn html(&self) -> Seq<char> {
        post_html(self.post_data(), self.focused())
    }

    open spec fn renders(&self) -> bool {
        renderable(self.post_data())
    }

    fn to_html(&self) -> (r: String) {
        render_post(&self.post, self.focus)
    }
}

/// Writes the markup of a post, highlighted where `focus` holds.
pub fn render_post(post: &PostView, focus: bool) -> (r: String)
    requires
        renderable(*post),
    ensures
        r@ == post_html(*post, focus),
{
    let mut out = String::new();
    out.append(POST_0);
    push_header(&mut out, post);
    let class = if focus {
        TEXT_CLASS_FOCUS
    } else {
        TEXT_CLASS
    };
    match &post.repost_parent {
        Some(r) => {
            push_body(&mut out, r.creator.as_ref().unwrap(), class, r.content.as_str());
        },
        None => {
            push_body(&mut out, post.creator.as_ref().unwrap(), class, post.content.as_str());
        },
    }
    push_bar(&mut out, post);
    assert(out@ =~= post_html(*post, focus));
    out
}

/// Whether a post has the authors its rendering shows.
pub fn is_renderable(post: &PostView) -> (r: bool)
    ensures
        r == renderable(*post),
{
    post.creator.is_some() && match &post.repost_parent {
        Some(r) => r.creator.is_some(),
        None => true,
    }
}

/// Whether every post of `posts` has the authors its rendering shows.
pub fn all_renderable(posts: &Vec<PostView>) -> (r: bool)
    ensures
        r == forall|i: int| 0 <= i < posts@.len() ==> renderable(#[trigger] posts@[i]),
{
    let mut i: usize = 0;
    while i < posts.len()
        invariant
            i <= posts@.len(),
            forall|j: int| 0 <= j < i ==> renderable(#[trigger] posts@[j]),
        decreases posts@.len() - i,
    {
        if !is_renderable(&posts[i]) {
            return false;
        }
        i = i + 1;
    }
    true
}

/// The author line of a post, up to its text class.
pub open spec fn body_head(author: AccountInfo) -> Seq<char> {
    POST_1@ + author.address@ + POST_2@ + author.photo@ + POST_3@ + author.address@ + POST_4@
        + author.name@ + POST_5@ + author.address@ + POST_6@
}

/// The markup of a post up to its text class.
pub open spec fn post_head(post: PostView) -> Seq<char> {
    POST_0@ + post_header(post) + body_head(shown_author(post))
}

/// The markup of a post after its text class.
pub open spec fn post_tail(post: PostView) -> Seq<char> {
    POST_7@ + shown_content(post) + POST_8@ + post_bar(post)
}

proof fn lemma_regroup(a: Seq<char>, b: Seq<char>, c: Seq<char>, d: Seq<char>, e: Seq<char>)
    ensures
        a + (b + c + d) + e == (a + b) + c + (d + e),
{
    assert(a + (b + c + d) + e =~= (a + b) + c + (d + e));
}

proof fn lemma_body_split(author: AccountInfo, class: Seq<char>, content: Seq<char>)
    ensures
        post_body(author, class, content) == body_head(author) + class + (POST_7@ + content + POST_8@),
{
    assert(post_body(author, class, content) =~= body_head(author) + class + (POST_7@ + content
        + POST_8@));
}

/// Highlighting a post changes its text class and nothing else: the markup
/// around the class is the same either way.
pub proof fn law_focus_changes_only_the_text_class(post: PostView, focus: bool)
    ensures
        post_html(post, focus) == post_head(post) + text_class(focus) + post_tail(post),
{
    let tail = POST_7@ + shown_content(post) + POST_8@;
    lemma_body_split(shown_author(post), text_class(focus), shown_content(post));
    lemma_regroup(
        POST_0@ + post_header(post),
        body_head(shown_author(post)),
        text_class(focus),
        tail,
        post_bar(post),
    );
    assert(tail + post_bar(post) =~= post_tail(post));
}

/// The markup of a post opens with the repost line where it is a repost
/// ("Reposted by" its creator), then a "Replying to post" link exactly where
/// it answers a post (its `parent_post` is not empty), and then the author
/// line: a top-level post, reposted or not, carries no reply link.
pub proof fn law_reply_link_only_for_replies(post: PostView, focus: bool)
    ensures
        ({
            let html = post_html(post, focus);
            let by = post.creator.unwrap();
            let repost_line = if post.repost_parent is Some {
                REPOST_HEAD_0@ + by.address@ + REPOST_HEAD_1@ + by.name@ + HEAD_END@
            } else {
                Seq::<char>::empty()
            };
            let parent = post.parent_post@;
            &&& parent.len() == 0 ==> has_prefix(html, POST_0@ + repost_line + POST_1@)
            &&& parent.len() > 0 ==> has_prefix(
                html,
                POST_0@ + repost_line + REPLY_HEAD_0@ + parent + REPLY_HEAD_1@ + parent + HEAD_END@
                    + POST_1@,
            )
        }),
{
    let html = post_html(post, focus);
    let by = post.creator.unwrap();
    let repost_line = if post.repost_parent is Some {
        REPOST_HEAD_0@ + by.address@ + REPOST_HEAD_1@ + by.name@ + HEAD_END@
    } else {
        Seq::<char>::empty()
    };
    let author = shown_author(post);
    let rest = author.address@ + POST_2@ + author.photo@ + POST_3@ + author.address@ + POST_4@
        + author.name@ + POST_5@ + author.address@ + POST_6@ + text_class(focus) + post_tail(post);
    law_focus_changes_only_the_text_class(post, focus);
    let head = POST_0@ + post_header(post) + POST_1@;
    assert(html =~= head + rest);
    assert(post_header(post) =~= repost_line + reply_header(post.parent_post@));
    lemma_prefix_of(head, rest);
    let parent = post.parent_post@;
    if parent.len() == 0 {
        assert(head =~= POST_0@ + repost_line + POST_1@);
    } else {
        assert(head =~= POST_0@ + repost_line + REPLY_HEAD_0@ + parent + REPLY_HEAD_1@ + parent
            + HEAD_END@ + POST_1@);
    }
}

/// A post shows its author's name and address and its text; a repost shows
/// those of the post it reposts.
pub proof fn law_post_shows_its_author_and_text(post: PostView, focus: bool)
    ensures
        ({
            let html = post_html(post, focus);
            let (author, text) = match post.repost_parent {
                Some(r) => (r.creator.unwrap(), r.content@),
                None => (post.creator.unwrap(), post.content@),
            };
            &&& contains_text(html, POST_4@ + author.name@ + POST_5@ + author.address@ + POST_6@)
            &&& contains_text(html, POST_7@ + text + POST_8@)
        }),
{
    let html = post_html(post, focus);
    let author = shown_author(post);
    let text = shown_content(post);
    let who = POST_4@ + author.name@ + POST_5@ + author.address@ + POST_6@;
    let what = POST_7@ + text + POST_8@;
    let before = POST_0@ + post_header(post) + POST_1@ + author.address@ + POST_2@ + author.photo@
        + POST_3@ + author.address@;
    let bar = post_bar(post);
    law_focus_changes_only_the_text_class(post, focus);
    assert(html =~= before + who + (text_class(focus) + what + bar));
    assert(html =~= (before + who + text_class(focus)) + what + bar);
    lemma_contains_self(who);
    lemma_contains_extend(who, who, before, text_class(focus) + what + bar);
    lemma_contains_self(what);
    lemma_contains_extend(what, what, before + who + text_class(focus), bar);
}

proof fn lemma_prefix_of(p: Seq<char>, rest: Seq<char>)
    ensures
        has_prefix(p + rest, p),
{
    assert((p + rest).subrange(0, p.len() as int) =~= p);
}

/// The number part of a counter's text: the text without its `word`, or `0`
/// where the text does not end with `word`.
pub open spec fn counter_body(text: Seq<char>, word: Seq<char>) -> Seq<char> {
    if has_suffix(text, word) {
        text.subrange(0, text.len() - word.len())
    } else {
        "0"@
    }
}

/// The like counter's text after one more like: `None` where the number in
/// it cannot be read as an `i32`.
pub open spec fn next_like_label_spec(text: Seq<char>) -> Option<Seq<char>> {
    match parse_i32_spec(counter_body(text, LIKES@)) {
        Some(n) => Some(like_label(n + 1)),
        None => None,
    }
}

/// The repost count after one more repost; a text whose number cannot be
/// read counts as no repost.
pub open spec fn next_repost_count(text: Seq<char>) -> int {
    match parse_i32_spec(counter_body(text, REPOSTS@)) {
        Some(n) => n + 1,
        None => 1,
    }
}

fn counter_number(text: &str, word: &str) -> (r: Option<i32>)
    ensures
        r == parse_i32_spec(counter_body(text@, word@)),
{
    match strip_suffix(text, word) {
        Some(body) => parse_i32(body),
        None => parse_i32("0"),
    }
}

fn label(n: i32, word: &str) -> (r: String)
    ensures
        r@ == int_text(n as int) + word@,
{
    let mut out = String::new();
    push_i64(&mut out, n as i64);
    out.append(word);
    assert(out@ =~= int_text(n as int) + word@);
    out
}

/// The text that the like counter of a post shows after a click on its like
/// button, given the text it shows before.
pub fn next_like_label(text: &str) -> (r: Option<String>)
    requires
        parse_i32_spec(counter_body(text@, LIKES@)) != Some(i32::MAX),
    ensures
        match r {
            Some(s) => next_like_label_spec(text@) == Some(s@),
            None => next_like_label_spec(text@) is None,
        },
{
    match counter_number(text, LIKES) {
        Some(n) => Some(label(n + 1, LIKES)),
        None => None,
    }
}

/// The text that the repost counter of a post shows after a click on its
/// repost button, given the text it shows before.
pub fn next_repost_label(text: &str) -> (r: String)
    requires
        parse_i32_spec(counter_body(text@, REPOSTS@)) != Some(i32::MAX),
    ensures
        r@ == repost_label(next_repost_count(text@)),
{
    match counter_number(text, REPOSTS) {
        Some(n) => label(n + 1, REPOSTS),
        None => label(1, REPOSTS),
    }
}

proof fn lemma_counter_body(n: int, word: Seq<char>)
    ensures
        counter_body(int_text(n) + word, word) == int_text(n),
{
    let t = int_text(n) + word;
    assert(t.subrange(t.len() - word.len(), t.len() as int) =~= word);
    assert(t.subrange(0, t.len() - word.len()) =~= int_text(n));
}

/// A click on the like button of a counter that shows `n` likes makes it show
/// `n + 1` likes (for every `n` below `i32::MAX`, where the count still fits).
pub proof fn law_like_click_counts_one_more(n: i32)
    requires
        n < i32::MAX,
    ensures
        next_like_label_spec(like_label(n as int)) == Some(like_label(n + 1)),
{
    lemma_counter_body(n as int, LIKES@);
    crate::text::lemma_parse_int_text(n);
}

/// A click on the repost button of a counter that shows `n` reposts makes it
/// show `n + 1` reposts (for every `n` below `i32::MAX`).
pub proof fn law_repost_click_counts_one_more(n: i32)
    requires
        n < i32::MAX,
    ensures
        next_repost_count(repost_label(n as int)) == n + 1,
{
    lemma_counter_body(n as int, REPOSTS@);
    crate::text::lemma_parse_int_text(n);
}

proof fn lemma_bar_button_contains(button: Seq<char>, content: Seq<char>, label: Seq<char>)
    ensures
        contains_text(bar_button(button, content, label), BUTTON_OPEN@ + button),
        contains_text(bar_button(button, content, label), BUTTON_OPEN@ + content + CONTENT_MID@ + label),
{
    let s = bar_button(button, content, label);
    let t1 = BUTTON_OPEN@ + button;
    let i0: int = 0;
    assert(s.subrange(i0, i0 + t1.len()) =~= t1);
    let t2 = BUTTON_OPEN@ + content + CONTENT_MID@ + label;
    let i = t1.len() as int + BUTTON_MID@.len() as int;
    assert(s.subrange(i, i + t2.len()) =~= t2);
}

/// A rendered post holds the like and repost buttons that the click handlers
/// look up by id, and the counters they read back, each showing the post's
/// count as the handlers write it.
pub proof fn law_rendered_post_holds_its_counters(post: PostView, focus: bool)
    ensures
        contains_text(
            post_html(post, focus),
            BUTTON_OPEN@ + like_content_id(post.id@) + CONTENT_MID@ + like_label(post.like_count as int),
        ),
        contains_text(
            post_html(post, focus),
            BUTTON_OPEN@ + repost_content_id(post.id@) + CONTENT_MID@ + repost_label(
                post.repost_count as int,
            ),
        ),
        contains_text(post_html(post, focus), BUTTON_OPEN@ + like_button_id(post.id@)),
        contains_text(post_html(post, focus), BUTTON_OPEN@ + repost_button_id(post.id@)),
{
    let head = POST_0@ + post_header(post) + post_body(
        shown_author(post),
        text_class(focus),
        shown_content(post),
    );
    let like = bar_button(
        like_button_id(post.id@),
        like_content_id(post.id@),
        like_label(post.like_count as int),
    );
    let repost = bar_button(
        repost_button_id(post.id@),
        repost_content_id(post.id@),
        repost_label(post.repost_count as int),
    );
    let tail = POST_9@ + post.id@ + POST_10@ + decimal(post.comments_count as nat) + POST_11@;
    let e = Seq::<char>::empty();
    assert(post_bar(post) =~= e + like + (repost + tail));
    assert(post_bar(post) =~= (e + like) + repost + tail);
    assert(post_html(post, focus) =~= head + post_bar(post) + e);
    lemma_bar_button_contains(like_button_id(post.id@), like_content_id(post.id@), like_label(post.like_count as int));
    lemma_bar_button_contains(
        repost_button_id(post.id@),
        repost_content_id(post.id@),
        repost_label(post.repost_count as int),
    );
    let t1 = BUTTON_OPEN@ + like_content_id(post.id@) + CONTENT_MID@ + like_label(post.like_count as int);
    let t2 = BUTTON_OPEN@ + repost_content_id(post.id@) + CONTENT_MID@ + repost_label(post.repost_count as int);
    let t3 = BUTTON_OPEN@ + like_button_id(post.id@);
    let t4 = BUTTON_OPEN@ + repost_button_id(post.id@);
    lemma_contains_extend(like, t1, e, repost + tail);
    lemma_contains_extend(post_bar(post), t1, head, e);
    lemma_contains_extend(like, t3, e, repost + tail);
    lemma_contains_extend(post_bar(post), t3, head, e);
    lemma_contains_extend(repost, t2, e + like, tail);
    lemma_contains_extend(post_bar(post), t2, head, e);
    lemma_contains_extend(repost, t4, e + like, tail);
    lemma_contains_extend(post_bar(post), t4, head, e);
}

} // verus!
