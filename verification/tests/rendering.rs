use blawgd::component::{Component, Html};
use blawgd::pages::{
    ButtonType, EditProfilePage, FaucetPage, HomePage, LoginPage, PostPage, ProfilePage,
    TimelinePage,
};
use blawgd::post::{render_post, AccountInfo, PostComponent, PostView};
use blawgd::post_creator::PostCreator;

#[allow(non_snake_case)]
fn Leaf(s: &str) -> Html {
    Html::new(s.to_string())
}

fn account(address: &str, name: &str, photo: &str) -> AccountInfo {
    AccountInfo { address: address.to_string(), name: name.to_string(), photo: photo.to_string() }
}

fn post(id: &str, parent: &str, content: &str) -> PostView {
    PostView {
        id: id.to_string(),
        creator: Some(account("cosmos1alice", "Alice", "alice.png")),
        content: content.to_string(),
        parent_post: parent.to_string(),
        repost_parent: None,
        like_count: 3,
        repost_count: 1,
        comments_count: 12,
    }
}

/// The markup of a post, written with `format!` from the same template.
fn expected_post(p: &PostView, focus: bool) -> String {
    let mut account_info = p.creator.as_ref().unwrap();
    let post_text_class = if focus { "post-component-text-focus" } else { "post-component-text" };
    let parent_post = p.parent_post.clone();
    let mut post_header = String::new();
    if !parent_post.is_empty() {
        post_header = format!(
            r#"<a href="/post/{}" class="post-component-header">Replying to post {}</a>"#,
            parent_post, parent_post
        );
    }
    let mut content = p.content.clone();
    if let Some(repost) = &p.repost_parent {
        let old = post_header.clone();
        post_header = format!(
            r#"<a href="/profile/{}" class="post-component-header">Reposted by {}</a>"#,
            account_info.address, account_info.name
        );
        post_header.push_str(old.as_str());
        content = repost.content.clone();
        account_info = repost.creator.as_ref().unwrap();
    }
    format!(
        r#"
        <div class="post-component">
            {}
            <div class="post-component-text-wrapper">
                <a href="/profile/{}"><img src="{}" class="post-component-account-info-image"></a>
                <div class="post-component-text-content">
                    <div class="post-component-account-info">
                        <a href="/profile/{}" class="post-component-account-info-name">{}</a>
                        <div class="post-component-account-info-address">@{}</div>
                    </div>
                    <div class="{}">
                        {}
                    </div>
                </div>
            </div>
            <div class="post-component-bar">
                <div id="post-{}-like" class="post-component-bar-button"><div id="post-{}-like-content" class="post-component-bar-button-content">{} Likes</div></div>
                <div id="post-{}-repost" class="post-component-bar-button"><div id="post-{}-repost-content" class="post-component-bar-button-content">{} Reposts</div></div>
                <a href="/post/{}" class="post-component-bar-button"><div class="post-component-bar-button-content">{} Comments</div></a>
            </div>
        </div>"#,
        post_header,
        account_info.address,
        account_info.photo,
        account_info.address,
        account_info.name,
        account_info.address,
        post_text_class,
        content,
        p.id,
        p.id,
        p.like_count,
        p.id,
        p.id,
        p.repost_count,
        p.id,
        p.comments_count
    )
}

#[test]
fn plain_post_renders_from_its_template() {
    let p = post("5", "", "hello world");
    assert_eq!(render_post(&p, false), expected_post(&p, false));
    assert_eq!(PostComponent::new(post("5", "", "hello world")).to_html(), expected_post(&p, false));
}

#[test]
fn reply_post_has_reply_header() {
    let p = post("6", "5", "answer");
    let html = render_post(&p, false);
    assert_eq!(html, expected_post(&p, false));
    assert!(html.contains(r#"<a href="/post/5" class="post-component-header">Replying to post 5</a>"#));
}

#[test]
fn focused_post_is_highlighted() {
    let mut c = PostComponent::new(post("5", "", "x"));
    c.focus();
    let html = c.to_html();
    assert_eq!(html, expected_post(&post("5", "", "x"), true));
    assert!(html.contains("post-component-text-focus"));
}

#[test]
fn repost_shows_reposted_author_and_text() {
    let mut reposted = post("1", "", "reposted text");
    reposted.creator = Some(account("cosmos1bob", "Bob", "bob.png"));
    let mut p = post("9", "4", "ignored");
    p.repost_parent = Some(Box::new(reposted));
    let html = render_post(&p, false);
    assert_eq!(html, expected_post(&p, false));
    assert!(html.contains("Reposted by Alice"));
    assert!(html.contains("reposted text"));
    assert!(!html.contains("ignored"));
    assert!(html.contains("bob.png"));
}

#[test]
fn rendered_post_holds_its_counters() {
    let p = post("77", "", "c");
    let html = render_post(&p, false);
    assert!(html.contains(r#"<div id="post-77-like-content" class="post-component-bar-button-content">3 Likes"#));
    assert!(html.contains(r#"<div id="post-77-repost-content" class="post-component-bar-button-content">1 Reposts"#));
    assert!(html.contains(r#"<div id="post-77-like""#));
    assert!(html.contains(r#"<div id="post-77-repost""#));
}

#[test]
fn post_creator_renders_its_button() {
    let mut c = PostCreator::new("12".to_string());
    let expected = |t: &str| {
        format!(
            r#"
        <div class="post-creator">
            <textarea id="post-creator-input" class="post-creator-input"></textarea>
            <div class="post-creator-buttons">
                <div id="post-creator-button" class="post-creator-button-post">
                    {}
                </div>
            </div>
        </div>"#,
            t
        )
    };
    assert_eq!(c.to_html(), expected("Post"));
    c.set_button_text("Reply");
    assert_eq!(c.to_html(), expected("Reply"));
    assert_eq!(c.parent_post(), "12");
}

#[test]
fn edit_profile_page_renders_from_its_template() {
    let page = EditProfilePage::new(Leaf("<nav/>"), Leaf("<card/>"));
    let expected = format!(
        r#"
<div class="page">
    {}
    <div class="main-column">
        <div class="account-info-wrapper">
            {}
            <div class="new-account-info">
                <input id="image-field" class="account-info-field" type="text" placeholder="Image here...">
                <input id="name-field" class="account-info-field" type="text" placeholder="Name here...">
                <div class="new-account-info-buttons">
                    <div id="preview-button" class="button">Preview</div>
                    <div id="reset-button" class="button">Reset</div>
                </div>
            </div>
            <div id="update-profile" class="button">Update Profile</div>
        </div>
    </div>
    <div class="secondary-column"></div>
</div>
"#,
        "<nav/>", "<card/>"
    );
    assert_eq!(page.to_html(), expected);
}

#[test]
fn faucet_page_renders_from_its_template() {
    let page = FaucetPage::new(Leaf("<nav/>"), "site-key-1".to_string());
    let expected = format!(
        r#"
<div class="page">
    {}
    <div id="main" class="main-column">
        <div class="faucet-page">
            <div class="faucet-page-header">
                {}
            </div>
            <div class="h-captcha" data-sitekey="{}" data-callback="captcha" data-theme="dark"></div>
        </div>
    </div>
    <div class="secondary-column"></div>
</div>
"#,
        "<nav/>", "Complete sign up process by solving the captcha!", "site-key-1"
    );
    assert_eq!(page.to_html(), expected);
}

fn expected_login(account: Option<&str>) -> String {
    let mut account_info_component = String::new();
    if let Some(a) = account {
        account_info_component = format!(
            r#"
                <div class="login-page-header">Currently logged in as</div>
                <div class="account-info-wrapper">
                    {}
                    <div id="logout-button" class="button">Logout</div>
                </div>
                "#,
            a
        );
    }
    format!(
        r#"
<div class="page">
    {}
    <div class="main-column">
        {}
        <div class="login-component">
            <textarea id="wallet-mnemonic" class="login-component-mnemonic" placeholder="Mnemonic here..."></textarea>
            <input id="wallet-password" class="login-component-password" placeholder="Password here...">
            <div class="login-component-buttons">
                <div id="generate-account" class="button">Generate Account</div>
                <div id="login" class="button">Login</div>
            </div>
        </div>
    </div>
    <div class="secondary-column"></div>
</div>
"#,
        "<nav/>", account_info_component
    )
}

#[test]
fn login_page_renders_from_its_template() {
    let signed_in = LoginPage::new(Leaf("<nav/>"), Some(Leaf("<me/>")));
    assert_eq!(signed_in.to_html(), expected_login(Some("<me/>")));
    let visitor: Box<LoginPage<Html, Html>> = LoginPage::new(Leaf("<nav/>"), None);
    assert_eq!(visitor.to_html(), expected_login(None));
}

fn expected_feed(nav: &str, parts: &[&str]) -> String {
    let mut main = String::new();
    for (i, p) in parts.iter().enumerate() {
        if i > 0 {
            main.push_str("\n        ");
        }
        main.push_str(p);
    }
    format!(
        r#"
<div class="page">
    {}
    <div id="main-column" class="main-column">
        {}
    </div>
    <div class="secondary-column"></div>
</div>
"#,
        nav, main
    )
}

#[test]
fn home_and_timeline_render_from_its_template() {
    let posts: Box<[Html]> = vec![Leaf("<p1/>"), Leaf("<p2/>")].into_boxed_slice();
    let home = HomePage::new(Leaf("<nav/>"), Some(Leaf("<creator/>")), posts);
    assert_eq!(home.to_html(), expected_feed("<nav/>", &["<creator/>", "<p1/><p2/>"]));
    let empty: Box<[Html]> = Vec::new().into_boxed_slice();
    let timeline: Box<TimelinePage<Html, Html, Html>> = TimelinePage::new(Leaf("<nav/>"), None, empty);
    assert_eq!(timeline.to_html(), expected_feed("<nav/>", &["", ""]));
}

#[test]
fn post_page_renders_from_its_template() {
    let posts: Box<[Html]> = vec![Leaf("<r1/>")].into_boxed_slice();
    let page = PostPage::new(Leaf("<nav/>"), Leaf("<main/>"), Some(Leaf("<reply/>")), posts);
    assert_eq!(page.to_html(), expected_feed("<nav/>", &["<main/>", "<reply/>", "<r1/>"]));
}

fn expected_profile(card: &str, button: &str, posts: &str) -> String {
    let block = format!(
        r#"
                <div class="account-info-wrapper">
                    {}
                    {}
                </div>
                "#,
        card, button
    );
    expected_feed("<nav/>", &[block.as_str(), posts])
}

#[test]
fn profile_page_renders_each_button() {
    let cases = [
        (Some(ButtonType::Edit), r#"<a href="/edit-profile" class="button">Edit Profile</a>"#),
        (Some(ButtonType::Follow), r#"<a id="follow-toggle" class="button">Follow</a>"#),
        (Some(ButtonType::Unfollow), r#"<a id="follow-toggle" class="button">Unfollow</a>"#),
        (None, ""),
    ];
    for (button, text) in cases {
        let posts: Box<[Html]> = vec![Leaf("<p/>")].into_boxed_slice();
        let page = ProfilePage::new(
            Leaf("<nav/>"),
            account("cosmos1a", "A", "a.png"),
            Leaf("<card/>"),
            button,
            posts,
        );
        assert_eq!(page.to_html(), expected_profile("<card/>", text, "<p/>"));
        assert_eq!(page.account_info().address, "cosmos1a");
        assert_eq!(page.button().is_some(), button.is_some());
    }
}

#[test]
fn focus_changes_only_the_text_class() {
    for p in [post("5", "", "x"), post("6", "5", "reply")] {
        let plain = render_post(&p, false);
        let highlighted = render_post(&p, true);
        assert_eq!(
            highlighted,
            plain.replacen(r#"class="post-component-text""#, r#"class="post-component-text-focus""#, 1)
        );
    }
    let mut c = PostComponent::new(post("5", "", "x"));
    c.focus();
    let once = c.to_html();
    c.focus();
    assert_eq!(c.to_html(), once);
}
