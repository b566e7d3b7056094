use blawgd::builder::{home_page, post_page, profile_button, profile_needs_followings, timeline_page};
use blawgd::component::{Component, Html};
use blawgd::feed::{at_bottom, PageState};
use blawgd::pages::ButtonType;
use blawgd::post::{render_post, AccountInfo, PostView};
use blawgd::rpc::{
    block_url, commit_url, evidence_url, height_to_fetch, sync_failed_message, synced_message,
    validator_set_urls, validators_url,
};
use blawgd::rpc::{trust_source, TrustSource};
use blawgd::wallet::{is_valid_phrase, new_account_phrase};
use blawgd::rpc::header_validator_set_urls;
use blawgd::post::PostComponent;
use blawgd::post::{all_renderable, is_renderable};
use blawgd::storage::{PeerIdError, Store, APP_DATA, LAST_LC_SYNC, PEER_ID, SHOULD_VERIFY};

fn post(id: &str) -> PostView {
    PostView {
        id: id.to_string(),
        creator: Some(AccountInfo {
            address: "cosmos1a".to_string(),
            name: "A".to_string(),
            photo: "a.png".to_string(),
        }),
        content: format!("post {}", id),
        parent_post: String::new(),
        repost_parent: None,
        like_count: 0,
        repost_count: 0,
        comments_count: 0,
    }
}

#[test]
fn scroll_bottom_detection() {
    assert!(at_bottom(100, 500, 600));
    assert!(at_bottom(101, 500, 600));
    assert!(!at_bottom(99, 500, 600));
    assert!(at_bottom(0, 0, 0));
}

#[test]
fn feed_advances_only_on_posts() {
    let mut state = PageState::new();
    assert_eq!(state.page, 1);
    assert_eq!(state.next_page(), 2);
    assert_eq!(state.load(&vec![]), None);
    assert_eq!(state.page, 1);
    let batch = vec![post("1"), post("2")];
    let html = state.load(&batch).unwrap();
    assert_eq!(html, format!("{}{}", render_post(&post("1"), false), render_post(&post("2"), false)));
    assert_eq!(state.page, 2);
    assert_eq!(state.next_page(), 3);
    assert!(state.load(&vec![post("3")]).is_some());
    assert_eq!(state.page, 3);
    assert_eq!(state.load(&vec![]), None);
    assert_eq!(state.page, 3);
}

#[test]
fn last_sync_defaults_to_zero() {
    assert_eq!(Store.last_lc_sync_from(None), 0);
    assert_eq!(Store.last_lc_sync_from(Some(1234)), 1234);
}

#[test]
fn should_verify_is_read_once() {
    assert_eq!(Store.should_verify_from(None), (true, None));
    assert_eq!(Store.should_verify_from(Some(false)), (false, Some(true)));
    assert_eq!(Store.should_verify_from(Some(true)), (true, Some(true)));
    // after a stored `false` was read, the next answer is to verify
    let (_, written) = Store.should_verify_from(Some(false));
    assert_eq!(Store.should_verify_from(written), (true, Some(true)));
}

#[test]
fn storage_keys() {
    assert_eq!(APP_DATA, "app_data");
    assert_eq!(SHOULD_VERIFY, "should_verify");
    assert_eq!(PEER_ID, "peer_id");
    assert_eq!(LAST_LC_SYNC, "last_lc_sync");
}

#[test]
fn peer_id_parsing() {
    let lower = "a1b2c3d4e5f60718293a4b5c6d7e8f9012345678";
    let upper = "A1B2C3D4E5F60718293A4B5C6D7E8F9012345678";
    let id = Store.peer_id_from(lower).unwrap();
    assert_eq!(
        id.bytes(),
        &vec![0xa1, 0xb2, 0xc3, 0xd4, 0xe5, 0xf6, 0x07, 0x18, 0x29, 0x3a, 0x4b, 0x5c, 0x6d, 0x7e, 0x8f, 0x90, 0x12, 0x34, 0x56, 0x78]
    );
    assert_eq!(id.peer_id().to_string(), lower);
    assert_eq!(Store.peer_id_from(upper).unwrap().bytes(), id.bytes());
    assert_eq!(Store.peer_id_from(upper).unwrap().peer_id().to_string(), lower);
    // the same id as tendermint reads from the text
    let theirs: tendermint::node::Id = lower.parse().unwrap();
    assert_eq!(id.peer_id(), theirs);
    let zeros = "0000000000000000000000000000000000000000";
    assert_eq!(Store.peer_id_from(zeros).unwrap().bytes(), &vec![0u8; 20]);
    assert_ne!(Store.peer_id_from(zeros).unwrap().peer_id(), theirs);
    // mixed case, wrong length, or non-hex text is refused
    assert_eq!(Store.peer_id_from("a1b2c3d4e5f60718293a4b5c6d7e8f901234567").err(), Some(PeerIdError::Malformed));
    assert_eq!(Store.peer_id_from("a1b2c3d4e5f60718293a4b5c6d7e8f90123456789").err(), Some(PeerIdError::Malformed));
    assert_eq!(Store.peer_id_from("a1B2c3d4e5f60718293a4b5c6d7e8f9012345678").err(), Some(PeerIdError::Malformed));
    assert_eq!(Store.peer_id_from("a1b2").err(), Some(PeerIdError::Malformed));
    assert_eq!(Store.peer_id_from("g1b2c3d4e5f60718293a4b5c6d7e8f9012345678").err(), Some(PeerIdError::Malformed));
    assert_eq!(Store.peer_id_from("").err(), Some(PeerIdError::Malformed));
}

#[test]
fn rpc_addresses() {
    let base = "https://tendermint.blawgd.com:443";
    assert_eq!(block_url(base, 0), "https://tendermint.blawgd.com:443/block");
    assert_eq!(block_url(base, 17), "https://tendermint.blawgd.com:443/block?height=17");
    assert_eq!(commit_url(base, 0), "https://tendermint.blawgd.com:443/commit");
    assert_eq!(commit_url(base, 5), "https://tendermint.blawgd.com:443/commit?height=5");
    assert_eq!(validators_url(base, 0), "https://tendermint.blawgd.com:443/validators?height=0");
    let (a, b) = validator_set_urls(base, 9);
    assert_eq!(a, "https://tendermint.blawgd.com:443/validators?height=9");
    assert_eq!(b, "https://tendermint.blawgd.com:443/validators?height=10");
    assert_eq!(
        evidence_url(base, "{}"),
        "https://tendermint.blawgd.com:443/broadcast_evidence?evidence={}"
    );
    assert_eq!(height_to_fetch(None), 0);
    assert_eq!(height_to_fetch(Some(8)), 8);
    assert_eq!(synced_message(12), "[info] synced to block 12");
    assert_eq!(sync_failed_message("boom"), "[error] sync failed: boom");
}

#[test]
fn home_page_for_visitor_and_member() {
    let visitor = home_page(Html::new("<nav/>".to_string()), false, vec![post("1")]);
    let html = visitor.to_html();
    assert!(!html.contains("post-creator"));
    assert!(html.contains(&render_post(&post("1"), false)));
    let member = home_page(Html::new("<nav/>".to_string()), true, vec![]);
    assert!(member.to_html().contains(r#"<div id="post-creator-button" class="post-creator-button-post">
                    Post"#));
    let timeline = timeline_page(Html::new("<nav/>".to_string()), true, vec![post("2")]);
    assert!(timeline.to_html().contains("post 2"));
}

#[test]
fn post_page_focuses_the_post_and_offers_reply() {
    let page = post_page(Html::new("<nav/>".to_string()), post("5"), true, vec![post("6")]);
    let html = page.to_html();
    assert!(html.contains(&render_post(&post("5"), true)));
    assert!(html.contains(&render_post(&post("6"), false)));
    assert!(html.contains("Reply"));
    let visitor = post_page(Html::new("<nav/>".to_string()), post("5"), false, vec![]);
    assert!(!visitor.to_html().contains("Reply"));
}

#[test]
fn profile_buttons() {
    let f = vec!["cosmos1b".to_string()];
    assert!(profile_button(None, "cosmos1b", &f).is_none());
    assert!(matches!(profile_button(Some("cosmos1a"), "cosmos1a", &f), Some(ButtonType::Edit)));
    assert!(matches!(profile_button(Some("cosmos1a"), "cosmos1b", &f), Some(ButtonType::Unfollow)));
    assert!(matches!(profile_button(Some("cosmos1a"), "cosmos1c", &f), Some(ButtonType::Follow)));
    assert!(!profile_needs_followings(None, "x"));
    assert!(!profile_needs_followings(Some("x"), "x"));
    assert!(profile_needs_followings(Some("x"), "y"));
}

#[test]
fn scrolled_batch_renders_like_the_page() {
    let posts = vec![post("1"), post("2")];
    let page = home_page(Html::new("".to_string()), false, vec![post("1"), post("2")]);
    let mut state = PageState::new();
    let batch = state.load(&posts).unwrap();
    assert!(page.to_html().contains(&batch));
}

#[test]
fn new_phrase_has_24_words() {
    for _ in 0..5 {
        let phrase = new_account_phrase();
        let words: Vec<&str> = phrase.split(' ').collect();
        assert_eq!(words.len(), 24);
        assert!(words.iter().all(|w| !w.is_empty() && w.chars().all(|c| c.is_ascii_lowercase())));
    }
}

#[test]
fn light_client_trusts_store_first() {
    assert_eq!(trust_source(true), TrustSource::Store);
    assert_eq!(trust_source(false), TrustSource::LatestBlock);
}

#[test]
fn renderable_posts() {
    let mut no_author = post("1");
    no_author.creator = None;
    assert!(!is_renderable(&no_author));
    assert!(is_renderable(&post("2")));
    let mut repost = post("3");
    let mut inner = post("4");
    inner.creator = None;
    repost.repost_parent = Some(Box::new(inner));
    assert!(!is_renderable(&repost));
    assert!(all_renderable(&vec![post("5"), post("6")]));
    assert!(!all_renderable(&vec![post("5"), no_author]));
    assert!(all_renderable(&vec![]));
}

#[test]
fn page_counts_appending_loads() {
    let mut state = PageState::new();
    let sizes = [0usize, 2, 0, 1, 3, 0];
    let mut appending = 0;
    for n in sizes {
        let batch: Vec<PostView> = (0..n).map(|i| post(&i.to_string())).collect();
        state.load(&batch);
        if n > 0 {
            appending += 1;
        }
        assert_eq!(state.page, 1 + appending);
    }
}

#[test]
fn new_phrase_is_english_mnemonic() {
    for _ in 0..5 {
        let phrase = new_account_phrase();
        assert!(is_valid_phrase(phrase.as_str()));
        assert!(bip39::Mnemonic::validate(phrase.as_str(), bip39::Language::English).is_ok());
    }
}

#[test]
fn phrase_validity() {
    let about = "abandon abandon abandon abandon abandon abandon abandon abandon abandon abandon abandon about";
    assert!(is_valid_phrase(about));
    assert!(is_valid_phrase("crop cash unable insane eight faith inflict route frame loud box vibrant"));
    // the checksum of twelve "abandon" does not hold
    let abandon = vec!["abandon"; 12].join(" ");
    assert!(!is_valid_phrase(abandon.as_str()));
    let letters = vec!["a"; 24].join(" ");
    assert!(!is_valid_phrase(letters.as_str()));
    assert!(!is_valid_phrase("crop cash unable"));
    assert!(!is_valid_phrase(""));
}

#[test]
fn validator_sets_of_the_header_height() {
    let base = "http://localhost:26657";
    let (a, b) = header_validator_set_urls(base, 41).unwrap();
    assert_eq!(a, "http://localhost:26657/validators?height=41");
    assert_eq!(b, "http://localhost:26657/validators?height=42");
    assert!(header_validator_set_urls(base, u64::MAX).is_none());
    let (a, b) = header_validator_set_urls(base, u64::MAX - 1).unwrap();
    assert_eq!(a, format!("{}/validators?height={}", base, u64::MAX - 1));
    assert_eq!(b, format!("{}/validators?height={}", base, u64::MAX));
}

#[test]
fn pages_are_built_from_posts_without_authors() {
    let authorless = |id: &str| {
        let mut p = post(id);
        p.creator = None;
        p
    };
    assert!(!is_renderable(&authorless("1")));
    let c = PostComponent::new(authorless("1"));
    drop(c);
    let home = home_page(Html::new(String::new()), true, vec![post("2"), authorless("1")]);
    drop(home);
    let page = post_page(Html::new(String::new()), authorless("1"), false, vec![post("3")]);
    drop(page);
}
