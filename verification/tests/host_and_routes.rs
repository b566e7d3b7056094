use blawgd::host::Host;
use blawgd::router::{post_id_of, route, Route, RouteError};
use blawgd::util::{faucet_request_url, follows, follow_toggle_msg_type, MSG_TYPE_FOLLOW, MSG_TYPE_STOP_FOLLOW};
use blawgd::pages::ButtonType;

fn host() -> Host {
    Host::new("https:".to_string(), "blawgd.com".to_string(), "443".to_string())
}

#[test]
fn endpoints_follow_the_page_address() {
    let h = host();
    assert_eq!(h.endpoint(), "https://blawgd.com:443");
    assert_eq!(h.tendermint_endpoint(), "https://tendermint.blawgd.com:443");
    assert_eq!(h.grpc_endpoint(), "https://grpc.blawgd.com:443");
    assert_eq!(h.faucet_endpoint(), "https://faucet.blawgd.com:443");
}

#[test]
fn endpoints_match_the_format_strings() {
    let (p, a, port) = ("http:", "localhost", "8080");
    let h = Host::new(p.to_string(), a.to_string(), port.to_string());
    assert_eq!(h.endpoint(), format!("{}//{}:{}", p, a, port));
    assert_eq!(h.tendermint_endpoint(), format!("{}//tendermint.{}:{}", p, a, port));
    assert_eq!(h.grpc_endpoint(), format!("{}//grpc.{}:{}", p, a, port));
    assert_eq!(h.faucet_endpoint(), format!("{}//faucet.{}:{}", p, a, port));
}

#[test]
fn service_endpoint_is_the_prefixed_host() {
    let h = host();
    let g = Host::new("https:".to_string(), "grpc.blawgd.com".to_string(), "443".to_string());
    assert_eq!(h.grpc_endpoint(), g.endpoint());
    let t = Host::new("https:".to_string(), "tendermint.blawgd.com".to_string(), "443".to_string());
    assert_eq!(h.tendermint_endpoint(), t.endpoint());
}

#[test]
fn empty_port_keeps_the_colon() {
    let h = Host::new("http:".to_string(), "x".to_string(), "".to_string());
    assert_eq!(h.endpoint(), "http://x:");
}

#[test]
fn routes_by_first_word_of_path() {
    let h = host();
    assert_eq!(route(&h, "https://blawgd.com:443/login"), Ok(Route::Login));
    assert_eq!(route(&h, "https://blawgd.com:443/loginx/y"), Ok(Route::Login));
    assert_eq!(route(&h, "https://blawgd.com:443/edit-profile"), Ok(Route::EditProfile));
    assert_eq!(route(&h, "https://blawgd.com:443/followings/abc"), Ok(Route::Followings));
    assert_eq!(route(&h, "https://blawgd.com:443/"), Ok(Route::Home));
    assert_eq!(route(&h, "https://blawgd.com:443/post/12"), Ok(Route::Home));
    assert_eq!(route(&h, "https://blawgd.com:443/Login"), Ok(Route::Home));
}

#[test]
fn foreign_address_is_refused() {
    let h = host();
    assert_eq!(route(&h, "https://blawgd.com:443"), Err(RouteError::ForeignUrl));
    assert_eq!(route(&h, "https://evil.com:443/login"), Err(RouteError::ForeignUrl));
    assert_eq!(route(&h, ""), Err(RouteError::ForeignUrl));
}

#[test]
fn every_own_address_is_routed() {
    let h = host();
    for path in ["", "a", "login", "followings", "edit-profile/x", "ü/é"] {
        let url = format!("{}/{}", h.endpoint(), path);
        assert!(route(&h, &url).is_ok());
    }
}

#[test]
fn post_address_gives_back_the_id() {
    let h = host();
    assert_eq!(post_id_of(&h, "https://blawgd.com:443/post/42"), Some("42".to_string()));
    assert_eq!(post_id_of(&h, "https://blawgd.com:443/post/"), Some("".to_string()));
    assert_eq!(post_id_of(&h, "https://blawgd.com:443/profile/42"), None);
    let url = format!("{}/post/{}", h.endpoint(), "a-b-c");
    assert_eq!(post_id_of(&h, &url), Some("a-b-c".to_string()));
}

#[test]
fn following_lookup() {
    let f = vec!["cosmos1a".to_string(), "cosmos1b".to_string()];
    assert!(follows(&f, "cosmos1b"));
    assert!(!follows(&f, "cosmos1"));
    assert!(!follows(&f, "cosmos1bb"));
    assert!(!follows(&vec![], "cosmos1a"));
}

#[test]
fn faucet_request() {
    assert_eq!(
        faucet_request_url(&host(), "cosmos1xyz"),
        "https://faucet.blawgd.com:443/?address=cosmos1xyz"
    );
}

#[test]
fn follow_toggle_sends_follow_or_stop() {
    assert_eq!(follow_toggle_msg_type(ButtonType::Follow), MSG_TYPE_FOLLOW);
    assert_eq!(follow_toggle_msg_type(ButtonType::Unfollow), MSG_TYPE_STOP_FOLLOW);
    assert_eq!(follow_toggle_msg_type(ButtonType::Edit), MSG_TYPE_STOP_FOLLOW);
    assert_eq!(MSG_TYPE_FOLLOW, "/blawgd.MsgFollow");
}
