//! The box in which a signed-in user writes a post or a reply.
use vstd::prelude::*;
use vstd::string::*;

use crate::component::Component;

verus! {

pub const CREATOR_0: &'static str = "\n        <div class=\"post-creator\">\n            <textarea id=\"post-creator-input\" class=\"post-creator-input\"></textarea>\n            <div class=\"post-creator-buttons\">\n                <div id=\"post-creator-button\" class=\"post-creator-button-post\">\n                    ";
pub const CREATOR_1: &'static str = "\n                </div>\n            </div>\n        </div>";
pub const DEFAULT_BUTTON_TEXT: &'static str = "Post";

/// The markup of a post creator whose button reads `button_text`.
pub open spec fn post_creator_html(button_text: Seq<char>) -> Seq<char> {
    CREATOR_0@ + button_text + CREATOR_1@
}

/// Writes a post that answers `parent_post` (a top-level post where it is empty).
pub struct PostCreator {
    button_text: String,
    parent_post: String,
}

impl PostCreator {
    pub closed spec fn button_text_view(&self) -> Seq<char> {
        self.button_text@
    }

    pub closed spec fn parent_post_view(&self) -> Seq<char> {
        self.parent_post@
    }

    pub fn new(parent_post: String) -> (r: Box<PostCreator>)
        ensures
            r.parent_post_view() == parent_post@,
            r.button_text_view() == DEFAULT_BUTTON_TEXT@,
    {
        Box::new(PostCreator { parent_post, button_text: String::from_str(DEFAULT_BUTTON_TEXT) })
    }

    pub fn set_button_text(&mut self, text: &str)
        ensures
            final(self).button_text_view() == text@,
            final(self).parent_post_view() == old(self).parent_post_view(),
    {
        self.button_text = String::from_str(text);
    }

    /// The post that a post written here answers.
    pub fn parent_post(&self) -> (r: &String)
        ensures
            r@ == self.parent_post_view(),
    {
        &self.parent_post
    }
}

impl Component for PostCreator {
    open spec fn html(&self) -> Seq<char> {
        post_creator_html(self.button_text_view())
    }

    open spec fn renders(&self) -> bool {
        true
    }

    fn to_html(&self) -> (r: String) {
        let mut out = String::from_str(CREATOR_0);
        out.append(self.button_text.as_str());
        out.append(CREATOR_1);
        assert(out@ =~= post_creator_html(self.button_text_view()));
        out
    }
}

} // verus!
