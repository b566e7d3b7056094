//! Endless scrolling of a feed: when the reader reaches the bottom, the next
//! page of posts is fetched and appended below the ones shown.
use vstd::prelude::*;
use vstd::string::*;

use crate::post::{post_html, render_post, renderable, PostView};

verus! {

/// The markup of a batch of posts, one after the other.
pub open spec fn posts_html(posts: Seq<PostView>) -> Seq<char>
    decreases posts.len(),
{
    if posts.len() == 0 {
        Seq::empty()
    } else {
        posts_html(posts.drop_last()) + post_html(posts.last(), false)
    }
}

/// The last page shown after a load of `batch` posts, from `page`.
pub open spec fn load_step(page: int, batch: nat) -> int {
    if batch == 0 {
        page
    } else {
        page + 1
    }
}

/// The last page shown after loads of the given batch sizes, in order, on a
/// feed that opened on page 1.
pub open spec fn page_after(batches: Seq<nat>) -> int
    decreases batches.len(),
{
    if batches.len() == 0 {
        1
    } else {
        load_step(page_after(batches.drop_last()), batches.last())
    }
}

/// How many of the loads appended posts.
pub open spec fn appending_loads(batches: Seq<nat>) -> nat
    decreases batches.len(),
{
    if batches.len() == 0 {
        0
    } else {
        appending_loads(batches.drop_last()) + if batches.last() == 0 {
            0nat
        } else {
            1nat
        }
    }
}

/// The last page shown is always 1 plus the number of loads that appended
/// posts: empty batches never move the feed on.
pub proof fn law_page_counts_appending_loads(batches: Seq<nat>)
    ensures
        page_after(batches) == 1 + appending_loads(batches),
    decreases batches.len(),
{
    if batches.len() > 0 {
        law_page_counts_appending_loads(batches.drop_last());
    }
}

/// Whether the reader has scrolled to the bottom of the document: the top of
/// the view plus its height reaches the height of the document.
pub fn at_bottom(scroll_top: i32, client_height: i32, scroll_height: i32) -> (r: bool)
    requires
        i32::MIN <= scroll_top + client_height <= i32::MAX,
    ensures
        r == (scroll_top + client_height >= scroll_height),
{
    scroll_top + client_height >= scroll_height
}

/// The last page of a feed that is shown; pages count from 1.
pub struct PageState {
    pub page: u64,
}

impl PageState {
    /// A feed shows its first page when it opens.
    pub fn new() -> (r: PageState)
        ensures
            r.page == 1,
    {
        PageState { page: 1 }
    }

    /// The page to fetch when the reader reaches the bottom.
    pub fn next_page(&self) -> (r: u64)
        requires
            self.page < u64::MAX,
        ensures
            r == self.page + 1,
    {
        self.page + 1
    }

    /// Takes the posts fetched for `next_page`. An empty batch means the feed
    /// has ended: nothing is appended and the state stays. Otherwise the
    /// markup to append below the shown posts is returned and that page
    /// becomes the last one shown.
    pub fn load(&mut self, posts: &Vec<PostView>) -> (r: Option<String>)
        requires
            old(self).page < u64::MAX,
            forall|i: int| 0 <= i < posts@.len() ==> renderable(#[trigger] posts@[i]),
        ensures
            posts@.len() == 0 ==> r is None && final(self).page == old(self).page,
            posts@.len() > 0 ==> (r matches Some(h) && h@ == posts_html(posts@)),
            posts@.len() > 0 ==> final(self).page == old(self).page + 1,
            final(self).page == load_step(old(self).page as int, posts@.len()),
    {
        if posts.len() == 0 {
            return None;
        }
        let mut out = String::new();
        let mut i: usize = 0;
        while i < posts.len()
            invariant
                i <= posts@.len(),
                forall|j: int| 0 <= j < posts@.len() ==> renderable(#[trigger] posts@[j]),
                out@ == posts_html(posts@.subrange(0, i as int)),
            decreases posts@.len() - i,
        {
            let h = render_post(&posts[i], false);
            out.append(h.as_str());
            assert(posts@.subrange(0, i + 1).drop_last() =~= posts@.subrange(0, i as int));
            i = i + 1;
        }
        assert(posts@.subrange(0, i as int) =~= posts@);
        self.page = self.page + 1;
        Some(out)
    }
}

} // verus!
