//! The verified core of the Blawgd web client: endpoints, routing, page
//! rendering, feed paging and the counters that the pages keep.
use vstd::prelude::*;

pub mod builder;
pub mod component;
pub mod feed;
pub mod host;
pub mod pages;
pub mod post_creator;
pub mod router;
pub mod rpc;
pub mod storage;
pub mod post;
pub mod text;
pub mod util;
pub mod wallet;

verus! {

} // verus!
