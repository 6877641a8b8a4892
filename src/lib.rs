//! Feed refurbishment: every item of an RSS feed that links to an article gets, as its
//! description, the parts of that article that a CSS selector picks out.

pub mod extract;
pub mod feed;
pub mod laws;
