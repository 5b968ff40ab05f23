//! Crawl decisions and field extraction for a paginated classifieds listing.
//!
//! A crawl walks the pages of a search, visits every advertisement they
//! list, and gathers one record per advertisement, in the order in which the
//! advertisements are listed. It stops before the advertisement that the
//! request names as its boundary, and it fails as a whole on the first page
//! that cannot be loaded or read.
//!
//! - [`crawl`]: the crawl as a state machine, with what holds of every crawl.
//! - [`search`]: what a page of results lists and where it leads.
//! - [`article`]: the record of one advertisement and the rules that read it.
//! - [`markup`]: the queries put to the HTML parser and selector engine.
//! - [`failure`]: the two kinds of failure and their messages.
//! - [`text`]: white space and trimming.

pub mod article;
pub mod crawl;
pub mod failure;
pub mod markup;
pub mod search;
pub mod text;
