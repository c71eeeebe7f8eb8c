//! Watches chat text for links to hosted clips and drives the download of a
//! clip: the identifier extractor and the decisions of the clip fetcher.

pub mod fetch;
pub mod foreign;
pub mod shortcode;
