//! The extracted-content record of the media-discovery workflow: one
//! catalog entry, as the content-extraction collaborator reports it. The
//! listing written after the extraction step is a JSON array of these
//! records; producing and persisting that artifact is the driver's work,
//! the record itself is the engine's.

use vstd::prelude::*;

verus! {

/// One catalog entry: a title and whatever secondary fields the page
/// offered for it.
#[derive(Debug, Clone, PartialEq, Eq)]
pub struct MovieInfo {
    pub title: String,
    pub year: Option<String>,
    pub quality: Option<String>,
    pub duration: Option<String>,
    pub poster_url: Option<String>,
}

impl MovieInfo {
    pub fn new(
        title: String,
        year: Option<String>,
        quality: Option<String>,
        duration: Option<String>,
        poster_url: Option<String>,
    ) -> (r: MovieInfo)
        ensures
            r.title == title,
            r.year == year,
            r.quality == quality,
            r.duration == duration,
            r.poster_url == poster_url,
    {
        MovieInfo { title, year, quality, duration, poster_url }
    }
}

} // verus!
