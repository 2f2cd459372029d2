//! The decision logic of the external song search: which hit of a search
//! response is taken, and which failure is reported when it cannot be.
//!
//! The surrounding program performs the network call and reduces each raw
//! hit to a `SearchHit`; everything that is decided about the reduced hits
//! is decided here.

use vstd::prelude::*;

verus! {

/// One hit of a search response, reduced to what the lookup reads: whether
/// the hit is a song, and each wanted field where the response holds it as a
/// string.
#[derive(Debug)]
pub struct SearchHit {
    pub is_song: bool,
    pub url: Option<String>,
    pub artist_names: Option<String>,
    pub title: Option<String>,
}

/// Mathematical model of a reduced hit.
#[verifier::ext_equal]
pub struct SearchHitView {
    pub is_song: bool,
    pub url: Option<Seq<char>>,
    pub artist_names: Option<Seq<char>>,
    pub title: Option<Seq<char>>,
}

impl View for SearchHit {
    type V = SearchHitView;

    open spec fn view(&self) -> SearchHitView {
        SearchHitView {
            is_song: self.is_song,
            url: self.url.deep_view(),
            artist_names: self.artist_names.deep_view(),
            title: self.title.deep_view(),
        }
    }
}

impl DeepView for SearchHit {
    type V = SearchHitView;

    open spec fn deep_view(&self) -> SearchHitView {
        self.view()
    }
}

/// A failure of the external song lookup.
#[derive(Debug)]
pub enum ResolverError {
    /// The response carried no list of hits.
    NotFound,
    /// The transport or the request itself failed; the message says how.
    Transport(String),
    /// The response was there but a wanted field was not a string.
    Parse(String),
}

/// Mathematical model of a lookup failure.
pub enum ResolverErrorView {
    NotFound,
    Transport(Seq<char>),
    Parse(Seq<char>),
}

impl View for ResolverError {
    type V = ResolverErrorView;

    open spec fn view(&self) -> ResolverErrorView {
        match self {
            ResolverError::NotFound => ResolverErrorView::NotFound,
            ResolverError::Transport(m) => ResolverErrorView::Transport(m@),
            ResolverError::Parse(m) => ResolverErrorView::Parse(m@),
        }
    }
}

/// The user-facing message of a lookup failure.
pub open spec fn spec_resolver_message(e: ResolverErrorView) -> Seq<char> {
    match e {
        ResolverErrorView::NotFound => "Song not found"@,
        ResolverErrorView::Transport(m) => m,
        ResolverErrorView::Parse(m) => m,
    }
}

impl ResolverError {
    pub fn message(&self) -> (r: String)
        ensures
            r@ == spec_resolver_message(self@),
    {
        match self {
            ResolverError::NotFound => "Song not found".to_owned(),
            ResolverError::Transport(m) => m.clone(),
            ResolverError::Parse(m) => m.clone(),
        }
    }
}

/// What selecting song details from a response means.  A response without a
/// hit list is a failed search.  Only the first hit is read: when it is a
/// song, all three fields must be strings, the url checked first, then the
/// artist names, then the title; a missing one is a parse failure.  An empty
/// hit list, or a first hit that is no song, yields empty details.
pub open spec fn spec_select_song_details(hits: Option<Seq<SearchHitView>>) -> Result<
    (Seq<char>, Seq<char>, Seq<char>),
    ResolverErrorView,
> {
    match hits {
        None => Err(ResolverErrorView::NotFound),
        Some(list) => {
            if list.len() == 0 {
                Ok((Seq::<char>::empty(), Seq::<char>::empty(), Seq::<char>::empty()))
            } else {
                let hit = list[0];
                if hit.is_song {
                    match hit.url {
                        None => Err(ResolverErrorView::Parse("Failed to parse url to string"@)),
                        Some(url) => match hit.artist_names {
                            None => Err(
                                ResolverErrorView::Parse(
                                    "Failed to parse artist_names to string"@,
                                ),
                            ),
                            Some(author) => match hit.title {
                                None => Err(
                                    ResolverErrorView::Parse("Failed to parse title to string"@),
                                ),
                                Some(title) => Ok((url, author, title)),
                            },
                        },
                    }
                } else {
                    Ok((Seq::<char>::empty(), Seq::<char>::empty(), Seq::<char>::empty()))
                }
            }
        },
    }
}

/// Selects the song url, author and title from the reduced hits of a search
/// response, exactly as `spec_select_song_details` says.
pub fn select_song_details(hits: &Option<Vec<SearchHit>>) -> (r: Result<
    (String, String, String),
    ResolverError,
>)
    ensures
        (match r {
            Ok(details) => spec_select_song_details(hits.deep_view()) == Ok::<
                _,
                ResolverErrorView,
            >((details.0@, details.1@, details.2@)),
            Err(e) => spec_select_song_details(hits.deep_view()) == Err::<
                (Seq<char>, Seq<char>, Seq<char>),
                _,
            >(e@),
        }),
{
    match hits {
        None => Err(ResolverError::NotFound),
        Some(list) => {
            if list.len() == 0 {
                Ok((String::new(), String::new(), String::new()))
            } else {
                let hit = &list[0];
                if hit.is_song {
                    let url = match &hit.url {
                        Some(u) => u.clone(),
                        None => {
                            return Err(
                                ResolverError::Parse("Failed to parse url to string".to_owned()),
                            );
                        },
                    };
                    let author = match &hit.artist_names {
                        Some(a) => a.clone(),
                        None => {
                            return Err(
                                ResolverError::Parse(
                                    "Failed to parse artist_names to string".to_owned(),
                                ),
                            );
                        },
                    };
                    let title = match &hit.title {
                        Some(t) => t.clone(),
                        None => {
                            return Err(
                                ResolverError::Parse("Failed to parse title to string".to_owned()),
                            );
                        },
                    };
                    Ok((url, author, title))
                } else {
                    Ok((String::new(), String::new(), String::new()))
                }
            }
        },
    }
}

} // verus!
