//! Track descriptors: the user-supplied source of a queued track and the
//! metadata that the media resolver fills in later, asynchronously.

use vstd::prelude::*;
use vstd::string::StrSliceExecFns;

verus! {

/// How a user-supplied source string is handed to the media resolver:
/// as a direct URL or as a search query.
#[derive(Clone, Copy, Debug, PartialEq, Eq, Structural)]
pub enum SourceKind {
    Url,
    Search,
}

/// One playable item.  `source` is the raw user input; the remaining fields
/// start empty and are filled in exactly once when the media resolver
/// reports back.
pub struct TrackDescriptor {
    pub source: String,
    pub resolved_title: Option<String>,
    pub resolved_url: Option<String>,
    pub duration_secs: Option<u64>,
    pub thumbnail: Option<String>,
}

/// Mathematical model of a `TrackDescriptor`.
#[verifier::ext_equal]
pub struct TrackModel {
    pub source: Seq<char>,
    pub title: Option<Seq<char>>,
    pub url: Option<Seq<char>>,
    pub duration_secs: Option<u64>,
    pub thumbnail: Option<Seq<char>>,
}

impl View for TrackDescriptor {
    type V = TrackModel;

    open spec fn view(&self) -> TrackModel {
        TrackModel {
            source: self.source@,
            title: match self.resolved_title {
                Some(t) => Some(t@),
                None => None,
            },
            url: match self.resolved_url {
                Some(u) => Some(u@),
                None => None,
            },
            duration_secs: self.duration_secs,
            thumbnail: match self.thumbnail {
                Some(t) => Some(t@),
                None => None,
            },
        }
    }
}

/// What the media resolver reports for one source.  Every field is optional:
/// the resolver may know only part of the metadata.
pub struct ResolvedMetadata {
    pub title: Option<String>,
    pub source_url: Option<String>,
    pub duration_secs: Option<u64>,
    pub thumbnail: Option<String>,
}

/// Mathematical model of a `ResolvedMetadata`.
#[verifier::ext_equal]
pub struct MetadataModel {
    pub title: Option<Seq<char>>,
    pub source_url: Option<Seq<char>>,
    pub duration_secs: Option<u64>,
    pub thumbnail: Option<Seq<char>>,
}

impl View for ResolvedMetadata {
    type V = MetadataModel;

    open spec fn view(&self) -> MetadataModel {
        MetadataModel {
            title: match self.title {
                Some(t) => Some(t@),
                None => None,
            },
            source_url: match self.source_url {
                Some(u) => Some(u@),
                None => None,
            },
            duration_secs: self.duration_secs,
            thumbnail: match self.thumbnail {
                Some(t) => Some(t@),
                None => None,
            },
        }
    }
}

/// Model of a resolution outcome: `None` when the resolver failed.
pub open spec fn outcome_model(outcome: Option<ResolvedMetadata>) -> Option<MetadataModel> {
    match outcome {
        Some(md) => Some(md@),
        None => None,
    }
}

/// Display title used when resolution failed or reported no title.
pub open spec fn fallback_title() -> Seq<char> {
    "Title"@
}

/// Display URL used when resolution failed or reported no URL.
pub open spec fn fallback_url() -> Seq<char> {
    "https://en.wikipedia.org/wiki/HTTP_404"@
}

/// A track is resolved once a display title has been written into it;
/// resolution happens at most once per track.
pub open spec fn is_resolved(t: TrackModel) -> bool {
    t.title is Some
}

/// A freshly enqueued track: only the source is known.
pub open spec fn fresh_track(source: Seq<char>) -> TrackModel {
    TrackModel { source, title: None, url: None, duration_secs: None, thumbnail: None }
}

/// How a resolution outcome lands in a track.  A failed resolution falls
/// back to the fixed display values rather than failing the enqueue; a track
/// that is already resolved is never written again.
pub open spec fn resolve_track(t: TrackModel, outcome: Option<MetadataModel>) -> TrackModel {
    if is_resolved(t) {
        t
    } else {
        match outcome {
            Some(md) => TrackModel {
                title: Some(
                    match md.title {
                        Some(s) => s,
                        None => fallback_title(),
                    },
                ),
                url: Some(
                    match md.source_url {
                        Some(s) => s,
                        None => fallback_url(),
                    },
                ),
                duration_secs: md.duration_secs,
                thumbnail: md.thumbnail,
                ..t
            },
            None => TrackModel { title: Some(fallback_title()), url: Some(fallback_url()), ..t },
        }
    }
}

/// Title shown to users: the resolved title, or the raw source while
/// resolution is still pending.
pub open spec fn display_title(t: TrackModel) -> Seq<char> {
    match t.title {
        Some(s) => s,
        None => t.source,
    }
}

/// URL shown to users: the resolved URL, or the fixed placeholder while
/// resolution is still pending.
pub open spec fn display_url(t: TrackModel) -> Seq<char> {
    match t.url {
        Some(s) => s,
        None => fallback_url(),
    }
}

/// A source is treated as a direct URL exactly when it starts with "http".
pub open spec fn source_kind_of(s: Seq<char>) -> SourceKind {
    if s.len() >= 4 && s[0] == 'h' && s[1] == 't' && s[2] == 't' && s[3] == 'p' {
        SourceKind::Url
    } else {
        SourceKind::Search
    }
}

impl TrackDescriptor {
    /// A new descriptor with resolver fields still empty.
    pub fn new(source: String) -> (t: Self)
        ensures
            t@ == fresh_track(source@),
    {
        TrackDescriptor {
            source,
            resolved_title: None,
            resolved_url: None,
            duration_secs: None,
            thumbnail: None,
        }
    }

    /// Writes a resolution outcome into the descriptor, once.  `None` means
    /// the resolver failed; the fixed fallback display values are used then.
    pub fn apply_resolution(&mut self, outcome: Option<ResolvedMetadata>)
        ensures
            final(self)@ == resolve_track(old(self)@, outcome_model(outcome)),
    {
        if self.resolved_title.is_none() {
            match outcome {
                Some(md) => {
                    self.resolved_title = Some(
                        match md.title {
                            Some(t) => t,
                            None => "Title".to_owned(),
                        },
                    );
                    self.resolved_url = Some(
                        match md.source_url {
                            Some(u) => u,
                            None => "https://en.wikipedia.org/wiki/HTTP_404".to_owned(),
                        },
                    );
                    self.duration_secs = md.duration_secs;
                    self.thumbnail = md.thumbnail;
                },
                None => {
                    self.resolved_title = Some("Title".to_owned());
                    self.resolved_url = Some("https://en.wikipedia.org/wiki/HTTP_404".to_owned());
                },
            }
        }
    }
}

/// Decides whether a source string is a direct URL or a search query.
pub fn classify_source(source: &str) -> (k: SourceKind)
    ensures
        k == source_kind_of(source@),
{
    let n = source.unicode_len();
    if n >= 4 && source.get_char(0) == 'h' && source.get_char(1) == 't' && source.get_char(2)
        == 't' && source.get_char(3) == 'p' {
        SourceKind::Url
    } else {
        SourceKind::Search
    }
}

/// Splits a duration in seconds into the minute and second counters shown
/// beside a track (minutes wrap at an hour, as on a clock face).
pub fn duration_parts(total_secs: u64) -> (r: (u64, u64))
    ensures
        r.0 == total_secs / 60 % 60,
        r.1 == total_secs % 60,
{
    (total_secs / 60 % 60, total_secs % 60)
}

} // verus!
