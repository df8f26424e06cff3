//! Plain data shapes exchanged with the stateless command collaborators: the
//! word-of-the-day lookup's response and the quote lookup's choice.  The HTTP
//! calls that fill or consume them stay outside the library; only the values
//! and the decisions taken on them live here.

use vstd::prelude::*;

verus! {

/// Marker under which the front-end stores the HTTP client that the media
/// resolver uses.  The library only names the slot; the client itself lives
/// outside.
pub struct VoiceHttpKey;

/// Which quote the quote command asks its collaborator for.
#[derive(Clone, Copy, Debug, PartialEq, Eq, Structural)]
pub enum QuoteChoice {
    Today,
    Random,
}

/// The endpoint a quote choice selects.
pub fn quote_url(choice: QuoteChoice) -> (r: &'static str)
    ensures
        choice is Today ==> r@ == "https://zenquotes.io/api/today"@,
        choice is Random ==> r@ == "https://zenquotes.io/api/random"@,
{
    match choice {
        QuoteChoice::Today => "https://zenquotes.io/api/today",
        QuoteChoice::Random => "https://zenquotes.io/api/random",
    }
}

/// A word-of-the-day response: the word, its definitions, usage examples and
/// an editorial note, with the provider's bookkeeping fields.
pub struct Response {
    pub id: String,
    pub word: String,
    pub content_provider: ContentProvider,
    pub definitions: Vec<Definition>,
    pub publish_date: String,
    pub examples: Vec<Example>,
    pub pdd: String,
    pub html_extra: Option<String>,
    pub note: String,
}

/// Who supplied a word-of-the-day entry.
pub struct ContentProvider {
    pub name: String,
    pub id: u32,
}

/// One definition of the word.
pub struct Definition {
    pub source: String,
    pub text: String,
    pub note: Option<String>,
    pub part_of_speech: String,
}

/// One example of the word's usage.
pub struct Example {
    pub url: String,
    pub title: String,
    pub text: String,
    pub id: Option<u32>,
}

} // verus!
