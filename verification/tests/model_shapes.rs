use voice_sessions::models::{
    quote_url, ContentProvider, Definition, Example, QuoteChoice, Response, VoiceHttpKey,
};

#[test]
fn quote_choice_selects_its_endpoint() {
    assert_eq!(quote_url(QuoteChoice::Today), "https://zenquotes.io/api/today");
    assert_eq!(quote_url(QuoteChoice::Random), "https://zenquotes.io/api/random");
}

#[test]
fn word_models_carry_their_values() {
    let response = Response {
        id: "abc123".to_string(),
        word: "sesquipedalian".to_string(),
        content_provider: ContentProvider { name: "dictionary".to_string(), id: 5 },
        definitions: vec![Definition {
            source: "dictionary".to_string(),
            text: "given to using long words".to_string(),
            note: None,
            part_of_speech: "adjective".to_string(),
        }],
        publish_date: "2024-01-01".to_string(),
        examples: vec![Example {
            url: "https://example.test/usage".to_string(),
            title: "usage".to_string(),
            text: "a sesquipedalian lecture".to_string(),
            id: Some(1),
        }],
        pdd: "2024-01-01".to_string(),
        html_extra: None,
        note: "rarely heard in speech".to_string(),
    };

    assert_eq!(response.word, "sesquipedalian");
    assert_eq!(response.definitions[0].part_of_speech, "adjective");
    assert_eq!(response.examples[0].text, "a sesquipedalian lecture");
    assert_eq!(response.note, "rarely heard in speech");

    let _key = VoiceHttpKey;
}
