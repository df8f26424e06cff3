use voice_sessions::queue::TrackQueue;
use voice_sessions::track::{
    classify_source, duration_parts, ResolvedMetadata, SourceKind, TrackDescriptor,
};

#[test]
fn queue_keeps_fifo_order() {
    let mut q = TrackQueue::new();
    assert_eq!(q.enqueue(TrackDescriptor::new("a".to_string())), (0, 0));
    assert_eq!(q.enqueue(TrackDescriptor::new("b".to_string())), (1, 1));
    assert_eq!(q.enqueue(TrackDescriptor::new("c".to_string())), (2, 2));

    assert_eq!(q.get(0).track.source, "a");
    assert_eq!(q.get(1).track.source, "b");
    assert_eq!(q.get(2).track.source, "c");

    q.dequeue();
    assert_eq!(q.len(), 2);
    assert_eq!(q.get(0).track.source, "b");
}

#[test]
fn queue_allows_duplicate_sources() {
    let mut q = TrackQueue::new();
    q.enqueue(TrackDescriptor::new("same".to_string()));
    q.enqueue(TrackDescriptor::new("same".to_string()));
    assert_eq!(q.len(), 2);
    assert_eq!(q.get(0).track.source, q.get(1).track.source);
}

#[test]
fn queue_clear_empties_it() {
    let mut q = TrackQueue::new();
    q.enqueue(TrackDescriptor::new("a".to_string()));
    q.enqueue(TrackDescriptor::new("b".to_string()));
    q.clear();
    assert!(q.is_empty());
    assert_eq!(q.len(), 0);
}

#[test]
fn queue_never_reuses_keys() {
    let mut q = TrackQueue::new();
    q.enqueue(TrackDescriptor::new("a".to_string()));
    q.enqueue(TrackDescriptor::new("b".to_string()));
    q.dequeue();
    q.dequeue();
    let (_, key) = q.enqueue(TrackDescriptor::new("c".to_string()));
    assert_eq!(key, 2);
}

#[test]
fn queue_resolution_lands_on_the_keyed_entry() {
    let mut q = TrackQueue::new();
    let (_, key_a) = q.enqueue(TrackDescriptor::new("a".to_string()));
    let (_, key_b) = q.enqueue(TrackDescriptor::new("b".to_string()));

    let md = ResolvedMetadata {
        title: Some("B Side".to_string()),
        source_url: None,
        duration_secs: Some(60),
        thumbnail: None,
    };
    assert!(q.apply_resolution(key_b, Some(md)));

    assert!(q.get(0).track.resolved_title.is_none());
    assert_eq!(q.get(1).track.resolved_title.as_deref(), Some("B Side"));
    assert_eq!(q.get(1).track.duration_secs, Some(60));

    assert!(!q.apply_resolution(key_a + 100, None));
}

#[test]
fn classify_source_accepts_http_prefix_as_url() {
    assert_eq!(classify_source("https://youtu.be/x"), SourceKind::Url);
    assert_eq!(classify_source("http://example.test"), SourceKind::Url);
    assert_eq!(classify_source("http"), SourceKind::Url);
}

#[test]
fn classify_source_treats_everything_else_as_search() {
    assert_eq!(classify_source("htt"), SourceKind::Search);
    assert_eq!(classify_source(""), SourceKind::Search);
    assert_eq!(classify_source("never gonna give you up"), SourceKind::Search);
    assert_eq!(classify_source("xhttp"), SourceKind::Search);
}

#[test]
fn duration_parts_split_minutes_and_seconds() {
    assert_eq!(duration_parts(125), (2, 5));
    assert_eq!(duration_parts(60), (1, 0));
    assert_eq!(duration_parts(59), (0, 59));
    assert_eq!(duration_parts(3599), (59, 59));
    assert_eq!(duration_parts(3600), (0, 0));
}

#[test]
fn fresh_descriptor_has_empty_resolution_fields() {
    let t = TrackDescriptor::new("some source".to_string());
    assert_eq!(t.source, "some source");
    assert!(t.resolved_title.is_none());
    assert!(t.resolved_url.is_none());
    assert!(t.duration_secs.is_none());
    assert!(t.thumbnail.is_none());
}

#[test]
fn descriptor_resolution_failure_uses_fixed_fallbacks() {
    let mut t = TrackDescriptor::new("some source".to_string());
    t.apply_resolution(None);
    assert_eq!(t.resolved_title.as_deref(), Some("Title"));
    assert_eq!(t.resolved_url.as_deref(), Some("https://en.wikipedia.org/wiki/HTTP_404"));
    assert!(t.duration_secs.is_none());
}

#[test]
fn descriptor_resolution_success_keeps_reported_fields() {
    let mut t = TrackDescriptor::new("some source".to_string());
    let md = ResolvedMetadata {
        title: Some("A Song".to_string()),
        source_url: Some("https://example.test/a".to_string()),
        duration_secs: Some(301),
        thumbnail: Some("https://example.test/a.jpg".to_string()),
    };
    t.apply_resolution(Some(md));
    assert_eq!(t.resolved_title.as_deref(), Some("A Song"));
    assert_eq!(t.resolved_url.as_deref(), Some("https://example.test/a"));
    assert_eq!(t.duration_secs, Some(301));
    assert_eq!(t.thumbnail.as_deref(), Some("https://example.test/a.jpg"));
}
