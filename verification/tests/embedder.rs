use cel_memory::embedder::{Embedder, EmbedderError, MockEmbedder};
use cel_memory::MemoryError;

#[test]
fn mock_embedder_deterministic() {
    let e = MockEmbedder::new();
    let a = e.embed("hello").unwrap();
    let b = e.embed("hello").unwrap();
    assert_eq!(a, b);
    assert_eq!(a.len(), 384);
}

#[test]
fn mock_embedder_different_for_different_input() {
    let e = MockEmbedder::new();
    let a = e.embed("hello").unwrap();
    let b = e.embed("world").unwrap();
    assert_ne!(a, b);
}

#[test]
fn mock_embedder_with_dim_honors_dim() {
    let e = MockEmbedder::with_dim(8);
    let v = e.embed("hi").unwrap();
    assert_eq!(v.len(), 8);
    assert_eq!(e.dim(), 8);
}

#[test]
fn batch_default_works() {
    let e = MockEmbedder::new();
    let v = e.embed_batch(&["a".to_string(), "b".to_string()]).unwrap();
    assert_eq!(v.len(), 2);
    assert_eq!(v[0].len(), 384);
}

#[test]
fn mock_vectors_have_these_components() {
    let e = MockEmbedder::with_dim(8);
    assert_eq!(
        e.embed("hi").unwrap(),
        vec![
            -1843719007,
            -242384818,
            -53477330,
            -1923388187,
            -1260460186,
            -1226917024,
            1753269696,
            590972207
        ]
    );
    let e = MockEmbedder::with_dim(4);
    assert_eq!(
        e.embed("").unwrap(),
        vec![-1855977008, -803490449, 29178592, -1417769819]
    );
    let e = MockEmbedder::with_dim(3);
    assert_eq!(
        e.embed("\u{e9}").unwrap(),
        vec![-535017860, -1665026931, -581494781]
    );
}

#[test]
fn mock_windows_start_over_after_thirty_two_components() {
    let e = MockEmbedder::with_dim(34);
    let v = e.embed("hi").unwrap();
    assert_eq!(v[32], -479807039);
    assert_eq!(v[33], 670626718);
}

#[test]
fn mock_models_are_named_by_their_dimension() {
    assert_eq!(MockEmbedder::new().model_name(), "mock-384");
    assert_eq!(MockEmbedder::default().model_name(), "mock-384");
    assert_eq!(MockEmbedder::with_dim(0).model_name(), "mock-0");
    assert_eq!(MockEmbedder::with_dim(1536).model_name(), "mock-1536");
    let copy = MockEmbedder::with_dim(7).clone();
    assert_eq!(copy.dim(), 7);
    assert_eq!(copy.model_name(), "mock-7");
}

#[test]
fn batch_gives_each_text_its_own_vector() {
    let e = MockEmbedder::with_dim(5);
    let v = e.embed_batch(&["a".to_string(), "b".to_string()]).unwrap();
    assert_eq!(v[0], e.embed("a").unwrap());
    assert_eq!(v[1], e.embed("b").unwrap());
    assert!(e.embed_batch(&[]).unwrap().is_empty());
}

#[test]
fn embedder_errors_say_what_happened() {
    assert_eq!(
        EmbedderError::Provider("down".to_string()).message(),
        "provider error: down"
    );
    assert_eq!(
        EmbedderError::DimMismatch { expected: 384, actual: 10 }.message(),
        "embedding dim mismatch: expected 384, got 10"
    );
    assert_eq!(
        EmbedderError::Internal("bug".to_string()).message(),
        "internal error: bug"
    );
}

#[test]
fn embedder_errors_become_memory_errors() {
    let e = MemoryError::from(EmbedderError::DimMismatch { expected: 384, actual: 10 });
    assert!(matches!(
        e,
        MemoryError::InvalidArgument(s) if s == "embedding dim mismatch: expected 384, got 10"
    ));
    let e = MemoryError::from(EmbedderError::Provider("down".to_string()));
    assert!(matches!(e, MemoryError::Provider(s) if s == "down"));
    let e = MemoryError::from(EmbedderError::Internal("bug".to_string()));
    assert!(matches!(e, MemoryError::Internal(s) if s == "bug"));
}

#[test]
fn mock_vectors_share_their_first_components() {
    let short = MockEmbedder::with_dim(5).embed("hello").unwrap();
    let long = MockEmbedder::with_dim(70).embed("hello").unwrap();
    assert_eq!(short, long[..5]);
    assert!(MockEmbedder::with_dim(0).embed("hello").unwrap().is_empty());
}
