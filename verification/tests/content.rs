use babangida::domain::content::{Post, PostBody, PostBodyError};
use babangida::shared::id::Id;
use babangida::shared::time::Timestamp;

#[test]
fn post_body_validates() {
    assert_eq!(PostBody::parse("  йоу  ").unwrap().as_str(), "йоу");
    assert_eq!(PostBody::parse("   "), Err(PostBodyError::Empty));
    assert!(matches!(
        PostBody::parse(&"a".repeat(5001)),
        Err(PostBodyError::TooLong { len: 5001 })
    ));
}

#[test]
fn post_carries_author_and_body() {
    let author = Id::generate();
    let post = Post::create(Id::generate(), author, PostBody::parse("первый трек").unwrap(), Timestamp::now());
    assert_eq!(post.author(), author);
    assert_eq!(post.body().as_str(), "первый трек");
}
