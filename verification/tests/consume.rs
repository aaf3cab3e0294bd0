use index_config::errors::Error;
use index_config::index::Index;
use index_config::index::IndexVariant;

#[test]
fn first_consume_yields_the_variant_second_fails() {
    let mut ix = Index::ivf_pq(None, None, None, None, None, None).unwrap();
    let first = ix.consume();
    assert!(matches!(first, Ok(IndexVariant::IvfPq(_))));
    let second = ix.consume();
    assert_eq!(second, Err(Error::AlreadyConsumed));
}

#[test]
fn consumed_state_is_absorbing() {
    let mut ix = Index::btree();
    assert_eq!(ix.consume(), Ok(IndexVariant::BTree));
    for _ in 0..5 {
        assert_eq!(ix.consume(), Err(Error::AlreadyConsumed));
    }
}

#[test]
fn scalar_specs_consume_exactly_once_each() {
    let mut btree = Index::btree();
    let mut bitmap = Index::bitmap();
    let mut labels = Index::label_list();
    assert_eq!(btree.consume(), Ok(IndexVariant::BTree));
    assert_eq!(bitmap.consume(), Ok(IndexVariant::Bitmap));
    assert_eq!(labels.consume(), Ok(IndexVariant::LabelList));
    assert_eq!(btree.consume(), Err(Error::AlreadyConsumed));
    assert_eq!(bitmap.consume(), Err(Error::AlreadyConsumed));
    assert_eq!(labels.consume(), Err(Error::AlreadyConsumed));
}

#[test]
fn failed_consume_returns_the_usage_error_message() {
    let mut ix = Index::bitmap();
    let _ = ix.consume();
    let e = ix.consume().unwrap_err();
    assert_eq!(e.message(), "attempt to use an index more than once");
}
