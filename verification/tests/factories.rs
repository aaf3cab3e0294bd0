use index_config::errors::Error;
use index_config::distance::DistanceType;
use index_config::index::Index;
use index_config::index::IndexVariant;
use index_config::language::Language;
use index_config::params::IvfFlatParams;
use index_config::params::IvfHnswPqParams;
use index_config::params::IvfHnswSqParams;
use index_config::params::IvfPqParams;

fn take(mut ix: Index) -> IndexVariant {
    ix.consume().expect("a fresh cell must yield its variant")
}

#[test]
fn ivf_pq_defaults_match_the_table() {
    let ix = Index::ivf_pq(None, None, None, None, None, None).unwrap();
    match take(ix) {
        IndexVariant::IvfPq(p) => {
            assert_eq!(p.distance_type, DistanceType::L2);
            assert_eq!(p.num_partitions, None);
            assert_eq!(p.num_sub_vectors, None);
            assert_eq!(p.num_bits, 8);
            assert_eq!(p.max_iterations, 50);
            assert_eq!(p.sample_rate, 256);
            assert_eq!(p, IvfPqParams::default());
        }
        other => panic!("expected an ivf-pq variant, got {:?}", other),
    }
}

#[test]
fn ivf_flat_defaults_match_the_table() {
    let ix = Index::ivf_flat(None, None, None, None).unwrap();
    match take(ix) {
        IndexVariant::IvfFlat(p) => {
            assert_eq!(p.distance_type, DistanceType::L2);
            assert_eq!(p.num_partitions, None);
            assert_eq!(p.max_iterations, 50);
            assert_eq!(p.sample_rate, 256);
            assert_eq!(p, IvfFlatParams::default());
        }
        other => panic!("expected an ivf-flat variant, got {:?}", other),
    }
}

#[test]
fn hnsw_pq_defaults_match_the_table() {
    let ix = Index::hnsw_pq(None, None, None, None, None, None, None).unwrap();
    match take(ix) {
        IndexVariant::IvfHnswPq(p) => {
            assert_eq!(p.distance_type, DistanceType::L2);
            assert_eq!(p.num_partitions, None);
            assert_eq!(p.num_sub_vectors, None);
            assert_eq!(p.max_iterations, 50);
            assert_eq!(p.sample_rate, 256);
            assert_eq!(p.num_edges, None);
            assert_eq!(p.ef_construction, None);
            assert_eq!(p, IvfHnswPqParams::default());
        }
        other => panic!("expected an ivf-hnsw-pq variant, got {:?}", other),
    }
}

#[test]
fn hnsw_sq_defaults_match_the_table() {
    let ix = Index::hnsw_sq(None, None, None, None, None, None).unwrap();
    match take(ix) {
        IndexVariant::IvfHnswSq(p) => {
            assert_eq!(p.distance_type, DistanceType::L2);
            assert_eq!(p.num_partitions, None);
            assert_eq!(p.max_iterations, 50);
            assert_eq!(p.sample_rate, 256);
            assert_eq!(p.num_edges, None);
            assert_eq!(p.ef_construction, None);
            assert_eq!(p, IvfHnswSqParams::default());
        }
        other => panic!("expected an ivf-hnsw-sq variant, got {:?}", other),
    }
}

#[test]
fn fts_defaults_match_the_table() {
    let ix = Index::fts(
        None, None, None, None, None, None, None, None, None, None, None,
    )
    .unwrap();
    match take(ix) {
        IndexVariant::Fts(p) => {
            assert_eq!(p.with_position, false);
            assert_eq!(p.base_tokenizer, "default");
            assert_eq!(p.language, None);
            assert_eq!(p.max_token_length, None);
            assert_eq!(p.lower_case, true);
            assert_eq!(p.stem, false);
            assert_eq!(p.remove_stop_words, false);
            assert_eq!(p.ascii_folding, false);
            assert_eq!(p.ngram_min_length, None);
            assert_eq!(p.ngram_max_length, None);
            assert_eq!(p.prefix_only, false);
        }
        other => panic!("expected a full-text variant, got {:?}", other),
    }
}

#[test]
fn scalar_factories_hold_their_variant() {
    assert_eq!(take(Index::btree()), IndexVariant::BTree);
    assert_eq!(take(Index::bitmap()), IndexVariant::Bitmap);
    assert_eq!(take(Index::label_list()), IndexVariant::LabelList);
}

#[test]
fn ivf_pq_round_trip_keeps_supplied_values() {
    let ix = Index::ivf_pq(
        Some("cosine".to_string()),
        Some(128),
        Some(16),
        Some(8),
        Some(10),
        Some(64),
    )
    .unwrap();
    match take(ix) {
        IndexVariant::IvfPq(p) => {
            assert_eq!(p.distance_type, DistanceType::Cosine);
            assert_eq!(p.num_partitions, Some(128));
            assert_eq!(p.num_sub_vectors, Some(16));
            assert_eq!(p.num_bits, 8);
            assert_eq!(p.max_iterations, 10);
            assert_eq!(p.sample_rate, 64);
        }
        other => panic!("expected an ivf-pq variant, got {:?}", other),
    }
}

#[test]
fn ivf_flat_keeps_supplied_values() {
    let ix = Index::ivf_flat(Some("dot".to_string()), Some(7), Some(3), Some(99)).unwrap();
    match take(ix) {
        IndexVariant::IvfFlat(p) => {
            assert_eq!(p.distance_type, DistanceType::Dot);
            assert_eq!(p.num_partitions, Some(7));
            assert_eq!(p.max_iterations, 3);
            assert_eq!(p.sample_rate, 99);
        }
        other => panic!("expected an ivf-flat variant, got {:?}", other),
    }
}

#[test]
fn hnsw_pq_keeps_supplied_values() {
    let ix = Index::hnsw_pq(
        Some("hamming".to_string()),
        Some(32),
        Some(4),
        Some(20),
        Some(128),
        Some(24),
        Some(400),
    )
    .unwrap();
    match take(ix) {
        IndexVariant::IvfHnswPq(p) => {
            assert_eq!(p.distance_type, DistanceType::Hamming);
            assert_eq!(p.num_partitions, Some(32));
            assert_eq!(p.num_sub_vectors, Some(4));
            assert_eq!(p.max_iterations, 20);
            assert_eq!(p.sample_rate, 128);
            assert_eq!(p.num_edges, Some(24));
            assert_eq!(p.ef_construction, Some(400));
        }
        other => panic!("expected an ivf-hnsw-pq variant, got {:?}", other),
    }
}

#[test]
fn hnsw_sq_keeps_supplied_values() {
    let ix = Index::hnsw_sq(
        Some("l2".to_string()),
        Some(64),
        Some(25),
        Some(512),
        Some(12),
        Some(150),
    )
    .unwrap();
    match take(ix) {
        IndexVariant::IvfHnswSq(p) => {
            assert_eq!(p.distance_type, DistanceType::L2);
            assert_eq!(p.num_partitions, Some(64));
            assert_eq!(p.max_iterations, 25);
            assert_eq!(p.sample_rate, 512);
            assert_eq!(p.num_edges, Some(12));
            assert_eq!(p.ef_construction, Some(150));
        }
        other => panic!("expected an ivf-hnsw-sq variant, got {:?}", other),
    }
}

#[test]
fn fts_keeps_supplied_values() {
    let ix = Index::fts(
        Some(true),
        Some("ngram".to_string()),
        Some("english".to_string()),
        Some(40),
        Some(false),
        Some(true),
        Some(true),
        Some(true),
        Some(2),
        Some(5),
        Some(true),
    )
    .unwrap();
    match take(ix) {
        IndexVariant::Fts(p) => {
            assert_eq!(p.with_position, true);
            assert_eq!(p.base_tokenizer, "ngram");
            assert_eq!(p.language, Some(Language::English));
            assert_eq!(p.max_token_length, Some(40));
            assert_eq!(p.lower_case, false);
            assert_eq!(p.stem, true);
            assert_eq!(p.remove_stop_words, true);
            assert_eq!(p.ascii_folding, true);
            assert_eq!(p.ngram_min_length, Some(2));
            assert_eq!(p.ngram_max_length, Some(5));
            assert_eq!(p.prefix_only, true);
        }
        other => panic!("expected a full-text variant, got {:?}", other),
    }
}

#[test]
fn fts_english_with_stemming_succeeds() {
    let ix = Index::fts(
        None,
        None,
        Some("english".to_string()),
        None,
        None,
        Some(true),
        None,
        None,
        None,
        None,
        None,
    )
    .unwrap();
    match take(ix) {
        IndexVariant::Fts(p) => {
            assert_eq!(p.language, Some(Language::English));
            assert_eq!(p.stem, true);
        }
        other => panic!("expected a full-text variant, got {:?}", other),
    }
}

#[test]
fn fts_unknown_language_yields_no_cell() {
    let r = Index::fts(
        None,
        None,
        Some("klingon".to_string()),
        None,
        None,
        None,
        None,
        None,
        None,
        None,
        None,
    );
    match r {
        Err(Error::InvalidLanguage { name }) => assert_eq!(name, "klingon"),
        Ok(_) => panic!("an unsupported language must not build a description"),
        Err(other) => panic!("expected an invalid-language error, got {:?}", other),
    }
}

#[test]
fn vector_factories_propagate_an_unknown_distance_type() {
    let factories: Vec<Result<Index, Error>> = vec![
        Index::ivf_pq(Some("manhattan".to_string()), None, None, None, None, None),
        Index::ivf_flat(Some("manhattan".to_string()), None, None, None),
        Index::hnsw_pq(Some("manhattan".to_string()), None, None, None, None, None, None),
        Index::hnsw_sq(Some("manhattan".to_string()), None, None, None, None, None),
    ];
    for r in factories {
        match r {
            Err(Error::InvalidDistanceType { name }) => assert_eq!(name, "manhattan"),
            Ok(_) => panic!("an unrecognized metric must not build a description"),
            Err(other) => panic!("expected an invalid-distance-type error, got {:?}", other),
        }
    }
}
