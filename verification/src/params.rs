//! Per-kind parameter records and their documented defaults.
//!
//! Each index kind carries its own record; a field typed `Option<u32>` is an
//! "auto" parameter whose value, when absent, is chosen downstream by the
//! builder from the data itself. This layer guarantees only that supplied
//! values are carried through unchanged and omitted ones get the documented
//! default; it does not validate numeric ranges or cross-field consistency,
//! which remain the builder's responsibility.

use vstd::prelude::*;

use crate::distance::DistanceType;
use crate::language::Language;

verus! {

/// Default number of bits per product-quantization code.
pub const DEFAULT_NUM_BITS: u32 = 8;

/// Default cap on clustering iterations while training partitions.
pub const DEFAULT_MAX_ITERATIONS: u32 = 50;

/// Default number of vectors sampled per partition while training.
pub const DEFAULT_SAMPLE_RATE: u32 = 256;

/// Parameters of an inverted-file index with product quantization.
#[derive(Clone, Debug, PartialEq, Eq)]
pub struct IvfPqParams {
    pub distance_type: DistanceType,
    pub num_partitions: Option<u32>,
    pub num_sub_vectors: Option<u32>,
    pub num_bits: u32,
    pub max_iterations: u32,
    pub sample_rate: u32,
}

impl IvfPqParams {
    /// The record a factory call with every parameter omitted produces.
    pub open spec fn spec_default() -> IvfPqParams {
        IvfPqParams {
            distance_type: DistanceType::L2,
            num_partitions: None,
            num_sub_vectors: None,
            num_bits: DEFAULT_NUM_BITS,
            max_iterations: DEFAULT_MAX_ITERATIONS,
            sample_rate: DEFAULT_SAMPLE_RATE,
        }
    }
}

impl Default for IvfPqParams {
    fn default() -> (d: Self)
        ensures
            d == IvfPqParams::spec_default(),
    {
        IvfPqParams {
            distance_type: DistanceType::L2,
            num_partitions: None,
            num_sub_vectors: None,
            num_bits: DEFAULT_NUM_BITS,
            max_iterations: DEFAULT_MAX_ITERATIONS,
            sample_rate: DEFAULT_SAMPLE_RATE,
        }
    }
}

/// Parameters of an inverted-file index over uncompressed vectors.
#[derive(Clone, Debug, PartialEq, Eq)]
pub struct IvfFlatParams {
    pub distance_type: DistanceType,
    pub num_partitions: Option<u32>,
    pub max_iterations: u32,
    pub sample_rate: u32,
}

impl IvfFlatParams {
    /// The record a factory call with every parameter omitted produces.
    pub open spec fn spec_default() -> IvfFlatParams {
        IvfFlatParams {
            distance_type: DistanceType::L2,
            num_partitions: None,
            max_iterations: DEFAULT_MAX_ITERATIONS,
            sample_rate: DEFAULT_SAMPLE_RATE,
        }
    }
}

impl Default for IvfFlatParams {
    fn default() -> (d: Self)
        ensures
            d == IvfFlatParams::spec_default(),
    {
        IvfFlatParams {
            distance_type: DistanceType::L2,
            num_partitions: None,
            max_iterations: DEFAULT_MAX_ITERATIONS,
            sample_rate: DEFAULT_SAMPLE_RATE,
        }
    }
}

/// Parameters of an inverted-file index whose partitions are searched
/// through a hierarchical navigable small-world graph, with product
/// quantization.
#[derive(Clone, Debug, PartialEq, Eq)]
pub struct IvfHnswPqParams {
    pub distance_type: DistanceType,
    pub num_partitions: Option<u32>,
    pub num_sub_vectors: Option<u32>,
    pub max_iterations: u32,
    pub sample_rate: u32,
    pub num_edges: Option<u32>,
    pub ef_construction: Option<u32>,
}

impl IvfHnswPqParams {
    /// The record a factory call with every parameter omitted produces.
    pub open spec fn spec_default() -> IvfHnswPqParams {
        IvfHnswPqParams {
            distance_type: DistanceType::L2,
            num_partitions: None,
            num_sub_vectors: None,
            max_iterations: DEFAULT_MAX_ITERATIONS,
            sample_rate: DEFAULT_SAMPLE_RATE,
            num_edges: None,
            ef_construction: None,
        }
    }
}

impl Default for IvfHnswPqParams {
    fn default() -> (d: Self)
        ensures
            d == IvfHnswPqParams::spec_default(),
    {
        IvfHnswPqParams {
            distance_type: DistanceType::L2,
            num_partitions: None,
            num_sub_vectors: None,
            max_iterations: DEFAULT_MAX_ITERATIONS,
            sample_rate: DEFAULT_SAMPLE_RATE,
            num_edges: None,
            ef_construction: None,
        }
    }
}

/// Parameters of an inverted-file index whose partitions are searched
/// through a hierarchical navigable small-world graph, with scalar
/// quantization.
#[derive(Clone, Debug, PartialEq, Eq)]
pub struct IvfHnswSqParams {
    pub distance_type: DistanceType,
    pub num_partitions: Option<u32>,
    pub max_iterations: u32,
    pub sample_rate: u32,
    pub num_edges: Option<u32>,
    pub ef_construction: Option<u32>,
}

impl IvfHnswSqParams {
    /// The record a factory call with every parameter omitted produces.
    pub open spec fn spec_default() -> IvfHnswSqParams {
        IvfHnswSqParams {
            distance_type: DistanceType::L2,
            num_partitions: None,
            max_iterations: DEFAULT_MAX_ITERATIONS,
            sample_rate: DEFAULT_SAMPLE_RATE,
            num_edges: None,
            ef_construction: None,
        }
    }
}

impl Default for IvfHnswSqParams {
    fn default() -> (d: Self)
        ensures
            d == IvfHnswSqParams::spec_default(),
    {
        IvfHnswSqParams {
            distance_type: DistanceType::L2,
            num_partitions: None,
            max_iterations: DEFAULT_MAX_ITERATIONS,
            sample_rate: DEFAULT_SAMPLE_RATE,
            num_edges: None,
            ef_construction: None,
        }
    }
}

/// Parameters of a full-text index over tokenized text.
#[derive(Clone, Debug, PartialEq, Eq)]
pub struct FtsParams {
    pub with_position: bool,
    pub base_tokenizer: String,
    pub language: Option<Language>,
    pub max_token_length: Option<u32>,
    pub lower_case: bool,
    pub stem: bool,
    pub remove_stop_words: bool,
    pub ascii_folding: bool,
    pub ngram_min_length: Option<u32>,
    pub ngram_max_length: Option<u32>,
    pub prefix_only: bool,
}

/// Holds of a full-text record exactly when every field has its documented
/// default: positions off, the `"default"` base tokenizer, no language, no
/// token-length cap, lower-casing on, stemming, stop-word removal and
/// ascii folding off, no n-gram bounds, whole-token n-grams.
pub open spec fn fts_is_default(p: FtsParams) -> bool {
    &&& p.with_position == false
    &&& p.base_tokenizer@ == "default"@
    &&& p.language is None
    &&& p.max_token_length is None
    &&& p.lower_case == true
    &&& p.stem == false
    &&& p.remove_stop_words == false
    &&& p.ascii_folding == false
    &&& p.ngram_min_length is None
    &&& p.ngram_max_length is None
    &&& p.prefix_only == false
}

impl Default for FtsParams {
    fn default() -> (d: Self)
        ensures
            fts_is_default(d),
    {
        FtsParams {
            with_position: false,
            base_tokenizer: String::from_str("default"),
            language: None,
            max_token_length: None,
            lower_case: true,
            stem: false,
            remove_stop_words: false,
            ascii_folding: false,
            ngram_min_length: None,
            ngram_max_length: None,
            prefix_only: false,
        }
    }
}

} // verus!
