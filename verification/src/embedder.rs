//! Embedders: what turns text into vectors of a fixed dimension.
//!
//! [`MockEmbedder`] is the reference implementation: deterministic vectors
//! without meaning, for tests of storage backends.

use crate::error::{ErrorView, MemoryError};
use crate::text::{decimal, decimal_text};
use vstd::prelude::*;
use vstd::string::{StringExecFns, StringSliceAdditionalSpecFns};

verus! {

/// What went wrong in an embedder.
#[derive(Debug)]
pub enum EmbedderError {
    /// The embedder's upstream client failed.
    Provider(String),
    /// The embedder produced a vector with the wrong dimension.
    DimMismatch {
        /// The declared dimension.
        expected: usize,
        /// The length of the vector that was returned.
        actual: usize,
    },
    /// An unexpected internal error.
    Internal(String),
}

/// The outcome of an embedder operation.
pub type EmbedderResult<T> = std::result::Result<T, EmbedderError>;

/// The text that reports a dimension mismatch.
pub open spec fn dim_mismatch_text(expected: usize, actual: usize) -> Seq<char> {
    "embedding dim mismatch: expected "@ + decimal(expected as nat) + ", got "@ + decimal(
        actual as nat,
    )
}

/// The memory error that an embedder error is reported as.
pub open spec fn embedder_error_view(e: EmbedderError) -> ErrorView {
    match e {
        EmbedderError::DimMismatch { expected, actual } => ErrorView::InvalidArgument(
            dim_mismatch_text(expected, actual),
        ),
        EmbedderError::Provider(msg) => ErrorView::Provider(msg@),
        EmbedderError::Internal(msg) => ErrorView::Internal(msg@),
    }
}

/// What an embedder error says.
pub open spec fn embedder_message(e: EmbedderError) -> Seq<char> {
    match e {
        EmbedderError::Provider(msg) => "provider error: "@ + msg@,
        EmbedderError::DimMismatch { expected, actual } => dim_mismatch_text(expected, actual),
        EmbedderError::Internal(msg) => "internal error: "@ + msg@,
    }
}

/// The text that reports a dimension mismatch.
fn dim_mismatch(expected: usize, actual: usize) -> (r: String)
    ensures
        r@ == dim_mismatch_text(expected, actual),
{
    let mut msg: String = "embedding dim mismatch: expected ".to_owned();
    let n: String = decimal_text(expected);
    msg.append(n.as_str());
    msg.append(", got ");
    let n: String = decimal_text(actual);
    msg.append(n.as_str());
    msg
}

impl EmbedderError {
    /// What the error says.
    pub fn message(&self) -> (r: String)
        ensures
            r@ == embedder_message(*self),
    {
        match self {
            EmbedderError::Provider(msg) => {
                let mut s: String = "provider error: ".to_owned();
                s.append(msg.as_str());
                s
            },
            EmbedderError::DimMismatch { expected, actual } => dim_mismatch(*expected, *actual),
            EmbedderError::Internal(msg) => {
                let mut s: String = "internal error: ".to_owned();
                s.append(msg.as_str());
                s
            },
        }
    }
}

impl MemoryError {
    /// The memory error that reports `e`.
    pub fn from_embedder(e: EmbedderError) -> (r: MemoryError)
        ensures
            r@ == embedder_error_view(e),
    {
        match e {
            EmbedderError::DimMismatch { expected, actual } => MemoryError::InvalidArgument(
                dim_mismatch(expected, actual),
            ),
            EmbedderError::Provider(msg) => MemoryError::Provider(msg),
            EmbedderError::Internal(msg) => MemoryError::Internal(msg),
        }
    }
}

impl From<EmbedderError> for MemoryError {
    fn from(e: EmbedderError) -> (r: MemoryError)
        ensures
            r@ == embedder_error_view(e),
    {
        MemoryError::from_embedder(e)
    }
}

impl vstd::std_specs::convert::FromSpecImpl<EmbedderError> for MemoryError {
    open spec fn obeys_from_spec() -> bool {
        false
    }

    open spec fn from_spec(e: EmbedderError) -> MemoryError {
        arbitrary()
    }
}

/// An embedder turns text into a vector of a fixed dimension: every vector that
/// it returns has that length.
pub trait Embedder: Sized {
    /// A component of the vectors.
    type Component;

    /// What embedding `text` may come to.
    spec fn may_embed(&self, text: Seq<char>, outcome: EmbedderResult<Vec<Self::Component>>) -> bool;

    /// The vectors' dimension.
    spec fn dim_of(&self) -> nat;

    /// The model's name.
    spec fn model_of(&self) -> Seq<char>;

    /// The dimension of the vectors.
    fn dim(&self) -> (r: usize)
        ensures
            r == self.dim_of(),
    ;

    /// The stable identifier of the model.
    fn model_name(&self) -> (r: &str)
        ensures
            r@ == self.model_of(),
    ;

    /// Embeds one text.
    fn embed(&self, text: &str) -> (r: EmbedderResult<Vec<Self::Component>>)
        ensures
            self.may_embed(text@, r),
            r matches Ok(v) ==> v@.len() == self.dim_of(),
    ;

    /// Embeds the texts one after the other, up to the first failure.
    fn embed_batch(&self, batch: &[String]) -> (r: EmbedderResult<Vec<Vec<Self::Component>>>)
        ensures
            match r {
                Ok(out) => {
                    &&& out@.len() == batch@.len()
                    &&& forall|i: int|
                        0 <= i < out@.len() ==> self.may_embed(
                            batch@[i]@,
                            Ok(#[trigger] out@[i]),
                        ) && out@[i]@.len() == self.dim_of()
                },
                Err(e) => exists|done: Seq<Vec<Self::Component>>|
                    #![trigger done.len()]
                    {
                        &&& done.len() < batch@.len()
                        &&& forall|i: int|
                            0 <= i < done.len() ==> self.may_embed(
                                batch@[i]@,
                                Ok(#[trigger] done[i]),
                            )
                        &&& self.may_embed(batch@[done.len() as int]@, Err(e))
                    },
            },
    {
        let mut out: Vec<Vec<Self::Component>> = Vec::new();
        let mut i: usize = 0;
        while i < batch.len()
            invariant
                0 <= i <= batch@.len(),
                out@.len() == i,
                forall|k: int|
                    0 <= k < i ==> self.may_embed(batch@[k]@, Ok(#[trigger] out@[k]))
                        && out@[k]@.len() == self.dim_of(),
            decreases batch@.len() - i,
        {
            match self.embed(batch[i].as_str()) {
                Ok(v) => {
                    out.push(v);
                },
                Err(e) => {
                    assert(out@.len() < batch@.len());
                    return Err(e);
                },
            }
            i = i + 1;
        }
        Ok(out)
    }
}

/// The state of the hash before the first byte.
pub const HASH_START: u64 = 0xcbf29ce484222325;

/// The factor of the hash.
pub const HASH_FACTOR: u64 = 0x100000001b3;

/// The factor of the generator.
pub const STEP_FACTOR: u64 = 6364136223846793005;

/// The increment of the generator.
pub const STEP_INCREMENT: u64 = 1442695040888963407;

/// The hash of a run of bytes: each byte is mixed in by exclusive or and a
/// multiplication modulo 2^64.
pub open spec fn byte_hash(bytes: Seq<u8>) -> u64
    decreases bytes.len(),
{
    if bytes.len() == 0 {
        HASH_START
    } else {
        (byte_hash(bytes.drop_last()) ^ (bytes.last() as u64)).wrapping_mul(HASH_FACTOR)
    }
}

/// The generator's state after `n` steps from `seed`.
pub open spec fn generated(seed: u64, n: nat) -> u64
    decreases n,
{
    if n == 0 {
        seed
    } else {
        generated(seed, (n - 1) as nat).wrapping_mul(STEP_FACTOR).wrapping_add(STEP_INCREMENT)
    }
}

/// The numerator of component `i` of a mock vector: a window of the
/// generator's state after `i + 1` steps.
pub open spec fn mock_component(text: Seq<char>, i: nat) -> i32 {
    (generated(byte_hash(vstd::utf8::encode_utf8(text)), i + 1) >> ((i % 32) as u64)) as i32
}

/// The numerators of a mock vector of the given dimension.
pub open spec fn mock_vector(text: Seq<char>, dim: nat) -> Seq<i32> {
    Seq::new(dim, |i: int| mock_component(text, i as nat))
}

/// A deterministic embedder for tests: it hashes the text to a vector of
/// pseudo-random numbers, which mean nothing.
///
/// A component is given by its numerator over `i32::MAX`.
#[derive(Debug)]
pub struct MockEmbedder {
    dim: usize,
    model: String,
}

impl MockEmbedder {
    /// A mock embedder with the dimension of common local models.
    pub fn new() -> (r: MockEmbedder)
        ensures
            r.dim_of() == 384,
            r.model_of() == "mock-384"@,
    {
        MockEmbedder { dim: 384, model: "mock-384".to_owned() }
    }

    /// A mock embedder with the given dimension.
    pub fn with_dim(dim: usize) -> (r: MockEmbedder)
        ensures
            r.dim_of() == dim,
            r.model_of() == "mock-"@ + decimal(dim as nat),
    {
        let mut model: String = "mock-".to_owned();
        let n: String = decimal_text(dim);
        model.append(n.as_str());
        MockEmbedder { dim, model }
    }
}

impl Clone for MockEmbedder {
    fn clone(&self) -> (r: MockEmbedder)
        ensures
            r.dim_of() == self.dim_of(),
            r.model_of() == self.model_of(),
    {
        MockEmbedder { dim: self.dim, model: self.model.clone() }
    }
}

impl Default for MockEmbedder {
    fn default() -> (r: MockEmbedder)
        ensures
            r.dim_of() == 384,
            r.model_of() == "mock-384"@,
    {
        MockEmbedder::new()
    }
}

impl Embedder for MockEmbedder {
    type Component = i32;

    open spec fn may_embed(&self, text: Seq<char>, outcome: EmbedderResult<Vec<i32>>) -> bool {
        outcome matches Ok(v) && v@ == mock_vector(text, self.dim_of())
    }

    closed spec fn dim_of(&self) -> nat {
        self.dim as nat
    }

    closed spec fn model_of(&self) -> Seq<char> {
        self.model@
    }

    fn dim(&self) -> (r: usize) {
        self.dim
    }

    fn model_name(&self) -> (r: &str) {
        self.model.as_str()
    }

    fn embed(&self, text: &str) -> (r: EmbedderResult<Vec<i32>>) {
        let bytes: &[u8] = text.as_bytes();
        let mut seed: u64 = HASH_START;
        let mut n: usize = 0;
        assert(bytes@.take(0) =~= Seq::<u8>::empty());
        while n < bytes.len()
            invariant
                0 <= n <= bytes@.len(),
                seed == byte_hash(bytes@.take(n as int)),
            decreases bytes@.len() - n,
        {
            assert(bytes@.take(n + 1).drop_last() =~= bytes@.take(n as int));
            seed = (seed ^ (bytes[n] as u64)).wrapping_mul(HASH_FACTOR);
            n = n + 1;
        }
        assert(bytes@.take(n as int) =~= bytes@);
        let ghost start = seed;
        let mut out: Vec<i32> = Vec::new();
        let mut i: usize = 0;
        while i < self.dim
            invariant
                0 <= i <= self.dim,
                start == byte_hash(vstd::utf8::encode_utf8(text@)),
                seed == generated(start, i as nat),
                out@.len() == i,
                forall|k: int| 0 <= k < i ==> #[trigger] out@[k] == mock_component(text@, k as nat),
            decreases self.dim - i,
        {
            seed = seed.wrapping_mul(STEP_FACTOR).wrapping_add(STEP_INCREMENT);
            let window: u64 = seed >> ((i % 32) as u64);
            out.push(#[verifier::truncate] (window as i32));
            i = i + 1;
        }
        assert(out@ =~= mock_vector(text@, self.dim_of()));
        Ok(out)
    }
}

} // verus!
