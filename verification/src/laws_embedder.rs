//! What embedders come to, call by call.
//!
//! Each law takes the arguments and the result of a call and says how they are
//! related.

use crate::embedder::{
    byte_hash, generated, mock_component, Embedder, EmbedderError, EmbedderResult, MockEmbedder,
};
use crate::error::MemoryError;
use crate::text::decimal_text;
use vstd::prelude::*;

verus! {

/// A mock embedder has the dimension that it is made with, and is named after
/// it; without one it has 384 components.
pub proof fn law_mock_embedder_is_named_after_its_dimension(
    dim: usize,
    e: MockEmbedder,
    n: usize,
    name: &str,
    digits: String,
    plain: MockEmbedder,
    plain_n: usize,
    plain_name: &str,
)
    requires
        call_ensures(MockEmbedder::with_dim, (dim,), e),
        call_ensures(MockEmbedder::dim, (&e,), n),
        call_ensures(MockEmbedder::model_name, (&e,), name),
        call_ensures(decimal_text, (dim,), digits),
        call_ensures(MockEmbedder::new, (), plain),
        call_ensures(MockEmbedder::dim, (&plain,), plain_n),
        call_ensures(MockEmbedder::model_name, (&plain,), plain_name),
    ensures
        n == dim,
        name@ == "mock-"@ + digits@,
        plain_n == 384,
        plain_name@ == "mock-384"@,
{
}

/// The default mock embedder is a plain one, and a clone is like its original.
pub proof fn law_mock_embedders_are_cloned(
    e: MockEmbedder,
    copy: MockEmbedder,
    d: MockEmbedder,
)
    requires
        call_ensures(MockEmbedder::clone, (&e,), copy),
        call_ensures(MockEmbedder::default, (), d),
    ensures
        copy.dim_of() == e.dim_of(),
        copy.model_of() == e.model_of(),
        d.dim_of() == 384,
        d.model_of() == "mock-384"@,
{
}

/// A mock vector comes of two runs: the bytes of the text are mixed one after
/// the other into a seed, and from the seed on each step of the generator gives
/// one component, a window of 32 bits that moves up by one with each.
pub proof fn law_mock_vector_comes_of_two_runs(
    e: MockEmbedder,
    text: &str,
    r: EmbedderResult<Vec<i32>>,
)
    requires
        call_ensures(MockEmbedder::embed, (&e, text), r),
    ensures
        r is Ok,
        r->Ok_0@.len() == e.dim_of(),
        exists|mixed: Seq<u64>, steps: Seq<u64>|
            {
                let bytes = vstd::utf8::encode_utf8(text@);
                &&& #[trigger] mixed.len() == bytes.len() + 1
                &&& #[trigger] steps.len() == r->Ok_0@.len() + 1
                &&& mixed[0] == 0xcbf29ce484222325
                &&& forall|i: int|
                    0 <= i < bytes.len() ==> mixed[i + 1] == (mixed[i] ^ (
                    #[trigger] bytes[i] as u64)).wrapping_mul(0x100000001b3)
                &&& steps[0] == mixed[bytes.len() as int]
                &&& forall|i: int|
                    0 <= i < r->Ok_0@.len() ==> {
                        &&& steps[i + 1] == steps[i].wrapping_mul(
                            6364136223846793005,
                        ).wrapping_add(1442695040888963407)
                        &&& #[trigger] r->Ok_0@[i] == (steps[i + 1] >> ((i % 32) as u64)) as i32
                    }
            },
{
    let bytes = vstd::utf8::encode_utf8(text@);
    let v = r->Ok_0@;
    let mixed = Seq::new(bytes.len() + 1, |i: int| byte_hash(bytes.take(i)));
    let steps = Seq::new(v.len() + 1, |i: int| generated(byte_hash(bytes), i as nat));
    assert forall|i: int| 0 <= i < bytes.len() implies mixed[i + 1] == (mixed[i] ^ (
    #[trigger] bytes[i] as u64)).wrapping_mul(0x100000001b3) by {
        assert(bytes.take(i + 1).drop_last() =~= bytes.take(i));
        assert(bytes.take(i + 1).last() == bytes[i]);
    }
    assert(bytes.take(bytes.len() as int) =~= bytes);
    assert(bytes.take(0).len() == 0);
    assert forall|i: int| 0 <= i < v.len() implies {
        &&& steps[i + 1] == steps[i].wrapping_mul(6364136223846793005).wrapping_add(
            1442695040888963407,
        )
        &&& #[trigger] v[i] == (steps[i + 1] >> ((i % 32) as u64)) as i32
    } by {
        assert(v[i] == mock_component(text@, i as nat));
    }
    assert(mixed.len() == bytes.len() + 1 && steps.len() == v.len() + 1);
}

/// A batch is embedded text by text, each as it is embedded alone.
pub proof fn law_batch_is_embedded_text_by_text(
    e: MockEmbedder,
    batch: &[String],
    r: EmbedderResult<Vec<Vec<i32>>>,
    i: int,
    text: &str,
    alone: EmbedderResult<Vec<i32>>,
)
    requires
        call_ensures(MockEmbedder::embed_batch, (&e, batch), r),
        0 <= i < batch@.len(),
        text@ == batch@[i]@,
        call_ensures(MockEmbedder::embed, (&e, text), alone),
    ensures
        r is Ok,
        r->Ok_0@.len() == batch@.len(),
        alone is Ok,
        r->Ok_0@[i]@ == alone->Ok_0@,
{
}

/// An embedder's error says what went wrong; as a memory error it says the same,
/// and a wrong dimension is the caller's.
pub proof fn law_embedder_errors_say_what_went_wrong(
    e: EmbedderError,
    message: String,
    reported: MemoryError,
    expected: String,
    actual: String,
)
    requires
        call_ensures(EmbedderError::message, (&e,), message),
        call_ensures(MemoryError::from_embedder, (e,), reported),
        e is DimMismatch ==> call_ensures(decimal_text, (e->expected,), expected),
        e is DimMismatch ==> call_ensures(decimal_text, (e->actual,), actual),
    ensures
        e is Provider ==> message@ == "provider error: "@ + e->Provider_0@,
        e is Internal ==> message@ == "internal error: "@ + e->Internal_0@,
        e is DimMismatch ==> message@ == "embedding dim mismatch: expected "@ + expected@
            + ", got "@ + actual@,
        e is Provider ==> reported is Provider && reported->Provider_0@ == e->Provider_0@,
        e is Internal ==> reported is Internal && reported->Internal_0@ == e->Internal_0@,
        e is DimMismatch ==> reported is InvalidArgument && reported->InvalidArgument_0@
            == message@,
{
}

/// Converting an embedder's error reports it.
pub proof fn law_conversion_reports_the_error(
    e: EmbedderError,
    message: String,
    converted: MemoryError,
)
    requires
        call_ensures(EmbedderError::message, (&e,), message),
        call_ensures(<MemoryError as From<EmbedderError>>::from, (e,), converted),
    ensures
        e is Provider ==> converted is Provider && converted->Provider_0@ == e->Provider_0@,
        e is Internal ==> converted is Internal && converted->Internal_0@ == e->Internal_0@,
        e is DimMismatch ==> converted is InvalidArgument && converted->InvalidArgument_0@
            == message@,
{
}

} // verus!
