//! The types of the `futures` crate that the library speaks of.
//!
//! A handle answers a poll as a future of that crate does, so that it can
//! stand behind one: `Poll<T, E>` there is `Result<Async<T>, E>`, and
//! `StartSend<T, E>` is `Result<AsyncSink<T>, E>`.

use vstd::prelude::*;
use futures::Async;
use futures::AsyncSink;

verus! {

/// The outside type `futures::Async`: whether a value is ready. Verus reads
/// its two variants, `Ready(T)` and `NotReady`, from the crate itself.
#[verifier::external_type_specification]
#[verifier::reject_recursive_types(T)]
pub struct ExAsync<T>(Async<T>);

/// The outside type `futures::AsyncSink`: whether a sink has taken a value.
/// Verus reads its two variants, `Ready` and `NotReady(T)`, which hands the
/// value back, from the crate itself.
#[verifier::external_type_specification]
#[verifier::reject_recursive_types(T)]
pub struct ExAsyncSink<T>(AsyncSink<T>);

} // verus!
