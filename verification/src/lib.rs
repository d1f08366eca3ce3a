//! A small teaching library around a fixed-size worker pool for a blocking
//! HTTP-like server, together with the list containers and the line-search
//! utility that accompany it.
//!
//! The pool coordination logic, the request handling logic, the lists and the
//! search functions are verified; the operating-system pieces (sockets,
//! threads, the filesystem) live outside this crate and hand plain values in.

pub mod first;
pub mod fourth;
pub mod handler;
pub mod minigrep;
pub mod pool;
pub mod second;
pub mod third;

use vstd::prelude::*;

verus! {

/// Relies on `core::mem::replace`: it moves `src` into `*dest` and returns
/// the value that `*dest` held before the call.
pub assume_specification<T>[ core::mem::replace::<T> ](dest: &mut T, src: T) -> (res: T)
    ensures
        *final(dest) == src,
        res == *old(dest),
;

} // verus!
