//! Composable, fallible, typed pipeline stages.
//!
//! A stage turns one input into an output or an [`Error`]. Stages compose
//! sequentially ([`ThenPipe`]), by fan-out over one shared value
//! ([`ZipPipe`]), and into chains that can be extended at run time
//! ([`DynPipe`]). Every stage carries a model, `Pipe::produces`, that relates
//! an input to the results a run on it may yield, and each composition is
//! proved to yield exactly what its parts' models allow.
//!
//! Two leaf stages compute storage paths: [`UrlToPathPipe`] maps a web
//! address to a relative path, and [`FsPipe`] resolves such a path under a
//! base directory.

mod chain;
mod compose;
mod error;
mod laws;
mod leaf;
mod paths;

mod pipe;

pub use chain::{steps_produce, DynPipe};
pub use compose::{ThenPipe, ZipPipe};
pub use error::Error;
pub use laws::{
    lemma_chain_append_order,
    lemma_chain_guard_false,
    lemma_chain_guard_true,
    lemma_chain_no_steps,
    lemma_then_failure_short_circuits,
    lemma_then_identity_left,
    lemma_then_identity_right,
    lemma_zip_first_failure_short_circuits,
    lemma_zip_pairs_shared_value,
};
pub use leaf::{ConstPipe, IdPipe};
pub use paths::{
    comps,
    resolve,
    segments,
    split_segments,
    url_to_path,
    FsPipe,
    UrlToPathPipe,
    WebUrl,
};
pub use pipe::{Compose, Duplicate, Pipe, Stage};
