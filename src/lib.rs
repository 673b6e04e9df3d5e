//! The core of an interactive story game: the narrative state, the prompts
//! sent to a text generation service, the decoding of its replies, the
//! render model and the session state machine that ties them together.

use vstd::prelude::*;

pub mod narrative;
pub mod prompt;
pub mod render;
pub mod response;
pub mod session;
pub mod text;

verus! {

} // verus!
