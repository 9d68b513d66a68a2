//! Rewrites trait declarations into variants whose `async fn` and `-> impl Trait` members carry
//! extra bounds, with a blanket impl that bridges the variant back to the original trait.
pub mod token;
pub mod diagnostics;
pub mod directive;
pub mod model;
pub mod rewrite;
pub mod variant;
pub mod bridge;
pub mod fresh;
pub mod engine;
pub mod render;
pub mod expand;
pub mod laws;
