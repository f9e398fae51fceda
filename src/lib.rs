//! Decisions of a single-pipeline GPU renderer driven by window events: the
//! order of the one-shot setup and its failures, the surface configuration,
//! the render pipeline description, and the frame loop that turns each window
//! event into at most one GPU action.
pub mod surface;
pub mod pipeline;
pub mod failure;
pub mod setup;
pub mod frame_loop;
