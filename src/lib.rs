//! Acquisition-to-relay core of a wave buoy: the retry budget that decides
//! when the device gives up and resets, the bounded packet queue between the
//! sampling interrupt and the main loop, the one-shot handoff of the sampler's
//! handle, and the shared clock-and-position record.
pub mod handoff;
pub mod orchestrator;
pub mod queue;
pub mod retry;
pub mod state;
