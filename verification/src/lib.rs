pub mod device;
pub mod orchestrator;
pub mod poller;
pub mod states;
