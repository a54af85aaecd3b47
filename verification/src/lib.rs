//! Verified core of the xaynet end-to-end harness: the participant's and the
//! coordinator's round state machines, message chunking, the Kubernetes
//! bookkeeping of the test driver and the text it reports.

pub mod chunking;
pub mod client;
pub mod crypto;
pub mod e2e;
pub mod json;
pub mod k8s;
pub mod state_machine;
pub mod text;
