pub mod activation;
pub mod coordinator;
pub mod recovery;
pub mod safety;
pub mod snapshot;
pub mod enabling;
pub mod disabling;
