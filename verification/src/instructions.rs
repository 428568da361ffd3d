//! What an operator-imported pool may go on to do: get a quarry of the
//! reward service, and have its gauge enabled at the incentive service.

pub mod create_quarry;
pub mod enable_gauge;
