//! The five operations of the executor: create, execute, cancel, fund and
//! withdraw-close. Each handler makes every decision of its operation over
//! plain values; the host performs the surrounding I/O and applies the
//! results, discarding the whole atomic bundle when anything fails.

pub mod cancel_requirement;
pub mod create_requirement;
pub mod execute;
pub mod fund_requirement;
pub mod withdraw_and_close;
