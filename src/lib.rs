//! Integer bookkeeping for a Keplerian orbit propagator: the iteration budget
//! of the eccentric-anomaly solver and the sample count of a running statistic.
pub mod budget;
pub mod tally;
