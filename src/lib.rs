//! Ontario public-health vaccination-status data: typed records, validation,
//! per-capita rates, day reports and a chronological index of them.

pub mod cases;
pub mod checks;
pub mod dataset;
pub mod date;
pub mod decimal;
pub mod error;
pub mod hosp;
pub mod index;
pub mod pipeline;
pub mod report;
pub mod row;
pub mod text;
