pub mod amount;
pub mod charge;
pub mod config;
pub mod charge_rows;
pub mod datetime;
pub mod dto;
pub mod error;
pub mod hexstr;
pub mod oline_return;
pub mod order;
pub mod price_repo;
pub mod pricing;
pub mod product_policy;
pub mod refund;
pub mod shared;
pub mod stock;
pub mod stripe_rsc;
pub mod types;
pub mod usecase;
