pub mod transactions;
