//! What holds of the library as a whole, over the definitions that its contracts use.
pub mod connecting;
pub mod documents;
pub mod exchange;
pub mod listing;
pub mod matching;
pub mod protocol;
pub mod publishing;
pub mod reporting;
pub mod requests;
pub mod sending;
pub mod servers;
pub mod subjects;
pub mod text;
pub mod views;
