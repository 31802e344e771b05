mod codec;
pub mod dataset;
pub mod db;
pub mod error;
pub mod request;

pub use crate::dataset::collection::{Collection, CollectionConfig};
pub use crate::dataset::{Dataset, DatasetConfig};
pub use crate::db::{DBConfig, Options, DB};
pub use crate::error::DatasetError;
pub use crate::request::Request;
