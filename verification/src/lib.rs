//! A harness that measures byte-stream compression codecs: how far each
//! shrinks a set of records and how long a compress-and-decompress cycle
//! takes.
//!
//! A dataset of records is generated once. Each algorithm is run over the
//! whole of it, one record at a time and the records in parallel, and its
//! measurements are reduced to a mean ratio and a mean elapsed time.
//!
//! Ratios and means are held as whole numbers of millionths, see
//! [`fixed`].

pub mod adapter;
pub mod clock;
pub mod codec;
pub mod dataset;
pub mod fixed;
pub mod gather;
pub mod measure;
pub mod runner;
pub mod scores;
pub mod user;

pub use crate::adapter::brotli_test_fast;
pub use crate::adapter::brotli_test_good;
pub use crate::adapter::deflate_test_fast;
pub use crate::adapter::deflate_test_good;
pub use crate::adapter::dummy_test;
pub use crate::adapter::gzip_test_fast;
pub use crate::adapter::gzip_test_good;
pub use crate::adapter::zlib_test_fast;
pub use crate::adapter::zlib_test_good;
pub use crate::dataset::generate_data;
pub use crate::measure::CodecError;
pub use crate::measure::TestRun;
pub use crate::runner::run_test;
pub use crate::scores::get_scores;
pub use crate::scores::mean_data_size;
pub use crate::scores::ScoreError;
pub use crate::user::GenerationError;
pub use crate::user::User;
