//! Chain-extension dispatch protocol: hash-derived method identifiers,
//! weight metering, argument codecs, error classification and a dispatcher
//! that routes composite call identifiers to registered handlers.

pub mod codec;
pub mod codegen;
pub mod dispatch;
pub mod error;
pub mod hash;
pub mod ids;
pub mod mock;
pub mod utils;
pub mod weight;
