//! A buffered, line-oriented reader that decodes a byte stream from a chosen
//! character encoding into Unicode text.
//!
//! Lines are delimited in the raw byte domain, at the newline byte, and each
//! raw line is decoded on its own. [`BufReaderEncoding`] reads from bytes held
//! in memory; [`LineDecoder`] is the part that decodes, for callers that read
//! their raw lines elsewhere.

pub mod codec;
pub mod decoder;
pub mod error;
pub mod lines;
pub mod reader;
pub mod source;

pub use codec::Codec;
pub use decoder::LineDecoder;
pub use error::ReadError;
pub use lines::Lines;
pub use reader::BufReaderEncoding;
pub use source::ByteSource;
