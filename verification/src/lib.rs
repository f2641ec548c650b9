//! Classification of archive/compression package formats.
//!
//! A closed set of download formats (tar, gzip, bzip2, xz, zstd, zip, raw
//! binary, and their tar-combinations), with a canonical decomposition into
//! container plus compressor, the recognized file-extension spellings per
//! platform, and a best-effort inference of the format from the trailing
//! dot-separated segments of a URL-like string.

mod formats;
mod infer;

pub use formats::PkgFmt;
pub use formats::PkgFmtDecomposed;
pub use formats::TarBasedFmt;
pub use formats::spec_decompose;
pub use formats::spec_extensions;
pub use formats::spec_tar_to_pkg;
pub use formats::lemma_decompose_tar_roundtrip;
pub use infer::spec_guess;
pub use infer::spec_token_format;
pub use infer::spec_rfind_dot;
pub use infer::spec_tar_upgrade;
pub use infer::lemma_guess_depends_on_chars_alone;
