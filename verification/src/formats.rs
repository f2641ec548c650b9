use vstd::prelude::*;

verus! {

/// Binary format enumeration: the closed set of supported package formats.
#[derive(Debug, Copy, Clone, Eq, PartialEq, Structural)]
pub enum PkgFmt {
    /// Download format is TAR (uncompressed)
    Tar,
    /// Download format is TAR + Bzip2
    Tbz2,
    /// Download format is Bzip2
    Bz2,
    /// Download format is TGZ (TAR + GZip)
    Tgz,
    /// Download format is GZ (GZip)
    Gz,
    /// Download format is TAR + XZ
    Txz,
    /// Download format is XZ
    Xz,
    /// Download format is TAR + Zstd
    Tzstd,
    /// Download format is ZST (zstd)
    Zst,
    /// Download format is Zip
    Zip,
    /// Download format is raw / binary
    Bin,
}

/// A format decomposed into its container (tar or none) and compressor.
#[derive(Debug, Copy, Clone, Eq, PartialEq, Structural)]
pub enum PkgFmtDecomposed {
    Tar(TarBasedFmt),
    Bz2,
    Gz,
    Xz,
    Zst,
    Bin,
    Zip,
}

/// The closed sub-set of tar-based formats: tar plus one compressor (or none).
#[derive(Debug, Copy, Clone, Eq, PartialEq, Structural)]
pub enum TarBasedFmt {
    /// Download format is TAR (uncompressed)
    Tar,
    /// Download format is TAR + Bzip2
    Tbz2,
    /// Download format is TGZ (TAR + GZip)
    Tgz,
    /// Download format is TAR + XZ
    Txz,
    /// Download format is TAR + Zstd
    Tzstd,
}

/// The container/compressor pair of each format, per the fixed table.
pub open spec fn spec_decompose(fmt: PkgFmt) -> PkgFmtDecomposed {
    match fmt {
        PkgFmt::Tar => PkgFmtDecomposed::Tar(TarBasedFmt::Tar),
        PkgFmt::Tbz2 => PkgFmtDecomposed::Tar(TarBasedFmt::Tbz2),
        PkgFmt::Bz2 => PkgFmtDecomposed::Bz2,
        PkgFmt::Tgz => PkgFmtDecomposed::Tar(TarBasedFmt::Tgz),
        PkgFmt::Gz => PkgFmtDecomposed::Gz,
        PkgFmt::Txz => PkgFmtDecomposed::Tar(TarBasedFmt::Txz),
        PkgFmt::Xz => PkgFmtDecomposed::Xz,
        PkgFmt::Tzstd => PkgFmtDecomposed::Tar(TarBasedFmt::Tzstd),
        PkgFmt::Zst => PkgFmtDecomposed::Zst,
        PkgFmt::Bin => PkgFmtDecomposed::Bin,
        PkgFmt::Zip => PkgFmtDecomposed::Zip,
    }
}

/// The format that a tar-based format stands for: the inverse of the
/// tar arm of `spec_decompose`.
pub open spec fn spec_tar_to_pkg(fmt: TarBasedFmt) -> PkgFmt {
    match fmt {
        TarBasedFmt::Tar => PkgFmt::Tar,
        TarBasedFmt::Tbz2 => PkgFmt::Tbz2,
        TarBasedFmt::Tgz => PkgFmt::Tgz,
        TarBasedFmt::Txz => PkgFmt::Txz,
        TarBasedFmt::Tzstd => PkgFmt::Tzstd,
    }
}

/// The recognized file-extension spellings of each format, leading `.`
/// included, in priority order (the first entry is the canonical one).
/// The empty entry of the raw-binary format says that a path with no
/// extension at all is a valid match; on Windows-like targets `.exe` is
/// recognized for it as well.
pub open spec fn spec_extensions(fmt: PkgFmt, is_windows: bool) -> Seq<Seq<char>> {
    match fmt {
        PkgFmt::Tar => seq![".tar"@],
        PkgFmt::Tbz2 => seq![".tbz2"@, ".tar.bz2"@],
        PkgFmt::Bz2 => seq![".bz2"@],
        PkgFmt::Tgz => seq![".tgz"@, ".tar.gz"@],
        PkgFmt::Gz => seq![".gz"@],
        PkgFmt::Txz => seq![".txz"@, ".tar.xz"@],
        PkgFmt::Xz => seq![".xz"@],
        PkgFmt::Tzstd => seq![".tzstd"@, ".tzst"@, ".tar.zst"@],
        PkgFmt::Zst => seq![".zst"@],
        PkgFmt::Bin => if is_windows {
            seq![".bin"@, ""@, ".exe"@]
        } else {
            seq![".bin"@, ""@]
        },
        PkgFmt::Zip => seq![".zip"@],
    }
}

impl Default for PkgFmt {
    /// The default distribution format is TAR + GZip.
    fn default() -> (r: Self)
        ensures
            r == PkgFmt::Tgz,
    {
        PkgFmt::Tgz
    }
}

impl PkgFmt {
    /// If self is one of the tar based formats, return the tar variant.
    pub fn decompose(self) -> (r: PkgFmtDecomposed)
        ensures
            r == spec_decompose(self),
    {
        match self {
            PkgFmt::Tar => PkgFmtDecomposed::Tar(TarBasedFmt::Tar),
            PkgFmt::Tbz2 => PkgFmtDecomposed::Tar(TarBasedFmt::Tbz2),
            PkgFmt::Bz2 => PkgFmtDecomposed::Bz2,
            PkgFmt::Tgz => PkgFmtDecomposed::Tar(TarBasedFmt::Tgz),
            PkgFmt::Gz => PkgFmtDecomposed::Gz,
            PkgFmt::Txz => PkgFmtDecomposed::Tar(TarBasedFmt::Txz),
            PkgFmt::Xz => PkgFmtDecomposed::Xz,
            PkgFmt::Tzstd => PkgFmtDecomposed::Tar(TarBasedFmt::Tzstd),
            PkgFmt::Zst => PkgFmtDecomposed::Zst,
            PkgFmt::Bin => PkgFmtDecomposed::Bin,
            PkgFmt::Zip => PkgFmtDecomposed::Zip,
        }
    }

    /// List of possible file extensions for the format (with prefix `.`),
    /// in priority order.
    ///
    /// * `is_windows` - if true and `self == PkgFmt::Bin`, then it will
    ///   return `.exe` in addition to the other bin extension names.
    pub fn extensions(self, is_windows: bool) -> (r: &'static [&'static str])
        ensures
            r.deep_view() == spec_extensions(self, is_windows),
    {
        let r: &'static [&'static str] = match self {
            PkgFmt::Tar => &[".tar"],
            PkgFmt::Tbz2 => &[".tbz2", ".tar.bz2"],
            PkgFmt::Bz2 => &[".bz2"],
            PkgFmt::Tgz => &[".tgz", ".tar.gz"],
            PkgFmt::Gz => &[".gz"],
            PkgFmt::Txz => &[".txz", ".tar.xz"],
            PkgFmt::Xz => &[".xz"],
            PkgFmt::Tzstd => &[".tzstd", ".tzst", ".tar.zst"],
            PkgFmt::Zst => &[".zst"],
            PkgFmt::Bin => if is_windows {
                &[".bin", "", ".exe"]
            } else {
                &[".bin", ""]
            },
            PkgFmt::Zip => &[".zip"],
        };
        proof {
            assert(r.deep_view() =~= spec_extensions(self, is_windows));
        }
        r
    }
}

impl From<TarBasedFmt> for PkgFmt {
    fn from(fmt: TarBasedFmt) -> (r: Self) {
        match fmt {
            TarBasedFmt::Tar => PkgFmt::Tar,
            TarBasedFmt::Tbz2 => PkgFmt::Tbz2,
            TarBasedFmt::Tgz => PkgFmt::Tgz,
            TarBasedFmt::Txz => PkgFmt::Txz,
            TarBasedFmt::Tzstd => PkgFmt::Tzstd,
        }
    }
}

impl vstd::std_specs::convert::FromSpecImpl<TarBasedFmt> for PkgFmt {
    open spec fn obeys_from_spec() -> bool {
        true
    }

    open spec fn from_spec(fmt: TarBasedFmt) -> PkgFmt {
        spec_tar_to_pkg(fmt)
    }
}

/// Decomposing a format and, when the result is tar-based, converting the
/// inner tar-based format back, reproduces the original format.
pub proof fn lemma_decompose_tar_roundtrip(fmt: PkgFmt)
    ensures
        spec_decompose(fmt) matches PkgFmtDecomposed::Tar(t) ==> spec_tar_to_pkg(t) == fmt,
{
}

} // verus!
