use pkg_formats::PkgFmt;
use pkg_formats::PkgFmtDecomposed;
use pkg_formats::TarBasedFmt;

#[test]
fn default_is_tgz() {
    assert_eq!(PkgFmt::default(), PkgFmt::Tgz);
}

#[test]
fn decompose_roundtrip_all_variants() {
    let all = [
        PkgFmt::Tar,
        PkgFmt::Tbz2,
        PkgFmt::Bz2,
        PkgFmt::Tgz,
        PkgFmt::Gz,
        PkgFmt::Txz,
        PkgFmt::Xz,
        PkgFmt::Tzstd,
        PkgFmt::Zst,
        PkgFmt::Zip,
        PkgFmt::Bin,
    ];
    for fmt in all {
        if let PkgFmtDecomposed::Tar(tar) = fmt.decompose() {
            assert_eq!(PkgFmt::from(tar), fmt);
        }
    }
}

#[test]
fn decompose_table() {
    assert_eq!(PkgFmt::Tar.decompose(), PkgFmtDecomposed::Tar(TarBasedFmt::Tar));
    assert_eq!(PkgFmt::Tbz2.decompose(), PkgFmtDecomposed::Tar(TarBasedFmt::Tbz2));
    assert_eq!(PkgFmt::Bz2.decompose(), PkgFmtDecomposed::Bz2);
    assert_eq!(PkgFmt::Tgz.decompose(), PkgFmtDecomposed::Tar(TarBasedFmt::Tgz));
    assert_eq!(PkgFmt::Gz.decompose(), PkgFmtDecomposed::Gz);
    assert_eq!(PkgFmt::Txz.decompose(), PkgFmtDecomposed::Tar(TarBasedFmt::Txz));
    assert_eq!(PkgFmt::Xz.decompose(), PkgFmtDecomposed::Xz);
    assert_eq!(PkgFmt::Tzstd.decompose(), PkgFmtDecomposed::Tar(TarBasedFmt::Tzstd));
    assert_eq!(PkgFmt::Zst.decompose(), PkgFmtDecomposed::Zst);
    assert_eq!(PkgFmt::Zip.decompose(), PkgFmtDecomposed::Zip);
    assert_eq!(PkgFmt::Bin.decompose(), PkgFmtDecomposed::Bin);
}

#[test]
fn extensions_windows_exe() {
    assert!(PkgFmt::Bin.extensions(true).contains(&".exe"));
    assert!(!PkgFmt::Bin.extensions(false).contains(&".exe"));
}

#[test]
fn extensions_tables() {
    assert_eq!(PkgFmt::Tar.extensions(false), vec![".tar"]);
    assert_eq!(PkgFmt::Tbz2.extensions(false), vec![".tbz2", ".tar.bz2"]);
    assert_eq!(PkgFmt::Bz2.extensions(false), vec![".bz2"]);
    assert_eq!(PkgFmt::Tgz.extensions(false), vec![".tgz", ".tar.gz"]);
    assert_eq!(PkgFmt::Gz.extensions(false), vec![".gz"]);
    assert_eq!(PkgFmt::Txz.extensions(false), vec![".txz", ".tar.xz"]);
    assert_eq!(PkgFmt::Xz.extensions(false), vec![".xz"]);
    assert_eq!(PkgFmt::Tzstd.extensions(false), vec![".tzstd", ".tzst", ".tar.zst"]);
    assert_eq!(PkgFmt::Zst.extensions(false), vec![".zst"]);
    assert_eq!(PkgFmt::Zip.extensions(false), vec![".zip"]);
    assert_eq!(PkgFmt::Bin.extensions(false), vec![".bin", ""]);
    assert_eq!(PkgFmt::Bin.extensions(true), vec![".bin", "", ".exe"]);
}

#[test]
fn extensions_same_on_both_platforms_except_bin() {
    let all = [
        PkgFmt::Tar,
        PkgFmt::Tbz2,
        PkgFmt::Bz2,
        PkgFmt::Tgz,
        PkgFmt::Gz,
        PkgFmt::Txz,
        PkgFmt::Xz,
        PkgFmt::Tzstd,
        PkgFmt::Zst,
        PkgFmt::Zip,
    ];
    for fmt in all {
        assert_eq!(fmt.extensions(false), fmt.extensions(true));
    }
}
