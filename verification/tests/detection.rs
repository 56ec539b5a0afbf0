//! Tests of the two-phase variant detection on synthetic host evidence.

use sp_variant::{
    build_variants, detect_from_evidence, probe_filenames, FileEvidence, VariantError,
    VariantKind,
};

fn all_missing(n: usize) -> Vec<FileEvidence> {
    (0..n).map(|_| FileEvidence::Missing).collect()
}

fn order_position(kind: VariantKind) -> usize {
    let all = build_variants();
    all.order.iter().position(|k| *k == kind).unwrap()
}

#[test]
fn test_detect() {
    let all = build_variants();
    let os_release = FileEvidence::Content(
        "PRETTY_NAME=\"Debian GNU/Linux 11 (bullseye)\"\nID=debian\nVERSION_ID=\"11\"\n"
            .to_string(),
    );
    let probes = all_missing(all.order.len());
    let variant = detect_from_evidence(&all, &os_release, &probes).unwrap();
    println!("Detected {kind}", kind = variant.kind.as_str());
    assert_eq!(variant.kind, VariantKind::Debian11);
}

#[test]
fn detect_primary_ubuntu() {
    let all = build_variants();
    let os_release = FileEvidence::Content(
        "ID=ubuntu\nVERSION_ID=\"22.04\"\nVERSION_CODENAME=jammy\n".to_string(),
    );
    let probes = all_missing(all.order.len());
    let variant = detect_from_evidence(&all, &os_release, &probes).unwrap();
    assert_eq!(variant.kind, VariantKind::Ubuntu2204);
}

#[test]
fn detect_fallback_succeeds() {
    let all = build_variants();
    let mut probes = all_missing(all.order.len());
    probes[order_position(VariantKind::Centos7)] =
        FileEvidence::Content("CentOS Linux release 7.9.2009 (Core)\n".to_string());
    let variant = detect_from_evidence(&all, &FileEvidence::Missing, &probes).unwrap();
    assert_eq!(variant.kind, VariantKind::Centos7);
}

#[test]
fn detect_fallback_unknown() {
    let all = build_variants();
    let probes = all_missing(all.order.len());
    assert!(matches!(
        detect_from_evidence(&all, &FileEvidence::Missing, &probes),
        Err(VariantError::UnknownVariant)
    ));
}

#[test]
fn detect_fallback_no_match() {
    let all = build_variants();
    let mut probes = all_missing(all.order.len());
    probes[order_position(VariantKind::Centos7)] =
        FileEvidence::Content("Fedora release 35 (Thirty Five)\n".to_string());
    assert!(matches!(
        detect_from_evidence(&all, &FileEvidence::Missing, &probes),
        Err(VariantError::UnknownVariant)
    ));
}

#[test]
fn detect_priority_order() {
    let all = build_variants();
    let oracle_pos = order_position(VariantKind::Oracle7);
    let centos_pos = order_position(VariantKind::Centos7);
    assert!(oracle_pos < centos_pos);

    let mut probes = all_missing(all.order.len());
    probes[oracle_pos] =
        FileEvidence::Content("Oracle Linux Server release 7.9\n".to_string());
    probes[centos_pos] =
        FileEvidence::Content("CentOS Linux release 7.6.1810 (Core)\n".to_string());
    // Both fallback probes match their variant; the earlier one wins.
    let variant = detect_from_evidence(&all, &FileEvidence::Missing, &probes).unwrap();
    assert_eq!(variant.kind, VariantKind::Oracle7);
}

#[test]
fn detect_primary_mismatch_falls_through() {
    let all = build_variants();
    let mut probes = all_missing(all.order.len());
    probes[order_position(VariantKind::Centos7)] =
        FileEvidence::Content("CentOS Linux release 7.9.2009 (Core)\n".to_string());
    // The primary file parses but no variant matches its ID; detection
    // falls through to phase 2 without an error.
    let os_release =
        FileEvidence::Content("ID=gentoo\nVERSION_ID=\"2.14\"\n".to_string());
    let variant = detect_from_evidence(&all, &os_release, &probes).unwrap();
    assert_eq!(variant.kind, VariantKind::Centos7);
}

#[test]
fn detect_primary_without_keys_falls_through() {
    let all = build_variants();
    let mut probes = all_missing(all.order.len());
    probes[order_position(VariantKind::Centos7)] =
        FileEvidence::Content("CentOS Linux release 7.9.2009 (Core)\n".to_string());
    let os_release = FileEvidence::Content("NAME=\"Some OS\"\n".to_string());
    let variant = detect_from_evidence(&all, &os_release, &probes).unwrap();
    assert_eq!(variant.kind, VariantKind::Centos7);
}

#[test]
fn detect_primary_malformed_fails() {
    let all = build_variants();
    let probes = all_missing(all.order.len());
    let os_release = FileEvidence::Content("FOO BAR=baz\n".to_string());
    assert!(matches!(
        detect_from_evidence(&all, &os_release, &probes),
        Err(VariantError::OsRelease(_))
    ));
}

#[test]
fn detect_primary_unreadable_fails() {
    let all = build_variants();
    let probes = all_missing(all.order.len());
    let os_release = FileEvidence::Unreadable("permission denied".to_string());
    assert!(matches!(
        detect_from_evidence(&all, &os_release, &probes),
        Err(VariantError::OsRelease(sp_variant::yai::YAIError::FileRead(cause)))
            if cause == "permission denied"
    ));
}

#[test]
fn detect_probe_unreadable_fails() {
    let all = build_variants();
    let mut probes = all_missing(all.order.len());
    probes[0] = FileEvidence::Unreadable("permission denied".to_string());
    let first_kind = all.order[0];
    match detect_from_evidence(&all, &FileEvidence::Missing, &probes) {
        Err(VariantError::FileRead(kind, filename, cause)) => {
            assert_eq!(kind, first_kind.as_str());
            assert_eq!(filename, all.variants[0].detect.filename);
            assert_eq!(cause, "permission denied");
        }
        other => panic!("expected a file read error, got {other:?}"),
    }
}

#[test]
fn detect_probe_undecodable_skipped() {
    let all = build_variants();
    let mut probes = all_missing(all.order.len());
    probes[0] = FileEvidence::Undecodable;
    probes[order_position(VariantKind::Centos7)] =
        FileEvidence::Content("CentOS Linux release 7.9.2009 (Core)\n".to_string());
    let variant = detect_from_evidence(&all, &FileEvidence::Missing, &probes).unwrap();
    assert_eq!(variant.kind, VariantKind::Centos7);
}

#[test]
fn probe_filenames_match_table() {
    let all = build_variants();
    let names = probe_filenames(&all);
    assert_eq!(names.len(), all.order.len());
    for (idx, name) in names.iter().enumerate() {
        assert_eq!(*name, all.variants[idx].detect.filename);
    }
    assert_eq!(names[order_position(VariantKind::Centos7)], "/etc/redhat-release");
    assert_eq!(names[order_position(VariantKind::Debian11)], "/etc/os-release");
}
