//! Tests of the variant table and its lookups.

use std::collections::HashSet;

use sp_variant::{
    build_variants, get_by_alias_from, get_format_version, get_format_version_from, get_from,
    get_program_version, get_program_version_from, VariantError,
};

#[test]
fn test_roundtrip() {
    println!();
    let all = build_variants();
    assert_eq!(all.order.len(), all.variants.len());

    let mut seen: HashSet<String> = HashSet::new();

    for (idx, kind) in all.order.iter().enumerate() {
        println!("Checking {kind}", kind = kind.as_str());
        let var = &all.variants[idx];

        let name = var.kind.as_str().to_string();
        let alias = &var.builder.alias;
        println!("- name {name} alias {alias}");
        assert_eq!(var.kind, *kind);
        assert!(!seen.contains(&name));
        seen.insert(name);

        let avar = get_by_alias_from(&all, alias).unwrap();
        assert_eq!(avar.kind, *kind);
    }

    let mut seen_vec: Vec<String> = seen.drain().collect();
    seen_vec.sort_unstable();
    println!(
        "Expected: {count_seen}, seen: {count_all}: {names}",
        count_seen = seen_vec.len(),
        count_all = all.order.len(),
        names = seen_vec.join(" ")
    );
    assert_eq!(seen_vec.len(), all.order.len());
}

#[test]
fn lookup_by_name_roundtrip() {
    let all = build_variants();
    for var in &all.variants {
        let looked_up = get_from(&all, var.kind.as_str()).unwrap();
        assert_eq!(looked_up.kind, var.kind);
    }
}

#[test]
fn table_invariant() {
    let all = build_variants();
    assert_eq!(all.order.len(), all.variants.len());
    for (idx, kind) in all.order.iter().enumerate() {
        assert_eq!(all.variants[idx].kind, *kind);
        for later in &all.order[idx + 1..] {
            assert_ne!(kind, later);
        }
    }
}

#[test]
fn command_lookup() {
    let all = build_variants();
    let var = get_from(&all, "DEBIAN11").unwrap();
    let install = var.command("package", "install").unwrap();
    assert_eq!(install[0], "env");
    assert!(install.contains(&"apt-get".to_string()));
    assert!(var.command_category("package").is_some());
    assert!(var.command_category("no-such-category").is_none());
    assert!(var.command("package", "no-such-command").is_none());
    assert!(var.command("no-such-category", "install").is_none());
}

#[test]
fn lookup_errors() {
    let all = build_variants();
    assert!(matches!(
        get_from(&all, "NO_SUCH_VARIANT"),
        Err(VariantError::BadVariant(name)) if name == "NO_SUCH_VARIANT"
    ));
    assert!(matches!(
        get_by_alias_from(&all, "no-such-alias"),
        Err(VariantError::Internal(_))
    ));
}

#[test]
fn versions() {
    let all = build_variants();
    assert_eq!(get_format_version(), (1, 0));
    assert_eq!(get_format_version_from(&all), (1, 0));
    assert_eq!(get_program_version(), "3.5.3");
    assert_eq!(get_program_version_from(&all), "3.5.3");
}
