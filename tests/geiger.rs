use indicate::geiger::{
    geiger_args, two_digit_percentage, FeatureOpt, GeigerCategories, GeigerClient, GeigerCount,
    GeigerOutput, GeigerPackage, GeigerPackageOutput, GeigerUnsafety,
};
use indicate::version::{NameVersion, Version};

fn percentage(safe: u32, unsafe_: u32) -> f64 {
    two_digit_percentage(unsafe_, safe + unsafe_) as f64 / 100.0
}

#[test]
fn two_digit_percentage_cases() {
    assert_eq!(percentage(0, 0), 0.0);
    assert_eq!(percentage(3, 1), 25.0);
    assert_eq!(percentage(9, 1), 10.0);
    assert_eq!(percentage(2, 1), 33.33);
}

#[test]
fn percentage_rounds_half_up() {
    // 1 / 8 = 12.5 %, exactly representable; 1 / 6 = 16.666.. % -> 16.67
    assert_eq!(two_digit_percentage(1, 8), 1250);
    assert_eq!(two_digit_percentage(1, 6), 1667);
    assert_eq!(two_digit_percentage(5, 0), 0);
}

#[test]
fn add_geiger_counts() {
    for (s0, u0, s1, u1) in [(0, 0, 0, 0), (1, 1, 0, 0), (1, 2, 3, 4)] {
        let a = GeigerCount { safe: s0, unsafe_: u0 };
        let b = GeigerCount { safe: s1, unsafe_: u1 };
        assert_eq!(a.add(b), GeigerCount { safe: s0 + s1, unsafe_: u0 + u1 });
    }
}

fn count(safe: u32, unsafe_: u32) -> GeigerCount {
    GeigerCount { safe, unsafe_ }
}

fn categories(base: u32) -> GeigerCategories {
    GeigerCategories {
        functions: count(base, 1),
        exprs: count(base + 1, 2),
        item_impls: count(base + 2, 0),
        item_traits: count(0, 0),
        methods: count(base + 3, 3),
    }
}

#[test]
fn category_and_unsafety_totals() {
    let c = categories(10);
    assert_eq!(c.total_safe(), 10 + 11 + 12 + 13);
    assert_eq!(c.total_unsafe(), 6);
    assert_eq!(c.total(), count(46, 6));
    let u = GeigerUnsafety { used: categories(0), unused: categories(10), forbids_unsafe: false };
    assert_eq!(u.used_safe(), 6);
    assert_eq!(u.unused_safe(), 46);
    assert_eq!(u.total_safe(), 52);
    assert_eq!(u.total_unsafe(), 12);
    assert_eq!(u.total().functions, count(10, 2));
    assert_eq!(u.percentage_unsafe(), 1875);
    assert_eq!(count(3, 1).total(), 4);
    assert_eq!(count(3, 1).percentage_unsafe(), 2500);
    assert_eq!(count(0, 0).percentage_unsafe(), 0);
}

fn name_version(name: &str, patch: u64) -> NameVersion {
    NameVersion::new(
        name.to_string(),
        Version { major: 1, minor: 0, patch, pre: String::new(), build: String::new() },
    )
}

#[test]
fn geiger_client_finds_packages_by_name_and_version() {
    let entry = |name: &str, patch: u64, forbids: bool| GeigerPackageOutput {
        package: GeigerPackage { id: name_version(name, patch) },
        unsafety: GeigerUnsafety {
            used: categories(0),
            unused: categories(1),
            forbids_unsafe: forbids,
        },
    };
    let output = GeigerOutput { packages: vec![entry("libc", 1, false), entry("serde", 2, true)] };
    let client = GeigerClient::from_output(output);
    assert!(client.unsafety(&name_version("serde", 2)).unwrap().forbids_unsafe);
    assert!(!client.unsafety(&name_version("libc", 1)).unwrap().forbids_unsafe);
    assert!(client.unsafety(&name_version("serde", 1)).is_none());
    assert!(GeigerClient::from_output(GeigerOutput::empty()).unsafety(&name_version("libc", 1)).is_none());
}

#[test]
fn geiger_arguments() {
    let features = vec![
        FeatureOpt::NoDefaultFeatures,
        FeatureOpt::SomeFeatures(vec![]),
        FeatureOpt::SomeFeatures(vec!["a".to_string(), "b".to_string()]),
        FeatureOpt::AllFeatures,
    ];
    let args = geiger_args("/x/Cargo.toml", &features);
    assert_eq!(
        args,
        vec![
            "--output-format", "Json", "--color", "never", "--quiet", "--manifest-path",
            "/x/Cargo.toml", "--no-default-features", "--features", "a", "b", "--all-features",
        ]
    );
}
