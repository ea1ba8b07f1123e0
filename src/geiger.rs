//! Unsafe-usage counts reported by `cargo-geiger`, indexed by package.
//!
//! Counts come at three granularities: a safe/unsafe pair ([`GeigerCount`]),
//! one pair per syntactic category ([`GeigerCategories`]) and the used/unused
//! split of a whole package ([`GeigerUnsafety`]). Percentages are kept in
//! hundredths of a percent, so `3333` stands for `33.33 %`.
use vstd::prelude::*;

use crate::version::{NameVersion, NameVersionView};

verus! {

/// `part / total` as a percentage with two decimals, in hundredths of a
/// percent, rounded half away from zero; `0` when `total` is `0`.
pub open spec fn hundredths_spec(part: int, total: int) -> int {
    if total == 0 {
        0
    } else {
        (20000 * part + total) / (2 * total)
    }
}

/// Calculates the percentage `part / total`, rounded to two decimals and
/// given in hundredths of a percent.
///
/// `0 / 0` is taken to be `0` (there is no code, so none of it is unsafe).
pub fn two_digit_percentage(part: u32, total: u32) -> (r: u64)
    ensures
        r == hundredths_spec(part as int, total as int),
{
    if total == 0 {
        0
    } else {
        let num: u64 = 20000 * (part as u64) + total as u64;
        let den: u64 = 2 * (total as u64);
        num / den
    }
}

/// The percentage is exactly zero when there is nothing to count, and
/// otherwise lies within half a hundredth of `part / total * 100`.
pub proof fn percentage_boundary(part: u32, total: u32)
    ensures
        total == 0 ==> hundredths_spec(part as int, total as int) == 0,
        total > 0 ==> {
            let p = hundredths_spec(part as int, total as int);
            &&& 2 * (p * total - 10000 * part) <= total
            &&& 2 * (10000 * part - p * total) < total
        },
{
    if total > 0 {
        let t = total as int;
        let n = 20000 * (part as int) + t;
        let p = n / (2 * t);
        vstd::arithmetic::div_mod::lemma_fundamental_div_mod(n, 2 * t);
        let rem = n % (2 * t);
        assert(0 <= rem < 2 * t) by {
            vstd::arithmetic::div_mod::lemma_mod_bound(n, 2 * t);
        }
        assert(n == 2 * t * p + rem);
        assert(2 * (p * t - 10000 * part) == t - rem) by (nonlinear_arith)
            requires
                n == 2 * t * p + rem,
                n == 20000 * (part as int) + t,
        ;
    }
}

/// Lines of safe and unsafe code counted by `cargo-geiger`.
#[derive(Clone, Copy, Debug, PartialEq, Eq, Structural)]
pub struct GeigerCount {
    pub safe: u32,
    pub unsafe_: u32,
}

impl GeigerCount {
    pub open spec fn total_spec(&self) -> int {
        self.safe + self.unsafe_
    }

    /// The total amount of counts made by Geiger.
    pub fn total(&self) -> (r: u32)
        requires
            self.total_spec() <= u32::MAX,
        ensures
            r == self.total_spec(),
    {
        self.safe + self.unsafe_
    }

    /// The share of the count that is unsafe, in hundredths of a percent.
    pub fn percentage_unsafe(&self) -> (r: u64)
        requires
            self.total_spec() <= u32::MAX,
        ensures
            r == hundredths_spec(self.unsafe_ as int, self.total_spec()),
            r <= 10000,
    {
        let r = two_digit_percentage(self.unsafe_, self.total());
        proof {
            if self.total_spec() > 0 {
                let t = self.total_spec();
                let u = self.unsafe_ as int;
                assert((20000 * u + t) / (2 * t) <= 10000) by {
                    assert(20000 * u + t < 2 * t * 10001) by (nonlinear_arith)
                        requires
                            u <= t,
                            t > 0,
                    ;
                    vstd::arithmetic::div_mod::lemma_div_by_multiple_is_strongly_ordered(
                        20000 * u + t,
                        2 * t * 10001,
                        10001,
                        2 * t,
                    );
                    vstd::arithmetic::div_mod::lemma_div_by_multiple(10001, 2 * t);
                    assert((2 * t) * 10001 == 10001 * (2 * t)) by (nonlinear_arith);
                }
            }
        }
        r
    }

    /// Adds two counts field by field.
    pub fn add(self, rhs: GeigerCount) -> (r: GeigerCount)
        requires
            self.safe + rhs.safe <= u32::MAX,
            self.unsafe_ + rhs.unsafe_ <= u32::MAX,
        ensures
            r.safe == self.safe + rhs.safe,
            r.unsafe_ == self.unsafe_ + rhs.unsafe_,
    {
        GeigerCount { safe: self.safe + rhs.safe, unsafe_: self.unsafe_ + rhs.unsafe_ }
    }
}

/// The counts of every syntactic category that `cargo-geiger` looks at.
#[derive(Clone, Copy, Debug, PartialEq, Eq, Structural)]
pub struct GeigerCategories {
    pub functions: GeigerCount,
    pub exprs: GeigerCount,
    pub item_impls: GeigerCount,
    pub item_traits: GeigerCount,
    pub methods: GeigerCount,
}

impl GeigerCategories {
    pub open spec fn safe_spec(&self) -> int {
        self.functions.safe + self.exprs.safe + self.item_impls.safe + self.item_traits.safe
            + self.methods.safe
    }

    pub open spec fn unsafe_spec(&self) -> int {
        self.functions.unsafe_ + self.exprs.unsafe_ + self.item_impls.unsafe_
            + self.item_traits.unsafe_ + self.methods.unsafe_
    }

    /// Every sum over these counts fits in a `u32`.
    pub open spec fn fits(&self) -> bool {
        self.safe_spec() + self.unsafe_spec() <= u32::MAX
    }

    /// The two sets of counts added category by category.
    pub open spec fn add_spec(self, rhs: GeigerCategories) -> GeigerCategories {
        GeigerCategories {
            functions: GeigerCount {
                safe: (self.functions.safe + rhs.functions.safe) as u32,
                unsafe_: (self.functions.unsafe_ + rhs.functions.unsafe_) as u32,
            },
            exprs: GeigerCount {
                safe: (self.exprs.safe + rhs.exprs.safe) as u32,
                unsafe_: (self.exprs.unsafe_ + rhs.exprs.unsafe_) as u32,
            },
            item_impls: GeigerCount {
                safe: (self.item_impls.safe + rhs.item_impls.safe) as u32,
                unsafe_: (self.item_impls.unsafe_ + rhs.item_impls.unsafe_) as u32,
            },
            item_traits: GeigerCount {
                safe: (self.item_traits.safe + rhs.item_traits.safe) as u32,
                unsafe_: (self.item_traits.unsafe_ + rhs.item_traits.unsafe_) as u32,
            },
            methods: GeigerCount {
                safe: (self.methods.safe + rhs.methods.safe) as u32,
                unsafe_: (self.methods.unsafe_ + rhs.methods.unsafe_) as u32,
            },
        }
    }

    /// One count holding the safe and the unsafe totals of all categories.
    pub fn total(&self) -> (r: GeigerCount)
        requires
            self.fits(),
        ensures
            r.safe == self.safe_spec(),
            r.unsafe_ == self.unsafe_spec(),
    {
        self.functions.add(self.exprs).add(self.item_impls).add(self.item_traits).add(self.methods)
    }

    /// Safe counts of all categories together.
    pub fn total_safe(&self) -> (r: u32)
        requires
            self.fits(),
        ensures
            r == self.safe_spec(),
    {
        self.functions.safe + self.exprs.safe + self.item_impls.safe + self.item_traits.safe
            + self.methods.safe
    }

    /// Unsafe counts of all categories together.
    pub fn total_unsafe(&self) -> (r: u32)
        requires
            self.fits(),
        ensures
            r == self.unsafe_spec(),
    {
        self.functions.unsafe_ + self.exprs.unsafe_ + self.item_impls.unsafe_
            + self.item_traits.unsafe_ + self.methods.unsafe_
    }

    /// Adds two sets of categories, category by category.
    pub fn add(self, rhs: GeigerCategories) -> (r: GeigerCategories)
        requires
            self.safe_spec() + self.unsafe_spec() + rhs.safe_spec() + rhs.unsafe_spec()
                <= u32::MAX,
        ensures
            r == self.add_spec(rhs),
            r.safe_spec() == self.safe_spec() + rhs.safe_spec(),
            r.unsafe_spec() == self.unsafe_spec() + rhs.unsafe_spec(),
    {
        GeigerCategories {
            functions: self.functions.add(rhs.functions),
            exprs: self.exprs.add(rhs.exprs),
            item_impls: self.item_impls.add(rhs.item_impls),
            item_traits: self.item_traits.add(rhs.item_traits),
            methods: self.methods.add(rhs.methods),
        }
    }
}

/// The `cargo-geiger` report for one package: counts in code that the
/// analysed package uses and in code that it does not use.
#[derive(Clone, Copy, Debug, PartialEq, Eq, Structural)]
pub struct GeigerUnsafety {
    pub used: GeigerCategories,
    pub unused: GeigerCategories,
    pub forbids_unsafe: bool,
}

impl GeigerUnsafety {
    pub open spec fn safe_spec(&self) -> int {
        self.used.safe_spec() + self.unused.safe_spec()
    }

    pub open spec fn unsafe_spec(&self) -> int {
        self.used.unsafe_spec() + self.unused.unsafe_spec()
    }

    /// Every sum over these counts fits in a `u32`.
    pub open spec fn fits(&self) -> bool {
        self.safe_spec() + self.unsafe_spec() <= u32::MAX
    }

    /// Used and unused counts added category by category.
    pub fn total(&self) -> (r: GeigerCategories)
        requires
            self.fits(),
        ensures
            r == self.used.add_spec(self.unused),
            r.safe_spec() == self.safe_spec(),
            r.unsafe_spec() == self.unsafe_spec(),
    {
        self.used.add(self.unused)
    }

    pub fn used_safe(&self) -> (r: u32)
        requires
            self.fits(),
        ensures
            r == self.used.safe_spec(),
    {
        self.used.total_safe()
    }

    pub fn used_unsafe(&self) -> (r: u32)
        requires
            self.fits(),
        ensures
            r == self.used.unsafe_spec(),
    {
        self.used.total_unsafe()
    }

    pub fn unused_safe(&self) -> (r: u32)
        requires
            self.fits(),
        ensures
            r == self.unused.safe_spec(),
    {
        self.unused.total_safe()
    }

    pub fn unused_unsafe(&self) -> (r: u32)
        requires
            self.fits(),
        ensures
            r == self.unused.unsafe_spec(),
    {
        self.unused.total_unsafe()
    }

    pub fn total_safe(&self) -> (r: u32)
        requires
            self.fits(),
        ensures
            r == self.safe_spec(),
    {
        self.used_safe() + self.unused_safe()
    }

    pub fn total_unsafe(&self) -> (r: u32)
        requires
            self.fits(),
        ensures
            r == self.unsafe_spec(),
    {
        self.used_unsafe() + self.unused_unsafe()
    }

    /// The share of all counted code, used or not, that is unsafe, in
    /// hundredths of a percent.
    pub fn percentage_unsafe(&self) -> (r: u64)
        requires
            self.fits(),
        ensures
            r == hundredths_spec(self.unsafe_spec(), self.safe_spec() + self.unsafe_spec()),
    {
        two_digit_percentage(self.total_unsafe(), self.total_safe() + self.total_unsafe())
    }
}

/// A package as `cargo-geiger` identifies it.
pub struct GeigerPackage {
    pub id: NameVersion,
}

/// One entry of the report: a package and its counts.
pub struct GeigerPackageOutput {
    pub package: GeigerPackage,
    pub unsafety: GeigerUnsafety,
}

/// The full report of one `cargo-geiger` run.
pub struct GeigerOutput {
    pub packages: Vec<GeigerPackageOutput>,
}

impl GeigerOutput {
    pub open spec fn entries(&self) -> Seq<(NameVersionView, GeigerUnsafety)> {
        self.packages@.map_values(|p: GeigerPackageOutput| (p.package.id@, p.unsafety))
    }

    /// A report with no packages, used when the tool could not be run.
    pub fn empty() -> (r: GeigerOutput)
        ensures
            r.entries().len() == 0,
    {
        GeigerOutput { packages: Vec::new() }
    }
}

/// The counts recorded for `key`: the last entry of the report with that
/// name and version, as a map filled in report order keeps it.
pub open spec fn unsafety_for(
    entries: Seq<(NameVersionView, GeigerUnsafety)>,
    key: NameVersionView,
) -> Option<GeigerUnsafety>
    decreases entries.len(),
{
    if entries.len() == 0 {
        None
    } else if entries.last().0 == key {
        Some(entries.last().1)
    } else {
        unsafety_for(entries.drop_last(), key)
    }
}

/// Unsafe-usage data of a package and its dependencies, indexed by name
/// and version.
pub struct GeigerClient {
    output: GeigerOutput,
}

impl GeigerClient {
    pub closed spec fn entries(&self) -> Seq<(NameVersionView, GeigerUnsafety)> {
        self.output.entries()
    }

    /// Builds the index from a parsed report.
    pub fn from_output(output: GeigerOutput) -> (r: GeigerClient)
        ensures
            r.entries() == output.entries(),
    {
        GeigerClient { output }
    }

    /// The counts recorded for a package, if the report holds it.
    pub fn unsafety(&self, gid: &NameVersion) -> (r: Option<GeigerUnsafety>)
        ensures
            r == unsafety_for(self.entries(), gid@),
    {
        let packages = &self.output.packages;
        let mut i: usize = packages.len();
        assert(self.entries().subrange(0, i as int) =~= self.entries());
        while i > 0
            invariant
                i <= packages@.len(),
                packages == &self.output.packages,
                unsafety_for(self.entries(), gid@) == unsafety_for(
                    self.entries().subrange(0, i as int),
                    gid@,
                ),
            decreases i,
        {
            let p = &packages[i - 1];
            let ghost prefix = self.entries().subrange(0, i as int);
            assert(prefix.drop_last() == self.entries().subrange(0, i - 1));
            if p.package.id.same_as(gid) {
                return Some(p.unsafety);
            }
            i = i - 1;
        }
        assert(self.entries().subrange(0, 0).len() == 0);
        None
    }
}

/// How the analysed package's features are chosen.
pub enum FeatureOpt {
    AllFeatures,
    NoDefaultFeatures,
    SomeFeatures(Vec<String>),
}

pub open spec fn feature_opt_args(f: FeatureOpt) -> Seq<Seq<char>> {
    match f {
        FeatureOpt::AllFeatures => seq!["--all-features"@],
        FeatureOpt::NoDefaultFeatures => seq!["--no-default-features"@],
        FeatureOpt::SomeFeatures(names) => if names@.len() == 0 {
            Seq::empty()
        } else {
            seq!["--features"@] + names@.map_values(|n: String| n@)
        },
    }
}

/// The arguments that each feature option adds, in order.
pub open spec fn features_args(fs: Seq<FeatureOpt>) -> Seq<Seq<char>>
    decreases fs.len(),
{
    if fs.len() == 0 {
        Seq::empty()
    } else {
        features_args(fs.drop_last()) + feature_opt_args(fs.last())
    }
}

/// The fixed arguments: JSON output without colour or progress, for the
/// given manifest.
pub open spec fn base_args(manifest_path: Seq<char>) -> Seq<Seq<char>> {
    seq![
        "--output-format"@,
        "Json"@,
        "--color"@,
        "never"@,
        "--quiet"@,
        "--manifest-path"@,
        manifest_path,
    ]
}

fn push_str(args: &mut Vec<String>, s: &str)
    ensures
        final(args)@.map_values(|a: String| a@) == old(args)@.map_values(|a: String| a@).push(
            s@,
        ),
{
    let ghost before = args@;
    args.push(s.to_owned());
    assert(args@.map_values(|a: String| a@) =~= before.map_values(|a: String| a@).push(s@));
}

/// The command-line arguments that `cargo-geiger` is run with for a
/// manifest and a feature selection.
pub fn geiger_args(manifest_path: &str, features: &Vec<FeatureOpt>) -> (r: Vec<String>)
    ensures
        r@.map_values(|a: String| a@) == base_args(manifest_path@) + features_args(features@),
{
    let mut args: Vec<String> = Vec::new();
    push_str(&mut args, "--output-format");
    push_str(&mut args, "Json");
    push_str(&mut args, "--color");
    push_str(&mut args, "never");
    push_str(&mut args, "--quiet");
    push_str(&mut args, "--manifest-path");
    push_str(&mut args, manifest_path);
    proof {
        reveal_strlit("--output-format");
        reveal_strlit("Json");
        reveal_strlit("--color");
        reveal_strlit("never");
        reveal_strlit("--quiet");
        reveal_strlit("--manifest-path");
        assert(args@.map_values(|a: String| a@) =~= base_args(manifest_path@) + features_args(
            features@.subrange(0, 0),
        ));
    }
    let mut i: usize = 0;
    while i < features.len()
        invariant
            i <= features@.len(),
            args@.map_values(|a: String| a@) == base_args(manifest_path@) + features_args(
                features@.subrange(0, i as int),
            ),
        decreases features@.len() - i,
    {
        let ghost before = args@.map_values(|a: String| a@);
        match &features[i] {
            FeatureOpt::AllFeatures => {
                push_str(&mut args, "--all-features");
            },
            FeatureOpt::NoDefaultFeatures => {
                push_str(&mut args, "--no-default-features");
            },
            FeatureOpt::SomeFeatures(names) => {
                if names.len() > 0 {
                    push_str(&mut args, "--features");
                    let mut j: usize = 0;
                    while j < names.len()
                        invariant
                            j <= names@.len(),
                            args@.map_values(|a: String| a@) == before + seq!["--features"@]
                                + names@.subrange(0, j as int).map_values(|n: String| n@),
                        decreases names@.len() - j,
                    {
                        push_str(&mut args, names[j].as_str());
                        proof {
                            assert(names@.subrange(0, j + 1).map_values(|n: String| n@)
                                =~= names@.subrange(0, j as int).map_values(|n: String| n@).push(
                                names@[j as int]@,
                            ));
                        }
                        j = j + 1;
                    }
                    assert(names@.subrange(0, j as int) =~= names@);
                }
            },
        }
        proof {
            reveal_strlit("--all-features");
            reveal_strlit("--no-default-features");
            reveal_strlit("--features");
            let fs = features@.subrange(0, i + 1);
            assert(fs.drop_last() =~= features@.subrange(0, i as int));
            assert(fs.last() == features@[i as int]);
            assert(args@.map_values(|a: String| a@) =~= base_args(manifest_path@) + features_args(
                fs,
            ));
        }
        i = i + 1;
    }
    assert(features@.subrange(0, features@.len() as int) =~= features@);
    args
}

} // verus!
