use vstd::prelude::*;
use crate::invocation::{
    allow_flags, allowed_args, cargo_args, deny_flags, lint_args, spec_command_args, warning_args,
};
use crate::rules::{lemma_rules_start_with_c, migratory_rules};

verus! {

/// The lengths and leading characters of the fixed words of the vector, from
/// which any two of them are told apart.
proof fn lemma_words()
    ensures
        "clippy"@.len() == 6,
        "--package"@.len() == 9,
        "--workspace"@.len() == 11,
        "--release"@.len() == 9,
        "--all-targets"@.len() == 13,
        "--all-features"@.len() == 14,
        "--fix"@.len() == 5,
        "--"@.len() == 2,
        "--deny"@.len() == 6,
        "warnings"@.len() == 8,
        "--allow"@.len() == 7,
        "clippy::dbg_macro"@.len() == 17,
        "clippy::todo"@.len() == 12,
        "clippy"@[0] == 'c',
        "--package"@[0] == '-',
        "--package"@[2] == 'p',
        "--workspace"@[0] == '-',
        "--release"@[0] == '-',
        "--release"@[2] == 'r',
        "--all-targets"@[0] == '-',
        "--all-features"@[0] == '-',
        "--fix"@[0] == '-',
        "--"@[0] == '-',
        "--deny"@[0] == '-',
        "--allow"@[0] == '-',
{
    reveal_strlit("--allow");
    reveal_strlit("clippy");
    reveal_strlit("--package");
    reveal_strlit("--workspace");
    reveal_strlit("--release");
    reveal_strlit("--all-targets");
    reveal_strlit("--all-features");
    reveal_strlit("--fix");
    reveal_strlit("--");
    reveal_strlit("--deny");
    reveal_strlit("warnings");
    reveal_strlit("clippy::dbg_macro");
    reveal_strlit("clippy::todo");
}

/// The arguments before the separator, word by word.
proof fn lemma_cargo_shape(fix: bool, package: Option<Seq<char>>)
    ensures
        fix && package is Some ==> cargo_args(fix, package) == seq![
            "clippy"@,
            "--package"@,
            package->0,
            "--release"@,
            "--all-targets"@,
            "--all-features"@,
            "--fix"@,
        ],
        !fix && package is Some ==> cargo_args(fix, package) == seq![
            "clippy"@,
            "--package"@,
            package->0,
            "--release"@,
            "--all-targets"@,
            "--all-features"@,
        ],
        fix && package is None ==> cargo_args(fix, package) == seq![
            "clippy"@,
            "--workspace"@,
            "--release"@,
            "--all-targets"@,
            "--all-features"@,
            "--fix"@,
        ],
        !fix && package is None ==> cargo_args(fix, package) == seq![
            "clippy"@,
            "--workspace"@,
            "--release"@,
            "--all-targets"@,
            "--all-features"@,
        ],
{
    let c = cargo_args(fix, package);
    match package {
        Some(p) => {
            if fix {
                assert(c =~= seq![
                    "clippy"@,
                    "--package"@,
                    p,
                    "--release"@,
                    "--all-targets"@,
                    "--all-features"@,
                    "--fix"@,
                ]);
            } else {
                assert(c =~= seq![
                    "clippy"@,
                    "--package"@,
                    p,
                    "--release"@,
                    "--all-targets"@,
                    "--all-features"@,
                ]);
            }
        },
        None => {
            if fix {
                assert(c =~= seq![
                    "clippy"@,
                    "--workspace"@,
                    "--release"@,
                    "--all-targets"@,
                    "--all-features"@,
                    "--fix"@,
                ]);
            } else {
                assert(c =~= seq![
                    "clippy"@,
                    "--workspace"@,
                    "--release"@,
                    "--all-targets"@,
                    "--all-features"@,
                ]);
            }
        },
    }
}

/// The arguments after the separator, position by position: the warnings
/// flag, then the allow flags, then the four words of the deny flags.
proof fn lemma_lint_shape(fix: bool, deny_warnings: bool)
    ensures
        ({
            let l = lint_args(fix, deny_warnings);
            let w = warning_args(deny_warnings).len() as int;
            let m = allowed_args(fix).len() as int;
            &&& deny_warnings ==> w == 2 && l[0] == "--deny"@ && l[1] == "warnings"@
            &&& !deny_warnings ==> w == 0
            &&& fix ==> m == 0
            &&& !fix ==> m == 2 * migratory_rules().len()
            &&& l.len() == w + m + 4
            &&& forall|k: int|
                w <= k < w + m ==> #[trigger] l[k] == if (k - w) % 2 == 0 {
                    "--allow"@
                } else {
                    migratory_rules()[(k - w) / 2]
                }
            &&& l[w + m] == "--deny"@
            &&& l[w + m + 1] == "clippy::dbg_macro"@
            &&& l[w + m + 2] == "--deny"@
            &&& l[w + m + 3] == "clippy::todo"@
        }),
{
    let l = lint_args(fix, deny_warnings);
    let w = warning_args(deny_warnings).len() as int;
    let m = allowed_args(fix).len() as int;
    assert forall|k: int| w <= k < w + m implies #[trigger] l[k] == if (k - w) % 2 == 0 {
        "--allow"@
    } else {
        migratory_rules()[(k - w) / 2]
    } by {
        assert(l[k] == allowed_args(fix)[k - w]);
    }
    assert(l[w + m] == deny_flags()[0]);
    assert(l[w + m + 1] == deny_flags()[1]);
    assert(l[w + m + 2] == deny_flags()[2]);
    assert(l[w + m + 3] == deny_flags()[3]);
}

/// Position `i` holds the flag `flag` followed by the value `value`.
pub open spec fn has_pair_at(a: Seq<Seq<char>>, i: int, flag: Seq<char>, value: Seq<char>) -> bool {
    0 <= i && i + 1 < a.len() && a[i] == flag && a[i + 1] == value
}

/// Position `i` holds an allow flag for one of the migratory rules.
pub open spec fn is_rule_allow_at(a: Seq<Seq<char>>, i: int) -> bool {
    0 <= i && i + 1 < a.len() && a[i] == "--allow"@ && migratory_rules().contains(a[i + 1])
}

/// With autofix, no migratory rule is allowed; the word `--allow` can only
/// stand in the vector as the name of the package.
pub proof fn lemma_autofix_allows_nothing(package: Option<Seq<char>>, deny_warnings: bool)
    ensures
        forall|i: int| !#[trigger] is_rule_allow_at(spec_command_args(true, package, deny_warnings), i),
        forall|i: int|
            0 <= i < spec_command_args(true, package, deny_warnings).len()
                && #[trigger] spec_command_args(true, package, deny_warnings)[i] == "--allow"@
                ==> i == 2 && package == Some("--allow"@),
{
    let a = spec_command_args(true, package, deny_warnings);
    let c = cargo_args(true, package);
    lemma_rules_start_with_c();
    lemma_words();
    lemma_cargo_shape(true, package);
    lemma_lint_shape(true, deny_warnings);
    assert forall|i: int| 0 <= i < a.len() && #[trigger] a[i] == "--allow"@ implies i == 2
        && package == Some("--allow"@) by {
        let l = lint_args(true, deny_warnings);
        if i < c.len() {
            assert(a[i] == c[i]);
        } else if i == c.len() {
            assert(a[i] == "--"@);
        } else {
            assert(a[i] == l[i - c.len() - 1]);
        }
    }
    assert forall|i: int| !#[trigger] is_rule_allow_at(a, i) by {
        if is_rule_allow_at(a, i) {
            let j = choose|j: int| 0 <= j < migratory_rules().len() && migratory_rules()[j] == a[i + 1];
            assert(a[3] == "--release"@);
            assert(migratory_rules()[j][0] == 'c');
            assert("--release"@[0] == '-');
        }
    }
}

/// Without autofix, the vector holds one allow flag per migratory rule, in
/// the order of the list, right after the separator and the warnings flag;
/// an allow flag for a migratory rule stands nowhere else.
pub proof fn lemma_allow_flags_in_order(package: Option<Seq<char>>, deny_warnings: bool)
    ensures
        ({
            let a = spec_command_args(false, package, deny_warnings);
            let base = (cargo_args(false, package).len() + 1 + warning_args(deny_warnings).len()) as int;
            let n = migratory_rules().len() as int;
            &&& base + 2 * n <= a.len()
            &&& a.subrange(base, base + 2 * n) == allow_flags(migratory_rules())
            &&& forall|i: int|
                #[trigger] is_rule_allow_at(a, i) <==> base <= i < base + 2 * n && (i - base) % 2
                    == 0
        }),
{
    let a = spec_command_args(false, package, deny_warnings);
    let c = cargo_args(false, package);
    let l = lint_args(false, deny_warnings);
    let w = warning_args(deny_warnings).len() as int;
    let base = c.len() + 1 + w;
    let n = migratory_rules().len() as int;
    lemma_rules_start_with_c();
    lemma_words();
    lemma_cargo_shape(false, package);
    lemma_lint_shape(false, deny_warnings);
    assert forall|k: int| c.len() < k < a.len() implies #[trigger] a[k] == l[k - c.len() - 1] by {}
    assert(a.subrange(base, base + 2 * n) =~= allow_flags(migratory_rules())) by {
        assert forall|k: int| 0 <= k < 2 * n implies a.subrange(base, base + 2 * n)[k]
            == allow_flags(migratory_rules())[k] by {
            assert(a[base + k] == l[w + k]);
        }
    }
    assert forall|i: int| #[trigger] is_rule_allow_at(a, i) implies base <= i < base + 2 * n && (i
        - base) % 2 == 0 by {
        let j = choose|j: int| 0 <= j < migratory_rules().len() && migratory_rules()[j] == a[i + 1];
        assert(migratory_rules()[j][0] == 'c');
        if i < c.len() {
            assert(a[i] == c[i]);
            assert(a[3] == "--release"@);
        } else if i == c.len() {
            assert(a[i] == "--"@);
        } else {
            assert(a[i] == l[i - c.len() - 1]);
            if base <= i < base + 2 * n {
                let r = migratory_rules()[(i - base) / 2];
                if (i - base) % 2 != 0 {
                    assert(a[i] == r);
                    assert(r[0] == 'c');
                }
            }
        }
    }
    assert forall|i: int| base <= i < base + 2 * n && (i - base) % 2 == 0 implies
        #[trigger] is_rule_allow_at(a, i) by {
        assert(a[i] == l[i - c.len() - 1]);
        assert(a[i + 1] == l[i + 1 - c.len() - 1]);
        assert(a[i + 1] == migratory_rules()[(i + 1 - base) / 2]);
    }
}

/// The two deny flags close the vector, each present exactly once, after
/// every allow flag.
pub proof fn lemma_deny_flags_last(fix: bool, package: Option<Seq<char>>, deny_warnings: bool)
    ensures
        ({
            let a = spec_command_args(fix, package, deny_warnings);
            let n = a.len() as int;
            &&& n >= 4
            &&& a.subrange(n - 4, n) == deny_flags()
            &&& forall|i: int|
                #[trigger] has_pair_at(a, i, "--deny"@, "clippy::dbg_macro"@) <==> i == n - 4
            &&& forall|i: int|
                #[trigger] has_pair_at(a, i, "--deny"@, "clippy::todo"@) <==> i == n - 2
            &&& forall|i: int| 0 <= i < n && #[trigger] a[i] == "--allow"@ ==> i < n - 4
        }),
{
    let a = spec_command_args(fix, package, deny_warnings);
    let c = cargo_args(fix, package);
    let l = lint_args(fix, deny_warnings);
    let n = a.len() as int;
    lemma_rules_start_with_c();
    lemma_words();
    lemma_cargo_shape(fix, package);
    lemma_lint_shape(fix, deny_warnings);
    let w = warning_args(deny_warnings).len() as int;
    let m = allowed_args(fix).len() as int;
    assert forall|k: int| c.len() < k < a.len() implies #[trigger] a[k] == l[k - c.len() - 1] by {}
    assert(a.subrange(n - 4, n) =~= deny_flags()) by {
        assert(a[n - 4] == l[w + m]);
        assert(a[n - 3] == l[w + m + 1]);
        assert(a[n - 2] == l[w + m + 2]);
        assert(a[n - 1] == l[w + m + 3]);
    }
    assert forall|i: int| 0 <= i < n - 1 && a[i] == "--deny"@ implies i == 2 || i == n - 4 || i
        == n - 2 || (deny_warnings && i == c.len() + 1) by {
        if i < c.len() {
            assert(a[i] == c[i]);
        } else if i == c.len() {
            assert(a[i] == "--"@);
        } else {
            let k = i - c.len() - 1;
            assert(a[i] == l[k]);
            if w <= k < w + m && (k - w) % 2 != 0 {
                assert(migratory_rules()[(k - w) / 2][0] == 'c');
            }
        }
    }
    assert(a[3] == c[3]);
    if deny_warnings {
        assert(a[c.len() + 2int] == "warnings"@);
    }
    assert(a[n - 3] == "clippy::dbg_macro"@);
    assert(a[n - 1] == "clippy::todo"@);
    assert forall|i: int| 0 <= i < n && #[trigger] a[i] == "--allow"@ implies i < n - 4 by {
        if i >= n - 4 {
            assert(a[n - 4] == "--deny"@);
            assert(a[n - 2] == "--deny"@);
        }
    }
}

/// A named package is linted with `--package <name>` and without the
/// workspace flag (unless the name is itself that flag); with no package the
/// workspace flag stands and `--package` does not.
pub proof fn lemma_scope_selector(fix: bool, package: Option<Seq<char>>, deny_warnings: bool)
    requires
        package != Some("--workspace"@),
    ensures
        ({
            let a = spec_command_args(fix, package, deny_warnings);
            match package {
                Some(p) => has_pair_at(a, 1, "--package"@, p) && forall|i: int|
                    0 <= i < a.len() ==> #[trigger] a[i] != "--workspace"@,
                None => a[1] == "--workspace"@ && forall|i: int|
                    0 <= i < a.len() ==> #[trigger] a[i] != "--package"@,
            }
        }),
{
    let a = spec_command_args(fix, package, deny_warnings);
    let c = cargo_args(fix, package);
    let l = lint_args(fix, deny_warnings);
    lemma_rules_start_with_c();
    lemma_words();
    lemma_cargo_shape(fix, package);
    lemma_lint_shape(fix, deny_warnings);
    let w = warning_args(deny_warnings).len() as int;
    let m = allowed_args(fix).len() as int;
    assert(a[1] == c[1]);
    assert(a[2] == c[2]);
    assert forall|i: int| 0 <= i < a.len() && !(package is None && i == 1) implies #[trigger] a[i]
        != "--workspace"@ && (package is None ==> a[i] != "--package"@) by {
        if i < c.len() {
            assert(a[i] == c[i]);
        } else if i == c.len() {
            assert(a[i] == "--"@);
        } else {
            let k = i - c.len() - 1;
            assert(a[i] == l[k]);
            if w <= k < w + m && (k - w) % 2 != 0 {
                assert(migratory_rules()[(k - w) / 2][0] == 'c');
            }
        }
    }
}

} // verus!
