use vstd::prelude::*;
use vstd::string::StringExecFns;
use crate::rules::{migratory_rules, migratory_rules_to_allow};

verus! {

/// What the user asked of a lint run.
pub struct ClippyArgs {
    /// Let the linter apply its suggestions (`clippy --fix`).
    pub fix: bool,
    /// The package to lint; the whole workspace when absent.
    pub package: Option<String>,
}

/// The text of an optional string.
pub open spec fn option_view(p: Option<String>) -> Option<Seq<char>> {
    match p {
        Some(s) => Some(s@),
        None => None,
    }
}

/// The text of each string of a sequence.
pub open spec fn strings_view(v: Seq<String>) -> Seq<Seq<char>> {
    v.map_values(|s: String| s@)
}

/// The scope selector: one named package, or the whole workspace.
pub open spec fn scope_args(package: Option<Seq<char>>) -> Seq<Seq<char>> {
    match package {
        Some(p) => seq!["--package"@, p],
        None => seq!["--workspace"@],
    }
}

/// The build-configuration flags: optimized build, all targets, all features.
pub open spec fn build_flags() -> Seq<Seq<char>> {
    seq!["--release"@, "--all-targets"@, "--all-features"@]
}

/// The autofix flag, when asked for.
pub open spec fn fix_args(fix: bool) -> Seq<Seq<char>> {
    if fix {
        seq!["--fix"@]
    } else {
        Seq::empty()
    }
}

/// The arguments that go to the cargo subcommand itself, before the separator.
pub open spec fn cargo_args(fix: bool, package: Option<Seq<char>>) -> Seq<Seq<char>> {
    seq!["clippy"@] + scope_args(package) + build_flags() + fix_args(fix)
}

/// The separator after which the flags go to the linter.
pub open spec fn separator() -> Seq<char> {
    "--"@
}

/// The flag that turns every warning into an error, where it applies.
pub open spec fn warning_args(deny_warnings: bool) -> Seq<Seq<char>> {
    if deny_warnings {
        seq!["--deny"@, "warnings"@]
    } else {
        Seq::empty()
    }
}

/// One `--allow <rule>` pair per rule, in the order of `rules`.
pub open spec fn allow_flags(rules: Seq<Seq<char>>) -> Seq<Seq<char>> {
    Seq::new(
        (2 * rules.len()) as nat,
        |k: int|
            if k % 2 == 0 {
                "--allow"@
            } else {
                rules[k / 2]
            },
    )
}

/// The allow flags of a run: none when fixing, else one per migratory rule.
pub open spec fn allowed_args(fix: bool) -> Seq<Seq<char>> {
    if fix {
        Seq::empty()
    } else {
        allow_flags(migratory_rules())
    }
}

/// The rules that are always denied: `dbg!` and `todo!`.
pub open spec fn deny_flags() -> Seq<Seq<char>> {
    seq!["--deny"@, "clippy::dbg_macro"@, "--deny"@, "clippy::todo"@]
}

/// The flags that go to the linter, after the separator.
pub open spec fn lint_args(fix: bool, deny_warnings: bool) -> Seq<Seq<char>> {
    warning_args(deny_warnings) + allowed_args(fix) + deny_flags()
}

/// The whole argument vector of a lint run.
pub open spec fn spec_command_args(
    fix: bool,
    package: Option<Seq<char>>,
    deny_warnings: bool,
) -> Seq<Seq<char>> {
    cargo_args(fix, package) + seq![separator()] + lint_args(fix, deny_warnings)
}

/// Appends one argument.
fn push_arg(v: &mut Vec<String>, s: &str)
    ensures
        strings_view(final(v)@) == strings_view(old(v)@).push(s@),
{
    v.push(s.to_owned());
    assert(strings_view(v@) =~= strings_view(old(v)@).push(s@));
}

/// Builds the argument vector for the linter. `deny_warnings` says whether
/// the platform gets the flag that turns warnings into errors.
pub fn clippy_command_args(args: &ClippyArgs, deny_warnings: bool) -> (r: Vec<String>)
    ensures
        strings_view(r@) == spec_command_args(args.fix, option_view(args.package), deny_warnings),
{
    let ghost pkg = option_view(args.package);
    let mut v: Vec<String> = Vec::new();
    push_arg(&mut v, "clippy");
    match &args.package {
        Some(p) => {
            push_arg(&mut v, "--package");
            push_arg(&mut v, p.as_str());
        },
        None => {
            push_arg(&mut v, "--workspace");
        },
    }
    push_arg(&mut v, "--release");
    push_arg(&mut v, "--all-targets");
    push_arg(&mut v, "--all-features");
    if args.fix {
        push_arg(&mut v, "--fix");
    }
    assert(strings_view(v@) =~= cargo_args(args.fix, pkg));
    push_arg(&mut v, "--");
    if deny_warnings {
        push_arg(&mut v, "--deny");
        push_arg(&mut v, "warnings");
    }
    let ghost head = cargo_args(args.fix, pkg) + seq![separator()] + warning_args(deny_warnings);
    assert(strings_view(v@) =~= head);
    if !args.fix {
        let rules = migratory_rules_to_allow();
        let mut i: usize = 0;
        while i < rules.len()
            invariant
                rules@.map_values(|s: String| s@) == migratory_rules(),
                i <= rules.len(),
                strings_view(v@) == head + allow_flags(migratory_rules().take(i as int)),
            decreases rules.len() - i,
        {
            let ghost before = strings_view(v@);
            push_arg(&mut v, "--allow");
            push_arg(&mut v, rules[i].as_str());
            assert(rules@.map_values(|s: String| s@)[i as int] == rules@[i as int]@);
            assert(allow_flags(migratory_rules().take(i + 1)) =~= allow_flags(
                migratory_rules().take(i as int),
            ).push("--allow"@).push(rules@[i as int]@));
            assert(strings_view(v@) =~= before.push("--allow"@).push(rules@[i as int]@));
            i = i + 1;
        }
        assert(migratory_rules().take(rules.len() as int) =~= migratory_rules());
    }
    assert(strings_view(v@) =~= head + allowed_args(args.fix));
    push_arg(&mut v, "--deny");
    push_arg(&mut v, "clippy::dbg_macro");
    push_arg(&mut v, "--deny");
    push_arg(&mut v, "clippy::todo");
    assert(strings_view(v@) =~= spec_command_args(args.fix, pkg, deny_warnings));
    v
}

/// The executable to run: the override from the environment when there is
/// one, else `cargo`.
pub open spec fn spec_program(env_override: Option<Seq<char>>) -> Seq<char> {
    match env_override {
        Some(p) => p,
        None => "cargo"@,
    }
}

/// Picks the executable to run from the environment's override, if any.
pub fn resolve_program(env_override: Option<String>) -> (r: String)
    ensures
        r@ == spec_program(option_view(env_override)),
{
    match env_override {
        Some(p) => p,
        None => "cargo".to_owned(),
    }
}

/// Whether warnings are turned into errors on the given target system: on
/// every one but Windows, which still has warnings present.
pub open spec fn spec_denies_warnings(target_os: Seq<char>) -> bool {
    target_os != "windows"@
}

/// Decides, from the name of the target system, whether warnings are turned
/// into errors.
pub fn denies_warnings(target_os: &str) -> (r: bool)
    ensures
        r == spec_denies_warnings(target_os@),
{
    let os = target_os.to_owned();
    let windows = "windows".to_owned();
    !(os == windows)
}

/// The words joined by single spaces.
pub open spec fn join_words(words: Seq<Seq<char>>) -> Seq<char>
    decreases words.len(),
{
    if words.len() == 0 {
        Seq::empty()
    } else if words.len() == 1 {
        words[0]
    } else {
        join_words(words.drop_last()) + " "@ + words.last()
    }
}

/// The line shown to the operator before the linter runs.
pub open spec fn spec_diagnostic_line(program: Seq<char>, args: Seq<Seq<char>>) -> Seq<char> {
    "running: "@ + program + " "@ + join_words(args)
}

/// Renders the command line that is about to run.
pub fn diagnostic_line(program: &str, args: &Vec<String>) -> (r: String)
    ensures
        r@ == spec_diagnostic_line(program@, strings_view(args@)),
{
    let ghost words = strings_view(args@);
    let mut line = "running: ".to_owned();
    line.append(program);
    line.append(" ");
    let ghost head = line@;
    let mut i: usize = 0;
    while i < args.len()
        invariant
            words == strings_view(args@),
            i <= args.len(),
            head == "running: "@ + program@ + " "@,
            line@ == head + join_words(words.take(i as int)),
        decreases args.len() - i,
    {
        let ghost before = line@;
        if i > 0 {
            line.append(" ");
        }
        line.append(args[i].as_str());
        assert(words.take(i + 1).drop_last() =~= words.take(i as int));
        assert(words[i as int] == args@[i as int]@);
        if i == 0 {
            assert(line@ =~= head + join_words(words.take(1)));
        } else {
            assert(line@ =~= head + (join_words(words.take(i as int)) + " "@ + words[i as int]));
        }
        i = i + 1;
    }
    assert(words.take(args.len() as int) =~= words);
    line
}

} // verus!
