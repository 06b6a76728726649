use vstd::prelude::*;
use vstd::string::StringExecFns;

verus! {

/// The names, within the `clippy::` namespace, of the rules that are allowed
/// during a run without autofix: the `style` group, then every single rule
/// that the codebase still violates. The list is meant to shrink as
/// violations are fixed, or as rules are allowed for good elsewhere.
pub open spec fn migratory_rule_names() -> Seq<Seq<char>> {
    seq![
        "style"@,
        "almost_complete_range"@,
        "arc_with_non_send_sync"@,
        "await_holding_lock"@,
        "bool_comparison"@,
        "borrow_deref_ref"@,
        "borrowed_box"@,
        "cast_abs_to_unsigned"@,
        "clone_on_copy"@,
        "cmp_owned"@,
        "crate_in_macro_def"@,
        "default_constructed_unit_structs"@,
        "derivable_impls"@,
        "derive_ord_xor_partial_ord"@,
        "drain_collect"@,
        "eq_op"@,
        "expect_fun_call"@,
        "explicit_auto_deref"@,
        "explicit_counter_loop"@,
        "extra_unused_lifetimes"@,
        "filter_map_identity"@,
        "identity_op"@,
        "implied_bounds_in_impls"@,
        "iter_kv_map"@,
        "iter_overeager_cloned"@,
        "let_underscore_future"@,
        "manual_find"@,
        "manual_flatten"@,
        "map_entry"@,
        "map_flatten"@,
        "map_identity"@,
        "needless_arbitrary_self_type"@,
        "needless_borrowed_reference"@,
        "needless_lifetimes"@,
        "needless_option_as_deref"@,
        "needless_question_mark"@,
        "needless_update"@,
        "never_loop"@,
        "non_canonical_clone_impl"@,
        "non_canonical_partial_ord_impl"@,
        "nonminimal_bool"@,
        "option_as_ref_deref"@,
        "option_map_unit_fn"@,
        "redundant_closure_call"@,
        "redundant_guards"@,
        "redundant_locals"@,
        "reversed_empty_ranges"@,
        "search_is_some"@,
        "single_char_pattern"@,
        "single_range_in_vec_init"@,
        "suspicious_to_owned"@,
        "to_string_in_format_args"@,
        "too_many_arguments"@,
        "type_complexity"@,
        "unit_arg"@,
        "unnecessary_cast"@,
        "unnecessary_filter_map"@,
        "unnecessary_find_map"@,
        "unnecessary_operation"@,
        "unnecessary_to_owned"@,
        "unnecessary_unwrap"@,
        "useless_conversion"@,
        "useless_format"@,
        "vec_init_then_push"@,
    ]
}

/// A rule name qualified with the linter's namespace.
pub open spec fn qualified(name: Seq<char>) -> Seq<char> {
    "clippy::"@ + name
}

/// The rules to allow, fully qualified, in the order of the list.
pub open spec fn migratory_rules() -> Seq<Seq<char>> {
    migratory_rule_names().map_values(|n: Seq<char>| qualified(n))
}

fn rule_names() -> (r: Vec<&'static str>)
    ensures
        r@.map_values(|s: &str| s@) == migratory_rule_names(),
{
    let r: Vec<&'static str> = vec![
        "style",
        "almost_complete_range",
        "arc_with_non_send_sync",
        "await_holding_lock",
        "bool_comparison",
        "borrow_deref_ref",
        "borrowed_box",
        "cast_abs_to_unsigned",
        "clone_on_copy",
        "cmp_owned",
        "crate_in_macro_def",
        "default_constructed_unit_structs",
        "derivable_impls",
        "derive_ord_xor_partial_ord",
        "drain_collect",
        "eq_op",
        "expect_fun_call",
        "explicit_auto_deref",
        "explicit_counter_loop",
        "extra_unused_lifetimes",
        "filter_map_identity",
        "identity_op",
        "implied_bounds_in_impls",
        "iter_kv_map",
        "iter_overeager_cloned",
        "let_underscore_future",
        "manual_find",
        "manual_flatten",
        "map_entry",
        "map_flatten",
        "map_identity",
        "needless_arbitrary_self_type",
        "needless_borrowed_reference",
        "needless_lifetimes",
        "needless_option_as_deref",
        "needless_question_mark",
        "needless_update",
        "never_loop",
        "non_canonical_clone_impl",
        "non_canonical_partial_ord_impl",
        "nonminimal_bool",
        "option_as_ref_deref",
        "option_map_unit_fn",
        "redundant_closure_call",
        "redundant_guards",
        "redundant_locals",
        "reversed_empty_ranges",
        "search_is_some",
        "single_char_pattern",
        "single_range_in_vec_init",
        "suspicious_to_owned",
        "to_string_in_format_args",
        "too_many_arguments",
        "type_complexity",
        "unit_arg",
        "unnecessary_cast",
        "unnecessary_filter_map",
        "unnecessary_find_map",
        "unnecessary_operation",
        "unnecessary_to_owned",
        "unnecessary_unwrap",
        "useless_conversion",
        "useless_format",
        "vec_init_then_push",
    ];
    assert(r@.map_values(|s: &str| s@) =~= migratory_rule_names());
    r
}

/// The rules to allow, as strings, in the order of `migratory_rules`.
pub fn migratory_rules_to_allow() -> (r: Vec<String>)
    ensures
        r@.map_values(|s: String| s@) == migratory_rules(),
{
    let names = rule_names();
    let ghost spec_names = names@.map_values(|s: &str| s@);
    let mut r: Vec<String> = Vec::new();
    let mut i: usize = 0;
    while i < names.len()
        invariant
            spec_names == migratory_rule_names(),
            spec_names == names@.map_values(|s: &str| s@),
            i <= names.len(),
            r@.map_values(|s: String| s@) == migratory_rules().take(i as int),
        decreases names.len() - i,
    {
        let mut rule = "clippy::".to_owned();
        rule.append(names[i]);
        assert(spec_names[i as int] == names@[i as int]@);
        assert(rule@ == qualified(spec_names[i as int]));
        assert(migratory_rules()[i as int] == qualified(migratory_rule_names()[i as int]));
        let ghost before = r@.map_values(|s: String| s@);
        r.push(rule);
        assert(r@.map_values(|s: String| s@) =~= before.push(rule@));
        assert(migratory_rules().take(i + 1) =~= migratory_rules().take(i as int).push(
            migratory_rules()[i as int],
        ));
        i = i + 1;
    }
    assert(migratory_rules().take(names.len() as int) =~= migratory_rules());
    r
}

/// Every rule on the list is named in the `clippy::` namespace, so none of
/// them reads as a flag.
pub proof fn lemma_rules_start_with_c()
    ensures
        forall|i: int|
            0 <= i < migratory_rules().len() ==> (#[trigger] migratory_rules()[i]).len() > 0
                && migratory_rules()[i][0] == 'c',
{
    reveal_strlit("clippy::");
    assert forall|i: int| 0 <= i < migratory_rules().len() implies (#[trigger] migratory_rules()[i]).len()
        > 0 && migratory_rules()[i][0] == 'c' by {
        assert(migratory_rules()[i] == qualified(migratory_rule_names()[i]));
        assert(migratory_rules()[i][0] == "clippy::"@[0]);
    }
}

} // verus!
