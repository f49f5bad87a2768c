//! What holds of every synthesized source, stated and proved.

use vstd::prelude::*;
use crate::extract::{
    spec_distinct_declarations, spec_has_name, spec_keep_distinct, spec_parse_declaration,
};
use crate::generator::spec_enabled_header_groups;
use crate::groups::{
    spec_activation, spec_artifact, spec_enabled_groups, spec_is_active, spec_library_name,
    Capabilities, GroupId,
};
use crate::library::{spec_library_directives, spec_link_directives, spec_stub_linker_directives};
use crate::registry::spec_default_values;
use crate::signature::SignatureView;
use crate::stub::{spec_archives_to_validate, spec_artifacts, spec_group_plans};
use crate::synth::{
    spec_body, spec_declarator, spec_function_stub, spec_helper_statements, spec_parameter_list, spec_return_statements, spec_stub_definitions,
    spec_stub_file, spec_unused_statements, HELPER_CALL,
};
use crate::text::{
    lemma_find_char, lemma_find_char_none, lemma_not_contained, lemma_occurrence_is_found,
    lemma_strip_prefix_keeps_char,
    lemma_strip_suffix_keeps_char, lemma_trim_end_within, lemma_trim_start_within, spec_contains,
    spec_find, spec_starts_with, spec_strip_prefix_all, spec_strip_suffix_char_all, spec_trim,
    spec_trim_start,
};

verus! {

/// How often `line` occurs among `lines`.
pub open spec fn spec_count(lines: Seq<Seq<char>>, line: Seq<char>) -> nat
    decreases lines.len(),
{
    if lines.len() == 0 {
        0
    } else {
        spec_count(lines.drop_last(), line) + (if lines.last() == line {
            1nat
        } else {
            0nat
        })
    }
}

/// Counting in two lists joined is counting in each and adding up.
pub proof fn lemma_count_joined(a: Seq<Seq<char>>, b: Seq<Seq<char>>, line: Seq<char>)
    ensures
        spec_count(a + b, line) == spec_count(a, line) + spec_count(b, line),
    decreases b.len(),
{
    if b.len() == 0 {
        assert(a + b =~= a);
    } else {
        lemma_count_joined(a, b.drop_last(), line);
        assert((a + b).drop_last() =~= a + b.drop_last());
        assert((a + b).last() == b.last());
    }
}

/// A line that is none of `lines` occurs zero times among them.
pub proof fn lemma_count_absent(lines: Seq<Seq<char>>, line: Seq<char>)
    requires
        forall|i: int| 0 <= i < lines.len() ==> lines[i] != line,
    ensures
        spec_count(lines, line) == 0,
    decreases lines.len(),
{
    if lines.len() > 0 {
        lemma_count_absent(lines.drop_last(), line);
    }
}

/// The parameter list of a definition is never empty: a function without
/// parameters is defined with `void` between the parentheses, and any other
/// with its parameters.
pub proof fn lemma_parameter_list_is_never_empty(params: Seq<(Seq<char>, Seq<char>)>)
    ensures
        spec_parameter_list(params).len() > 0,
        params.len() == 0 ==> spec_parameter_list(params) == "void"@,
{
    reveal_strlit("void");
    reveal_strlit(" ");
}

/// The body of the stub for a function whose name contains `create` calls
/// the helper function exactly once; the body of any other stub never
/// calls it.
pub proof fn lemma_helper_is_called_once_for_create(
    f: SignatureView,
    registry: Map<Seq<char>, Seq<char>>,
)
    ensures
        spec_contains(f.name, "create"@) ==> spec_count(spec_body(f, registry), HELPER_CALL@) == 1,
        !spec_contains(f.name, "create"@) ==> spec_count(spec_body(f, registry), HELPER_CALL@)
            == 0,
{
    let call = HELPER_CALL@;
    let unused = spec_unused_statements(f.parameters);
    let helper = spec_helper_statements(f.name);
    let ending = spec_return_statements(f.return_type, registry);
    reveal_strlit("    fake_external_dependencies(\"dummy\", 1.0 + 2.0*I);");
    reveal_strlit("    (void) ");
    reveal_strlit("    return ");
    reveal_strlit("    return NULL;");
    reveal_strlit("    return result;");
    reveal_strlit("    ");
    reveal_strlit(" result = {};");
    reveal_strlit(";");
    assert(call.len() == 53);
    assert(call[4] == 'f');
    assert forall|i: int| 0 <= i < unused.len() implies unused[i] != call by {
        assert(unused[i][4] == '(');
    }
    assert forall|i: int| 0 <= i < ending.len() implies ending[i] != call by {
        let line = ending[i];
        if line == call {
            if registry.contains_key(f.return_type) {
                assert(line[4] == 'r');
            } else if spec_contains(f.return_type, seq!['*']) {
            } else if i == 0 {
                assert(line[line.len() - 2] == '}');
                assert(call[51] == ')');
            }
        }
    }
    lemma_count_absent(unused, call);
    lemma_count_absent(ending, call);
    lemma_count_joined(unused, helper, call);
    lemma_count_joined(unused + helper, ending, call);
    if spec_contains(f.name, "create"@) {
        assert(helper.drop_last() =~= Seq::<Seq<char>>::empty());
        assert(spec_count(helper.drop_last(), call) == 0);
        assert(helper.last() == call);
        assert(spec_count(helper, call) == 1);
    } else {
        assert(spec_count(helper, call) == 0);
    }
}


/// The names of `functions`, in order.
pub open spec fn spec_names(functions: Seq<SignatureView>) -> Seq<Seq<char>> {
    Seq::new(functions.len(), |i: int| functions[i].name)
}

/// Whether no two of `functions` share a name.
pub open spec fn spec_names_differ(functions: Seq<SignatureView>) -> bool {
    forall|i: int, j: int|
        0 <= i < j < functions.len() ==> (#[trigger] functions[i]).name != (
        #[trigger] functions[j]).name
}

/// What `spec_keep_distinct` keeps: `kept` stays in front, every name of
/// `found` is then present, each addition is one of `found`, and no name
/// comes twice if none did in `kept`.
pub proof fn lemma_keep_distinct_keeps(kept: Seq<SignatureView>, found: Seq<SignatureView>)
    ensures
        kept.len() <= spec_keep_distinct(kept, found).len(),
        spec_keep_distinct(kept, found).take(kept.len() as int) == kept,
        forall|k: int|
            0 <= k < found.len() ==> spec_has_name(
                spec_keep_distinct(kept, found),
                (#[trigger] found[k]).name,
            ),
        forall|i: int|
            kept.len() <= i < spec_keep_distinct(kept, found).len() ==> found.contains(
                #[trigger] spec_keep_distinct(kept, found)[i],
            ),
        spec_names_differ(kept) ==> spec_names_differ(spec_keep_distinct(kept, found)),
    decreases found.len(),
{
    let all = spec_keep_distinct(kept, found);
    if found.len() == 0 {
        assert(all.take(kept.len() as int) =~= kept);
    } else {
        let init = spec_keep_distinct(kept, found.drop_last());
        let last = found.last();
        lemma_keep_distinct_keeps(kept, found.drop_last());
        assert(all.take(kept.len() as int) =~= init.take(kept.len() as int));
        assert forall|k: int| 0 <= k < found.len() implies spec_has_name(
            all,
            (#[trigger] found[k]).name,
        ) by {
            if k < found.len() - 1 {
                assert(found.drop_last()[k] == found[k]);
                let w = choose|w: int| 0 <= w < init.len() && init[w].name == found[k].name;
                assert(all[w].name == found[k].name);
            } else if spec_has_name(init, last.name) {
            } else {
                assert(all[all.len() - 1].name == last.name);
            }
        }
        assert forall|i: int| kept.len() <= i < all.len() implies found.contains(
            #[trigger] all[i],
        ) by {
            if i < init.len() {
                let w = choose|w: int|
                    0 <= w < found.drop_last().len() && found.drop_last()[w] == init[i];
                assert(found[w] == all[i]);
            } else {
                assert(found[found.len() - 1] == all[i]);
            }
        }
        if spec_names_differ(kept) {
            assert forall|i: int, j: int| 0 <= i < j < all.len() implies (#[trigger] all[i]).name
                != (#[trigger] all[j]).name by {
                if j < init.len() {
                    assert(init[i].name != init[j].name);
                } else {
                    assert(init[i].name != last.name);
                }
            }
        }
    }
}

/// Where no two of the signatures at hand share a name, all of them are
/// kept, in their order.
pub proof fn lemma_keep_distinct_keeps_all(kept: Seq<SignatureView>, found: Seq<SignatureView>)
    requires
        spec_names_differ(kept + found),
    ensures
        spec_keep_distinct(kept, found) == kept + found,
    decreases found.len(),
{
    if found.len() == 0 {
        assert(kept + found =~= kept);
    } else {
        let init = found.drop_last();
        let all = kept + found;
        assert(spec_names_differ(kept + init)) by {
            assert forall|i: int, j: int| 0 <= i < j < (kept + init).len() implies (
            #[trigger] (kept + init)[i]).name != (#[trigger] (kept + init)[j]).name by {
                assert((kept + init)[i] == all[i]);
                assert((kept + init)[j] == all[j]);
            }
        }
        lemma_keep_distinct_keeps_all(kept, init);
        assert(!spec_has_name(kept + init, found.last().name)) by {
            if spec_has_name(kept + init, found.last().name) {
                let w = choose|w: int|
                    0 <= w < (kept + init).len() && (kept + init)[w].name == found.last().name;
                assert((kept + init)[w] == all[w]);
                assert(all[all.len() - 1] == found.last());
            }
        }
        assert((kept + init).push(found.last()) =~= kept + found);
    }
}

/// Headers that declare no name twice have each of their declarations
/// defined, in the order of declaration.
pub proof fn lemma_distinct_declarations_are_all_kept(declared: Seq<SignatureView>)
    requires
        spec_names_differ(declared),
    ensures
        spec_distinct_declarations(declared) == declared,
{
    assert(Seq::<SignatureView>::empty() + declared =~= declared);
    lemma_keep_distinct_keeps_all(Seq::empty(), declared);
}

/// A source file defines one function for each distinct name that the
/// headers of its group declare: as many definitions as distinct names,
/// none for a name twice, none left out, and each for the first
/// declaration of its name.
pub proof fn lemma_one_definition_per_declared_name(
    declared: Seq<SignatureView>,
    registry: Map<Seq<char>, Seq<char>>,
)
    ensures
        spec_stub_definitions(spec_distinct_declarations(declared), registry).len()
            == spec_names(declared).to_set().len(),
        spec_names_differ(spec_distinct_declarations(declared)),
        forall|k: int|
            0 <= k < declared.len() ==> spec_has_name(
                spec_distinct_declarations(declared),
                (#[trigger] declared[k]).name,
            ),
        forall|i: int|
            0 <= i < spec_distinct_declarations(declared).len() ==> declared.contains(
                #[trigger] spec_distinct_declarations(declared)[i],
            ),
{
    let kept = spec_distinct_declarations(declared);
    lemma_keep_distinct_keeps(Seq::empty(), declared);
    let names = spec_names(kept);
    assert(names.no_duplicates()) by {
        assert forall|i: int, j: int| 0 <= i < names.len() && 0 <= j < names.len() && i
            != j implies names[i] != names[j] by {
            if i < j {
                assert(kept[i].name != kept[j].name);
            } else {
                assert(kept[j].name != kept[i].name);
            }
        }
    }
    names.unique_seq_to_set();
    assert(names.to_set() =~= spec_names(declared).to_set()) by {
        assert forall|n: Seq<char>| names.to_set().contains(n) implies spec_names(
            declared,
        ).to_set().contains(n) by {
            let i = choose|i: int| 0 <= i < names.len() && names[i] == n;
            assert(declared.contains(kept[i]));
            let k = choose|k: int| 0 <= k < declared.len() && declared[k] == kept[i];
            assert(spec_names(declared)[k] == n);
        }
        assert forall|n: Seq<char>| spec_names(declared).to_set().contains(n) implies names.to_set().contains(
            n,
        ) by {
            let k = choose|k: int| 0 <= k < declared.len() && spec_names(declared)[k] == n;
            assert(spec_has_name(kept, declared[k].name));
            let w = choose|w: int| 0 <= w < kept.len() && kept[w].name == declared[k].name;
            assert(names[w] == n);
        }
    }
}

/// Every definition of a source file states the return type, the name and
/// the parameters of its signature, in this order, before its body.
pub proof fn lemma_definition_states_its_signature(
    functions: Seq<SignatureView>,
    registry: Map<Seq<char>, Seq<char>>,
    i: int,
)
    requires
        0 <= i < functions.len(),
    ensures
        spec_starts_with(
            spec_stub_definitions(functions, registry)[i],
            functions[i].return_type + " "@ + functions[i].name + "("@ + spec_parameter_list(
                functions[i].parameters,
            ) + ")"@,
        ),
{
    let f = functions[i];
    let d = spec_declarator(f);
    let stub = spec_function_stub(f, registry);
    assert(stub.take(d.len() as int) =~= d);
}

/// Synthesis is a function of what it is given: from equal signatures,
/// headers and registries comes the same source text.
pub proof fn lemma_synthesis_is_deterministic(
    functions: Seq<SignatureView>,
    headers: Seq<Seq<char>>,
    registry: Map<Seq<char>, Seq<char>>,
    functions_again: Seq<SignatureView>,
    headers_again: Seq<Seq<char>>,
    registry_again: Map<Seq<char>, Seq<char>>,
)
    requires
        functions =~= functions_again,
        headers =~= headers_again,
        registry =~= registry_again,
    ensures
        spec_stub_file(functions, headers, registry) == spec_stub_file(
            functions_again,
            headers_again,
            registry_again,
        ),
{
}


/// What a stub returns, by the kind of its return type: for a type that the
/// registry covers, the registered literal; for any other type with a `*`
/// in its name, the null pointer; for the rest, a local of that type,
/// initialized to zero. A stub for `void` returns nothing.
pub proof fn lemma_return_by_kind(return_type: Seq<char>, registry: Map<Seq<char>, Seq<char>>)
    ensures
        return_type == "void"@ ==> spec_return_statements(return_type, registry)
            == Seq::<Seq<char>>::empty(),
        return_type != "void"@ && registry.contains_key(return_type) ==> spec_return_statements(
            return_type,
            registry,
        ) == seq!["    return "@ + registry[return_type] + ";"@],
        return_type != "void"@ && !registry.contains_key(return_type) && spec_contains(
            return_type,
            seq!['*'],
        ) ==> spec_return_statements(return_type, registry) == seq!["    return NULL;"@],
        return_type != "void"@ && !registry.contains_key(return_type) && !spec_contains(
            return_type,
            seq!['*'],
        ) ==> spec_return_statements(return_type, registry) == seq![
            "    "@ + return_type + " result = {};"@,
            "    return result;"@,
        ],
{
}

/// Text in which no `*` stands does not contain one.
proof fn lemma_without_star(s: Seq<char>)
    requires
        forall|k: int| 0 <= k < s.len() ==> s[k] != '*',
    ensures
        !spec_contains(s, seq!['*']),
{
    lemma_find_char_none(s, '*');
}

/// No type name with a `*` is `void`, and the standard registry covers none.
pub proof fn lemma_standard_registry_covers_no_pointer(return_type: Seq<char>)
    requires
        spec_contains(return_type, seq!['*']),
    ensures
        return_type != "void"@,
        !spec_default_values().contains_key(return_type),
{
    reveal_strlit("void");
    lemma_without_star("void"@);
    reveal_strlit("bool");
    lemma_without_star("bool"@);
    reveal_strlit("uint8_t");
    lemma_without_star("uint8_t"@);
    reveal_strlit("uint16_t");
    lemma_without_star("uint16_t"@);
    reveal_strlit("uint32_t");
    lemma_without_star("uint32_t"@);
    reveal_strlit("float");
    lemma_without_star("float"@);
    reveal_strlit("int32_t");
    lemma_without_star("int32_t"@);
    reveal_strlit("acc_config_profile_t");
    lemma_without_star("acc_config_profile_t"@);
    reveal_strlit("acc_config_idle_state_t");
    lemma_without_star("acc_config_idle_state_t"@);
    reveal_strlit("acc_config_prf_t");
    lemma_without_star("acc_config_prf_t"@);
    reveal_strlit("acc_rss_test_state_t");
    lemma_without_star("acc_rss_test_state_t"@);
    reveal_strlit("acc_detector_distance_threshold_method_t");
    lemma_without_star("acc_detector_distance_threshold_method_t"@);
    reveal_strlit("acc_detector_distance_peak_sorting_t");
    lemma_without_star("acc_detector_distance_peak_sorting_t"@);
    reveal_strlit("acc_sensor_id_t");
    lemma_without_star("acc_sensor_id_t"@);
    reveal_strlit("acc_detector_distance_reflector_shape_t");
    lemma_without_star("acc_detector_distance_reflector_shape_t"@);
}

/// The standard registry holds one literal for each type that it covers:
/// `true` for `bool`, a number for each numeric type, and one enumerator
/// for each enumeration of the SDK.
pub proof fn lemma_standard_registry_entries()
    ensures
        spec_default_values().dom().finite(),
        spec_default_values().dom().len() == 14,
        spec_default_values().contains_pair("bool"@, "true"@),
        spec_default_values().contains_pair("uint8_t"@, "0"@),
        spec_default_values().contains_pair("uint16_t"@, "0"@),
        spec_default_values().contains_pair("uint32_t"@, "0"@),
        spec_default_values().contains_pair("float"@, "0.1"@),
        spec_default_values().contains_pair("int32_t"@, "-1"@),
        spec_default_values().contains_pair("acc_config_profile_t"@, "ACC_CONFIG_PROFILE_3"@),
        spec_default_values().contains_pair(
            "acc_config_idle_state_t"@,
            "ACC_CONFIG_IDLE_STATE_SLEEP"@,
        ),
        spec_default_values().contains_pair("acc_config_prf_t"@, "ACC_CONFIG_PRF_13_0_MHZ"@),
        spec_default_values().contains_pair(
            "acc_rss_test_state_t"@,
            "ACC_RSS_TEST_STATE_COMPLETE"@,
        ),
        spec_default_values().contains_pair(
            "acc_detector_distance_threshold_method_t"@,
            "ACC_DETECTOR_DISTANCE_THRESHOLD_METHOD_FIXED_STRENGTH"@,
        ),
        spec_default_values().contains_pair(
            "acc_detector_distance_peak_sorting_t"@,
            "ACC_DETECTOR_DISTANCE_PEAK_SORTING_STRONGEST"@,
        ),
        spec_default_values().contains_pair("acc_sensor_id_t"@, "1"@),
        spec_default_values().contains_pair(
            "acc_detector_distance_reflector_shape_t"@,
            "ACC_DETECTOR_DISTANCE_REFLECTOR_SHAPE_GENERIC"@,
        ),
{
    reveal_strlit("bool");
    reveal_strlit("uint8_t");
    reveal_strlit("uint16_t");
    reveal_strlit("uint32_t");
    reveal_strlit("float");
    reveal_strlit("int32_t");
    reveal_strlit("acc_config_profile_t");
    reveal_strlit("acc_config_idle_state_t");
    reveal_strlit("acc_config_prf_t");
    reveal_strlit("acc_rss_test_state_t");
    reveal_strlit("acc_detector_distance_threshold_method_t");
    reveal_strlit("acc_detector_distance_peak_sorting_t");
    reveal_strlit("acc_sensor_id_t");
    reveal_strlit("acc_detector_distance_reflector_shape_t");
    assert("uint8_t"@[0] != "int32_t"@[0]);
    assert("uint16_t"@[4] != "uint32_t"@[4]);
    assert("acc_config_profile_t"@[4] != "acc_rss_test_state_t"@[4]);
    assert("bool"@.len() == 4);
    assert("uint8_t"@.len() == 7);
    assert("uint16_t"@.len() == 8);
    assert("uint32_t"@.len() == 8);
    assert("float"@.len() == 5);
    assert("int32_t"@.len() == 7);
    assert("acc_config_profile_t"@.len() == 20);
    assert("acc_config_idle_state_t"@.len() == 23);
    assert("acc_config_prf_t"@.len() == 16);
    assert("acc_rss_test_state_t"@.len() == 20);
    assert("acc_detector_distance_threshold_method_t"@.len() == 40);
    assert("acc_detector_distance_peak_sorting_t"@.len() == 36);
    assert("acc_sensor_id_t"@.len() == 15);
    assert("acc_detector_distance_reflector_shape_t"@.len() == 39);
    let keys = set![
        "bool"@,
        "uint8_t"@,
        "uint16_t"@,
        "uint32_t"@,
        "float"@,
        "int32_t"@,
        "acc_config_profile_t"@,
        "acc_config_idle_state_t"@,
        "acc_config_prf_t"@,
        "acc_rss_test_state_t"@,
        "acc_detector_distance_threshold_method_t"@,
        "acc_detector_distance_peak_sorting_t"@,
        "acc_sensor_id_t"@,
        "acc_detector_distance_reflector_shape_t"@,
    ];
    assert(spec_default_values().dom() =~= keys);
}

/// With the standard registry, a stub whose return type has a `*` in its
/// name returns the null pointer.
pub proof fn lemma_pointer_return_yields_null(return_type: Seq<char>)
    requires
        spec_contains(return_type, seq!['*']),
    ensures
        spec_return_statements(return_type, spec_default_values()) == seq!["    return NULL;"@],
{
    lemma_standard_registry_covers_no_pointer(return_type);
}


/// Two different groups share no file name and no library name.
pub proof fn lemma_groups_share_no_name(a: GroupId, b: GroupId)
    requires
        a != b,
    ensures
        spec_artifact(a).source != spec_artifact(b).source,
        spec_artifact(a).object != spec_artifact(b).object,
        spec_artifact(a).archive != spec_artifact(b).archive,
        spec_library_name(a) != spec_library_name(b),
{
    reveal_strlit("acconeer_a121_stubs.c");
    reveal_strlit("acconeer_a121_stubs.o");
    reveal_strlit("libacconeer_a121.a");
    reveal_strlit("acconeer_a121");
    reveal_strlit("acc_detector_distance_a121_stubs.c");
    reveal_strlit("acc_detector_distance_a121_stubs.o");
    reveal_strlit("libacc_detector_distance_a121.a");
    reveal_strlit("acc_detector_distance_a121");
    reveal_strlit("acc_detector_presence_a121_stubs.c");
    reveal_strlit("acc_detector_presence_a121_stubs.o");
    reveal_strlit("libacc_detector_presence_a121.a");
    reveal_strlit("acc_detector_presence_a121");
    assert("acc_detector_distance_a121_stubs.c"@[13] != "acc_detector_presence_a121_stubs.c"@[13]);
    assert("acc_detector_distance_a121_stubs.o"@[13] != "acc_detector_presence_a121_stubs.o"@[13]);
    assert("libacc_detector_distance_a121.a"@[16] != "libacc_detector_presence_a121.a"@[16]);
    assert("acc_detector_distance_a121"@[13] != "acc_detector_presence_a121"@[13]);
    assert("acconeer_a121"@.len() == 13);
    assert("acc_detector_distance_a121"@.len() == 26);
    assert("acc_detector_presence_a121"@.len() == 26);
}

/// A group that the capabilities do not switch on leaves no trace in a
/// build: it is not among the groups to process, no source, object or
/// archive of the build is one of its files, none of its archives is
/// validated, and no directive names its library to the linker.
pub proof fn lemma_disabled_group_leaves_no_trace(
    caps: Capabilities,
    id: GroupId,
    lib_path: Seq<char>,
    stub_library: bool,
)
    requires
        !spec_is_active(spec_activation(id), caps),
    ensures
        !spec_enabled_groups(caps).contains(id),
        forall|i: int|
            0 <= i < spec_enabled_header_groups(caps).len() ==> (
            #[trigger] spec_enabled_header_groups(caps)[i]).stub_file != spec_artifact(id).source,
        forall|i: int|
            0 <= i < spec_artifacts(caps).len() ==> {
                &&& (#[trigger] spec_artifacts(caps)[i]).source != spec_artifact(id).source
                &&& spec_artifacts(caps)[i].object != spec_artifact(id).object
                &&& spec_artifacts(caps)[i].archive != spec_artifact(id).archive
            },
        forall|i: int, available: bool|
            0 <= i < spec_archives_to_validate(caps, available).len() ==> (
            #[trigger] spec_archives_to_validate(caps, available)[i]) != spec_artifact(
                id,
            ).archive,
        forall|i: int|
            0 <= i < spec_link_directives(lib_path, caps, stub_library).len() ==> (
            #[trigger] spec_link_directives(lib_path, caps, stub_library)[i])
                != "cargo:rustc-link-lib=static="@ + spec_library_name(id),
{
    let groups = spec_enabled_groups(caps);
    assert forall|k: int| 0 <= k < groups.len() implies groups[k] != id by {}
    assert forall|k: int| 0 <= k < groups.len() implies {
        &&& spec_artifact(#[trigger] groups[k]).source != spec_artifact(id).source
        &&& spec_artifact(groups[k]).object != spec_artifact(id).object
        &&& spec_artifact(groups[k]).archive != spec_artifact(id).archive
        &&& spec_library_name(groups[k]) != spec_library_name(id)
    } by {
        lemma_groups_share_no_name(groups[k], id);
    }
    let wanted = "cargo:rustc-link-lib=static="@ + spec_library_name(id);
    let directives = spec_link_directives(lib_path, caps, stub_library);
    reveal_strlit("cargo:rustc-link-lib=static=");
    reveal_strlit("cargo:rustc-link-search=native=");
    reveal_strlit("cargo:rustc-linker=arm-none-eabi-gcc");
    reveal_strlit("cargo:rustc-link-arg=-mcpu=cortex-m4");
    reveal_strlit("cargo:rustc-link-arg=-mthumb");
    reveal_strlit("cargo:rustc-link-arg=-mfloat-abi=hard");
    reveal_strlit("cargo:rustc-link-arg=-mfpu=fpv4-sp-d16");
    assert(wanted[17] == 'l');
    assert(wanted[16] == '-');
    assert forall|i: int| 0 <= i < directives.len() implies (#[trigger] directives[i])
        != wanted by {
        let libraries = spec_library_directives(caps);
        if i == 0 {
            assert(directives[0][17] == 's');
        } else if i < 1 + libraries.len() {
            let k = i - 1;
            let name = spec_library_name(groups[k]);
            assert(directives[i] == "cargo:rustc-link-lib=static="@ + name);
            assert(name =~= directives[i].skip(28));
            assert(spec_library_name(id) =~= wanted.skip(28));
        } else {
            let k = i - 1 - libraries.len();
            let line = spec_stub_linker_directives()[k];
            assert(directives[i] == line);
            if k == 0 {
                assert(line[16] == 'e');
            } else {
                assert(line[17] == 'a');
            }
        }
    }
}

/// The plans of a build are its header groups, its files and its archives
/// to validate, group by group: the three lists run in parallel.
pub proof fn lemma_plans_agree_with_lists(caps: Capabilities, available: bool)
    ensures
        spec_group_plans(caps, available).len() == spec_enabled_header_groups(caps).len(),
        spec_group_plans(caps, available).len() == spec_artifacts(caps).len(),
        forall|i: int|
            0 <= i < spec_group_plans(caps, available).len() ==> {
                &&& (#[trigger] spec_group_plans(caps, available)[i]).group
                    == spec_enabled_header_groups(caps)[i]
                &&& spec_group_plans(caps, available)[i].artifact == spec_artifacts(caps)[i]
                &&& spec_group_plans(caps, available)[i].group.stub_file == spec_artifacts(
                    caps,
                )[i].source
                &&& spec_group_plans(caps, available)[i].validate == available
            },
        available ==> spec_archives_to_validate(caps, available).len() == spec_group_plans(
            caps,
            available,
        ).len(),
        forall|i: int|
            0 <= i < spec_archives_to_validate(caps, available).len() ==> (
            #[trigger] spec_archives_to_validate(caps, available)[i]) == spec_group_plans(
                caps,
                available,
            )[i].artifact.archive,
{
}

/// A line states a signature exactly if, without its qualifiers and the
/// whitespace around it, it begins with the keyword and holds an opening
/// parenthesis. The name of that signature holds no opening parenthesis:
/// it ends where the first one stands.
pub proof fn lemma_declaration_is_stated(line: Seq<char>)
    ensures
        spec_parse_declaration(line) is Some <==> spec_starts_with(
            spec_trim(spec_strip_prefix_all(line, "extern \"C\" "@)),
            "fn "@,
        ) && spec_contains(
            spec_trim(spec_strip_prefix_all(line, "extern \"C\" "@)),
            seq!['('],
        ),
        spec_parse_declaration(line) matches Some(f) ==> !spec_contains(f.name, seq!['(']),
{
    reveal_strlit("fn ");
    let bare = spec_trim(spec_strip_prefix_all(line, "extern \"C\" "@));
    let unframed = spec_strip_prefix_all(bare, "fn "@);
    let decl = spec_strip_suffix_char_all(unframed, ';');
    lemma_strip_prefix_keeps_char(bare, "fn "@, '(');
    lemma_strip_suffix_keeps_char(unframed, ';', '(');
    if spec_starts_with(bare, "fn "@) {
        lemma_find_char(decl, '(');
        match spec_find(decl, seq!['(']) {
            Some(open) => {
                let before = decl.take(open);
                assert forall|k: int| 0 <= k < before.len() implies before[k] != '(' by {
                    assert(before[k] == decl[k]);
                }
                lemma_trim_start_within(before, '(');
                lemma_trim_end_within(spec_trim_start(before), '(');
                lemma_find_char_none(spec_trim(before), '(');
            },
            None => {},
        }
    }
}

/// The library name of an optional group has 26 characters, none of them
/// an equals sign.
proof fn lemma_optional_library_name(id: GroupId)
    requires
        id != GroupId::Base,
    ensures
        spec_library_name(id).len() == 26,
        forall|k: int| 0 <= k < 26 ==> spec_library_name(id)[k] != '=',
{
    reveal_strlit("acc_detector_distance_a121");
    reveal_strlit("acc_detector_presence_a121");
}

/// Text that has at `mark` a character that `p` does not hold, and that is
/// so short that every place for `p` in it covers `mark`, holds `p`
/// nowhere.
proof fn lemma_marked_text_holds_not(s: Seq<char>, p: Seq<char>, mark: int, c: char)
    requires
        0 <= mark < s.len(),
        s[mark] == c,
        s.len() <= mark + p.len(),
        mark < p.len(),
        forall|k: int| 0 <= k < p.len() ==> p[k] != c,
    ensures
        !spec_contains(s, p),
{
    assert forall|at: int| 0 <= at && at + p.len() <= s.len() implies #[trigger] s.subrange(
        at,
        at + p.len(),
    ) != p by {
        let window = s.subrange(at, at + p.len());
        assert(window[mark - at] == s[mark]);
    }
    lemma_not_contained(s, p);
}

/// No directive of a build mentions the library of a group that the
/// capabilities do not switch on, unless the place of the archives itself
/// does.
pub proof fn lemma_disabled_library_is_not_mentioned(
    caps: Capabilities,
    id: GroupId,
    lib_path: Seq<char>,
    stub_library: bool,
)
    requires
        !spec_is_active(spec_activation(id), caps),
        !spec_contains(lib_path, spec_library_name(id)),
    ensures
        forall|i: int|
            0 <= i < spec_link_directives(lib_path, caps, stub_library).len() ==> !spec_contains(
                #[trigger] spec_link_directives(lib_path, caps, stub_library)[i],
                spec_library_name(id),
            ),
{
    let name = spec_library_name(id);
    let groups = spec_enabled_groups(caps);
    let directives = spec_link_directives(lib_path, caps, stub_library);
    let libraries = spec_library_directives(caps);
    lemma_optional_library_name(id);
    reveal_strlit("cargo:rustc-link-lib=static=");
    reveal_strlit("cargo:rustc-link-search=native=");
    reveal_strlit("cargo:rustc-linker=arm-none-eabi-gcc");
    reveal_strlit("cargo:rustc-link-arg=-mcpu=cortex-m4");
    reveal_strlit("cargo:rustc-link-arg=-mthumb");
    reveal_strlit("cargo:rustc-link-arg=-mfloat-abi=hard");
    reveal_strlit("cargo:rustc-link-arg=-mfpu=fpv4-sp-d16");
    reveal_strlit("acconeer_a121");
    assert forall|i: int| 0 <= i < directives.len() implies !spec_contains(
        #[trigger] directives[i],
        name,
    ) by {
        let d = directives[i];
        if i == 0 {
            let lead = "cargo:rustc-link-search=native="@;
            assert(d == lead + lib_path);
            assert forall|at: int| 0 <= at && at + 26 <= d.len() implies #[trigger] d.subrange(
                at,
                at + 26,
            ) != name by {
                let window = d.subrange(at, at + 26);
                if at <= 23 {
                    assert(window[23 - at] == d[23]);
                    assert(d[23] == '=');
                } else if at <= 30 {
                    assert(window[30 - at] == d[30]);
                    assert(d[30] == '=');
                } else if window == name {
                    assert(lib_path.subrange(at - 31, at - 31 + 26) =~= window);
                    lemma_occurrence_is_found(lib_path, name, at - 31);
                }
            }
            lemma_not_contained(d, name);
        } else if i < 1 + libraries.len() {
            let other = spec_library_name(groups[i - 1]);
            let lead = "cargo:rustc-link-lib=static="@;
            assert(d == lead + other);
            lemma_groups_share_no_name(groups[i - 1], id);
            assert(other.len() == 13 || other.len() == 26) by {
                if groups[i - 1] != GroupId::Base {
                    lemma_optional_library_name(groups[i - 1]);
                }
            }
            assert forall|at: int| 0 <= at && at + 26 <= d.len() implies #[trigger] d.subrange(
                at,
                at + 26,
            ) != name by {
                let window = d.subrange(at, at + 26);
                if at <= 20 {
                    assert(window[20 - at] == d[20]);
                    assert(d[20] == '=');
                } else if at <= 27 {
                    assert(window[27 - at] == d[27]);
                    assert(d[27] == '=');
                } else {
                    assert(at == 28 && other.len() == 26);
                    assert(window =~= other);
                }
            }
            lemma_not_contained(d, name);
        } else {
            let k = i - 1 - libraries.len();
            let line = spec_stub_linker_directives()[k];
            assert(d == line);
            if k == 0 {
                lemma_marked_text_holds_not(line, name, 18, '=');
            } else {
                lemma_marked_text_holds_not(line, name, 20, '=');
            }
        }
    }
}

} // verus!
