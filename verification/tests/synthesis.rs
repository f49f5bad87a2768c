use a121_stubgen::generator::StubGenerator;
use a121_stubgen::groups::Capabilities;
use a121_stubgen::registry::DefaultValueMap;
use a121_stubgen::signature::FunctionSignature;
use a121_stubgen::synth::{HELPER_CALL, HELPER_SOURCE};

fn generator() -> StubGenerator {
    StubGenerator::new(Capabilities { distance: false, presence: false })
}

fn signature(name: &str, return_type: &str, parameters: &[(&str, &str)]) -> FunctionSignature {
    FunctionSignature::new(
        name.to_string(),
        return_type.to_string(),
        parameters.iter().map(|(t, n)| (t.to_string(), n.to_string())).collect(),
    )
}

#[test]
fn create_function_returns_true_after_calling_the_helper() {
    let g = generator();
    let f = g
        .parse_function_declaration("extern \"C\" fn acc_sensor_create(uint16_t id, void* buf) -> bool;")
        .unwrap();
    assert_eq!(f, signature("acc_sensor_create", "bool", &[("uint16_t", "id"), ("void*", "buf")]));
    let stub = g.generate_function_stub(&f);
    assert_eq!(
        stub,
        "bool acc_sensor_create(uint16_t id, void* buf) {\n    (void) id;\n    (void) buf;\n    fake_external_dependencies(\"dummy\", 1.0 + 2.0*I);\n    return true;\n}"
    );
}

#[test]
fn destroy_function_has_no_return_statement() {
    let g = generator();
    let f = g.parse_function_declaration("extern \"C\" fn acc_sensor_destroy(void* h);").unwrap();
    assert_eq!(f, signature("acc_sensor_destroy", "void", &[("void*", "h")]));
    let stub = g.generate_function_stub(&f);
    assert_eq!(stub, "void acc_sensor_destroy(void* h) {\n    (void) h;\n}");
    assert!(!stub.contains("return"));
}

#[test]
fn function_without_parameters_is_defined_with_void() {
    let g = generator();
    let f = g
        .parse_function_declaration("extern \"C\" fn acc_processing_get_magnitude(void) -> int32_t;")
        .unwrap();
    assert_eq!(f, signature("acc_processing_get_magnitude", "int32_t", &[]));
    let stub = g.generate_function_stub(&f);
    assert_eq!(stub, "int32_t acc_processing_get_magnitude(void) {\n    return -1;\n}");
    assert!(!stub.contains("()"));
}

#[test]
fn pointer_return_yields_null() {
    let g = generator();
    let f = signature("acc_config_get", "acc_config_t *", &[]);
    assert_eq!(g.generate_function_stub(&f), "acc_config_t * acc_config_get(void) {\n    return NULL;\n}");
}

#[test]
fn unmapped_return_yields_zeroed_local() {
    let g = generator();
    let f = signature("acc_version_get", "acc_version_t", &[("int", "x")]);
    assert_eq!(
        g.generate_function_stub(&f),
        "acc_version_t acc_version_get(int x) {\n    (void) x;\n    acc_version_t result = {};\n    return result;\n}"
    );
}

#[test]
fn registry_takes_precedence_over_pointer_marker() {
    let mut registry = DefaultValueMap::new();
    registry.insert("char*".to_string(), "\"\"".to_string());
    let g = StubGenerator { header_files: Vec::new(), return_values: registry };
    let f = signature("name", "char*", &[]);
    assert_eq!(g.generate_function_stub(&f), "char* name(void) {\n    return \"\";\n}");
}

#[test]
fn body_has_exactly_one_helper_call_for_create() {
    let g = generator();
    let f = signature("acc_config_create", "void", &[("int", "a")]);
    let body = g.body_statements(&f);
    assert_eq!(body.iter().filter(|l| l.as_str() == HELPER_CALL).count(), 1);
    let other = signature("acc_config_destroy", "void", &[("int", "a")]);
    let body = g.body_statements(&other);
    assert_eq!(body.iter().filter(|l| l.as_str() == HELPER_CALL).count(), 0);
}

#[test]
fn stub_file_has_headers_helper_and_definitions_in_order() {
    let g = generator();
    let functions = vec![
        signature("acc_sensor_create", "bool", &[("uint16_t", "id")]),
        signature("acc_sensor_destroy", "void", &[("void*", "h")]),
    ];
    let headers = vec!["acc_sensor.h".to_string(), "acc_config.h".to_string()];
    let text = g.generate_stub_file(&functions, &headers).unwrap();
    let expected = format!(
        "#include \"acc_sensor.h\"\n#include \"acc_config.h\"\n{}{}\n\n{}\n\n",
        HELPER_SOURCE,
        g.generate_function_stub(&functions[0]),
        g.generate_function_stub(&functions[1]),
    );
    assert_eq!(text, expected);
    assert_eq!(g.stub_definitions(&functions).len(), 2);
}

#[test]
fn synthesis_is_deterministic() {
    let functions = vec![
        signature("acc_sensor_create", "bool", &[("uint16_t", "id")]),
        signature("f", "float", &[]),
    ];
    let headers = vec!["a.h".to_string()];
    let first = generator().generate_stub_file(&functions, &headers).unwrap();
    let second = generator().generate_stub_file(&functions, &headers).unwrap();
    assert_eq!(first, second);
}

#[test]
fn helper_source_defines_the_helper() {
    assert!(HELPER_SOURCE.contains("float fake_external_dependencies(char* foo, complex float iq) {"));
    assert!(HELPER_SOURCE.contains("memcpy(buff, foo, 1);"));
    assert!(HELPER_SOURCE.contains("memset(foo, 0, 1);"));
    assert!(HELPER_SOURCE.contains("memmove(buff, foo, 1);"));
    assert!(HELPER_SOURCE.contains("roundf(atanf(sinf(cosf(log10f(powf(crealf(iq), 3.14))))))"));
}
