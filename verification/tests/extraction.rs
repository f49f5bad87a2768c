use a121_stubgen::error::BuildError;
use a121_stubgen::extract::{has_name, keep_distinct, parse_declaration};
use a121_stubgen::generator::{header_names, HeaderSource, ResolvedHeader, StubGenerator};
use a121_stubgen::groups::Capabilities;
use a121_stubgen::signature::FunctionSignature;
use a121_stubgen::synth::HELPER_SOURCE;

fn base() -> StubGenerator {
    StubGenerator::new(Capabilities { distance: false, presence: false })
}

fn sig(name: &str, return_type: &str, parameters: &[(&str, &str)]) -> FunctionSignature {
    FunctionSignature {
        name: name.to_string(),
        return_type: return_type.to_string(),
        parameters: parameters.iter().map(|(t, n)| (t.to_string(), n.to_string())).collect(),
    }
}

fn parse(line: &str) -> Option<FunctionSignature> {
    base().parse_function_declaration(line)
}

#[test]
fn parses_name_parameters_and_return_type() {
    let f = parse("extern \"C\" fn acc_config_profile_get(const acc_config_t *config) -> acc_config_profile_t;");
    assert_eq!(
        f,
        Some(sig("acc_config_profile_get", "acc_config_profile_t", &[("const acc_config_t", "*config")]))
    );
}

#[test]
fn parameters_end_at_the_closing_parenthesis() {
    let f = parse("fn f(int a, float b) -> bool").unwrap();
    assert_eq!(f.parameters, vec![("int".to_string(), "a".to_string()), ("float".to_string(), "b".to_string())]);
    assert_eq!(f.return_type, "bool");
    assert_eq!(f.arity(), 2);
}

#[test]
fn declaration_without_arrow_returns_void() {
    assert_eq!(parse("fn acc_rss_init(int mode);"), Some(sig("acc_rss_init", "void", &[("int", "mode")])));
}

#[test]
fn void_parameter_list_declares_no_parameters() {
    assert_eq!(parse("fn f(void);"), Some(sig("f", "void", &[])));
    assert_eq!(parse("fn f(  void  );"), Some(sig("f", "void", &[])));
    assert_eq!(parse("fn f( void ) -> uint8_t"), Some(sig("f", "uint8_t", &[])));
}

#[test]
fn empty_parentheses_declare_no_parameters() {
    assert_eq!(parse("fn f();"), Some(sig("f", "void", &[])));
}

#[test]
fn parameter_without_a_space_is_passed_over() {
    assert_eq!(parse("fn f(int a, b, float c);"), Some(sig("f", "void", &[("int", "a"), ("float", "c")])));
}

#[test]
fn parameter_splits_at_its_last_space() {
    assert_eq!(
        parse("fn f(const unsigned  int value);"),
        Some(sig("f", "void", &[("const unsigned  int", "value")]))
    );
}

#[test]
fn line_that_is_not_a_function_is_no_declaration() {
    assert_eq!(parse("extern \"C\" {"), None);
    assert_eq!(parse("pub fn f(int a);"), None);
    assert_eq!(parse("fnf(int a);"), None);
    assert_eq!(parse(""), None);
}

#[test]
fn declaration_without_parenthesis_is_none() {
    assert_eq!(parse("fn name;"), None);
    assert_eq!(parse("fn f;"), None);
    assert_eq!(parse("fn name -> int"), None);
    assert_eq!(parse("extern \"C\" fn name -> int;"), None);
}

#[test]
fn name_ends_at_the_first_parenthesis_of_the_line() {
    assert_eq!(parse("fn f -> (x)"), Some(sig("f ->", "(x)", &[])));
    assert_eq!(parse("fn name -> int(x)"), Some(sig("name -> int", "int(x)", &[])));
    assert_eq!(
        parse("extern \"C\" fn g -> int (float a, bool b) -> char;"),
        Some(sig("g -> int", "int (float a, bool b)", &[("float", "a"), ("bool", "b")]))
    );
    assert_eq!(parse("fn (int a);"), Some(sig("", "void", &[("int", "a")])));
}

#[test]
fn parameter_text_ends_at_the_arrow_behind_the_parenthesis() {
    assert_eq!(parse("fn f(int a)->bool"), Some(sig("f", "bool", &[("int", "a")])));
    assert_eq!(parse("fn f(int a) \t ->bool"), Some(sig("f", "bool", &[("int", "a")])));
    assert_eq!(parse("fn f(int a, char -> b) -> bool"), Some(sig("f", "b)", &[("int", "a")])));
}

#[test]
fn closing_parentheses_are_removed_only_at_the_end() {
    assert_eq!(parse("fn f(int a) ;"), Some(sig("f", "void", &[("int", "a)")])));
    assert_eq!(parse("fn f(int a) ) -> bool"), Some(sig("f", "bool", &[("int", "a)")])));
    assert_eq!(parse("fn f(void) ;"), Some(sig("f", "void", &[])));
    assert_eq!(parse("fn f(int a) x);"), Some(sig("f", "void", &[("int a)", "x")])));
}

#[test]
fn repeated_qualifiers_keywords_and_semicolons_are_removed() {
    assert_eq!(
        parse("extern \"C\" extern \"C\" fn fn g(int a);;;"),
        Some(sig("g", "void", &[("int", "a")]))
    );
}

#[test]
fn whitespace_around_the_name_is_removed() {
    assert_eq!(
        parse("extern \"C\"   fn  spaced  (int a) ->   float  ;"),
        Some(sig("spaced", "float", &[("int", "a")]))
    );
    assert_eq!(parse("  fn spaced(int a);  "), Some(sig("spaced", "void", &[("int", "a")])));
    assert_eq!(parse("fn spaced \t(int a) ->\u{00A0}float;"), Some(sig("spaced", "float", &[("int", "a")])));
}

#[test]
fn return_type_ends_at_a_second_arrow() {
    assert_eq!(parse("fn f(int a) -> int -> float;"), Some(sig("f", "int", &[("int", "a")])));
}

#[test]
fn closing_parentheses_are_all_removed() {
    assert_eq!(parse("fn f(int a));"), Some(sig("f", "void", &[("int", "a")])));
}

#[test]
fn parse_declaration_works_on_characters() {
    let line: Vec<char> = "fn f(int a) -> bool;".chars().collect();
    assert_eq!(parse_declaration(&line), Some(sig("f", "bool", &[("int", "a")])));
}

#[test]
fn extracts_declarations_line_by_line_in_order() {
    let text = "/* generated */\n\
                extern \"C\" fn acc_sensor_create(uint16_t id, void* buf) -> bool;\n\
                \n\
                typedef int x;\n\
                   extern \"C\" fn acc_sensor_destroy(void* h);   \n\
                extern crate fnord;\n\
                fn not_qualified(int a);\n\
                extern \"C\" fn acc_processing_get_magnitude(void) -> int32_t;";
    let found = base().extract_functions_from_text(text).unwrap();
    assert_eq!(
        found,
        vec![
            sig("acc_sensor_create", "bool", &[("uint16_t", "id"), ("void*", "buf")]),
            sig("acc_sensor_destroy", "void", &[("void*", "h")]),
            sig("acc_processing_get_magnitude", "int32_t", &[]),
        ]
    );
}

#[test]
fn extracts_from_text_with_carriage_returns() {
    let text = "extern \"C\" fn a(int x);\r\nextern \"C\" fn b(void) -> float;\r\n";
    let found = base().extract_functions_from_text(text).unwrap();
    assert_eq!(found, vec![sig("a", "void", &[("int", "x")]), sig("b", "float", &[])]);
}

#[test]
fn extracts_nothing_from_text_without_declarations() {
    assert_eq!(base().extract_functions_from_text("").unwrap(), Vec::new());
    assert_eq!(base().extract_functions_from_text("\n\n  \n").unwrap(), Vec::new());
    assert_eq!(base().extract_functions_from_text("extern \"C\" {\n    pub fn f(a: u8);\n}\n").unwrap(), Vec::new());
}

#[test]
fn line_must_mention_fn_and_start_with_extern() {
    let found = base().extract_functions_from_text("external fn f(int a);\nextern \"C\" g(int a);").unwrap();
    assert_eq!(found, Vec::new());
}

#[test]
fn keep_distinct_keeps_first_declaration_of_each_name() {
    let mut kept = vec![sig("a", "void", &[])];
    keep_distinct(
        &mut kept,
        vec![sig("b", "int", &[]), sig("a", "float", &[]), sig("c", "void", &[]), sig("b", "bool", &[])],
    );
    assert_eq!(kept, vec![sig("a", "void", &[]), sig("b", "int", &[]), sig("c", "void", &[])]);
    assert!(has_name(&kept, &"c".to_string()));
    assert!(!has_name(&kept, &"d".to_string()));
}

fn declared(name: &str, text: &str) -> ResolvedHeader {
    ResolvedHeader { name: name.to_string(), source: HeaderSource::Declarations(text.to_string()) }
}

#[test]
fn group_source_has_one_definition_per_distinct_name() {
    let g = base();
    let resolved = vec![
        declared("acc_sensor.h", "extern \"C\" fn acc_sensor_create(uint16_t id) -> bool;\nextern \"C\" fn shared(void);"),
        declared("acc_config.h", "extern \"C\" fn shared(void);\nextern \"C\" fn acc_config_get(void) -> float;"),
    ];
    let text = g.generate_stubs(&resolved).unwrap();
    let functions = vec![
        sig("acc_sensor_create", "bool", &[("uint16_t", "id")]),
        sig("shared", "void", &[]),
        sig("acc_config_get", "float", &[]),
    ];
    let headers = vec!["acc_sensor.h".to_string(), "acc_config.h".to_string()];
    assert_eq!(text, g.generate_stub_file(&functions, &headers).unwrap());
    assert_eq!(text.matches("void shared(void) {").count(), 1);
    assert_eq!(header_names(&resolved), headers);
}

#[test]
fn group_without_headers_yields_only_the_helper() {
    assert_eq!(base().generate_stubs(&[]).unwrap(), HELPER_SOURCE);
}

#[test]
fn unreadable_header_aborts_the_group() {
    let resolved = vec![
        declared("a.h", "extern \"C\" fn a(void);"),
        ResolvedHeader { name: "b.h".to_string(), source: HeaderSource::Unreadable("No such file".to_string()) },
        declared("c.h", "extern \"C\" fn c(void);"),
    ];
    assert_eq!(
        base().generate_stubs(&resolved),
        Err(BuildError::ExtractionError("Failed to read header b.h: No such file".to_string()))
    );
}

#[test]
fn unparsable_header_aborts_the_group() {
    let resolved = vec![ResolvedHeader {
        name: "b.h".to_string(),
        source: HeaderSource::Unparsable("clang diagnosed errors".to_string()),
    }];
    assert_eq!(
        base().generate_stubs(&resolved),
        Err(BuildError::ExtractionError(
            "Failed to resolve the declarations of header b.h: clang diagnosed errors".to_string()
        ))
    );
}

#[test]
fn first_failed_header_decides_the_error() {
    let resolved = vec![
        ResolvedHeader { name: "x.h".to_string(), source: HeaderSource::Unparsable("first".to_string()) },
        ResolvedHeader { name: "y.h".to_string(), source: HeaderSource::Unreadable("second".to_string()) },
    ];
    assert_eq!(
        base().generate_stubs(&resolved),
        Err(BuildError::ExtractionError("Failed to resolve the declarations of header x.h: first".to_string()))
    );
}

#[test]
fn structured_declarations_are_taken_as_they_are() {
    let g = base();
    let resolved = vec![
        ResolvedHeader {
            name: "acc_sensor.h".to_string(),
            source: HeaderSource::Signatures(vec![
                sig("acc_sensor_create", "bool", &[("uint16_t", "id"), ("void*", "buf")]),
                sig("acc_sensor_destroy", "void", &[("void*", "h")]),
            ]),
        },
        declared(
            "acc_processing.h",
            "extern \"C\" fn acc_sensor_destroy(void* h);\nextern \"C\" fn acc_processing_get_magnitude(void) -> int32_t;",
        ),
    ];
    let text = g.generate_stubs(&resolved).unwrap();
    let expected = format!(
        "#include \"acc_sensor.h\"\n#include \"acc_processing.h\"\n{}{}\n\n{}\n\n{}\n\n",
        HELPER_SOURCE,
        "bool acc_sensor_create(uint16_t id, void* buf) {\n    (void) id;\n    (void) buf;\n    fake_external_dependencies(\"dummy\", 1.0 + 2.0*I);\n    return true;\n}",
        "void acc_sensor_destroy(void* h) {\n    (void) h;\n}",
        "int32_t acc_processing_get_magnitude(void) {\n    return -1;\n}",
    );
    assert_eq!(text, expected);
}

#[test]
fn failure_after_structured_declarations_aborts_the_group() {
    let resolved = vec![
        ResolvedHeader { name: "a.h".to_string(), source: HeaderSource::Signatures(vec![sig("a", "void", &[])]) },
        ResolvedHeader { name: "b.h".to_string(), source: HeaderSource::Unparsable("why".to_string()) },
    ];
    assert_eq!(
        base().generate_stubs(&resolved),
        Err(BuildError::ExtractionError("Failed to resolve the declarations of header b.h: why".to_string()))
    );
}

#[test]
fn long_declaration_text_is_read_in_order() {
    let mut text = String::new();
    let mut expected = Vec::new();
    for i in 0..3000 {
        text.push_str(&format!("extern \"C\" fn function_{}(uint32_t value_{}, void* context) -> uint16_t;\n", i % 2000, i));
        if i < 2000 {
            expected.push(sig(
                &format!("function_{}", i),
                "uint16_t",
                &[("uint32_t", &format!("value_{}", i)), ("void*", "context")],
            ));
        }
    }
    let g = base();
    assert_eq!(g.extract_functions_from_text(&text).unwrap().len(), 3000);
    let content = g.generate_stubs(&[declared("big.h", &text)]).unwrap();
    assert_eq!(content, g.generate_stub_file(&expected, &["big.h".to_string()]).unwrap());
    assert_eq!(content.matches("    return 0;\n}").count(), 2000);
}

fn with_std_methods(line: &str) -> Option<FunctionSignature> {
    let line = line.trim_start_matches("extern \"C\" ").trim();
    if !line.starts_with("fn ") {
        return None;
    }
    let line = line.trim_start_matches("fn ").trim_end_matches(';');
    let (name, rest) = line.split_once('(')?;
    let listed = match rest.find("->") {
        Some(at) => rest[..at].trim_end(),
        None => rest,
    };
    let inner = listed.trim_end_matches(')');
    let parameters = if inner.trim() == "void" {
        Vec::new()
    } else {
        inner
            .split(',')
            .filter_map(|piece| piece.trim().rsplit_once(' '))
            .map(|(kind, name)| (kind.to_string(), name.to_string()))
            .collect()
    };
    let return_type = match line.split_once("->") {
        Some((_, after)) => after.split("->").next().unwrap_or("").trim().to_string(),
        None => "void".to_string(),
    };
    Some(FunctionSignature { name: name.trim().to_string(), return_type, parameters })
}

#[test]
fn parsing_agrees_with_the_standard_library_on_many_lines() {
    let pieces = [
        "fn ", "extern \"C\" ", "f", "(", ")", "->", " ", ";", ",", "void", "int a", "\t",
    ];
    let g = base();
    let mut lines: Vec<String> = vec![String::new()];
    let mut from = 0;
    for _ in 0..4 {
        let upto = lines.len();
        for i in from..upto {
            for piece in pieces {
                lines.push(format!("{}{}", lines[i], piece));
            }
        }
        from = upto;
    }
    assert_eq!(lines.len(), 1 + 12 + 144 + 1728 + 20736);
    let mut stated = 0;
    for line in &lines {
        for framed in [line.clone(), format!("fn {}", line), format!("extern \"C\" fn f({}", line)] {
            let read = g.parse_function_declaration(&framed);
            assert_eq!(read, with_std_methods(&framed));
            if read.is_some() {
                stated += 1;
            }
        }
    }
    assert!(stated > 20000);
}
