//! Synthesis of C source text from function signatures.

use vstd::prelude::*;
use vstd::string::StringExecFns;
use crate::error::BuildError;
use crate::generator::StubGenerator;
use crate::signature::{spec_signatures, FunctionSignature, SignatureView};
use crate::text::{chars_of, contains, same_text, spec_contains, spec_texts};

verus! {

/// The statement that calls the helper function.
pub const HELPER_CALL: &'static str = "    fake_external_dependencies(\"dummy\", 1.0 + 2.0*I);";

/// The definition of the helper function, with the headers it needs. It
/// copies, overwrites and moves memory and chains math calls on its complex
/// argument, so that a compiler can neither drop it nor the calls to it.
pub const HELPER_SOURCE: &'static str =
    "\n#include <math.h>\n#include <complex.h>\n#include <string.h>\n#include <stdint.h>\n\nfloat fake_external_dependencies(char* foo, complex float iq) {\n    char buff[42];\n    memcpy(buff, foo, 1);\n    memset(foo, 0, 1);\n    memmove(buff, foo, 1);\n    uint32_t magnitude = (uint32_t) cabsf(iq);\n    return roundf(atanf(sinf(cosf(log10f(powf(crealf(iq), 3.14))))));\n}\n";

/// The text of `lines`, each followed by a line break.
pub open spec fn spec_lines_text(lines: Seq<Seq<char>>) -> Seq<char>
    decreases lines.len(),
{
    if lines.len() == 0 {
        Seq::empty()
    } else {
        spec_lines_text(lines.drop_last()) + lines.last() + "\n"@
    }
}

/// The parameters `params` as they are written in a definition: `type name`
/// pairs separated by a comma and a space.
pub open spec fn spec_joined_parameters(params: Seq<(Seq<char>, Seq<char>)>) -> Seq<char>
    decreases params.len(),
{
    if params.len() == 0 {
        Seq::empty()
    } else if params.len() == 1 {
        params.last().0 + " "@ + params.last().1
    } else {
        spec_joined_parameters(params.drop_last()) + ", "@ + params.last().0 + " "@
            + params.last().1
    }
}

/// What stands between the parentheses of a definition: `void` for a
/// function without parameters, else the parameters.
pub open spec fn spec_parameter_list(params: Seq<(Seq<char>, Seq<char>)>) -> Seq<char> {
    if params.len() == 0 {
        "void"@
    } else {
        spec_joined_parameters(params)
    }
}

/// The declarator of a definition: return type, name and parameter list.
pub open spec fn spec_declarator(f: SignatureView) -> Seq<char> {
    f.return_type + " "@ + f.name + "("@ + spec_parameter_list(f.parameters) + ")"@
}

/// One statement per parameter that marks it as unused, in parameter order.
pub open spec fn spec_unused_statements(params: Seq<(Seq<char>, Seq<char>)>) -> Seq<Seq<char>> {
    Seq::new(params.len(), |i: int| "    (void) "@ + params[i].1 + ";"@)
}

/// The call of the helper function, for functions whose name contains
/// `create`; nothing for the others.
pub open spec fn spec_helper_statements(name: Seq<char>) -> Seq<Seq<char>> {
    if spec_contains(name, "create"@) {
        seq![HELPER_CALL@]
    } else {
        Seq::empty()
    }
}

/// The statements that return a value of type `return_type`: nothing for
/// `void`; the registered literal for a covered type; the null pointer for
/// any other type with a `*` in its name; else a local of that type,
/// initialized to zero.
pub open spec fn spec_return_statements(
    return_type: Seq<char>,
    registry: Map<Seq<char>, Seq<char>>,
) -> Seq<Seq<char>> {
    if return_type == "void"@ {
        Seq::empty()
    } else if registry.contains_key(return_type) {
        seq!["    return "@ + registry[return_type] + ";"@]
    } else if spec_contains(return_type, seq!['*']) {
        seq!["    return NULL;"@]
    } else {
        seq!["    "@ + return_type + " result = {};"@, "    return result;"@]
    }
}

/// The statements of the body of the stub for `f`, in order.
pub open spec fn spec_body(f: SignatureView, registry: Map<Seq<char>, Seq<char>>) -> Seq<
    Seq<char>,
> {
    spec_unused_statements(f.parameters) + spec_helper_statements(f.name)
        + spec_return_statements(f.return_type, registry)
}

/// The definition of the stub for `f`.
pub open spec fn spec_function_stub(f: SignatureView, registry: Map<Seq<char>, Seq<char>>) -> Seq<
    char,
> {
    spec_declarator(f) + " {\n"@ + spec_lines_text(spec_body(f, registry)) + "}"@
}

/// One line per header that makes the compiler read it.
pub open spec fn spec_include_lines(headers: Seq<Seq<char>>) -> Seq<Seq<char>> {
    Seq::new(headers.len(), |i: int| "#include \""@ + headers[i] + "\""@)
}

/// The definitions of the stubs for `functions`, one per signature, in order.
pub open spec fn spec_stub_definitions(
    functions: Seq<SignatureView>,
    registry: Map<Seq<char>, Seq<char>>,
) -> Seq<Seq<char>> {
    Seq::new(functions.len(), |i: int| spec_function_stub(functions[i], registry))
}

/// The text of `blocks`, each followed by a blank line.
pub open spec fn spec_blocks_text(blocks: Seq<Seq<char>>) -> Seq<char>
    decreases blocks.len(),
{
    if blocks.len() == 0 {
        Seq::empty()
    } else {
        spec_blocks_text(blocks.drop_last()) + blocks.last() + "\n\n"@
    }
}

/// The source file for `functions`: the headers, the helper function, and
/// one definition per signature in the order of `functions`.
pub open spec fn spec_stub_file(
    functions: Seq<SignatureView>,
    headers: Seq<Seq<char>>,
    registry: Map<Seq<char>, Seq<char>>,
) -> Seq<char> {
    spec_lines_text(spec_include_lines(headers)) + HELPER_SOURCE@ + spec_blocks_text(
        spec_stub_definitions(functions, registry),
    )
}

/// The text of `lines`, each followed by a line break.
pub fn lines_text(lines: &Vec<String>) -> (text: String)
    ensures
        text@ == spec_lines_text(spec_texts(lines@)),
{
    let ghost all = spec_texts(lines@);
    let mut text = String::new();
    let mut i: usize = 0;
    proof {
        assert(all.take(0) =~= Seq::<Seq<char>>::empty());
    }
    while i < lines.len()
        invariant
            i <= lines.len(),
            all == spec_texts(lines@),
            text@ == spec_lines_text(all.take(i as int)),
        decreases lines.len() - i,
    {
        text.append(lines[i].as_str());
        text.append("\n");
        proof {
            assert(all.take(i + 1).drop_last() =~= all.take(i as int));
            assert(all.take(i + 1).last() == lines@[i as int]@);
        }
        i = i + 1;
    }
    proof {
        assert(all.take(lines.len() as int) =~= all);
    }
    text
}

/// The text of `blocks`, each followed by a blank line.
pub fn blocks_text(blocks: &Vec<String>) -> (text: String)
    ensures
        text@ == spec_blocks_text(spec_texts(blocks@)),
{
    let ghost all = spec_texts(blocks@);
    let mut text = String::new();
    let mut i: usize = 0;
    proof {
        assert(all.take(0) =~= Seq::<Seq<char>>::empty());
    }
    while i < blocks.len()
        invariant
            i <= blocks.len(),
            all == spec_texts(blocks@),
            text@ == spec_blocks_text(all.take(i as int)),
        decreases blocks.len() - i,
    {
        text.append(blocks[i].as_str());
        text.append("\n\n");
        proof {
            assert(all.take(i + 1).drop_last() =~= all.take(i as int));
            assert(all.take(i + 1).last() == blocks@[i as int]@);
        }
        i = i + 1;
    }
    proof {
        assert(all.take(blocks.len() as int) =~= all);
    }
    text
}

/// One line per header that makes the compiler read it.
pub fn include_lines(headers: &[String]) -> (lines: Vec<String>)
    ensures
        spec_texts(lines@) == spec_include_lines(spec_texts(headers@)),
{
    let mut lines: Vec<String> = Vec::new();
    let mut i: usize = 0;
    while i < headers.len()
        invariant
            i <= headers.len(),
            lines.len() == i,
            forall|k: int| 0 <= k < i ==> lines@[k]@ == "#include \""@ + headers@[k]@ + "\""@,
        decreases headers.len() - i,
    {
        let mut line = "#include \"".to_owned();
        line.append(headers[i].as_str());
        line.append("\"");
        lines.push(line);
        i = i + 1;
    }
    proof {
        assert(spec_texts(lines@) =~= spec_include_lines(spec_texts(headers@)));
    }
    lines
}

/// What stands between the parentheses of the definition of `func`.
pub fn parameter_list(func: &FunctionSignature) -> (text: String)
    ensures
        text@ == spec_parameter_list(func@.parameters),
{
    if func.parameters.len() == 0 {
        return "void".to_owned();
    }
    let ghost params = func@.parameters;
    let mut text = String::new();
    let mut i: usize = 0;
    proof {
        assert(params.take(0) =~= Seq::empty());
    }
    while i < func.parameters.len()
        invariant
            i <= func.parameters.len(),
            params == func@.parameters,
            text@ == spec_joined_parameters(params.take(i as int)),
        decreases func.parameters.len() - i,
    {
        if i > 0 {
            text.append(", ");
        }
        text.append(func.parameters[i].0.as_str());
        text.append(" ");
        text.append(func.parameters[i].1.as_str());
        proof {
            let now = params.take(i + 1);
            assert(now.drop_last() =~= params.take(i as int));
            assert(now.last() == params[i as int]);
            assert(text@ =~= spec_joined_parameters(now));
        }
        i = i + 1;
    }
    proof {
        assert(params.take(func.parameters.len() as int) =~= params);
    }
    text
}

/// The declarator of the definition of `func`.
pub fn declarator(func: &FunctionSignature) -> (text: String)
    ensures
        text@ == spec_declarator(func@),
{
    let mut text = String::new();
    text.append(func.return_type.as_str());
    text.append(" ");
    text.append(func.name.as_str());
    text.append("(");
    text.append(parameter_list(func).as_str());
    text.append(")");
    text
}

/// One statement per parameter of `func` that marks it as unused.
pub fn unused_statements(func: &FunctionSignature) -> (lines: Vec<String>)
    ensures
        spec_texts(lines@) == spec_unused_statements(func@.parameters),
{
    let ghost params = func@.parameters;
    let mut lines: Vec<String> = Vec::new();
    let mut i: usize = 0;
    while i < func.parameters.len()
        invariant
            i <= func.parameters.len(),
            params == func@.parameters,
            lines.len() == i,
            forall|k: int| 0 <= k < i ==> lines@[k]@ == "    (void) "@ + params[k].1 + ";"@,
        decreases func.parameters.len() - i,
    {
        let mut line = "    (void) ".to_owned();
        line.append(func.parameters[i].1.as_str());
        line.append(";");
        lines.push(line);
        i = i + 1;
    }
    proof {
        assert(spec_texts(lines@) =~= spec_unused_statements(params));
    }
    lines
}

/// The call of the helper function, if the name of `func` asks for it.
pub fn helper_statements(func: &FunctionSignature) -> (lines: Vec<String>)
    ensures
        spec_texts(lines@) == spec_helper_statements(func@.name),
{
    let mut lines: Vec<String> = Vec::new();
    let name = chars_of(func.name.as_str());
    let marker = chars_of("create");
    if contains(&name, &marker) {
        lines.push(HELPER_CALL.to_owned());
    }
    proof {
        assert(spec_texts(lines@) =~= spec_helper_statements(func@.name));
    }
    lines
}

impl StubGenerator {
    /// The statements that return a value of the return type of `func`.
    pub fn return_statements(&self, func: &FunctionSignature) -> (lines: Vec<String>)
        ensures
            spec_texts(lines@) == spec_return_statements(func@.return_type, self.return_values@),
    {
        let mut lines: Vec<String> = Vec::new();
        if !same_text(func.return_type.as_str(), "void") {
            match self.return_values.get(func.return_type.as_str()) {
                Some(literal) => {
                    let mut line = "    return ".to_owned();
                    line.append(literal.as_str());
                    line.append(";");
                    lines.push(line);
                },
                None => {
                    let return_type = chars_of(func.return_type.as_str());
                    let mut star: Vec<char> = Vec::new();
                    star.push('*');
                    proof {
                        assert(star@ =~= seq!['*']);
                    }
                    if contains(&return_type, &star) {
                        lines.push("    return NULL;".to_owned());
                    } else {
                        let mut line = "    ".to_owned();
                        line.append(func.return_type.as_str());
                        line.append(" result = {};");
                        lines.push(line);
                        lines.push("    return result;".to_owned());
                    }
                },
            }
        }
        proof {
            assert(spec_texts(lines@) =~= spec_return_statements(
                func@.return_type,
                self.return_values@,
            ));
        }
        lines
    }

    /// The statements of the body of the stub for `func`, in order.
    pub fn body_statements(&self, func: &FunctionSignature) -> (lines: Vec<String>)
        ensures
            spec_texts(lines@) == spec_body(func@, self.return_values@),
    {
        let mut lines = unused_statements(func);
        let mut helper = helper_statements(func);
        let mut ending = self.return_statements(func);
        let ghost a = spec_texts(lines@);
        let ghost b = spec_texts(helper@);
        let ghost c = spec_texts(ending@);
        lines.append(&mut helper);
        lines.append(&mut ending);
        proof {
            assert(spec_texts(lines@) =~= a + b + c);
        }
        lines
    }

    /// The definitions of the stubs for `functions`, one per signature.
    pub fn stub_definitions(&self, functions: &[FunctionSignature]) -> (blocks: Vec<String>)
        ensures
            spec_texts(blocks@) == spec_stub_definitions(
                spec_signatures(functions@),
                self.return_values@,
            ),
            blocks.len() == functions.len(),
    {
        let mut blocks: Vec<String> = Vec::new();
        let mut i: usize = 0;
        while i < functions.len()
            invariant
                i <= functions.len(),
                blocks.len() == i,
                forall|k: int|
                    0 <= k < i ==> blocks@[k]@ == spec_function_stub(
                        functions@[k]@,
                        self.return_values@,
                    ),
            decreases functions.len() - i,
        {
            blocks.push(self.generate_function_stub(&functions[i]));
            i = i + 1;
        }
        proof {
            assert(spec_texts(blocks@) =~= spec_stub_definitions(
                spec_signatures(functions@),
                self.return_values@,
            ));
        }
        blocks
    }

    /// Synthesizes the source file for `functions`, declared in `headers`.
    /// Synthesis itself cannot fail.
    pub fn generate_stub_file(&self, functions: &[FunctionSignature], headers: &[String]) -> (r:
        Result<String, BuildError>)
        ensures
            r matches Ok(content) && content@ == spec_stub_file(
                spec_signatures(functions@),
                spec_texts(headers@),
                self.return_values@,
            ),
    {
        let mut content = lines_text(&include_lines(headers));
        content.append(HELPER_SOURCE);
        content.append(blocks_text(&self.stub_definitions(functions)).as_str());
        Ok(content)
    }

    /// Synthesizes the definition of the stub for `func`.
    pub fn generate_function_stub(&self, func: &FunctionSignature) -> (stub: String)
        ensures
            stub@ == spec_function_stub(func@, self.return_values@),
    {
        let mut stub = declarator(func);
        stub.append(" {\n");
        stub.append(lines_text(&self.body_statements(func)).as_str());
        stub.append("}");
        stub
    }
}

} // verus!
