//! Reading function signatures out of declaration text.
//!
//! A declaration occupies one line of the form
//! `extern "C" fn name(type_1 name_1, type_2 name_2) -> return_type;`.
//! The `-> return_type` part is absent for functions that return nothing, and
//! a parameter list of `void` declares a function without parameters.
//!
//! Lines of another shape are read by the same steps: the name ends at the
//! first opening parenthesis of the line, wherever that stands, and a line
//! states nothing only if it has no such parenthesis or does not begin
//! with the keyword.

use vstd::prelude::*;
use crate::error::BuildError;
use crate::generator::StubGenerator;
use crate::signature::{FunctionSignature, SignatureView, spec_parameters, spec_signatures};
use crate::text::{
    chars_of, contains, find, lemma_find_within, rfind_char, same_chars, slice_of,
    spec_contains, spec_find, spec_pieces, spec_rfind_char, spec_split, spec_starts_with,
    spec_strip_prefix_all, spec_strip_suffix_char_all, spec_trim, spec_trim_end, split,
    starts_with, string_of, strip_prefix_all, strip_suffix_char_all, trim, trim_end,
};

verus! {

/// The `(type, name)` pair written in `p`: what precedes its last space and
/// what follows it. Text without a space declares no parameter.
pub open spec fn spec_parse_parameter(p: Seq<char>) -> Option<(Seq<char>, Seq<char>)> {
    match spec_rfind_char(p, ' ') {
        Some(i) => Some((p.take(i), p.skip(i + 1))),
        None => None,
    }
}

/// The parameters written in `pieces`, one candidate per piece; pieces that
/// declare no parameter are passed over.
pub open spec fn spec_collect_parameters(pieces: Seq<Seq<char>>) -> Seq<(Seq<char>, Seq<char>)>
    decreases pieces.len(),
{
    if pieces.len() == 0 {
        Seq::empty()
    } else {
        let init = spec_collect_parameters(pieces.drop_last());
        match spec_parse_parameter(spec_trim(pieces.last())) {
            Some(p) => init.push(p),
            None => init,
        }
    }
}

/// The parameters written between the parentheses of a declaration.
pub open spec fn spec_parse_parameters(inner: Seq<char>) -> Seq<(Seq<char>, Seq<char>)> {
    if spec_trim(inner) == "void"@ {
        Seq::empty()
    } else {
        spec_collect_parameters(spec_split(inner, ','))
    }
}

/// The return type written after the arrow of a declaration: the text up to
/// the next arrow, if there is one, without surrounding whitespace.
pub open spec fn spec_return_type(after: Seq<char>) -> Seq<char> {
    match spec_find(after, "->"@) {
        Some(j) => spec_trim(after.take(j)),
        None => spec_trim(after),
    }
}

/// The text of the parameters in `rest`, what follows the opening
/// parenthesis of a declaration: what stands before the first arrow,
/// without the whitespace in front of that arrow; all of `rest` where no
/// arrow follows.
pub open spec fn spec_parameter_text(rest: Seq<char>) -> Seq<char> {
    match spec_find(rest, "->"@) {
        Some(j) => spec_trim_end(rest.take(j)),
        None => rest,
    }
}

/// The signature that the declaration `line` states, if it states one.
///
/// A line states a signature if, without its qualifiers and the whitespace
/// around it, it begins with the keyword and holds an opening parenthesis.
/// The name is what stands between the keywords and the first opening
/// parenthesis, without surrounding whitespace. The parameters are read
/// from the text behind that parenthesis, without its closing parentheses.
/// The return type is what follows the first arrow of the declaration, or
/// `void` where there is no arrow.
pub open spec fn spec_parse_declaration(line: Seq<char>) -> Option<SignatureView> {
    let bare = spec_trim(spec_strip_prefix_all(line, "extern \"C\" "@));
    if !spec_starts_with(bare, "fn "@) {
        None
    } else {
        let decl = spec_strip_suffix_char_all(spec_strip_prefix_all(bare, "fn "@), ';');
        match spec_find(decl, seq!['(']) {
            None => None,
            Some(open) => Some(
                SignatureView {
                    name: spec_trim(decl.take(open)),
                    return_type: match spec_find(decl, "->"@) {
                        Some(i) => spec_return_type(decl.skip(i + 2)),
                        None => "void"@,
                    },
                    parameters: spec_parse_parameters(
                        spec_strip_suffix_char_all(
                            spec_parameter_text(decl.skip(open + 1)),
                            ')',
                        ),
                    ),
                },
            ),
        }
    }
}

/// The signature declared on the raw text line `raw`, if the line is a
/// declaration: after trimming it starts with `extern` and mentions `fn`.
pub open spec fn spec_declaration_of_line(raw: Seq<char>) -> Option<SignatureView> {
    let line = spec_trim(raw);
    if spec_starts_with(line, "extern"@) && spec_contains(line, "fn"@) {
        spec_parse_declaration(line)
    } else {
        None
    }
}

/// The signatures declared on `lines`, in order.
pub open spec fn spec_collect_declarations(lines: Seq<Seq<char>>) -> Seq<SignatureView>
    decreases lines.len(),
{
    if lines.len() == 0 {
        Seq::empty()
    } else {
        let init = spec_collect_declarations(lines.drop_last());
        match spec_declaration_of_line(lines.last()) {
            Some(f) => init.push(f),
            None => init,
        }
    }
}

/// The signatures declared in `text`, one candidate per line, in order.
pub open spec fn spec_extract_functions(text: Seq<char>) -> Seq<SignatureView> {
    spec_collect_declarations(spec_split(text, '\n'))
}

/// The value of an optional signature.
pub open spec fn spec_optional_signature(f: Option<FunctionSignature>) -> Option<SignatureView> {
    match f {
        Some(f) => Some(f@),
        None => None,
    }
}

/// Reads the `(type, name)` pair written in `p`.
fn parse_parameter(p: &Vec<char>) -> (r: Option<(String, String)>)
    ensures
        spec_parse_parameter(p@) == match r {
            Some(pair) => Some((pair.0@, pair.1@)),
            None => None,
        },
{
    match rfind_char(p, ' ') {
        Some(i) => {
            let kind = slice_of(p, 0, i);
            let name = slice_of(p, i + 1, p.len());
            proof {
                assert(p@.take(i as int) =~= kind@);
                assert(p@.skip(i + 1) =~= name@);
            }
            Some((string_of(&kind), string_of(&name)))
        },
        None => None,
    }
}

/// Reads the parameters written between the parentheses of a declaration.
fn parse_parameters(inner: &Vec<char>) -> (r: Vec<(String, String)>)
    ensures
        spec_parameters(r@) == spec_parse_parameters(inner@),
{
    let mut out: Vec<(String, String)> = Vec::new();
    let trimmed = trim(inner);
    let no_parameters = chars_of("void");
    if same_chars(&trimmed, &no_parameters) {
        proof {
            assert(spec_parameters(out@) =~= Seq::empty());
        }
        return out;
    }
    let pieces = split(inner, ',');
    let ghost all = spec_pieces(pieces@);
    let mut i: usize = 0;
    proof {
        assert(all.take(0) =~= Seq::<Seq<char>>::empty());
        assert(spec_parameters(out@) =~= Seq::empty());
    }
    while i < pieces.len()
        invariant
            i <= pieces.len(),
            all == spec_pieces(pieces@),
            spec_parameters(out@) == spec_collect_parameters(all.take(i as int)),
        decreases pieces.len() - i,
    {
        let piece = trim(&pieces[i]);
        let ghost before = spec_parameters(out@);
        proof {
            assert(all.take(i + 1).drop_last() =~= all.take(i as int));
            assert(all.take(i + 1).last() == pieces@[i as int]@);
        }
        match parse_parameter(&piece) {
            Some(pair) => {
                let ghost pair_view = (pair.0@, pair.1@);
                out.push(pair);
                proof {
                    assert(spec_parameters(out@) =~= before.push(pair_view));
                }
            },
            None => {},
        }
        i = i + 1;
    }
    proof {
        assert(all.take(pieces.len() as int) =~= all);
    }
    out
}

/// Reads the return type written after the arrow of a declaration.
fn parse_return_type(after: &Vec<char>) -> (r: Vec<char>)
    ensures
        r@ == spec_return_type(after@),
{
    let arrow = chars_of("->");
    match find(after, &arrow) {
        Some(j) => {
            let segment = slice_of(after, 0, j);
            proof {
                assert(after@.take(j as int) =~= segment@);
            }
            trim(&segment)
        },
        None => trim(after),
    }
}

/// The text of the parameters in `rest`, what follows the opening
/// parenthesis of a declaration.
fn parameter_text(rest: &Vec<char>) -> (r: Vec<char>)
    ensures
        r@ == spec_parameter_text(rest@),
{
    let arrow = chars_of("->");
    match find(rest, &arrow) {
        Some(j) => {
            let listed = slice_of(rest, 0, j);
            proof {
                assert(rest@.take(j as int) =~= listed@);
            }
            trim_end(&listed)
        },
        None => {
            let all = slice_of(rest, 0, rest.len());
            proof {
                assert(all@ =~= rest@);
            }
            all
        },
    }
}

/// Reads the signature that the declaration `line` states.
pub fn parse_declaration(line: &Vec<char>) -> (r: Option<FunctionSignature>)
    ensures
        spec_optional_signature(r) == spec_parse_declaration(line@),
{
    let qualifier = chars_of("extern \"C\" ");
    let keyword = chars_of("fn ");
    let arrow_mark = chars_of("->");
    let bare = trim(&strip_prefix_all(line, &qualifier));
    if !starts_with(&bare, &keyword) {
        return None;
    }
    let decl = strip_suffix_char_all(&strip_prefix_all(&bare, &keyword), ';');
    let mut paren: Vec<char> = Vec::new();
    paren.push('(');
    proof {
        assert(paren@ =~= seq!['(']);
    }
    match find(&decl, &paren) {
        None => None,
        Some(open) => {
            proof {
                lemma_find_within(decl@, seq!['('], open as int);
            }
            let name_part = slice_of(&decl, 0, open);
            let rest = slice_of(&decl, open + 1, decl.len());
            proof {
                assert(decl@.take(open as int) =~= name_part@);
                assert(decl@.skip(open + 1) =~= rest@);
            }
            let name = trim(&name_part);
            let inner = strip_suffix_char_all(&parameter_text(&rest), ')');
            let parameters = parse_parameters(&inner);
            let return_type = match find(&decl, &arrow_mark) {
                Some(i) => {
                    proof {
                        lemma_find_within(decl@, "->"@, i as int);
                        reveal_strlit("->");
                    }
                    let after = slice_of(&decl, i + 2, decl.len());
                    proof {
                        assert(decl@.skip(i + 2) =~= after@);
                    }
                    string_of(&parse_return_type(&after))
                },
                None => "void".to_owned(),
            };
            Some(FunctionSignature { name: string_of(&name), return_type, parameters })
        },
    }
}

/// Whether one of `functions` is called `name`.
pub open spec fn spec_has_name(functions: Seq<SignatureView>, name: Seq<char>) -> bool {
    exists|i: int| 0 <= i < functions.len() && #[trigger] functions[i].name == name
}

/// `kept` followed by those of `found` whose name neither `kept` nor an
/// earlier one of `found` has, in the order of `found`.
pub open spec fn spec_keep_distinct(
    kept: Seq<SignatureView>,
    found: Seq<SignatureView>,
) -> Seq<SignatureView>
    decreases found.len(),
{
    if found.len() == 0 {
        kept
    } else {
        let init = spec_keep_distinct(kept, found.drop_last());
        if spec_has_name(init, found.last().name) {
            init
        } else {
            init.push(found.last())
        }
    }
}

/// `functions` without the signatures whose name an earlier one has: of the
/// declarations of one name the first is kept, in its place.
pub open spec fn spec_distinct_declarations(functions: Seq<SignatureView>) -> Seq<SignatureView> {
    spec_keep_distinct(Seq::empty(), functions)
}

/// Whether one of `functions` is called `name`.
pub fn has_name(functions: &Vec<FunctionSignature>, name: &String) -> (r: bool)
    ensures
        r == spec_has_name(spec_signatures(functions@), name@),
{
    let ghost all = spec_signatures(functions@);
    let mut i: usize = 0;
    while i < functions.len()
        invariant
            i <= functions.len(),
            all == spec_signatures(functions@),
            forall|k: int| 0 <= k < i ==> (#[trigger] all[k]).name != name@,
        decreases functions.len() - i,
    {
        if functions[i].name == *name {
            proof {
                assert(all[i as int].name == name@);
            }
            return true;
        }
        i = i + 1;
    }
    false
}

impl StubGenerator {
    /// Reads the signature that the declaration `line` states, if it states
    /// one.
    pub fn parse_function_declaration(&self, line: &str) -> (r: Option<FunctionSignature>)
        ensures
            spec_optional_signature(r) == spec_parse_declaration(line@),
    {
        let chars = chars_of(line);
        parse_declaration(&chars)
    }

    /// Reads the signatures declared in `text`, one candidate per line, in
    /// the order of the lines. Lines that declare nothing are passed over,
    /// so this cannot fail.
    pub fn extract_functions_from_text(&self, text: &str) -> (r: Result<
        Vec<FunctionSignature>,
        BuildError,
    >)
        ensures
            r matches Ok(functions) && spec_signatures(functions@) == spec_extract_functions(
                text@,
            ),
    {
        let chars = chars_of(text);
        let lines = split(&chars, '\n');
        let lead = chars_of("extern");
        let keyword = chars_of("fn");
        let ghost all = spec_pieces(lines@);
        let mut functions: Vec<FunctionSignature> = Vec::new();
        let mut i: usize = 0;
        proof {
            assert(all.take(0) =~= Seq::<Seq<char>>::empty());
            assert(spec_signatures(functions@) =~= Seq::empty());
        }
        while i < lines.len()
            invariant
                i <= lines.len(),
                all == spec_pieces(lines@),
                lead@ == "extern"@,
                keyword@ == "fn"@,
                spec_signatures(functions@) == spec_collect_declarations(all.take(i as int)),
            decreases lines.len() - i,
        {
            let line = trim(&lines[i]);
            let ghost before = spec_signatures(functions@);
            proof {
                assert(all.take(i + 1).drop_last() =~= all.take(i as int));
                assert(all.take(i + 1).last() == lines@[i as int]@);
            }
            if starts_with(&line, &lead) && contains(&line, &keyword) {
                match parse_declaration(&line) {
                    Some(f) => {
                        let ghost fv = f@;
                        functions.push(f);
                        proof {
                            assert(spec_signatures(functions@) =~= before.push(fv));
                        }
                    },
                    None => {},
                }
            }
            i = i + 1;
        }
        proof {
            assert(all.take(lines.len() as int) =~= all);
        }
        Ok(functions)
    }
}

/// Appends to `kept` those of `found` whose name is new, in order.
pub fn keep_distinct(kept: &mut Vec<FunctionSignature>, found: Vec<FunctionSignature>)
    ensures
        spec_signatures(final(kept)@) == spec_keep_distinct(
            spec_signatures(old(kept)@),
            spec_signatures(found@),
        ),
{
    let ghost start = spec_signatures(kept@);
    let ghost incoming = spec_signatures(found@);
    let mut found = found;
    let mut rest: Vec<FunctionSignature> = Vec::new();
    // Reverse once, so that the signatures can be moved out in order.
    while found.len() > 0
        invariant
            found.len() + rest.len() == incoming.len(),
            forall|k: int| 0 <= k < found.len() ==> (#[trigger] found@[k])@ == incoming[k],
            forall|k: int|
                0 <= k < rest.len() ==> (#[trigger] rest@[k])@ == incoming[incoming.len() - 1 - k],
        decreases found.len(),
    {
        let f = found.pop().unwrap();
        rest.push(f);
    }
    let ghost mut done: int = 0;
    proof {
        assert(incoming.take(0) =~= Seq::empty());
    }
    while rest.len() > 0
        invariant
            0 <= done <= incoming.len(),
            rest.len() == incoming.len() - done,
            forall|k: int|
                0 <= k < rest.len() ==> (#[trigger] rest@[k])@ == incoming[incoming.len() - 1 - k],
            spec_signatures(kept@) == spec_keep_distinct(start, incoming.take(done)),
        decreases rest.len(),
    {
        let f = rest.pop().unwrap();
        let ghost fv = f@;
        let ghost before = spec_signatures(kept@);
        proof {
            assert(fv == incoming[done]);
            assert(incoming.take(done + 1).drop_last() =~= incoming.take(done));
            assert(incoming.take(done + 1).last() == fv);
        }
        let known = has_name(kept, &f.name);
        if !known {
            kept.push(f);
            proof {
                assert(spec_signatures(kept@) =~= before.push(fv));
            }
        }
        proof {
            done = done + 1;
        }
    }
    proof {
        assert(incoming.take(incoming.len() as int) =~= incoming);
    }
}

/// Keeping the distinct signatures of one list and then of another keeps
/// those of the two lists joined.
pub proof fn lemma_keep_distinct_joined(
    kept: Seq<SignatureView>,
    a: Seq<SignatureView>,
    b: Seq<SignatureView>,
)
    ensures
        spec_keep_distinct(spec_keep_distinct(kept, a), b) == spec_keep_distinct(kept, a + b),
    decreases b.len(),
{
    if b.len() == 0 {
        assert(a + b =~= a);
    } else {
        lemma_keep_distinct_joined(kept, a, b.drop_last());
        assert((a + b).drop_last() =~= a + b.drop_last());
        assert((a + b).last() == b.last());
    }
}

} // verus!
