//! Signatures survive the way through text: a declaration written for a
//! signature is read back as that signature.

use vstd::prelude::*;
use vstd::string::StringExecFns;
use crate::extract::{
    spec_collect_parameters, spec_declaration_of_line, spec_parameter_text,
    spec_parse_declaration, spec_parse_parameter, spec_parse_parameters, spec_return_type,
};
use crate::signature::{FunctionSignature, SignatureView};
use crate::synth::{parameter_list, spec_joined_parameters, spec_parameter_list};
use crate::text::{
    lemma_find_char_first, lemma_find_char_none, lemma_find_pair_after, lemma_find_pair_none,
    lemma_occurrence_is_found, lemma_rfind_char_before, lemma_split_last, lemma_trim_end_skips,
    lemma_trim_nothing, lemma_trim_start_skips, same_text, spec_contains, spec_is_whitespace,
    spec_split, spec_starts_with, spec_strip_prefix_all, spec_strip_suffix_char_all, spec_trim,
    spec_trim_end, spec_trim_start,
};

verus! {

/// Whether `c` is one of the characters that give a declaration its
/// structure.
pub open spec fn spec_is_structural(c: char) -> bool {
    c == '(' || c == ')' || c == ',' || c == ';' || c == '>'
}

/// Whether `s` is a word: text that is not empty and holds neither
/// whitespace nor a structural character.
pub open spec fn spec_is_word(s: Seq<char>) -> bool {
    s.len() > 0 && forall|i: int|
        0 <= i < s.len() ==> !spec_is_whitespace(#[trigger] s[i]) && !spec_is_structural(s[i])
}

/// Whether `s` can name a type: text that is not empty, holds no structural
/// character, and neither begins nor ends with whitespace.
pub open spec fn spec_is_type_text(s: Seq<char>) -> bool {
    s.len() > 0 && !spec_is_whitespace(s.first()) && !spec_is_whitespace(s.last()) && forall|
        i: int,
    |
        0 <= i < s.len() ==> !spec_is_structural(#[trigger] s[i])
}

/// Whether each of `params` has a type that can name a type and a name that
/// is a word.
pub open spec fn spec_are_plain(params: Seq<(Seq<char>, Seq<char>)>) -> bool {
    forall|i: int|
        0 <= i < params.len() ==> spec_is_type_text((#[trigger] params[i]).0) && spec_is_word(
            params[i].1,
        )
}

/// Whether `f` is a signature as C headers declare them: the name and the
/// parameter names are words, and the types can name types.
pub open spec fn spec_is_plain(f: SignatureView) -> bool {
    spec_is_word(f.name) && spec_is_type_text(f.return_type) && spec_are_plain(f.parameters)
}

/// The declaration that states `f`.
pub open spec fn spec_declaration(f: SignatureView) -> Seq<char> {
    "extern \"C\" fn "@ + f.name + "("@ + spec_parameter_list(f.parameters) + ")"@ + (
    if f.return_type == "void"@ {
        Seq::empty()
    } else {
        " -> "@ + f.return_type
    }) + ";"@
}

/// What is known of the parameters as they are written in a definition,
/// where there is at least one: they begin and end with a character that is
/// no whitespace, end as the last name ends, hold a space, and hold no
/// structural character but the comma.
pub proof fn lemma_joined_shape(params: Seq<(Seq<char>, Seq<char>)>)
    requires
        params.len() > 0,
        spec_are_plain(params),
    ensures
        spec_joined_parameters(params).len() > 0,
        !spec_is_whitespace(spec_joined_parameters(params).first()),
        !spec_is_whitespace(spec_joined_parameters(params).last()),
        spec_joined_parameters(params).last() != ')',
        exists|k: int|
            0 <= k < spec_joined_parameters(params).len() && spec_joined_parameters(params)[k]
                == ' ',
        forall|k: int|
            0 <= k < spec_joined_parameters(params).len() ==> {
                let c = #[trigger] spec_joined_parameters(params)[k];
                c != '(' && c != ')' && c != ';' && c != '>'
            },
    decreases params.len(),
{
    reveal_strlit(" ");
    reveal_strlit(", ");
    let joined = spec_joined_parameters(params);
    let t = params.last().0;
    let n = params.last().1;
    assert(spec_is_type_text(t) && spec_is_word(n));
    if params.len() == 1 {
        assert(joined == t + " "@ + n);
        assert(joined[t.len() as int] == ' ');
        assert(joined.first() == t.first());
        assert(joined.last() == n.last());
        assert forall|k: int| 0 <= k < joined.len() implies {
            let c = #[trigger] joined[k];
            c != '(' && c != ')' && c != ';' && c != '>'
        } by {
            if k < t.len() {
                assert(joined[k] == t[k]);
            } else if k > t.len() {
                assert(joined[k] == n[k - t.len() - 1]);
            }
        }
    } else {
        let init = spec_joined_parameters(params.drop_last());
        assert(spec_are_plain(params.drop_last())) by {
            assert forall|i: int| 0 <= i < params.drop_last().len() implies spec_is_type_text(
                (#[trigger] params.drop_last()[i]).0,
            ) && spec_is_word(params.drop_last()[i].1) by {
                assert(params.drop_last()[i] == params[i]);
            }
        }
        lemma_joined_shape(params.drop_last());
        assert(joined == init + ", "@ + t + " "@ + n);
        let at: int = (init.len() + 2 + t.len()) as int;
        assert(joined[at] == ' ');
        assert(joined.first() == init.first());
        assert(joined.last() == n.last());
        assert forall|k: int| 0 <= k < joined.len() implies {
            let c = #[trigger] joined[k];
            c != '(' && c != ')' && c != ';' && c != '>'
        } by {
            if k < init.len() {
                assert(joined[k] == init[k]);
            } else if k < init.len() + 2 {
            } else if k < at {
                assert(joined[k] == t[k - init.len() - 2]);
            } else if k > at {
                assert(joined[k] == n[k - at - 1]);
            }
        }
    }
}

/// A type, a space and a word are read back as that type and that word.
pub proof fn lemma_parameter_is_read_back(t: Seq<char>, n: Seq<char>)
    requires
        spec_is_type_text(t),
        spec_is_word(n),
    ensures
        spec_trim(t + seq![' '] + n) == t + seq![' '] + n,
        spec_parse_parameter(t + seq![' '] + n) == Some((t, n)),
{
    let p = t + seq![' '] + n;
    assert(p.first() == t.first());
    assert(p.last() == n.last());
    lemma_trim_nothing(p);
    assert forall|k: int| 0 <= k < n.len() implies n[k] != ' ' by {
        assert(!spec_is_whitespace(n[k]));
    }
    lemma_rfind_char_before(t, ' ', n);
    assert(p.take(t.len() as int) =~= t);
    assert(p.skip(t.len() as int + 1) =~= n);
}

/// Parameters that are written as in a definition are read back as they
/// were.
pub proof fn lemma_parameters_are_read_back(params: Seq<(Seq<char>, Seq<char>)>)
    requires
        params.len() > 0,
        spec_are_plain(params),
    ensures
        spec_collect_parameters(spec_split(spec_joined_parameters(params), ',')) == params,
    decreases params.len(),
{
    reveal_strlit(" ");
    reveal_strlit(", ");
    let joined = spec_joined_parameters(params);
    let t = params.last().0;
    let n = params.last().1;
    assert(spec_is_type_text(t) && spec_is_word(n));
    let written = t + seq![' '] + n;
    lemma_parameter_is_read_back(t, n);
    assert forall|k: int| 0 <= k < written.len() implies written[k] != ',' by {
        if k < t.len() {
            assert(written[k] == t[k]);
        } else if k > t.len() {
            assert(written[k] == n[k - t.len() - 1]);
        }
    }
    if params.len() == 1 {
        assert(joined =~= written);
        lemma_find_char_none(joined, ',');
        let pieces = spec_split(joined, ',');
        assert(pieces == seq![joined]);
        assert(pieces.drop_last() =~= Seq::<Seq<char>>::empty());
        assert(spec_collect_parameters(pieces.drop_last()) =~= Seq::empty());
        assert(spec_collect_parameters(pieces) =~= params);
    } else {
        let init = params.drop_last();
        assert(spec_are_plain(init)) by {
            assert forall|i: int| 0 <= i < init.len() implies spec_is_type_text(
                (#[trigger] init[i]).0,
            ) && spec_is_word(init[i].1) by {
                assert(init[i] == params[i]);
            }
        }
        lemma_parameters_are_read_back(init);
        let head = spec_joined_parameters(init);
        let tail = seq![' '] + written;
        assert(joined =~= head + seq![','] + tail);
        assert forall|k: int| 0 <= k < tail.len() implies tail[k] != ',' by {
            if k > 0 {
                assert(tail[k] == written[k - 1]);
            }
        }
        lemma_split_last(head, ',', tail);
        let pieces = spec_split(joined, ',');
        assert(pieces.drop_last() =~= spec_split(head, ','));
        assert(pieces.last() == tail);
        lemma_trim_start_skips(' ', written);
        assert(spec_trim_start(written) == written);
        assert(spec_trim(tail) == written);
        assert(spec_collect_parameters(pieces) =~= params);
    }
}


/// What stands between the parentheses of a definition is not empty,
/// neither begins nor ends with whitespace, does not end with a
/// parenthesis, holds no structural character but the comma, and is read
/// back as the parameters that it was written for.
pub proof fn lemma_parameter_list_is_read_back(params: Seq<(Seq<char>, Seq<char>)>)
    requires
        spec_are_plain(params),
    ensures
        spec_parameter_list(params).len() > 0,
        !spec_is_whitespace(spec_parameter_list(params).first()),
        !spec_is_whitespace(spec_parameter_list(params).last()),
        spec_parameter_list(params).last() != ')',
        forall|k: int|
            0 <= k < spec_parameter_list(params).len() ==> {
                let c = #[trigger] spec_parameter_list(params)[k];
                c != '(' && c != ')' && c != ';' && c != '>'
            },
        spec_parse_parameters(spec_parameter_list(params)) == params,
{
    reveal_strlit("void");
    let list = spec_parameter_list(params);
    if params.len() == 0 {
        lemma_trim_nothing(list);
        assert(params =~= Seq::empty());
    } else {
        lemma_joined_shape(params);
        lemma_trim_nothing(list);
        lemma_parameters_are_read_back(params);
        let k = choose|k: int| 0 <= k < list.len() && list[k] == ' ';
        assert(list != "void"@) by {
            if list == "void"@ {
                assert("void"@[k] == ' ');
            }
        }
    }
}

/// Behind the opening parenthesis of a declaration the parameter list is
/// found again: in front of the closing parenthesis, whether the
/// declaration ends there or goes on with an arrow and a return type.
pub proof fn lemma_list_is_read_back(list: Seq<char>, ending: Option<Seq<char>>)
    requires
        list.len() > 0,
        list.last() != ')',
        forall|k: int| 0 <= k < list.len() ==> list[k] != '>',
    ensures
        spec_strip_suffix_char_all(
            spec_parameter_text(
                list + seq![')'] + (match ending {
                    Some(ret) => seq![' ', '-', '>', ' '] + ret,
                    None => Seq::empty(),
                }),
            ),
            ')',
        ) == list,
{
    reveal_strlit("->");
    assert("->"@ =~= seq!['-', '>']);
    let closed = list + seq![')'];
    assert(closed.last() == ')');
    assert(closed.drop_last() =~= list);
    assert(spec_strip_suffix_char_all(list, ')') == list);
    assert(spec_strip_suffix_char_all(closed, ')') == list);
    match ending {
        None => {
            let rest = closed + Seq::<char>::empty();
            assert(rest =~= closed);
            assert forall|k: int| 0 <= k < closed.len() implies closed[k] != '>' by {
                if k < list.len() {
                    assert(closed[k] == list[k]);
                }
            }
            lemma_find_pair_none(closed, '-', '>');
        },
        Some(ret) => {
            let rest = closed + (seq![' ', '-', '>', ' '] + ret);
            let head = closed + seq![' '];
            let tail = seq![' '] + ret;
            assert(rest =~= head + seq!['-', '>'] + tail);
            assert forall|k: int| 0 <= k < head.len() implies head[k] != '>' by {
                if k < list.len() {
                    assert(head[k] == list[k]);
                }
            }
            lemma_find_pair_after(head, '-', '>', tail);
            assert(rest.take(head.len() as int) =~= head);
            lemma_trim_end_skips(closed, ' ');
            assert(spec_trim_end(closed) == closed);
            assert(spec_parameter_text(rest) == closed);
        },
    }
}

/// After the qualifier and the keyword of a declaration and before its
/// semicolon stands what the declaration states.
pub proof fn lemma_frame_is_removed(stated: Seq<char>)
    requires
        stated.len() >= 2,
        stated.last() != ';',
        !spec_is_whitespace(stated.first()),
        !spec_is_whitespace(stated[1]) || stated[1] == '(',
        stated.len() >= 3 ==> !spec_is_whitespace(stated[2]) || stated[2] == '(' || stated[1]
            == '(',
    ensures
        spec_starts_with("extern \"C\" fn "@ + stated + ";"@, "extern"@),
        spec_contains("extern \"C\" fn "@ + stated + ";"@, "fn"@),
        spec_trim("extern \"C\" fn "@ + stated + ";"@) == "extern \"C\" fn "@ + stated + ";"@,
        spec_starts_with(
            spec_trim(
                spec_strip_prefix_all("extern \"C\" fn "@ + stated + ";"@, "extern \"C\" "@),
            ),
            "fn "@,
        ),
        spec_strip_suffix_char_all(
            spec_strip_prefix_all(
                spec_trim(
                    spec_strip_prefix_all("extern \"C\" fn "@ + stated + ";"@, "extern \"C\" "@),
                ),
                "fn "@,
            ),
            ';',
        ) == stated,
{
    reveal_strlit("extern \"C\" fn ");
    reveal_strlit("extern \"C\" ");
    reveal_strlit("extern");
    reveal_strlit("fn ");
    reveal_strlit("fn");
    reveal_strlit(";");
    let qualifier = "extern \"C\" "@;
    let keyword = "fn "@;
    let line = "extern \"C\" fn "@ + stated + ";"@;
    let rest = stated + seq![';'];
    assert(line =~= qualifier + (keyword + rest));
    assert(line.take(6) =~= "extern"@);
    assert(line.first() == 'e');
    assert(line.last() == ';');
    lemma_trim_nothing(line);
    // The line mentions the keyword.
    assert(line.subrange(11, 13) =~= "fn"@);
    lemma_occurrence_is_found(line, "fn"@, 11);
    // The qualifier goes once.
    let unqualified = keyword + rest;
    assert(line.take(11) =~= qualifier);
    assert(line.skip(11) =~= unqualified);
    assert(!spec_starts_with(unqualified, qualifier)) by {
        if spec_starts_with(unqualified, qualifier) {
            assert(unqualified.take(11)[0] == qualifier[0]);
        }
    }
    assert(spec_strip_prefix_all(unqualified, qualifier) == unqualified);
    assert(spec_strip_prefix_all(line, qualifier) == unqualified);
    assert(unqualified.first() == 'f');
    assert(unqualified.last() == ';');
    lemma_trim_nothing(unqualified);
    // The keyword goes once.
    assert(unqualified.take(3) =~= keyword);
    assert(unqualified.skip(3) =~= rest);
    assert(!spec_starts_with(rest, keyword)) by {
        if spec_starts_with(rest, keyword) {
            assert(rest.take(3)[0] == 'f');
            assert(rest.take(3)[1] == 'n');
            assert(rest.take(3)[2] == ' ');
            assert(rest[0] == stated[0]);
            assert(rest[1] == stated[1]);
            if stated.len() >= 3 {
                assert(rest[2] == stated[2]);
            }
        }
    }
    assert(spec_strip_prefix_all(rest, keyword) == rest);
    assert(spec_strip_prefix_all(unqualified, keyword) == rest);
    // The semicolon goes once.
    assert(rest.drop_last() =~= stated);
    assert(spec_strip_suffix_char_all(stated, ';') == stated);
}

/// A declaration written for a signature as C headers declare them is read
/// back as that signature: the same name, the same return type, and the
/// same parameters with the same types in the same order.
pub proof fn lemma_declaration_is_read_back(f: SignatureView)
    requires
        spec_is_plain(f),
    ensures
        spec_parse_declaration(spec_declaration(f)) == Some(f),
        spec_declaration_of_line(spec_declaration(f)) == Some(f),
{
    reveal_strlit("(");
    reveal_strlit(")");
    reveal_strlit(" -> ");
    reveal_strlit("->");
    reveal_strlit("void");
    let name = f.name;
    let ret = f.return_type;
    let list = spec_parameter_list(f.parameters);
    lemma_parameter_list_is_read_back(f.parameters);
    let plain = name + seq!['('] + list + seq![')'];
    let is_void = ret == "void"@;
    let ending = if is_void {
        None
    } else {
        Some(ret)
    };
    let tail = match ending {
        Some(ret) => seq![' ', '-', '>', ' '] + ret,
        None => Seq::empty(),
    };
    let stated = plain + tail;
    let line = spec_declaration(f);
    assert(" -> "@ =~= seq![' ', '-', '>', ' ']);
    assert(line =~= "extern \"C\" fn "@ + stated + ";"@);
    assert(!spec_is_structural(ret.last()));
    assert(stated.last() != ';') by {
        if is_void {
            assert(stated.last() == ')');
        } else {
            assert(stated.last() == ret.last());
        }
    }
    assert(stated.first() == name[0]);
    assert(!spec_is_whitespace(name[0]));
    assert(stated[1] == (if name.len() >= 2 {
        name[1]
    } else {
        '('
    }));
    if name.len() >= 3 {
        assert(stated[2] == name[2]);
    } else if name.len() == 2 {
        assert(stated[2] == '(');
    }
    lemma_frame_is_removed(stated);
    // The name ends at the first opening parenthesis.
    let open = name.len() as int;
    assert(stated[open] == '(');
    assert forall|k: int| 0 <= k < open implies stated[k] != '(' by {
        assert(stated[k] == name[k]);
        assert(!spec_is_structural(name[k]));
    }
    lemma_find_char_first(stated, '(', open);
    assert(stated.take(open) =~= name);
    assert(!spec_is_whitespace(name.first()) && !spec_is_whitespace(name.last()));
    lemma_trim_nothing(name);
    // The parameters stand behind it.
    assert(stated.skip(open + 1) =~= list + seq![')'] + tail);
    lemma_list_is_read_back(list, ending);
    // The return type follows the arrow.
    assert forall|k: int| 0 <= k < plain.len() implies plain[k] != '>' by {
        if k < name.len() {
            assert(plain[k] == name[k]);
            assert(!spec_is_structural(name[k]));
        } else if name.len() < k <= name.len() + list.len() {
            assert(plain[k] == list[k - name.len() - 1]);
        }
    }
    assert("->"@ =~= seq!['-', '>']);
    let parsed = spec_parse_declaration(line);
    if is_void {
        assert(stated =~= plain);
        lemma_find_pair_none(stated, '-', '>');
        assert(parsed == Some(
            SignatureView { name: name, return_type: "void"@, parameters: f.parameters },
        ));
    } else {
        let head = plain + seq![' '];
        let after = seq![' '] + ret;
        assert(stated =~= head + seq!['-', '>'] + after);
        assert forall|k: int| 0 <= k < head.len() implies head[k] != '>' by {
            if k < plain.len() {
                assert(head[k] == plain[k]);
            }
        }
        lemma_find_pair_after(head, '-', '>', after);
        let at = head.len() as int;
        assert(stated.skip(at + 2) =~= after);
        assert forall|k: int| 0 <= k < after.len() implies after[k] != '>' by {
            if k > 0 {
                assert(after[k] == ret[k - 1]);
                assert(!spec_is_structural(ret[k - 1]));
            }
        }
        lemma_find_pair_none(after, '-', '>');
        lemma_trim_start_skips(' ', ret);
        lemma_trim_nothing(ret);
        assert(spec_trim_start(ret) == ret);
        assert(spec_trim(after) == ret);
        assert(spec_return_type(after) == ret);
        assert(parsed == Some(
            SignatureView { name: name, return_type: ret, parameters: f.parameters },
        ));
    }
}

/// Writes the declaration that states `func`.
pub fn declaration(func: &FunctionSignature) -> (line: String)
    ensures
        line@ == spec_declaration(func@),
{
    let mut line = "extern \"C\" fn ".to_owned();
    line.append(func.name.as_str());
    line.append("(");
    line.append(parameter_list(func).as_str());
    line.append(")");
    if same_text(func.return_type.as_str(), "void") {
        proof {
            assert(line@ + Seq::<char>::empty() =~= line@);
        }
    } else {
        let ghost before = line@;
        line.append(" -> ");
        line.append(func.return_type.as_str());
        proof {
            assert(line@ =~= before + (" -> "@ + func@.return_type));
        }
    }
    line.append(";");
    line
}

} // verus!
