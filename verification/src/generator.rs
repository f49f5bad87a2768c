//! The stub generator: the header groups of a build and the registry of
//! default return values.

use vstd::prelude::*;
use vstd::string::StringExecFns;
use crate::error::{BuildError, BuildErrorView};
use crate::extract::{
    keep_distinct, lemma_keep_distinct_joined, spec_distinct_declarations,
    spec_extract_functions,
};
use crate::groups::{
    enabled_groups, spec_enabled_groups, spec_group_views, spec_header_group, Capabilities,
    GroupId, HeaderGroup, HeaderGroupView,
};
use crate::registry::{spec_default_values, DefaultValueMap};
use crate::signature::{spec_parameters, spec_signatures, FunctionSignature, SignatureView};
use crate::synth::spec_stub_file;
use crate::text::spec_texts;

verus! {

/// The header groups that take part under `caps`, in processing order.
pub open spec fn spec_enabled_header_groups(caps: Capabilities) -> Seq<HeaderGroupView> {
    Seq::new(
        spec_enabled_groups(caps).len(),
        |i: int| spec_header_group(spec_enabled_groups(caps)[i]),
    )
}

/// Synthesizes stub sources for a fixed set of header groups, with a fixed
/// registry of default return values.
#[derive(Debug, Clone)]
pub struct StubGenerator {
    /// The header groups to synthesize sources for, in processing order.
    pub header_files: Vec<HeaderGroup>,
    /// The literal returned for each covered return type.
    pub return_values: DefaultValueMap,
}

impl StubGenerator {
    /// The generator for the groups that `caps` switches on, with the
    /// registry that covers the SDK's headers.
    pub fn new(caps: Capabilities) -> (r: Self)
        ensures
            spec_group_views(r.header_files@) == spec_enabled_header_groups(caps),
            r.return_values@ == spec_default_values(),
    {
        let ids = enabled_groups(caps);
        let mut header_files: Vec<HeaderGroup> = Vec::new();
        let mut i: usize = 0;
        while i < ids.len()
            invariant
                i <= ids.len(),
                ids@ == spec_enabled_groups(caps),
                header_files.len() == i,
                forall|k: int| 0 <= k < i ==> header_files@[k]@ == spec_header_group(ids@[k]),
            decreases ids.len() - i,
        {
            let id: GroupId = ids[i];
            header_files.push(id.header_group());
            i = i + 1;
        }
        proof {
            assert(spec_group_views(header_files@) =~= spec_enabled_header_groups(caps));
        }
        StubGenerator { header_files, return_values: DefaultValueMap::standard() }
    }
}

impl Default for StubGenerator {
    /// The generator for a build without optional capabilities.
    fn default() -> (r: Self)
        ensures
            spec_group_views(r.header_files@) == spec_enabled_header_groups(
                Capabilities { distance: false, presence: false },
            ),
            r.return_values@ == spec_default_values(),
    {
        StubGenerator::new(Capabilities { distance: false, presence: false })
    }
}

/// The mathematical value of a [`HeaderSource`].
pub enum HeaderSourceView {
    Declarations(Seq<char>),
    Signatures(Seq<SignatureView>),
    Unreadable(Seq<char>),
    Unparsable(Seq<char>),
}

/// What became of the attempt to resolve the declarations of one header.
#[derive(Debug, Clone, PartialEq, Eq)]
pub enum HeaderSource {
    /// The declarations of the header, as text.
    Declarations(String),
    /// The signatures that the header declares, in declaration order.
    Signatures(Vec<FunctionSignature>),
    /// The header could not be read; the reason is given.
    Unreadable(String),
    /// The header's declarations could not be resolved; the reason is given.
    Unparsable(String),
}

/// The mathematical value of a [`ResolvedHeader`].
pub struct ResolvedHeaderView {
    pub name: Seq<char>,
    pub source: HeaderSourceView,
}

/// One header of a group together with what resolving it gave.
#[derive(Debug, Clone, PartialEq, Eq)]
pub struct ResolvedHeader {
    pub name: String,
    pub source: HeaderSource,
}

impl View for HeaderSource {
    type V = HeaderSourceView;

    open spec fn view(&self) -> HeaderSourceView {
        match self {
            HeaderSource::Declarations(t) => HeaderSourceView::Declarations(t@),
            HeaderSource::Signatures(f) => HeaderSourceView::Signatures(spec_signatures(f@)),
            HeaderSource::Unreadable(t) => HeaderSourceView::Unreadable(t@),
            HeaderSource::Unparsable(t) => HeaderSourceView::Unparsable(t@),
        }
    }
}

impl View for ResolvedHeader {
    type V = ResolvedHeaderView;

    open spec fn view(&self) -> ResolvedHeaderView {
        ResolvedHeaderView { name: self.name@, source: self.source@ }
    }
}

/// The values of the resolved headers in `v`, in order.
pub open spec fn spec_resolved_views(v: Seq<ResolvedHeader>) -> Seq<ResolvedHeaderView> {
    Seq::new(v.len(), |i: int| v[i]@)
}

/// The names of the headers in `resolved`, in order.
pub open spec fn spec_header_names(resolved: Seq<ResolvedHeaderView>) -> Seq<Seq<char>> {
    Seq::new(resolved.len(), |i: int| resolved[i].name)
}

/// The signatures declared in the headers of `resolved`: those of the first
/// header in their order, then those of the second, and so on.
pub open spec fn spec_group_declarations(resolved: Seq<ResolvedHeaderView>) -> Seq<SignatureView>
    decreases resolved.len(),
{
    if resolved.len() == 0 {
        Seq::empty()
    } else {
        spec_group_declarations(resolved.drop_last()) + (match resolved.last().source {
            HeaderSourceView::Declarations(text) => spec_extract_functions(text),
            HeaderSourceView::Signatures(functions) => functions,
            _ => Seq::empty(),
        })
    }
}

/// Whether `source` holds what a header declares.
pub open spec fn spec_is_resolved(source: HeaderSourceView) -> bool {
    source is Declarations || source is Signatures
}

/// The position of the first header of `resolved` that was not resolved.
pub open spec fn spec_first_failure(resolved: Seq<ResolvedHeaderView>) -> Option<int>
    decreases resolved.len(),
{
    if resolved.len() == 0 {
        None
    } else {
        match spec_first_failure(resolved.drop_last()) {
            Some(i) => Some(i),
            None => if spec_is_resolved(resolved.last().source) {
                None
            } else {
                Some(resolved.len() - 1)
            },
        }
    }
}

/// The error for a header that was not resolved.
pub open spec fn spec_extraction_error(header: ResolvedHeaderView) -> BuildErrorView {
    match header.source {
        HeaderSourceView::Unparsable(reason) => BuildErrorView::ExtractionError(
            "Failed to resolve the declarations of header "@ + header.name + ": "@ + reason,
        ),
        HeaderSourceView::Unreadable(reason) => BuildErrorView::ExtractionError(
            "Failed to read header "@ + header.name + ": "@ + reason,
        ),
        _ => BuildErrorView::ExtractionError(header.name),
    }
}

/// A copy of `functions`.
pub fn clone_signatures(functions: &Vec<FunctionSignature>) -> (copy: Vec<FunctionSignature>)
    ensures
        spec_signatures(copy@) == spec_signatures(functions@),
{
    let mut copy: Vec<FunctionSignature> = Vec::new();
    let mut i: usize = 0;
    while i < functions.len()
        invariant
            i <= functions.len(),
            copy.len() == i,
            forall|k: int| 0 <= k < i ==> copy@[k]@ == functions@[k]@,
        decreases functions.len() - i,
    {
        let f = &functions[i];
        let mut parameters: Vec<(String, String)> = Vec::new();
        let mut j: usize = 0;
        while j < f.parameters.len()
            invariant
                j <= f.parameters.len(),
                parameters.len() == j,
                forall|k: int|
                    0 <= k < j ==> parameters@[k].0@ == f.parameters@[k].0@ && parameters@[k].1@
                        == f.parameters@[k].1@,
            decreases f.parameters.len() - j,
        {
            parameters.push((f.parameters[j].0.clone(), f.parameters[j].1.clone()));
            j = j + 1;
        }
        proof {
            assert(spec_parameters(parameters@) =~= spec_parameters(f.parameters@));
        }
        copy.push(
            FunctionSignature {
                name: f.name.clone(),
                return_type: f.return_type.clone(),
                parameters,
            },
        );
        i = i + 1;
    }
    proof {
        assert(spec_signatures(copy@) =~= spec_signatures(functions@));
    }
    copy
}

/// The names of the headers in `resolved`, in order.
pub fn header_names(resolved: &[ResolvedHeader]) -> (names: Vec<String>)
    ensures
        spec_texts(names@) == spec_header_names(spec_resolved_views(resolved@)),
{
    let mut names: Vec<String> = Vec::new();
    let mut i: usize = 0;
    while i < resolved.len()
        invariant
            i <= resolved.len(),
            names.len() == i,
            forall|k: int| 0 <= k < i ==> names@[k]@ == resolved@[k].name@,
        decreases resolved.len() - i,
    {
        names.push(resolved[i].name.clone());
        i = i + 1;
    }
    proof {
        assert(spec_texts(names@) =~= spec_header_names(spec_resolved_views(resolved@)));
    }
    names
}

impl StubGenerator {
    /// Synthesizes the source file of one header group from what resolving
    /// its headers gave.
    ///
    /// Succeeds if and only if every header was resolved. The file then
    /// holds one definition for each distinct function name declared in
    /// the headers, in the order of first declaration. Otherwise the error
    /// is that of the first header that was not resolved, and nothing is
    /// synthesized.
    pub fn generate_stubs(&self, resolved: &[ResolvedHeader]) -> (r: Result<String, BuildError>)
        ensures
            match r {
                Ok(content) => spec_first_failure(spec_resolved_views(resolved@)) is None
                    && content@ == spec_stub_file(
                    spec_distinct_declarations(
                        spec_group_declarations(spec_resolved_views(resolved@)),
                    ),
                    spec_header_names(spec_resolved_views(resolved@)),
                    self.return_values@,
                ),
                Err(e) => spec_first_failure(spec_resolved_views(resolved@)) matches Some(i) && 0
                    <= i < resolved.len() && e@ == spec_extraction_error(resolved@[i]@),
            },
    {
        let ghost all = spec_resolved_views(resolved@);
        let mut functions: Vec<FunctionSignature> = Vec::new();
        let mut i: usize = 0;
        proof {
            assert(all.take(0) =~= Seq::empty());
            assert(spec_signatures(functions@) =~= Seq::empty());
        }
        while i < resolved.len()
            invariant
                i <= resolved.len(),
                all == spec_resolved_views(resolved@),
                spec_first_failure(all.take(i as int)) is None,
                spec_signatures(functions@) == spec_distinct_declarations(
                    spec_group_declarations(all.take(i as int)),
                ),
            decreases resolved.len() - i,
        {
            proof {
                assert(all.take(i + 1).drop_last() =~= all.take(i as int));
                assert(all.take(i + 1).last() == resolved@[i as int]@);
            }
            match &resolved[i].source {
                HeaderSource::Declarations(text) => {
                    match self.extract_functions_from_text(text.as_str()) {
                        Ok(found) => {
                            proof {
                                lemma_keep_distinct_joined(
                                    Seq::empty(),
                                    spec_group_declarations(all.take(i as int)),
                                    spec_signatures(found@),
                                );
                            }
                            keep_distinct(&mut functions, found);
                        },
                        Err(e) => {
                            return Err(e);
                        },
                    }
                },
                HeaderSource::Signatures(declared) => {
                    let found = clone_signatures(declared);
                    proof {
                        lemma_keep_distinct_joined(
                            Seq::empty(),
                            spec_group_declarations(all.take(i as int)),
                            spec_signatures(found@),
                        );
                    }
                    keep_distinct(&mut functions, found);
                },
                HeaderSource::Unreadable(reason) => {
                    let mut detail = "Failed to read header ".to_owned();
                    detail.append(resolved[i].name.as_str());
                    detail.append(": ");
                    detail.append(reason.as_str());
                    proof {
                        lemma_first_failure_stays(all, i + 1);
                    }
                    return Err(BuildError::ExtractionError(detail));
                },
                HeaderSource::Unparsable(reason) => {
                    let mut detail = "Failed to resolve the declarations of header ".to_owned();
                    detail.append(resolved[i].name.as_str());
                    detail.append(": ");
                    detail.append(reason.as_str());
                    proof {
                        lemma_first_failure_stays(all, i + 1);
                    }
                    return Err(BuildError::ExtractionError(detail));
                },
            }
            i = i + 1;
        }
        proof {
            assert(all.take(resolved.len() as int) =~= all);
        }
        let names = header_names(resolved);
        self.generate_stub_file(functions.as_slice(), names.as_slice())
    }
}

/// A failure among the first `n` headers is the first failure of the whole
/// list.
pub proof fn lemma_first_failure_stays(resolved: Seq<ResolvedHeaderView>, n: int)
    requires
        0 <= n <= resolved.len(),
        spec_first_failure(resolved.take(n)) is Some,
    ensures
        spec_first_failure(resolved) == spec_first_failure(resolved.take(n)),
    decreases resolved.len() - n,
{
    if n < resolved.len() {
        assert(resolved.take(n + 1).drop_last() =~= resolved.take(n));
        lemma_first_failure_stays(resolved, n + 1);
    } else {
        assert(resolved.take(n) =~= resolved);
    }
}

/// What `spec_first_failure` reports: the header at that position was not
/// resolved and every header before it was; or every header was resolved.
pub proof fn lemma_first_failure(resolved: Seq<ResolvedHeaderView>)
    ensures
        match spec_first_failure(resolved) {
            Some(i) => 0 <= i < resolved.len() && !spec_is_resolved(resolved[i].source)
                && forall|k: int| 0 <= k < i ==> spec_is_resolved((#[trigger] resolved[k]).source),
            None => forall|k: int|
                0 <= k < resolved.len() ==> spec_is_resolved((#[trigger] resolved[k]).source),
        },
    decreases resolved.len(),
{
    if resolved.len() > 0 {
        lemma_first_failure(resolved.drop_last());
        match spec_first_failure(resolved.drop_last()) {
            Some(i) => {
                assert(resolved.drop_last()[i] == resolved[i]);
                assert forall|k: int| 0 <= k < i implies spec_is_resolved(
                    (#[trigger] resolved[k]).source,
                ) by {
                    assert(resolved.drop_last()[k] == resolved[k]);
                }
            },
            None => {
                assert forall|k: int| 0 <= k < resolved.len() - 1 implies spec_is_resolved(
                    (#[trigger] resolved[k]).source,
                ) by {
                    assert(resolved.drop_last()[k] == resolved[k]);
                }
            },
        }
    }
}

} // verus!
