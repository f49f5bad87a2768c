//! Function signatures as they are declared in a C header.

use vstd::prelude::*;

verus! {

/// The mathematical value of a [`FunctionSignature`].
pub struct SignatureView {
    pub name: Seq<char>,
    pub return_type: Seq<char>,
    /// One `(type, name)` pair per parameter, in declaration order.
    pub parameters: Seq<(Seq<char>, Seq<char>)>,
}

/// One declared function: its name, its return type and its parameters.
#[derive(Debug, Clone, PartialEq, Eq)]
pub struct FunctionSignature {
    pub name: String,
    pub return_type: String,
    /// One `(type, name)` pair per parameter, in declaration order.
    pub parameters: Vec<(String, String)>,
}

/// The `(type, name)` pairs of `parameters` as character sequences.
pub open spec fn spec_parameters(parameters: Seq<(String, String)>) -> Seq<(Seq<char>, Seq<char>)> {
    Seq::new(parameters.len(), |i: int| (parameters[i].0@, parameters[i].1@))
}

/// The values of the signatures in `functions`, in order.
pub open spec fn spec_signatures(functions: Seq<FunctionSignature>) -> Seq<SignatureView> {
    Seq::new(functions.len(), |i: int| functions[i]@)
}

impl View for FunctionSignature {
    type V = SignatureView;

    open spec fn view(&self) -> SignatureView {
        SignatureView {
            name: self.name@,
            return_type: self.return_type@,
            parameters: spec_parameters(self.parameters@),
        }
    }
}

impl FunctionSignature {
    /// A signature with the given name, return type and `(type, name)` parameters.
    pub fn new(name: String, return_type: String, parameters: Vec<(String, String)>) -> (f: Self)
        ensures
            f@.name == name@,
            f@.return_type == return_type@,
            f@.parameters == spec_parameters(parameters@),
    {
        FunctionSignature { name, return_type, parameters }
    }

    /// The number of parameters.
    pub fn arity(&self) -> (n: usize)
        ensures
            n == self@.parameters.len(),
    {
        self.parameters.len()
    }
}

} // verus!
