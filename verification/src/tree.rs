//! The engine's own model of a parsed source file: the facts the analysis
//! rules read from a syntax tree, as plain values. Building this model from
//! a concrete parser's output is the embedding program's concern; the rules
//! and their contracts work over this model alone.

use vstd::prelude::*;

verus! {

/// Binding form of one function parameter.
#[derive(Clone, Copy, Debug, PartialEq, Eq, Structural)]
pub enum ParamKind {
    /// A simple identifier binding.
    Simple,
    /// An array destructuring pattern.
    ArrayPattern,
    /// An object destructuring pattern.
    ObjectPattern,
    /// A rest (variadic) binding.
    Rest,
}

/// One parameter of a function-like construct. `offset` is the position of
/// the parameter in the analyzed source text, counted in characters from
/// its start; `name` is the identifier for a simple binding and empty for
/// the other binding forms.
pub struct ParamNode {
    pub kind: ParamKind,
    pub name: String,
    pub has_annotation: bool,
    pub offset: usize,
}

/// Mathematical content of a [`ParamNode`].
pub ghost struct ParamV {
    pub kind: ParamKind,
    pub name: Seq<char>,
    pub has_annotation: bool,
    pub offset: int,
}

impl View for ParamNode {
    type V = ParamV;

    open spec fn view(&self) -> ParamV {
        ParamV {
            kind: self.kind,
            name: self.name@,
            has_annotation: self.has_annotation,
            offset: self.offset as int,
        }
    }
}

impl DeepView for ParamNode {
    type V = ParamV;

    open spec fn deep_view(&self) -> ParamV {
        self.view()
    }
}

/// One function-like construct (named function, method, or arrow function)
/// with its parameters in source order. Nested constructs each contribute
/// their own node.
pub struct FunctionNode {
    pub params: Vec<ParamNode>,
}

impl View for FunctionNode {
    type V = Seq<ParamV>;

    open spec fn view(&self) -> Seq<ParamV> {
        self.params.deep_view()
    }
}

impl DeepView for FunctionNode {
    type V = Seq<ParamV>;

    open spec fn deep_view(&self) -> Seq<ParamV> {
        self.view()
    }
}

/// The modeled syntax tree of one source file: every function-like
/// construct found by a full traversal, outer before nested, each with its
/// parameters.
pub struct SyntaxTree {
    pub functions: Vec<FunctionNode>,
}

impl View for SyntaxTree {
    type V = Seq<Seq<ParamV>>;

    open spec fn view(&self) -> Seq<Seq<ParamV>> {
        self.functions.deep_view()
    }
}

} // verus!
