//! Reduction of parameter and return types to the two buckets the host
//! marshals, and the record kept for each exported function.
use vstd::prelude::*;

verus! {

/// The two value categories the host can pass across the boundary.
#[derive(Clone, Copy, Debug, PartialEq, Eq, Structural)]
pub enum ArgType {
    /// A numeric value.
    ArgNum,
    /// A string-like value.
    ArgStr,
}

/// The shape of a written type, as far as classification needs it.
#[derive(Clone, Copy, Debug, PartialEq, Eq, Structural)]
pub enum TypeSyntax {
    /// A reference, `&T` or `&mut T`.
    Reference,
    /// A raw pointer, `*const T` or `*mut T`.
    Pointer,
    /// Any other written type.
    Other,
}

/// Whether a type reaches its value through an indirection.
pub open spec fn is_indirection(t: TypeSyntax) -> bool {
    t is Reference || t is Pointer
}

/// The category of a written type.
pub open spec fn spec_classify(t: TypeSyntax) -> ArgType {
    if is_indirection(t) {
        ArgType::ArgStr
    } else {
        ArgType::ArgNum
    }
}

/// Classifies a written type: indirections are strings, all else is a number.
pub fn classify(t: TypeSyntax) -> (r: ArgType)
    ensures
        r == spec_classify(t),
        r == ArgType::ArgStr <==> is_indirection(t),
        r == ArgType::ArgNum <==> !is_indirection(t),
{
    match t {
        TypeSyntax::Reference | TypeSyntax::Pointer => ArgType::ArgStr,
        TypeSyntax::Other => ArgType::ArgNum,
    }
}

/// The signature of one exported function, reduced to what the host needs.
pub struct BindedFunction {
    /// The function's own name.
    pub name: String,
    /// Documentation shown by the host; left empty for now.
    pub help: String,
    /// One category per parameter, in declaration order.
    pub args: Vec<ArgType>,
    /// The category of the returned value.
    pub return_type: ArgType,
}

/// The mathematical value of a [`BindedFunction`].
pub struct FunctionSpec {
    pub name: Seq<char>,
    pub help: Seq<char>,
    pub args: Seq<ArgType>,
    pub return_type: ArgType,
}

impl View for BindedFunction {
    type V = FunctionSpec;

    open spec fn view(&self) -> FunctionSpec {
        FunctionSpec {
            name: self.name@,
            help: self.help@,
            args: self.args@,
            return_type: self.return_type,
        }
    }
}

/// The category of a declared return type; none written means a number.
pub open spec fn spec_return_category(ret: Option<TypeSyntax>) -> ArgType {
    match ret {
        Some(t) => spec_classify(t),
        None => ArgType::ArgNum,
    }
}

/// The record made from a function's name, parameter types and return type.
pub open spec fn spec_record(
    name: Seq<char>,
    params: Seq<TypeSyntax>,
    ret: Option<TypeSyntax>,
) -> FunctionSpec {
    FunctionSpec {
        name,
        help: Seq::empty(),
        args: params.map_values(|t: TypeSyntax| spec_classify(t)),
        return_type: spec_return_category(ret),
    }
}

impl BindedFunction {
    /// Builds the record of a function from its name and written types:
    /// each parameter and the return type are classified, the help is empty.
    pub fn record(name: &str, params: &Vec<TypeSyntax>, ret: Option<TypeSyntax>) -> (r:
        BindedFunction)
        ensures
            r@ == spec_record(name@, params@, ret),
    {
        let mut args: Vec<ArgType> = Vec::new();
        let mut i: usize = 0;
        while i < params.len()
            invariant
                i <= params@.len(),
                args@ == params@.take(i as int).map_values(|t: TypeSyntax| spec_classify(t)),
            decreases params@.len() - i,
        {
            args.push(classify(params[i]));
            i = i + 1;
            assert(params@.take(i as int).drop_last() =~= params@.take(i - 1));
        }
        assert(params@.take(i as int) =~= params@);
        let return_type = match ret {
            Some(t) => classify(t),
            None => ArgType::ArgNum,
        };
        BindedFunction { name: name.to_owned(), help: String::new(), args, return_type }
    }
}

} // verus!
