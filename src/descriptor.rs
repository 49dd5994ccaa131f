//! The extension descriptor: the model of each function entry and the text
//! in which the host reads it.
use vstd::prelude::*;
use crate::session::{
    Binder, BinderSpec, fresh_session, lemma_append_all, spec_append_all, spec_start,
};
use crate::signature::{ArgType, BindedFunction, FunctionSpec};
use crate::text::{decimal, push_decimal};

verus! {

/// What the host reads of one exported function.
pub struct FunctionEntry {
    /// The name in the host's global table: prefix, underscore, function name.
    pub internal_name: Seq<char>,
    /// The name of the native symbol.
    pub external_name: Seq<char>,
    pub help: Seq<char>,
    pub return_code: nat,
    pub arg_count: nat,
    /// One code per parameter, in declaration order.
    pub arg_codes: Seq<nat>,
}

/// The host's code for a category: strings are 1, numbers 2.
pub open spec fn type_code(t: ArgType) -> nat {
    match t {
        ArgType::ArgStr => 1,
        ArgType::ArgNum => 2,
    }
}

/// The name under which a function is entered in the host's table.
pub open spec fn internal_name(prefix: Seq<char>, name: Seq<char>) -> Seq<char> {
    prefix + seq!['_'] + name
}

/// The entry of a function under a name prefix.
pub open spec fn entry_of(f: FunctionSpec, prefix: Seq<char>) -> FunctionEntry {
    FunctionEntry {
        internal_name: internal_name(prefix, f.name),
        external_name: f.name,
        help: f.help,
        return_code: type_code(f.return_type),
        arg_count: f.args.len(),
        arg_codes: f.args.map_values(|t: ArgType| type_code(t)),
    }
}

/// The text of a list of argument codes.
pub open spec fn args_text(codes: Seq<nat>) -> Seq<char>
    decreases codes.len(),
{
    if codes.len() == 0 {
        Seq::empty()
    } else {
        args_text(codes.drop_last()) + "<arg>"@ + decimal(codes.last()) + "</arg>"@
    }
}

/// The text of one function entry.
pub open spec fn entry_text(e: FunctionEntry) -> Seq<char> {
    "<function>\n<name>"@ + e.internal_name + "</name>\n<externalName>"@ + e.external_name
        + "</externalName>\n<kind>11</kind>\n<help>"@ + e.help + "</help>\n<returnType>"@
        + decimal(e.return_code) + "</returnType>\n<argCount>"@ + decimal(e.arg_count)
        + "</argCount>\n<args>"@ + args_text(e.arg_codes) + "</args>\n</function>"@
}

/// The text of a function under a name prefix.
pub open spec fn function_xml(f: FunctionSpec, prefix: Seq<char>) -> Seq<char> {
    entry_text(entry_of(f, prefix))
}

/// The texts of several entries, one after the other.
pub open spec fn entries_text(es: Seq<FunctionEntry>) -> Seq<char>
    decreases es.len(),
{
    if es.len() == 0 {
        Seq::empty()
    } else {
        entries_text(es.drop_last()) + entry_text(es.last())
    }
}

/// Appends the code of a category.
fn push_type_code(s: &mut String, t: ArgType)
    ensures
        final(s)@ == old(s)@ + decimal(type_code(t)),
{
    proof {
        reveal_strlit("1");
        reveal_strlit("2");
    }
    match t {
        ArgType::ArgStr => s.append("1"),
        ArgType::ArgNum => s.append("2"),
    }
}

impl BindedFunction {
    /// Renders the entry of this function, its internal name formed from
    /// `base_name`.
    pub fn generate_function_xml(&self, base_name: &str) -> (r: String)
        ensures
            r@ == function_xml(self@, base_name@),
    {
        let ghost e = entry_of(self@, base_name@);
        let mut args = String::new();
        let mut i: usize = 0;
        while i < self.args.len()
            invariant
                i <= self.args@.len(),
                e == entry_of(self@, base_name@),
                args@ == args_text(e.arg_codes.take(i as int)),
            decreases self.args@.len() - i,
        {
            args.append("<arg>");
            push_type_code(&mut args, self.args[i]);
            args.append("</arg>");
            i = i + 1;
            assert(e.arg_codes.take(i as int).drop_last() =~= e.arg_codes.take(i - 1));
        }
        assert(e.arg_codes.take(i as int) =~= e.arg_codes);
        let mut r = String::from_str("<function>\n<name>");
        r.append(base_name);
        r.append("_");
        r.append(self.name.as_str());
        r.append("</name>\n<externalName>");
        r.append(self.name.as_str());
        r.append("</externalName>\n<kind>11</kind>\n<help>");
        r.append(self.help.as_str());
        r.append("</help>\n<returnType>");
        push_type_code(&mut r, self.return_type);
        r.append("</returnType>\n<argCount>");
        push_decimal(&mut r, self.args.len());
        r.append("</argCount>\n<args>");
        r.append(args.as_str());
        r.append("</args>\n</function>");
        proof {
            reveal_strlit("_");
        }
        assert(r@ =~= function_xml(self@, base_name@));
        r
    }
}

/// The packaging fields that every descriptor carries unchanged.
pub const STATIC_METADATA: &'static str = "<version>1.0.0</version> \n\
    <packageID></packageID> \n\
    <ProductID></ProductID> \n\
    <date>23/12/21</date> \n\
    <license>Free to use, also for commercial games.</license> \n\
    <description></description> \n\
    <helpfile></helpfile> \n\
    <installdir></installdir> \n\
    <classname></classname> \n\
    <androidclassname></androidclassname> \n\
    <sourcedir></sourcedir> \n\
    <androidsourcedir></androidsourcedir> \n\
    <macsourcedir></macsourcedir> \n\
    <maclinkerflags></maclinkerflags> \n\
    <maccompilerflags></maccompilerflags> \n\
    <androidinject></androidinject> \n\
    <androidmanifestinject></androidmanifestinject> \n\
    <iosplistinject></iosplistinject> \n\
    <androidactivityinject></androidactivityinject> \n\
    <gradleinject></gradleinject> \n\
    <iosSystemFrameworks/> \n\
    <iosThirdPartyFrameworks/> \n\
    <ConfigOptions> \n\
    <Config name=\"Default\"> \n\
    <CopyToMask>105553895358702</CopyToMask> \n\
    </Config> \n\
    </ConfigOptions> \n\
    <androidPermissions/> \n\
    <IncludedResources/> \n";

/// The fixed fields of the file section, between its origin path and its
/// functions.
pub const FILE_SETTINGS: &'static str = "</origname> \n\
    <init></init> \n\
    <final></final> \n\
    <kind>1</kind> \n\
    <uncompress>0</uncompress> \n\
    <ConfigOptions> \n\
    <Config name=\"Default\"> \n\
    <CopyToMask>9223372036854775807</CopyToMask> \n\
    </Config> \n\
    </ConfigOptions> \n\
    <ProxyFiles/> \n\
    <functions> \n";

/// What closes the functions, the file section and the descriptor.
pub const CLOSING: &'static str = " \n</functions> \n<constants/> \n</file> \n</files> \n</extension> \n";

/// The entries of a session's functions, in the order they were appended.
pub open spec fn entries(b: BinderSpec) -> Seq<FunctionEntry> {
    b.functions.map_values(|f: FunctionSpec| entry_of(f, b.prefix))
}

/// The whole descriptor of a session.
pub open spec fn binder_xml(b: BinderSpec) -> Seq<char> {
    "<extension> <name>"@ + b.name + "</name> \n "@ + STATIC_METADATA@
        + "<files> \n<file> \n<filename>"@ + b.file_name
        + "</filename> \n<origname>extensions\\"@ + b.file_name + FILE_SETTINGS@
        + entries_text(entries(b)) + CLOSING@
}

impl Binder {
    /// Renders the descriptor of this session: its name, the fixed packaging
    /// fields, and one file section with an entry per function, in order.
    pub fn generate_xml(&self) -> (r: String)
        ensures
            r@ == binder_xml(self@),
    {
        let ghost es = entries(self@);
        let mut functions_xml = String::new();
        let mut i: usize = 0;
        while i < self.functions.len()
            invariant
                i <= self.functions@.len(),
                es == entries(self@),
                functions_xml@ == entries_text(es.take(i as int)),
            decreases self.functions@.len() - i,
        {
            let f = self.functions[i].generate_function_xml(self.function_name_prefix.as_str());
            functions_xml.append(f.as_str());
            i = i + 1;
            assert(es.take(i as int).drop_last() =~= es.take(i - 1));
        }
        assert(es.take(i as int) =~= es);
        let mut r = String::from_str("<extension> <name>");
        r.append(self.name.as_str());
        r.append("</name> \n ");
        r.append(STATIC_METADATA);
        r.append("<files> \n<file> \n<filename>");
        r.append(self.file_name.as_str());
        r.append("</filename> \n<origname>extensions\\");
        r.append(self.file_name.as_str());
        r.append(FILE_SETTINGS);
        r.append(functions_xml.as_str());
        r.append(CLOSING);
        r
    }
}

/// Where a session's descriptor is written: `dir` followed by the session
/// name and the `.xml` extension. The same name always gives the same path.
pub fn output_path(dir: &str, name: &str) -> (r: String)
    ensures
        r@ == dir@ + name@ + ".xml"@,
{
    let mut r = String::from_str(dir);
    r.append(name);
    r.append(".xml");
    r
}

/// An entry counts exactly the function's parameters, and gives one code per
/// parameter, each 1 or 2.
pub proof fn lemma_arg_codes(f: FunctionSpec, prefix: Seq<char>)
    ensures
        entry_of(f, prefix).arg_count == f.args.len(),
        entry_of(f, prefix).arg_codes.len() == entry_of(f, prefix).arg_count,
        forall|i: int|
            0 <= i < f.args.len() ==> {
                let c = #[trigger] entry_of(f, prefix).arg_codes[i];
                &&& c == type_code(f.args[i])
                &&& (c == 1 || c == 2)
            },
{
}

/// The descriptor depends on the session's value alone: building it twice
/// from the same session gives the same text.
pub proof fn lemma_build_deterministic(b1: BinderSpec, b2: BinderSpec)
    requires
        b1 == b2,
    ensures
        binder_xml(b1) == binder_xml(b2),
{
}

/// After a start and `fs.len()` appends, the session's descriptor holds one
/// entry per appended function, in call order.
pub proof fn lemma_appends_in_call_order(
    slot: Option<BinderSpec>,
    name: Seq<char>,
    file_name: Seq<char>,
    prefix: Seq<char>,
    fs: Seq<FunctionSpec>,
)
    ensures
        spec_append_all(spec_start(slot, name, file_name, prefix), fs) is Some,
        ({
            let b = spec_append_all(spec_start(slot, name, file_name, prefix), fs)->Some_0;
            &&& b.functions == fs
            &&& entries(b).len() == fs.len()
            &&& forall|i: int|
                0 <= i < fs.len() ==> #[trigger] entries(b)[i] == entry_of(fs[i], prefix)
        }),
{
    lemma_append_all(fresh_session(name, file_name, prefix), fs);
    assert(Seq::<FunctionSpec>::empty() + fs =~= fs);
}

} // verus!
