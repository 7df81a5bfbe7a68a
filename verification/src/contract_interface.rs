//! The interface of a contract: one stub for each of its functions, which
//! packs the arguments of a call, and the struct that holds the stubs.
//!
//! Everything here works on plain descriptions of functions and returns text
//! or decisions. Reading the descriptions off a syntax tree, parsing the text
//! and putting the result back is left to the caller.

use vstd::prelude::*;
use vstd::string::*;
use vstd::utf8::encode_utf8;
use crate::utils::{
    decimal, decimal_text, joined, map_join, mapped, remove_all, same, views, without,
};

verus! {

/// What stands for the signature of a function in its selector until the
/// types of the function are known.
pub const SELECTOR_PLACEHOLDER: &'static str = "SELECTOR_PLACEHOLDER";

/// The path that types carry where they are written without a namespace.
pub const PLAIN_PATH: &'static str = "plain::";

/// Why the interface of a contract could not be made.
#[derive(Debug)]
pub enum AztecMacroError {
    CouldNotGenerateContractInterface { secondary_message: Option<String> },
    CouldNotAssignStorageSlots { secondary_message: Option<String> },
}

impl AztecMacroError {
    /// What the error says beyond its kind.
    pub open spec fn message(&self) -> Option<Seq<char>> {
        match self {
            AztecMacroError::CouldNotGenerateContractInterface { secondary_message: Some(m) } => Some(
                m@,
            ),
            AztecMacroError::CouldNotAssignStorageSlots { secondary_message: Some(m) } => Some(m@),
            _ => None,
        }
    }
}

/// How the arguments of a call take a parameter in.
pub enum ParameterKind {
    /// An array, whose elements of type `element` are serialised one by one.
    Array { element: String },
    /// A struct or a string, which is serialised as a whole.
    Serialized,
    /// Any other type, which is turned into one field.
    Field,
}

/// A parameter of a contract function.
pub struct Parameter {
    /// The name of the parameter.
    pub name: String,
    /// The type of the parameter, as it is written.
    pub typ: String,
    /// How a call takes the parameter in.
    pub kind: ParameterKind,
}

/// A contract function, as far as its stub depends on it.
pub struct ContractFunction {
    /// The name of the function.
    pub name: String,
    /// The parameters, in their order.
    pub parameters: Vec<Parameter>,
    /// The return type, as it is written.
    pub return_type: String,
    /// Whether the function returns the unit type.
    pub returns_unit: bool,
}

/// A type as it is written, without the path of plain types.
pub open spec fn type_text(typ: Seq<char>) -> Seq<char> {
    without(typ, PLAIN_PATH@)
}

/// The declaration of a parameter: its name and its type.
pub open spec fn declaration_text(parameter: Parameter) -> Seq<char> {
    parameter.name@ + ": "@ + type_text(parameter.typ@)
}

/// The statements that add a parameter to the arguments of a call.
pub open spec fn call_argument_text(parameter: Parameter) -> Seq<char> {
    match parameter.kind {
        ParameterKind::Array { element } => "let serialized_"@ + parameter.name@
            + " = "@ + parameter.name@ + ".map(|x: "@ + type_text(element@)
            + "| x.serialize());
                        for i in 0.."@ + parameter.name@
            + ".len() {
                            args_acc = args_acc.append(serialized_"@ + parameter.name@
            + "[i].as_slice());
                        }
"@,
        ParameterKind::Serialized => "args_acc = args_acc.append("@ + parameter.name@
            + ".serialize().as_slice());
"@,
        ParameterKind::Field => "args_acc = args_acc.append(&["@ + parameter.name@ + ".to_field()]);
"@,
    }
}

/// The name of a parameter.
pub open spec fn name_text(parameter: Parameter) -> Seq<char> {
    parameter.name@
}

/// The type of a parameter, without the path of plain types.
pub open spec fn parameter_type_text(parameter: Parameter) -> Seq<char> {
    type_text(parameter.typ@)
}

/// Renders the declaration of a parameter.
pub fn declaration(parameter: &Parameter) -> (r: String)
    ensures
        r@ == declaration_text(*parameter),
{
    let mut out = parameter.name.clone();
    out.append(": ");
    out.append(remove_all(parameter.typ.as_str(), PLAIN_PATH).as_str());
    out
}

/// Renders the statements that add a parameter to the arguments of a call.
pub fn call_argument(parameter: &Parameter) -> (r: String)
    ensures
        r@ == call_argument_text(*parameter),
{
    let name = parameter.name.as_str();
    match &parameter.kind {
        ParameterKind::Array { element } => {
            let mut out = String::from_str("let serialized_");
            out.append(name);
            out.append(" = ");
            out.append(name);
            out.append(".map(|x: ");
            out.append(remove_all(element.as_str(), PLAIN_PATH).as_str());
            out.append("| x.serialize());
                        for i in 0..");
            out.append(name);
            out.append(".len() {
                            args_acc = args_acc.append(serialized_");
            out.append(name);
            out.append("[i].as_slice());
                        }
");
            out
        },
        ParameterKind::Serialized => {
            let mut out = String::from_str("args_acc = args_acc.append(");
            out.append(name);
            out.append(".serialize().as_slice());
");
            out
        },
        ParameterKind::Field => {
            let mut out = String::from_str("args_acc = args_acc.append(&[");
            out.append(name);
            out.append(".to_field()]);
");
            out
        },
    }
}

/// The declarations of the parameters, separated by a comma and a space.
pub open spec fn declarations_text(parameters: Seq<Parameter>) -> Seq<char> {
    joined(mapped(parameters, |p: Parameter| declaration_text(p)), ", "@)
}

/// The statements that add the parameters to the arguments of a call.
pub open spec fn call_arguments_text(parameters: Seq<Parameter>) -> Seq<char> {
    joined(mapped(parameters, |p: Parameter| call_argument_text(p)), ""@)
}

/// The names of the parameters, separated by a comma and a space.
pub open spec fn names_text(parameters: Seq<Parameter>) -> Seq<char> {
    joined(mapped(parameters, |p: Parameter| name_text(p)), ", "@)
}

/// The types of the parameters as a tuple type. After a single type stands a
/// comma, which tells the tuple from a type in brackets.
pub open spec fn argument_types_text(parameters: Seq<Parameter>) -> Seq<char> {
    "("@ + joined(mapped(parameters, |p: Parameter| parameter_type_text(p)), ","@) + (
    if parameters.len() == 1 {
        ","@
    } else {
        Seq::empty()
    }) + ")"@
}

fn declarations(parameters: &[Parameter]) -> (r: String)
    ensures
        r@ == declarations_text(parameters@),
{
    let render = |p: &Parameter| -> (text: String)
        ensures
            text@ == declaration_text(*p),
        { declaration(p) };
    map_join(parameters, render, ", ", Ghost(|p: Parameter| declaration_text(p)))
}

fn call_arguments(parameters: &[Parameter]) -> (r: String)
    ensures
        r@ == call_arguments_text(parameters@),
{
    let render = |p: &Parameter| -> (text: String)
        ensures
            text@ == call_argument_text(*p),
        { call_argument(p) };
    map_join(parameters, render, "", Ghost(|p: Parameter| call_argument_text(p)))
}

fn names(parameters: &[Parameter]) -> (r: String)
    ensures
        r@ == names_text(parameters@),
{
    let render = |p: &Parameter| -> (text: String)
        ensures
            text@ == name_text(*p),
        { p.name.clone() };
    map_join(parameters, render, ", ", Ghost(|p: Parameter| name_text(p)))
}

fn argument_types(parameters: &[Parameter]) -> (r: String)
    ensures
        r@ == argument_types_text(parameters@),
{
    let render = |p: &Parameter| -> (text: String)
        ensures
            text@ == parameter_type_text(*p),
        { remove_all(p.typ.as_str(), PLAIN_PATH) };
    let types = map_join(parameters, render, ",", Ghost(|p: Parameter| parameter_type_text(p)));
    let mut out = String::from_str("(");
    out.append(types.as_str());
    proof {
        reveal_strlit("");
        assert(""@ =~= Seq::<char>::empty());
    }
    out.append(if parameters.len() == 1 { "," } else { "" });
    out.append(")");
    out
}

/// Opens the selector of a function.
pub const SELECTOR_OPEN: &'static str = "dep::aztec::protocol_types::abis::function_selector::FunctionSelector::from_signature(\"";

/// The selector of a stub: it is made from the placeholder.
pub open spec fn selector_text() -> Seq<char> {
    SELECTOR_OPEN@ + SELECTOR_PLACEHOLDER@ + "\")"@
}

fn selector() -> (r: String)
    ensures
        r@ == selector_text(),
{
    let mut out = String::from_str(SELECTOR_OPEN);
    out.append(SELECTOR_PLACEHOLDER);
    out.append("\")");
    out
}

/// What the original of a private function returns.
pub const PRIVATE_INPUTS: &'static str = "dep::aztec::protocol_types::abis::private_circuit_public_inputs::PrivateCircuitPublicInputs";

/// What a stub adds to the name of the call interface it returns: `Static`
/// for a static call, and `Void` for a function that returns nothing.
pub open spec fn flavor_text(func: ContractFunction, is_static_call: bool) -> Seq<char> {
    (if is_static_call {
        "Static"@
    } else {
        Seq::empty()
    }) + (if func.returns_unit {
        "Void"@
    } else {
        Seq::empty()
    })
}

fn flavor(func: &ContractFunction, is_static_call: bool) -> (r: String)
    ensures
        r@ == flavor_text(*func, is_static_call),
{
    proof {
        reveal_strlit("");
        assert(""@ =~= Seq::<char>::empty());
    }
    let mut out = String::from_str(if is_static_call { "Static" } else { "" });
    out.append(if func.returns_unit { "Void" } else { "" });
    out
}

/// The function that the stub stands for, as a closure over the inputs of
/// the context. A private one returns the public inputs of the private
/// circuit, another one what the function returns.
pub open spec fn original_text(aztec_visibility: Seq<char>, func: ContractFunction) -> Seq<char> {
    "| inputs: dep::aztec::context::inputs::"@ + aztec_visibility + "ContextInputs | -> "@ + (
    if aztec_visibility == "Private"@ {
        PRIVATE_INPUTS@
    } else {
        type_text(func.return_type@)
    }) + " {
            "@ + func.name@ + "(inputs"@ + (if names_text(
        func.parameters@,
    ).len() == 0 {
        Seq::empty()
    } else {
        " ,"@ + names_text(func.parameters@) + "  "@
    }) + ")
        }"@
}

fn original(aztec_visibility: &str, func: &ContractFunction) -> (r: String)
    ensures
        r@ == original_text(aztec_visibility@, *func),
{
    let param_types = names(func.parameters.as_slice());
    let returned = if same(aztec_visibility, "Private") {
        String::from_str(PRIVATE_INPUTS)
    } else {
        remove_all(func.return_type.as_str(), PLAIN_PATH)
    };
    let extra = if param_types.as_str().is_empty() {
        String::new()
    } else {
        let mut extra = String::from_str(" ,");
        extra.append(param_types.as_str());
        extra.append("  ");
        extra
    };
    let mut out = String::from_str("| inputs: dep::aztec::context::inputs::");
    out.append(aztec_visibility);
    out.append("ContextInputs | -> ");
    out.append(returned.as_str());
    out.append(" {
            ");
    out.append(func.name.as_str());
    out.append("(inputs");
    out.append(extra.as_str());
    out.append(")
        }");
    out
}

/// The generic arguments of the call interface behind the length of the
/// name: the return type, unless the function returns nothing, and the types
/// of the arguments.
pub open spec fn generics_text(func: ContractFunction) -> Seq<char> {
    if func.returns_unit {
        argument_types_text(func.parameters@) + ">"@
    } else {
        type_text(func.return_type@) + ", "@ + argument_types_text(func.parameters@) + ">"@
    }
}

fn generics(func: &ContractFunction) -> (r: String)
    ensures
        r@ == generics_text(*func),
{
    let arg_types = argument_types(func.parameters.as_slice());
    if func.returns_unit {
        let mut out = arg_types;
        out.append(">");
        out
    } else {
        let mut out = remove_all(func.return_type.as_str(), PLAIN_PATH);
        out.append(", ");
        out.append(arg_types.as_str());
        out.append(">");
        out
    }
}

/// Opens the arguments of a call whose hash is taken.
pub const HASHED_ARGUMENTS_OPEN: &'static str = "let mut args_acc: [Field] = &[];
                ";

/// Takes the hash of the arguments and packs them.
pub const HASHED_ARGUMENTS_CLOSE: &'static str = "
                let args_hash = dep::aztec::hash::hash_args(args_acc);
                assert(args_hash == dep::aztec::oracle::arguments::pack_arguments(args_acc));";

/// The arguments of a call without parameters, and their hash.
pub const NO_ARGUMENTS: &'static str = "
            let mut args_acc: [Field] = &[];
            let args_hash = 0;
            ";

/// Opens the arguments of a public call.
pub const PUBLIC_ARGUMENTS_OPEN: &'static str = "let mut args_acc: [Field] = &[];
            ";

/// Between the arguments and the selector.
pub const SELECTOR_BINDING: &'static str = "
            let selector = ";

/// Between the selector and the name of the call interface.
pub const INTERFACE_PATH: &'static str = ";
            dep::aztec::context::";

/// Opens the call interface, up to the name of the function.
pub const INTERFACE_OPEN: &'static str = "CallInterface {
                target_contract: self.target_contract,
                selector,
                name: \"";

/// The fields of a call interface with hashed arguments, up to the original.
pub const HASHED_FIELDS: &'static str = "\",
                args_hash,
                args: args_acc,
                original: ";

/// The fields of a public call interface, up to the original.
pub const PUBLIC_FIELDS: &'static str = "\",
                args: args_acc,
                gas_opts: dep::aztec::context::gas::GasOpts::default(),
                original: ";

/// Closes the call interface.
pub const INTERFACE_CLOSE: &'static str = "
            }";

/// The statements that collect the arguments of a call. A public call
/// collects them; any other call takes their hash as well, which is zero
/// where there is no parameter.
pub open spec fn arguments_text(aztec_visibility: Seq<char>, func: ContractFunction) -> Seq<char> {
    if aztec_visibility != "Public"@ {
        if func.parameters@.len() > 0 {
            HASHED_ARGUMENTS_OPEN@ + call_arguments_text(func.parameters@)
                + HASHED_ARGUMENTS_CLOSE@
        } else {
            NO_ARGUMENTS@
        }
    } else {
        PUBLIC_ARGUMENTS_OPEN@ + call_arguments_text(func.parameters@) + "
            "@
    }
}

/// The body of a stub: the arguments, the selector and the call interface.
/// A public call interface has options for gas in place of a hash of the
/// arguments.
pub open spec fn body_text(
    aztec_visibility: Seq<char>,
    func: ContractFunction,
    is_static_call: bool,
) -> Seq<char> {
    arguments_text(aztec_visibility, func) + SELECTOR_BINDING@ + selector_text() + INTERFACE_PATH@
        + aztec_visibility + flavor_text(func, is_static_call) + INTERFACE_OPEN@ + func.name@ + (
    if aztec_visibility != "Public"@ {
        HASHED_FIELDS@
    } else {
        PUBLIC_FIELDS@
    }) + original_text(aztec_visibility, func) + INTERFACE_CLOSE@
}

fn arguments(aztec_visibility: &str, func: &ContractFunction) -> (r: String)
    ensures
        r@ == arguments_text(aztec_visibility@, *func),
{
    let call_args = call_arguments(func.parameters.as_slice());
    if !same(aztec_visibility, "Public") {
        if func.parameters.len() > 0 {
            let mut out = String::from_str(HASHED_ARGUMENTS_OPEN);
            out.append(call_args.as_str());
            out.append(HASHED_ARGUMENTS_CLOSE);
            out
        } else {
            String::from_str(NO_ARGUMENTS)
        }
    } else {
        let mut out = String::from_str(PUBLIC_ARGUMENTS_OPEN);
        out.append(call_args.as_str());
        out.append("
            ");
        out
    }
}

fn body(aztec_visibility: &str, func: &ContractFunction, is_static_call: bool) -> (r: String)
    ensures
        r@ == body_text(aztec_visibility@, *func, is_static_call),
{
    let fields = if !same(aztec_visibility, "Public") {
        HASHED_FIELDS
    } else {
        PUBLIC_FIELDS
    };
    let mut out = arguments(aztec_visibility, func);
    out.append(SELECTOR_BINDING);
    out.append(selector().as_str());
    out.append(INTERFACE_PATH);
    out.append(aztec_visibility);
    out.append(flavor(func, is_static_call).as_str());
    out.append(INTERFACE_OPEN);
    out.append(func.name.as_str());
    out.append(fields);
    out.append(original(aztec_visibility, func).as_str());
    out.append(INTERFACE_CLOSE);
    out
}

/// The length of a name in bytes, as a string reports it.
pub open spec fn byte_length(name: Seq<char>) -> nat {
    (encode_utf8(name).len() as usize) as nat
}

/// The stub of a contract function: a method of the same name and with the
/// same parameters, which returns the call interface of a call of the
/// function. The interface is typed by the length of the name in bytes, the
/// return type and the types of the arguments.
pub open spec fn stub_text(
    aztec_visibility: Seq<char>,
    func: ContractFunction,
    is_static_call: bool,
) -> Seq<char> {
    "pub fn "@ + func.name@ + "(self, "@ + declarations_text(func.parameters@)
        + ") -> dep::aztec::context::"@ + aztec_visibility + flavor_text(func, is_static_call)
        + "CallInterface<"@ + decimal_text(byte_length(func.name@)) + ","@ + generics_text(func)
        + " {
                "@ + body_text(aztec_visibility, func, is_static_call)
        + "
        }"@
}

/// Renders the stub of a contract function. `aztec_visibility` is `Private`
/// or `Public`.
pub fn stub_function(aztec_visibility: &str, func: &ContractFunction, is_static_call: bool) -> (r:
    String)
    ensures
        r@ == stub_text(aztec_visibility@, *func, is_static_call),
{
    let fn_parameters = declarations(func.parameters.as_slice());
    let name_length = func.name.as_str().len() as u128;
    let mut out = String::from_str("pub fn ");
    out.append(func.name.as_str());
    out.append("(self, ");
    out.append(fn_parameters.as_str());
    out.append(") -> dep::aztec::context::");
    out.append(aztec_visibility);
    out.append(flavor(func, is_static_call).as_str());
    out.append("CallInterface<");
    out.append(decimal(name_length).as_str());
    out.append(",");
    out.append(generics(func).as_str());
    out.append(" {
                ");
    out.append(body(aztec_visibility, func, is_static_call).as_str());
    out.append("
        }");
    out
}

/// Opens the method that returns the layout of the storage.
pub const STORAGE_GETTER_OPEN: &'static str = "#[contract_library_method]
        pub fn storage() -> StorageLayout {
            ";

/// The method that returns the layout of the storage of the contract.
pub open spec fn storage_getter_text(module_name: Seq<char>) -> Seq<char> {
    STORAGE_GETTER_OPEN@ + module_name + "_STORAGE_LAYOUT
        }"@
}

fn storage_getter(module_name: &str) -> (r: String)
    ensures
        r@ == storage_getter_text(module_name@),
{
    let mut out = String::from_str(STORAGE_GETTER_OPEN);
    out.append(module_name);
    out.append("_STORAGE_LAYOUT
        }");
    out
}

/// Between the name of the struct and its implementation.
pub const STRUCT_FIELDS: &'static str = " {
            target_contract: dep::aztec::protocol_types::address::AztecAddress
        }

        impl ";

/// The methods `at` and `interface`, which stand behind the stubs.
pub const STRUCT_METHODS: &'static str = "

            pub fn at(
                target_contract: dep::aztec::protocol_types::address::AztecAddress
            ) -> Self {
                Self { target_contract }
            }

            pub fn interface() -> Self {
                Self { target_contract: dep::aztec::protocol_types::address::AztecAddress::zero() }
            }

            ";

/// Closes the implementation and opens the library method `at`.
pub const LIBRARY_AT: &'static str = "
        }

        #[contract_library_method]
        pub fn at(
            target_contract: dep::aztec::protocol_types::address::AztecAddress
        ) -> ";

/// Between the body of the library method `at` and the library method
/// `interface`.
pub const LIBRARY_INTERFACE: &'static str = " { target_contract }
        }

        #[contract_library_method]
        pub fn interface() -> ";

/// The end of the library method `interface`.
pub const LIBRARY_INTERFACE_CLOSE: &'static str = " { target_contract: dep::aztec::protocol_types::address::AztecAddress::zero() }
        }

        ";

/// The mark of a library method.
pub const LIBRARY_METHOD: &'static str = "#[contract_library_method]
";

/// The getter of the storage layout as a method, where there is a layout.
pub open spec fn method_getter_text(module_name: Seq<char>, has_storage_layout: bool) -> Seq<char> {
    if has_storage_layout {
        storage_getter_text(module_name)
    } else {
        Seq::empty()
    }
}

/// The getter of the storage layout as a library method, where there is a
/// layout.
pub open spec fn library_getter_text(module_name: Seq<char>, has_storage_layout: bool) -> Seq<
    char,
> {
    if has_storage_layout {
        LIBRARY_METHOD@ + storage_getter_text(module_name)
    } else {
        Seq::empty()
    }
}

/// The source of the interface of the contract `module_name`: a struct of
/// the same name that holds the address of the target, with the stubs and the
/// methods `at` and `interface`, and the same two as library methods. Where
/// the contract has a storage layout, both get a getter for it.
pub open spec fn contract_interface_text(
    module_name: Seq<char>,
    stubs: Seq<Seq<char>>,
    has_storage_layout: bool,
) -> Seq<char> {
    "
        struct "@ + module_name + STRUCT_FIELDS@ + module_name + " {
            "@
        + joined(stubs, "\n"@) + STRUCT_METHODS@ + method_getter_text(
        module_name,
        has_storage_layout,
    ) + LIBRARY_AT@ + module_name + " {
            "@ + module_name + LIBRARY_INTERFACE@
        + module_name + " {
            "@ + module_name + LIBRARY_INTERFACE_CLOSE@
        + library_getter_text(module_name, has_storage_layout) + "
    "@
}

/// Renders the source of the interface of the contract `module_name` with
/// the given stubs.
pub fn generate_contract_interface(module_name: &str, stubs: &[String], has_storage_layout: bool) -> (r:
    String)
    ensures
        r@ == contract_interface_text(module_name@, views(stubs@), has_storage_layout),
{
    let copy = |stub: &String| -> (text: String)
        ensures
            text@ == stub@,
        { stub.clone() };
    let all_stubs = map_join(stubs, copy, "\n", Ghost(|stub: String| stub@));
    proof {
        assert(mapped(stubs@, |stub: String| stub@) =~= views(stubs@));
    }
    let method_getter = if has_storage_layout {
        storage_getter(module_name)
    } else {
        String::new()
    };
    let library_getter = if has_storage_layout {
        let mut getter = String::from_str(LIBRARY_METHOD);
        getter.append(storage_getter(module_name).as_str());
        getter
    } else {
        String::new()
    };
    let mut out = String::from_str("
        struct ");
    out.append(module_name);
    out.append(STRUCT_FIELDS);
    out.append(module_name);
    out.append(" {
            ");
    out.append(all_stubs.as_str());
    out.append(STRUCT_METHODS);
    out.append(method_getter.as_str());
    out.append(LIBRARY_AT);
    out.append(module_name);
    out.append(" {
            ");
    out.append(module_name);
    out.append(LIBRARY_INTERFACE);
    out.append(module_name);
    out.append(" {
            ");
    out.append(module_name);
    out.append(LIBRARY_INTERFACE_CLOSE);
    out.append(library_getter.as_str());
    out.append("
    ");
    out
}

/// What is reported where the source of an interface does not parse.
pub const PARSE_FAILURE: &'static str = "Failed to parse Noir macro code during contract interface generation. This is either a bug in the compiler or the Noir macro code";

/// Judges the parse of the source of an interface by the number of its
/// errors: any error fails the generation.
pub fn parse_outcome(errors: usize) -> (result: Result<(), AztecMacroError>)
    ensures
        result is Ok <==> errors == 0,
        result matches Err(error) ==> error is CouldNotGenerateContractInterface
            && error.message() == Some(PARSE_FAILURE@),
{
    if errors > 0 {
        Err(
            AztecMacroError::CouldNotGenerateContractInterface {
                secondary_message: Some(String::from_str(PARSE_FAILURE)),
            },
        )
    } else {
        Ok(())
    }
}

/// `name` is one of the methods that an interface has beside its stubs.
pub open spec fn is_helper_name(name: Seq<char>) -> bool {
    name == "at"@ || name == "interface"@ || name == "storage"@
}

/// Whether a method of an interface is none of its stubs: `at`, `interface`
/// and `storage` are not.
pub fn is_helper(name: &str) -> (r: bool)
    ensures
        r == is_helper_name(name@),
{
    same(name, "at") || same(name, "interface") || same(name, "storage")
}

/// Every method that is a stub has a stub in its place among the first
/// `stubs` methods.
pub open spec fn stubs_suffice(method_names: Seq<String>, stubs: nat) -> bool {
    forall|i: int|
        0 <= i < method_names.len() && !is_helper_name((#[trigger] method_names[i])@) ==> i
            < stubs
}

/// Whether every method that is a stub has a stub in its place.
pub fn has_stub_locations(method_names: &[String], stubs: usize) -> (ok: bool)
    ensures
        ok == stubs_suffice(method_names@, stubs as nat),
{
    let mut i: usize = 0;
    while i < method_names.len()
        invariant
            i <= method_names.len(),
            forall|h: int|
                0 <= h < i && !is_helper_name((#[trigger] method_names@[h])@) ==> h < stubs,
        decreases method_names.len() - i,
    {
        if !is_helper(method_names[i].as_str()) && i >= stubs {
            return false;
        }
        i += 1;
    }
    true
}

/// Tells for every method of the parsed interface which stub it takes its
/// location from: a stub takes that of the stub in its place, and `at`,
/// `interface` and `storage` keep their own.
pub fn stub_locations(method_names: &[String], stubs: usize) -> (plan: Vec<Option<usize>>)
    requires
        stubs_suffice(method_names@, stubs as nat),
    ensures
        plan@.len() == method_names@.len(),
        forall|i: int|
            0 <= i < plan@.len() && (#[trigger] plan@[i]) is Some ==> plan@[i]->Some_0 < stubs,
        forall|i: int|
            0 <= i < plan@.len() ==> #[trigger] plan@[i] == (if is_helper_name(
                method_names@[i]@,
            ) {
                None::<usize>
            } else {
                Some(i as usize)
            }),
{
    let mut plan: Vec<Option<usize>> = Vec::new();
    let mut i: usize = 0;
    while i < method_names.len()
        invariant
            i <= method_names.len(),
            plan@.len() == i,
            forall|h: int|
                0 <= h < i ==> #[trigger] plan@[h] == (if is_helper_name(method_names@[h]@) {
                    None::<usize>
                } else {
                    Some(h as usize)
                }),
        decreases method_names.len() - i,
    {
        if is_helper(method_names[i].as_str()) {
            plan.push(None);
        } else {
            plan.push(Some(i));
        }
        i += 1;
    }
    plan
}

/// The signature of a function: its name and, in brackets and separated by
/// commas, the signatures of the types of its parameters.
pub open spec fn fn_signature_text(fn_name: Seq<char>, parameters: Seq<Seq<char>>) -> Seq<char> {
    fn_name + "("@ + joined(parameters, ","@) + ")"@
}

/// Renders the signature of a function from its name and the signatures of
/// the types of its parameters.
pub fn compute_fn_signature(fn_name: &str, parameters: &[String]) -> (r: String)
    ensures
        r@ == fn_signature_text(fn_name@, views(parameters@)),
{
    let copy = |parameter: &String| -> (text: String)
        ensures
            text@ == parameter@,
        { parameter.clone() };
    let all = map_join(parameters, copy, ",", Ghost(|parameter: String| parameter@));
    proof {
        assert(mapped(parameters@, |parameter: String| parameter@) =~= views(parameters@));
    }
    let mut out = String::from_str(fn_name);
    out.append("(");
    out.append(all.as_str());
    out.append(")");
    out
}

/// What stands where the selector of a stub expects the signature.
pub enum SelectorArgument {
    /// The body of the stub has no statement in the place of the selector.
    NoStatement,
    /// The statement in the place of the selector binds nothing.
    NotALet,
    /// The selector is not made by a call.
    NotACall,
    /// The argument of the call is no string literal.
    NotALiteral,
    /// The string literal that is the argument of the call.
    Literal(String),
}

/// A method of the interface of a contract, once its types are known.
pub struct InterfaceMethod {
    /// The name of the method.
    pub name: String,
    /// The signatures of the types of the parameters behind the first. The
    /// first parameter is the interface itself, which is no part of the
    /// signature of the method.
    pub parameters: Vec<String>,
    /// What stands where the selector expects the signature.
    pub selector: SelectorArgument,
}

/// Reported where the body of a stub is too short to hold a selector.
pub const NO_STATEMENT: &'static str = "Function signature statement not found, invalid body length";

/// Reported where the statement of the selector binds nothing.
pub const NOT_A_LET: &'static str = "Function selector statement must be an expression";

/// Reported where the selector is not made by a call.
pub const NOT_A_CALL: &'static str = "Function selector argument expression must be call expression";

/// Reported where the signature is a literal other than the placeholder.
pub const NOT_THE_PLACEHOLDER: &'static str = "Function signature argument must be a placeholder: ";

/// Reported where the signature is no string literal.
pub const NOT_A_LITERAL: &'static str = "Function signature argument must be a literal string";

/// The selector still holds the placeholder, which the signature can replace.
pub open spec fn holds_placeholder(selector: SelectorArgument) -> bool {
    selector matches SelectorArgument::Literal(literal) && literal@ == SELECTOR_PLACEHOLDER@
}

/// `error` is what a selector that does not hold the placeholder is
/// reported with.
pub open spec fn reports_selector(selector: SelectorArgument, error: AztecMacroError) -> bool {
    match selector {
        SelectorArgument::NoStatement => error is CouldNotGenerateContractInterface
            && error.message() == Some(NO_STATEMENT@),
        SelectorArgument::NotALet => error is CouldNotGenerateContractInterface && error.message()
            == Some(NOT_A_LET@),
        SelectorArgument::NotACall => error is CouldNotGenerateContractInterface && error.message()
            == Some(NOT_A_CALL@),
        SelectorArgument::NotALiteral => error is CouldNotAssignStorageSlots && error.message()
            == Some(NOT_A_LITERAL@),
        SelectorArgument::Literal(literal) => literal@ != SELECTOR_PLACEHOLDER@
            && error is CouldNotGenerateContractInterface && error.message() == Some(
            NOT_THE_PLACEHOLDER@ + SELECTOR_PLACEHOLDER@,
        ),
    }
}

/// Checks that a selector still holds the placeholder.
pub fn check_selector(selector: &SelectorArgument) -> (result: Result<(), AztecMacroError>)
    ensures
        result is Ok <==> holds_placeholder(*selector),
        result matches Err(error) ==> reports_selector(*selector, error),
{
    match selector {
        SelectorArgument::NoStatement => Err(
            AztecMacroError::CouldNotGenerateContractInterface {
                secondary_message: Some(String::from_str(NO_STATEMENT)),
            },
        ),
        SelectorArgument::NotALet => Err(
            AztecMacroError::CouldNotGenerateContractInterface {
                secondary_message: Some(String::from_str(NOT_A_LET)),
            },
        ),
        SelectorArgument::NotACall => Err(
            AztecMacroError::CouldNotGenerateContractInterface {
                secondary_message: Some(String::from_str(NOT_A_CALL)),
            },
        ),
        SelectorArgument::NotALiteral => Err(
            AztecMacroError::CouldNotAssignStorageSlots {
                secondary_message: Some(String::from_str(NOT_A_LITERAL)),
            },
        ),
        SelectorArgument::Literal(literal) => {
            if !same(literal.as_str(), SELECTOR_PLACEHOLDER) {
                let mut message = String::from_str(NOT_THE_PLACEHOLDER);
                message.append(SELECTOR_PLACEHOLDER);
                Err(
                    AztecMacroError::CouldNotGenerateContractInterface {
                        secondary_message: Some(message),
                    },
                )
            } else {
                Ok(())
            }
        },
    }
}

/// The signature of a method of an interface.
pub open spec fn method_signature_text(method: InterfaceMethod) -> Seq<char> {
    fn_signature_text(method.name@, views(method.parameters@))
}

/// `after` is the method `before` with its signature in its selector. A
/// method that is no stub stays as it is.
pub open spec fn updated(before: InterfaceMethod, after: InterfaceMethod) -> bool {
    if is_helper_name(before.name@) {
        after == before
    } else {
        &&& holds_placeholder(before.selector)
        &&& after.name == before.name
        &&& after.parameters == before.parameters
        &&& after.selector matches SelectorArgument::Literal(literal) && literal@
            == method_signature_text(before)
    }
}

/// Method `k` is the first stub whose selector does not hold the placeholder.
pub open spec fn first_unsound(methods: Seq<InterfaceMethod>, k: int) -> bool {
    &&& 0 <= k < methods.len()
    &&& !is_helper_name(methods[k].name@)
    &&& !holds_placeholder(methods[k].selector)
    &&& forall|i: int|
        0 <= i < k ==> is_helper_name((#[trigger] methods[i]).name@) || holds_placeholder(
            methods[i].selector,
        )
}

/// Puts the signature of one method of an interface in the place of the
/// placeholder in its selector. A method that is no stub stays as it is,
/// whatever its selector holds; a stub whose selector does not hold the
/// placeholder stays as it is and is reported.
pub fn update_fn_signature(method: &mut InterfaceMethod) -> (result: Result<(), AztecMacroError>)
    ensures
        match result {
            Ok(()) => updated(*old(method), *final(method)),
            Err(error) => {
                &&& !is_helper_name(old(method).name@)
                &&& reports_selector(old(method).selector, error)
                &&& *final(method) == *old(method)
            },
        },
{
    if is_helper(method.name.as_str()) {
        return Ok(());
    }
    match check_selector(&method.selector) {
        Err(error) => {
            return Err(error);
        },
        Ok(()) => {},
    }
    let signature = compute_fn_signature(method.name.as_str(), method.parameters.as_slice());
    method.selector = SelectorArgument::Literal(signature);
    Ok(())
}

/// Puts the signature of every stub of an interface in the place of the
/// placeholder in its selector.
///
/// The methods are taken in their order, and the first stub whose selector
/// does not hold the placeholder ends the pass with its error and its place:
/// the stubs before it have their signatures then, and the others are as
/// they were.
pub fn update_fn_signatures_in_contract_interface(methods: &mut Vec<InterfaceMethod>) -> (result:
    Result<(), (AztecMacroError, usize)>)
    ensures
        final(methods)@.len() == old(methods)@.len(),
        match result {
            Ok(()) => forall|i: int|
                0 <= i < old(methods)@.len() ==> updated(
                    #[trigger] old(methods)@[i],
                    final(methods)@[i],
                ),
            Err((error, k)) => {
                &&& first_unsound(old(methods)@, k as int)
                &&& reports_selector(old(methods)@[k as int].selector, error)
                &&& forall|i: int|
                    0 <= i < k ==> updated(#[trigger] old(methods)@[i], final(methods)@[i])
                &&& forall|i: int|
                    k <= i < old(methods)@.len() ==> final(methods)@[i] == old(methods)@[i]
            },
        },
{
    let mut i: usize = 0;
    while i < methods.len()
        invariant
            i <= methods@.len(),
            methods@.len() == old(methods)@.len(),
            forall|h: int| 0 <= h < i ==> updated(#[trigger] old(methods)@[h], methods@[h]),
            forall|h: int| i <= h < methods@.len() ==> methods@[h] == old(methods)@[h],
        decreases methods@.len() - i,
    {
        match update_fn_signature(&mut methods[i]) {
            Err(error) => {
                return Err((error, i));
            },
            Ok(()) => {},
        }
        i += 1;
    }
    Ok(())
}

} // verus!
