//! The composition written out as source text.
//!
//! For a struct whose fields are of types that implement `Peel` of the
//! `solitaire` runtime, the procedures of the account context can be fixed
//! when the program is built: this module writes the implementation of
//! `solitaire::FromAccounts` and `solitaire::Persist` for such a struct.
//! What the written procedures do is what [`crate::FromAccounts`] does at
//! run time: each has one statement for every field, in declaration order,
//! and ends at the first statement that fails.

use vstd::prelude::*;
use vstd::string::*;
use crate::schema::Schema;

verus! {

/// The statements that a written procedure has one of for each field.
#[derive(Debug, Clone, Copy, PartialEq, Eq, Structural)]
pub enum Line {
    /// Parses the field off the shared iterator and binds it to its name.
    Peel,
    /// Names the field in the struct that a parse returns.
    Name,
    /// Adds the count of the field to the size.
    Size,
    /// Appends the metadata entries of the field.
    Metas,
    /// Writes the field back.
    Persist,
    /// Appends the dependencies of the field.
    Deps,
}

/// A type parameter of the struct that defines an account context.
pub struct TypeParam {
    /// The parameter as the type names it: `T`.
    pub name: String,
    /// The parameter as an implementation declares it, with its bounds:
    /// `T: Bound`.
    pub declaration: String,
}

/// The definition of an account context as a struct: its name, its type
/// parameters, and its fields with the references to their types.
pub struct Definition {
    /// The name of the struct.
    pub name: String,
    /// The type parameters of the struct, in the order of their declaration.
    pub type_params: Vec<TypeParam>,
    /// The fields of the struct in declaration order, each with the text of
    /// its type.
    pub fields: Schema<String>,
}

/// The statement of kind `line` for the field called `name`, of type `ty`.
pub open spec fn line_text(line: Line, name: Seq<char>, ty: Seq<char>) -> Seq<char> {
    match line {
        Line::Peel => "let "@ + name + ": "@ + ty
            + " = solitaire::Peel::peel(&mut solitaire::Context::new(pid, iter, data))?;\n"@,
        Line::Name => name + ", "@,
        Line::Size => "size += <"@ + ty + " as Peel>::partial_size_in_accounts();\n"@,
        Line::Metas => "v.append(&mut <"@ + ty + " as Peel>::to_partial_cpi_metas(infos)?);\n"@,
        Line::Persist => "Peel::persist(&self."@ + name + ", program_id)?;\n"@,
        Line::Deps => "deps.append(&mut <"@ + ty + " as Peel>::deps());\n"@,
    }
}

/// The statements of kind `line` for `fields`, one for each field and in
/// declaration order.
pub open spec fn lines_text(line: Line, fields: Seq<(Seq<char>, String)>) -> Seq<char>
    decreases fields.len(),
{
    if fields.len() == 0 {
        Seq::empty()
    } else {
        lines_text(line, fields.drop_last()) + line_text(
            line,
            fields.last().0,
            fields.last().1@,
        )
    }
}

/// The body of the parse: every field is peeled, then the struct is built.
pub open spec fn from_text(name: Seq<char>, fields: Seq<(Seq<char>, String)>) -> Seq<char> {
    lines_text(Line::Peel, fields) + "Ok("@ + name + " { "@ + lines_text(Line::Name, fields)
        + "})\n"@
}

/// The body of the count: the counts of the fields are added up.
pub open spec fn size_in_accounts_text(fields: Seq<(Seq<char>, String)>) -> Seq<char> {
    "let mut size = 0;\n"@ + lines_text(Line::Size, fields) + "size\n"@
}

/// The body of the serialization: the entries of the fields are appended,
/// and their number is held against the count.
pub open spec fn to_cpi_metas_text(fields: Seq<(Seq<char>, String)>) -> Seq<char> {
    "let mut v = Vec::new();\n"@ + lines_text(Line::Metas, fields)
        + "if v.len() != Self::size_in_accounts() {\n"@
        + "return Err(solitaire::SolitaireError::ProgramError(solana_program::program_error::ProgramError::InvalidAccountData));\n"@
        + "}\nOk(v)\n"@
}

/// The body of the persist: every field is written back.
pub open spec fn persist_text(fields: Seq<(Seq<char>, String)>) -> Seq<char> {
    lines_text(Line::Persist, fields) + "Ok(())\n"@
}

/// The body of the list of dependencies: those of the fields are appended.
pub open spec fn deps_fields_text(fields: Seq<(Seq<char>, String)>) -> Seq<char> {
    "let mut deps = Vec::new();\n"@ + lines_text(Line::Deps, fields) + "deps\n"@
}

/// The type parameters after the lifetimes of a parameter list: each with
/// a comma in front of it, declared with its bounds or only named.
pub open spec fn params_text(params: Seq<TypeParam>, declared: bool) -> Seq<char>
    decreases params.len(),
{
    if params.len() == 0 {
        Seq::empty()
    } else {
        params_text(params.drop_last(), declared) + ", "@ + if declared {
            params.last().declaration@
        } else {
            params.last().name@
        }
    }
}

/// The implementations of `solitaire::FromAccounts` and
/// `solitaire::Persist` for the struct called `name`, and its list of
/// dependencies.
///
/// The lifetimes are those of a field operation, `'a`, `'b: 'a` and `'c`;
/// the struct itself takes `'b` and its own type parameters.
pub open spec fn derived_text(
    name: Seq<char>,
    params: Seq<TypeParam>,
    fields: Seq<(Seq<char>, String)>,
) -> Seq<char> {
    "impl<'a, 'b: 'a, 'c"@
        + params_text(params, true)
        + "> solitaire::FromAccounts<'a, 'b, 'c> for "@
        + name
        + "<'b"@
        + params_text(params, false)
        + "> {\n"@
        + "fn from<DataType>(pid: &'a solana_program::pubkey::Pubkey, iter: &'c mut std::slice::Iter<'a, solana_program::account_info::AccountInfo<'b>>, data: &'a DataType) -> solitaire::Result<Self> {\n"@
        + from_text(name, fields)
        + "}\n"@
        + "fn size_in_accounts() -> usize {\n"@
        + size_in_accounts_text(fields)
        + "}\n"@
        + "fn to_cpi_metas(infos: &'c mut std::slice::Iter<Info<'b>>) -> solitaire::Result<Vec<solana_program::instruction::AccountMeta>> {\n"@
        + to_cpi_metas_text(fields)
        + "}\n}\n"@
        + "impl<'b"@
        + params_text(params, true)
        + "> solitaire::Persist for "@
        + name
        + "<'b"@
        + params_text(params, false)
        + "> {\n"@
        + "fn persist(&self, program_id: &solana_program::pubkey::Pubkey) -> solitaire::Result<()> {\n"@
        + persist_text(fields)
        + "}\n}\n"@
        + "impl<'b"@
        + params_text(params, true)
        + "> "@
        + name
        + "<'b"@
        + params_text(params, false)
        + "> {\n"@
        + "pub fn deps() -> Vec<solana_program::pubkey::Pubkey> {\n"@
        + deps_fields_text(fields)
        + "}\n}\n"@
}

/// The statements of a written procedure follow the declaration order of
/// the fields: those of two lists of fields put together are those of the
/// first list, followed by those of the second.
pub proof fn lines_follow_declaration_order(
    line: Line,
    front: Seq<(Seq<char>, String)>,
    back: Seq<(Seq<char>, String)>,
)
    ensures
        lines_text(line, front + back) == lines_text(line, front) + lines_text(line, back),
    decreases back.len(),
{
    if back.len() == 0 {
    } else {
        lines_follow_declaration_order(line, front, back.drop_last());
        assert((front + back).drop_last() == front + back.drop_last());
    }
}

/// Appends the statement of kind `line` for one field.
fn push_line(text: &mut String, line: Line, name: &String, ty: &String)
    ensures
        final(text)@ == old(text)@ + line_text(line, name@, ty@),
{
    match line {
        Line::Peel => {
            text.append("let ");
            text.append(name.as_str());
            text.append(": ");
            text.append(ty.as_str());
            text.append(
                " = solitaire::Peel::peel(&mut solitaire::Context::new(pid, iter, data))?;\n",
            );
        },
        Line::Name => {
            text.append(name.as_str());
            text.append(", ");
        },
        Line::Size => {
            text.append("size += <");
            text.append(ty.as_str());
            text.append(" as Peel>::partial_size_in_accounts();\n");
        },
        Line::Metas => {
            text.append("v.append(&mut <");
            text.append(ty.as_str());
            text.append(" as Peel>::to_partial_cpi_metas(infos)?);\n");
        },
        Line::Persist => {
            text.append("Peel::persist(&self.");
            text.append(name.as_str());
            text.append(", program_id)?;\n");
        },
        Line::Deps => {
            text.append("deps.append(&mut <");
            text.append(ty.as_str());
            text.append(" as Peel>::deps());\n");
        },
    }
}

/// Appends the statements of kind `line` for every field of `schema`, in
/// declaration order.
fn push_lines(text: &mut String, line: Line, schema: &Schema<String>)
    ensures
        final(text)@ == old(text)@ + lines_text(line, schema@),
{
    let ghost start = text@;
    let mut index: usize = 0;
    while index < schema.len()
        invariant
            index <= schema@.len(),
            start == old(text)@,
            text@ == start + lines_text(line, schema@.take(index as int)),
        decreases schema@.len() - index,
    {
        let name = schema.name_at(index);
        let ty = schema.field_at(index);
        proof {
            let next = schema@.take(index + 1);
            assert(next.drop_last() == schema@.take(index as int));
        }
        push_line(text, line, name, ty);
        index = index + 1;
    }
    proof {
        assert(schema@.take(index as int) == schema@);
    }
}

/// Appends the type parameters, each with a comma in front of it.
fn push_params(text: &mut String, params: &Vec<TypeParam>, declared: bool)
    ensures
        final(text)@ == old(text)@ + params_text(params@, declared),
{
    let ghost start = text@;
    let mut index: usize = 0;
    while index < params.len()
        invariant
            index <= params@.len(),
            start == old(text)@,
            text@ == start + params_text(params@.take(index as int), declared),
        decreases params@.len() - index,
    {
        proof {
            let next = params@.take(index + 1);
            assert(next.drop_last() == params@.take(index as int));
        }
        text.append(", ");
        if declared {
            text.append(params[index].declaration.as_str());
        } else {
            text.append(params[index].name.as_str());
        }
        index = index + 1;
    }
    proof {
        assert(params@.take(index as int) == params@);
    }
}

/// Writes the body of the parse of the struct called `name`: every field is
/// peeled off the shared iterator, in declaration order, and the struct is
/// built from the values.
pub fn generate_from(name: &str, schema: &Schema<String>) -> (text: String)
    ensures
        text@ == from_text(name@, schema@),
{
    let mut text = String::new();
    push_lines(&mut text, Line::Peel, schema);
    text.append("Ok(");
    text.append(name);
    text.append(" { ");
    push_lines(&mut text, Line::Name, schema);
    text.append("})\n");
    text
}

/// Writes the body of the count: the counts of the fields are added up.
pub fn generate_size_in_accounts(schema: &Schema<String>) -> (text: String)
    ensures
        text@ == size_in_accounts_text(schema@),
{
    let mut text = String::from_str("let mut size = 0;\n");
    push_lines(&mut text, Line::Size, schema);
    text.append("size\n");
    text
}

/// Writes the body of the serialization: the entries of each field are
/// appended in declaration order, and their number is held against the
/// count.
pub fn generate_to_cpi_metas(schema: &Schema<String>) -> (text: String)
    ensures
        text@ == to_cpi_metas_text(schema@),
{
    let mut text = String::from_str("let mut v = Vec::new();\n");
    push_lines(&mut text, Line::Metas, schema);
    text.append("if v.len() != Self::size_in_accounts() {\n");
    text.append(
        "return Err(solitaire::SolitaireError::ProgramError(solana_program::program_error::ProgramError::InvalidAccountData));\n",
    );
    text.append("}\nOk(v)\n");
    text
}

/// Writes the body of the persist: each field is written back, in
/// declaration order.
pub fn generate_persist(schema: &Schema<String>) -> (text: String)
    ensures
        text@ == persist_text(schema@),
{
    let mut text = String::new();
    push_lines(&mut text, Line::Persist, schema);
    text.append("Ok(())\n");
    text
}

/// Writes the body of the list of dependencies: those of each field are
/// appended in declaration order.
pub fn generate_deps_fields(schema: &Schema<String>) -> (text: String)
    ensures
        text@ == deps_fields_text(schema@),
{
    let mut text = String::from_str("let mut deps = Vec::new();\n");
    push_lines(&mut text, Line::Deps, schema);
    text.append("deps\n");
    text
}

/// Writes the implementations of `solitaire::FromAccounts` and
/// `solitaire::Persist` for the struct that `definition` describes, and its
/// list of dependencies.
pub fn derive_from_accounts(definition: &Definition) -> (text: String)
    ensures
        text@ == derived_text(definition.name@, definition.type_params@, definition.fields@),
{
    let from_method = generate_from(definition.name.as_str(), &definition.fields);
    let to_cpi_metas_method = generate_to_cpi_metas(&definition.fields);
    let size_in_accounts_method = generate_size_in_accounts(&definition.fields);
    let persist_method = generate_persist(&definition.fields);
    let deps_method = generate_deps_fields(&definition.fields);

    let mut text = String::from_str("impl<'a, 'b: 'a, 'c");
    push_params(&mut text, &definition.type_params, true);
    text.append("> solitaire::FromAccounts<'a, 'b, 'c> for ");
    text.append(definition.name.as_str());
    text.append("<'b");
    push_params(&mut text, &definition.type_params, false);
    text.append("> {\n");
    text.append(
        "fn from<DataType>(pid: &'a solana_program::pubkey::Pubkey, iter: &'c mut std::slice::Iter<'a, solana_program::account_info::AccountInfo<'b>>, data: &'a DataType) -> solitaire::Result<Self> {\n",
    );
    text.append(from_method.as_str());
    text.append("}\n");
    text.append("fn size_in_accounts() -> usize {\n");
    text.append(size_in_accounts_method.as_str());
    text.append("}\n");
    text.append(
        "fn to_cpi_metas(infos: &'c mut std::slice::Iter<Info<'b>>) -> solitaire::Result<Vec<solana_program::instruction::AccountMeta>> {\n",
    );
    text.append(to_cpi_metas_method.as_str());
    text.append("}\n}\n");
    text.append("impl<'b");
    push_params(&mut text, &definition.type_params, true);
    text.append("> solitaire::Persist for ");
    text.append(definition.name.as_str());
    text.append("<'b");
    push_params(&mut text, &definition.type_params, false);
    text.append("> {\n");
    text.append(
        "fn persist(&self, program_id: &solana_program::pubkey::Pubkey) -> solitaire::Result<()> {\n",
    );
    text.append(persist_method.as_str());
    text.append("}\n}\n");
    text.append("impl<'b");
    push_params(&mut text, &definition.type_params, true);
    text.append("> ");
    text.append(definition.name.as_str());
    text.append("<'b");
    push_params(&mut text, &definition.type_params, false);
    text.append("> {\n");
    text.append("pub fn deps() -> Vec<solana_program::pubkey::Pubkey> {\n");
    text.append(deps_method.as_str());
    text.append("}\n}\n");
    text
}

} // verus!
