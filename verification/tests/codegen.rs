use rocksalt::{
    derive_from_accounts, generate_deps_fields, generate_from, generate_persist,
    generate_size_in_accounts, generate_to_cpi_metas, Definition, Schema, TypeParam,
};

fn fields_of(fields: Vec<(&str, &str)>) -> Schema<String> {
    let mut schema = Schema::new();
    for (name, ty) in fields {
        assert_eq!(schema.register(name.to_string(), ty.to_string()), Ok(()));
    }
    schema
}

fn transfer() -> Schema<String> {
    fields_of(vec![
        ("payer", "Signer<Info<'b>>"),
        ("vault", "Mut<T>"),
        ("clock", "Sysvar<'b, Clock>"),
    ])
}

#[test]
fn the_parse_is_written_with_one_statement_for_each_field() {
    assert_eq!(
        generate_from("Transfer", &transfer()),
        "let payer: Signer<Info<'b>> = solitaire::Peel::peel(&mut solitaire::Context::new(pid, iter, data))?;\n\
         let vault: Mut<T> = solitaire::Peel::peel(&mut solitaire::Context::new(pid, iter, data))?;\n\
         let clock: Sysvar<'b, Clock> = solitaire::Peel::peel(&mut solitaire::Context::new(pid, iter, data))?;\n\
         Ok(Transfer { payer, vault, clock, })\n"
    );
}

#[test]
fn the_parse_of_a_struct_without_fields_only_builds_the_struct() {
    assert_eq!(
        generate_from("Nothing", &fields_of(vec![])),
        "Ok(Nothing { })\n"
    );
}

#[test]
fn the_count_is_written_as_a_sum_over_the_fields() {
    assert_eq!(
        generate_size_in_accounts(&transfer()),
        "let mut size = 0;\n\
         size += <Signer<Info<'b>> as Peel>::partial_size_in_accounts();\n\
         size += <Mut<T> as Peel>::partial_size_in_accounts();\n\
         size += <Sysvar<'b, Clock> as Peel>::partial_size_in_accounts();\n\
         size\n"
    );
    assert_eq!(
        generate_size_in_accounts(&fields_of(vec![])),
        "let mut size = 0;\nsize\n"
    );
}

#[test]
fn the_serialization_is_written_with_the_check_of_the_count_at_its_end() {
    assert_eq!(
        generate_to_cpi_metas(&transfer()),
        "let mut v = Vec::new();\n\
         v.append(&mut <Signer<Info<'b>> as Peel>::to_partial_cpi_metas(infos)?);\n\
         v.append(&mut <Mut<T> as Peel>::to_partial_cpi_metas(infos)?);\n\
         v.append(&mut <Sysvar<'b, Clock> as Peel>::to_partial_cpi_metas(infos)?);\n\
         if v.len() != Self::size_in_accounts() {\n\
         return Err(solitaire::SolitaireError::ProgramError(solana_program::program_error::ProgramError::InvalidAccountData));\n\
         }\n\
         Ok(v)\n"
    );
}

#[test]
fn the_persist_is_written_with_one_statement_for_each_field() {
    assert_eq!(
        generate_persist(&transfer()),
        "Peel::persist(&self.payer, program_id)?;\n\
         Peel::persist(&self.vault, program_id)?;\n\
         Peel::persist(&self.clock, program_id)?;\n\
         Ok(())\n"
    );
    assert_eq!(generate_persist(&fields_of(vec![])), "Ok(())\n");
}

#[test]
fn the_dependencies_are_written_as_appended_field_after_field() {
    assert_eq!(
        generate_deps_fields(&transfer()),
        "let mut deps = Vec::new();\n\
         deps.append(&mut <Signer<Info<'b>> as Peel>::deps());\n\
         deps.append(&mut <Mut<T> as Peel>::deps());\n\
         deps.append(&mut <Sysvar<'b, Clock> as Peel>::deps());\n\
         deps\n"
    );
}

#[test]
fn the_implementations_are_written_around_the_procedures() {
    let definition = Definition {
        name: "Transfer".to_string(),
        type_params: vec![TypeParam {
            name: "T".to_string(),
            declaration: "T: Peel<'a, 'b, 'c>".to_string(),
        }],
        fields: transfer(),
    };
    let text = derive_from_accounts(&definition);
    let from = generate_from(&definition.name, &definition.fields);
    let size = generate_size_in_accounts(&definition.fields);
    let metas = generate_to_cpi_metas(&definition.fields);
    let persist = generate_persist(&definition.fields);
    let deps = generate_deps_fields(&definition.fields);
    let expected = format!(
        "impl<'a, 'b: 'a, 'c, T: Peel<'a, 'b, 'c>> solitaire::FromAccounts<'a, 'b, 'c> for Transfer<'b, T> {{\n\
         fn from<DataType>(pid: &'a solana_program::pubkey::Pubkey, iter: &'c mut std::slice::Iter<'a, solana_program::account_info::AccountInfo<'b>>, data: &'a DataType) -> solitaire::Result<Self> {{\n\
         {from}}}\n\
         fn size_in_accounts() -> usize {{\n\
         {size}}}\n\
         fn to_cpi_metas(infos: &'c mut std::slice::Iter<Info<'b>>) -> solitaire::Result<Vec<solana_program::instruction::AccountMeta>> {{\n\
         {metas}}}\n\
         }}\n\
         impl<'b, T: Peel<'a, 'b, 'c>> solitaire::Persist for Transfer<'b, T> {{\n\
         fn persist(&self, program_id: &solana_program::pubkey::Pubkey) -> solitaire::Result<()> {{\n\
         {persist}}}\n\
         }}\n\
         impl<'b, T: Peel<'a, 'b, 'c>> Transfer<'b, T> {{\n\
         pub fn deps() -> Vec<solana_program::pubkey::Pubkey> {{\n\
         {deps}}}\n\
         }}\n"
    );
    assert_eq!(text, expected);
}

#[test]
fn a_struct_without_type_parameters_takes_the_lifetime_alone() {
    let definition = Definition {
        name: "Close".to_string(),
        type_params: vec![],
        fields: fields_of(vec![("owner", "Signer<Info<'b>>")]),
    };
    let text = derive_from_accounts(&definition);
    assert!(text.starts_with(
        "impl<'a, 'b: 'a, 'c> solitaire::FromAccounts<'a, 'b, 'c> for Close<'b> {\n"
    ));
    assert!(text.contains("impl<'b> solitaire::Persist for Close<'b> {\n"));
    assert!(text.contains("impl<'b> Close<'b> {\n"));
}

#[test]
fn what_is_written_is_rust() {
    let definition = Definition {
        name: "Transfer".to_string(),
        type_params: vec![
            TypeParam { name: "T".to_string(), declaration: "T: Clone".to_string() },
            TypeParam { name: "U".to_string(), declaration: "U".to_string() },
        ],
        fields: transfer(),
    };
    let text = derive_from_accounts(&definition);
    let file = syn::parse_str::<syn::File>(&text).ok().unwrap();
    assert_eq!(file.items.len(), 3);
    let methods: Vec<usize> = file
        .items
        .iter()
        .map(|item| match item {
            syn::Item::Impl(item) => item.items.len(),
            _ => panic!("every item is an implementation"),
        })
        .collect();
    assert_eq!(methods, vec![3, 1, 1]);
}

#[test]
fn the_statements_of_a_procedure_follow_the_declaration_order() {
    let text = generate_persist(&fields_of(vec![("c", "C"), ("a", "A"), ("b", "B")]));
    let c = text.find("self.c").unwrap();
    let a = text.find("self.a").unwrap();
    let b = text.find("self.b").unwrap();
    assert!(c < a && a < b);
}
