use exemplar::{
    decode_outcome, derive_model, encode_outcome, Attribute, ConfigError, ConformanceError, Data,
    DecodeError, DeriveInput, EncodeError, Field, Fields,
};

fn user() -> DeriveInput {
    let attr = |path: &str, args: &str| Attribute { path: path.to_string(), args: Some(args.to_string()) };
    let field = |ident: &str, ty: &str, attrs: Vec<Attribute>| Field {
        ident: ident.to_string(),
        ty: ty.to_string(),
        attrs,
    };
    DeriveInput {
        ident: "User".to_string(),
        attrs: vec![attr("table", "\"users\"")],
        has_generics: false,
        data: Data::Struct(Fields::Named(vec![
            field("username", "String", vec![]),
            field("home_dir", "PathBuf", vec![attr("bind", "bind_path"), attr("extr", "extr_path")]),
            field("password", "Vec<u8>", vec![attr("column", "\"pwd\"")]),
        ])),
    }
}

#[test]
fn decode_reports_first_failing_field() {
    let derived = derive_model(&user()).unwrap();
    let all_ok = vec![Ok(()), Ok(()), Ok(())];
    assert_eq!(decode_outcome(&derived.from_row, &all_ok), Ok(()));
    let outcomes = vec![Ok(()), Ok(()), Err("not a blob".to_string())];
    assert_eq!(
        decode_outcome(&derived.from_row, &outcomes),
        Err(DecodeError {
            field: "password".to_string(),
            column: "pwd".to_string(),
            cause: "not a blob".to_string(),
        })
    );
    let two = vec![Err("first".to_string()), Err("second".to_string())];
    assert_eq!(decode_outcome(&derived.from_row, &two).unwrap_err().field, "username");
    assert_eq!(decode_outcome(&derived.from_row, &vec![]), Ok(()));
}

#[test]
fn encode_reports_first_failing_field() {
    let derived = derive_model(&user()).unwrap();
    let outcomes = vec![Ok(()), Err("not utf-8".to_string())];
    assert_eq!(
        encode_outcome(&derived.to_params, &outcomes),
        Err(EncodeError { field: "home_dir".to_string(), cause: "not utf-8".to_string() })
    );
    assert_eq!(encode_outcome(&derived.to_params, &vec![Ok(()), Ok(()), Ok(())]), Ok(()));
    assert_eq!(derived.to_params[2].field(), "password");
}

#[test]
fn error_texts() {
    assert_eq!(ConfigError::MissingTable.message(), "Expected a #[table(...)] attribute.");
    assert_eq!(
        ConfigError::MissingTable.hint(),
        "The table is never inferred from the type's name; specify it like this: #[table(\"table_name\")]."
    );
    assert_eq!(
        ConfigError::MalformedExtr("x".to_string()).message(),
        "The #[extr] attribute expects a single path for its argument."
    );
    assert_eq!(
        ConformanceError::UnmappedColumn("alive".to_string()).message(),
        "A column in the schema has no corresponding field in the model."
    );
    assert_eq!(
        ConformanceError::UndeclaredColumn("pwd".to_string()).message(),
        "A field in the model has no corresponding column in the schema."
    );
}
