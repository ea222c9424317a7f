use trait_enumizer::AccessMode;
use trait_enumizer::parse_args::parse_args;
use trait_enumizer::tokens::Delim;
use trait_enumizer::tokens::Tok;

fn ident(s: &str) -> Tok {
    Tok::Ident(s.to_string())
}

fn punct(c: char) -> Tok {
    Tok::Punct(c)
}

fn group(d: Delim, toks: Vec<Tok>) -> Tok {
    Tok::Group(d, toks)
}

#[test]
fn test_parser1() {
    let attrs = parse_args(&vec![]).unwrap();
    assert_eq!(attrs.access_mode, AccessMode::Priv);
    assert!(attrs.call_ref.is_none());
    assert!(attrs.call_mut.is_none());
    assert!(attrs.call_once.is_none());
    assert!(attrs.ref_proxy.is_none());
    assert!(attrs.mut_proxy.is_none());
    assert!(attrs.once_proxy.is_none());
    assert!(attrs.enum_attr.is_empty());
    assert!(attrs.returnval.is_none());
}

#[test]
fn test_parser2() {
    let input = vec![
        ident("returnval"),
        punct('='),
        ident("my_rpc_class"),
        punct(','),
        ident("call"),
        group(Delim::Paren, vec![
            ident("extra_arg_type"),
            group(Delim::Paren, vec![ident("i32")]),
        ]),
        punct(','),
        ident("call_mut"),
        group(Delim::Paren, vec![
            ident("extra_arg_type"),
            group(Delim::Paren, vec![
                punct('&'),
                ident("flume"),
                punct(':'),
                punct(':'),
                ident("Sender"),
                punct('<'),
                ident("String"),
                punct('>'),
            ]),
        ]),
        punct(','),
        ident("call_once"),
        group(Delim::Paren, vec![ident("allow_panic")]),
        punct(','),
        ident("ref_proxy"),
        group(Delim::Paren, vec![
            ident("unwrapping_impl"),
            punct(','),
            ident("extra_field_type"),
            group(Delim::Paren, vec![ident("MyRpcClient")]),
        ]),
        punct(','),
        ident("mut_proxy"),
        group(Delim::Paren, vec![ident("infallible_impl")]),
        punct(','),
        ident("once_proxy"),
        group(Delim::Paren, vec![ident("unwrapping_and_panicking_impl")]),
        punct(','),
        ident("enum_attr"),
        group(Delim::Bracket, vec![
            ident("derive"),
            group(Delim::Paren, vec![
                ident("serde_derive"),
                punct(':'),
                punct(':'),
                ident("Serialize"),
                punct(','),
                ident("serde_derive"),
                punct(':'),
                punct(':'),
                ident("Deserialize"),
            ]),
        ]),
        punct(','),
        ident("enum_attr"),
        group(Delim::Bracket, vec![Tok::Literal("222".to_string())]),
    ];
    let attrs = parse_args(&input).unwrap();
    assert_eq!(attrs.access_mode, AccessMode::Priv);
    assert_eq!(attrs.call_ref.as_ref().unwrap().allow_panic, false);
    assert_eq!(attrs.call_mut.as_ref().unwrap().allow_panic, false);
    assert_eq!(attrs.call_once.as_ref().unwrap().allow_panic, true);

    assert!(attrs.call_ref.as_ref().unwrap().extra_arg.is_some());
    assert!(attrs.call_mut.as_ref().unwrap().extra_arg.is_some());
    assert!(attrs.call_once.as_ref().unwrap().extra_arg.is_none());

    assert_eq!(attrs.ref_proxy.as_ref().unwrap().gen_unwrapping, true);
    assert_eq!(attrs.ref_proxy.as_ref().unwrap().gen_infallible, false);
    assert_eq!(
        attrs.ref_proxy.as_ref().unwrap().gen_unwrapping_and_panicking,
        false
    );

    assert_eq!(attrs.mut_proxy.as_ref().unwrap().gen_unwrapping, false);
    assert_eq!(attrs.mut_proxy.as_ref().unwrap().gen_infallible, true);
    assert_eq!(
        attrs.mut_proxy.as_ref().unwrap().gen_unwrapping_and_panicking,
        false
    );

    assert_eq!(attrs.once_proxy.as_ref().unwrap().gen_unwrapping, false);
    assert_eq!(attrs.once_proxy.as_ref().unwrap().gen_infallible, false);
    assert_eq!(
        attrs.once_proxy.as_ref().unwrap().gen_unwrapping_and_panicking,
        true
    );

    assert_eq!(attrs.enum_attr.len(), 2);
    assert_eq!(attrs.returnval.unwrap(), "my_rpc_class");
}
