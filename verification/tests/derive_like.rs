use trait_enumizer::ReceiverStyle;
use trait_enumizer::Value;
use trait_enumizer::expand::RawInput;
use trait_enumizer::expand::enumizer;
use trait_enumizer::raw::RawAttr;
use trait_enumizer::raw::RawFnArg;
use trait_enumizer::raw::RawImpl;
use trait_enumizer::raw::RawImplItem;
use trait_enumizer::raw::RawMethod;
use trait_enumizer::raw::RawPat;
use trait_enumizer::raw::RawReceiver;
use trait_enumizer::raw::RawSelfTy;
use trait_enumizer::raw::RawSignature;
use trait_enumizer::raw::RawTrait;
use trait_enumizer::raw::RawTraitItem;
use trait_enumizer::raw::RawTypedArg;
use trait_enumizer::model::TyExpr;
use trait_enumizer::semantics::CallRecord;
use trait_enumizer::semantics::ProxyReply;
use trait_enumizer::semantics::SimImpl;
use trait_enumizer::semantics::proxy_call;
use trait_enumizer::tokens::Delim;
use trait_enumizer::tokens::Tok;

fn ident(s: &str) -> Tok {
    Tok::Ident(s.to_string())
}

fn group(toks: Vec<Tok>) -> Tok {
    Tok::Group(Delim::Paren, toks)
}

fn receiver(style: ReceiverStyle) -> RawFnArg {
    match style {
        ReceiverStyle::Move => RawFnArg::Receiver(RawReceiver {
            reference: false,
            lifetime: false,
            mutability: false,
        }),
        ReceiverStyle::Mut => RawFnArg::Receiver(RawReceiver {
            reference: true,
            lifetime: false,
            mutability: true,
        }),
        ReceiverStyle::Ref => RawFnArg::Receiver(RawReceiver {
            reference: true,
            lifetime: false,
            mutability: false,
        }),
    }
}

fn arg(name: &str, ty: &str) -> RawFnArg {
    RawFnArg::Typed(RawTypedArg {
        attrs: vec![],
        pat: RawPat::Ident {
            by_ref: false,
            name: name.to_string(),
        },
        ty: TyExpr {
            is_ref: false,
            base: ty.to_string(),
        },
    })
}

fn to_owned_arg(name: &str, referent: &str) -> RawFnArg {
    RawFnArg::Typed(RawTypedArg {
        attrs: vec![RawAttr {
            path_ident: Some("enumizer_to_owned".to_string()),
            tokens: vec![],
        }],
        pat: RawPat::Ident {
            by_ref: false,
            name: name.to_string(),
        },
        ty: TyExpr {
            is_ref: true,
            base: referent.to_string(),
        },
    })
}

fn method(name: &str, inputs: Vec<RawFnArg>, output: Option<&str>) -> RawMethod {
    RawMethod {
        attrs: vec![],
        sig: RawSignature {
            name: name.to_string(),
            constness: false,
            asyncness: false,
            unsafety: false,
            abi: false,
            generics: false,
            variadic: false,
            inputs,
            output: output.map(|t| TyExpr {
                is_ref: false,
                base: t.to_string(),
            }),
        },
        defaultness: false,
    }
}

fn three_method_trait(style: ReceiverStyle) -> RawTrait {
    RawTrait {
        name: "MyIface".to_string(),
        items: vec![
            RawTraitItem::Method(method("foo", vec![receiver(style)], None)),
            RawTraitItem::Method(method(
                "bar",
                vec![receiver(style), arg("x", "i32")],
                None,
            )),
            RawTraitItem::Method(method(
                "baz",
                vec![receiver(style), arg("y", "String"), arg("z", "Vec<u8>")],
                None,
            )),
        ],
    }
}

fn fresh_impl(n_methods: usize) -> SimImpl {
    SimImpl {
        rets: std::iter::repeat_with(|| Value::Unit).take(n_methods).collect(),
        calls: vec![],
    }
}

#[test]
fn simple_derive_test() {
    let attrs = vec![
        ident("call"),
        group(vec![]),
        Tok::Punct(','),
        ident("ref_proxy"),
        group(vec![ident("infallible_impl")]),
    ];
    let exp = enumizer(&attrs, &RawInput::Trait(three_method_trait(ReceiverStyle::Ref))).unwrap();
    assert!(exp.call_ref_fn.is_some());
    let bundle = exp.ref_proxy.as_ref().unwrap();
    assert!(bundle.infallible_impl.is_some());
    assert_eq!(exp.command_enum.name, "MyIfaceEnum");
    assert_eq!(bundle.proxy.name, "MyIfaceProxy");

    let mut o = fresh_impl(3);
    proxy_call(&exp.input, &mut o, ReceiverStyle::Ref, 0, &vec![]).unwrap();
    proxy_call(&exp.input, &mut o, ReceiverStyle::Ref, 1, &vec![Value::Int(4)]).unwrap();
    assert_eq!(o.calls.len(), 2);
    assert_eq!(
        o.calls[0],
        CallRecord {
            method: 0,
            args: vec![]
        }
    );
    assert_eq!(
        o.calls[1],
        CallRecord {
            method: 1,
            args: vec![Value::Int(4)]
        }
    );
}

#[test]
fn move_derive_test() {
    let attrs = vec![
        ident("name"),
        Tok::Punct('='),
        ident("MyIfaceEnum"),
        Tok::Punct(','),
        ident("call_once"),
        group(vec![]),
        Tok::Punct(','),
        ident("once_proxy"),
        group(vec![
            ident("infallible_impl"),
            Tok::Punct(','),
            ident("name"),
            Tok::Punct('='),
            ident("MyIfaceProxyOnce"),
            Tok::Punct(','),
            ident("traitname"),
            Tok::Punct('='),
            ident("MyIfaceResultifiedOnce"),
        ]),
    ];
    let exp = enumizer(&attrs, &RawInput::Trait(three_method_trait(ReceiverStyle::Move))).unwrap();
    assert!(exp.call_once_fn.is_some());
    let bundle = exp.once_proxy.as_ref().unwrap();
    assert_eq!(bundle.proxy.name, "MyIfaceProxyOnce");
    assert_eq!(bundle.resultified.name, "MyIfaceResultifiedOnce");

    let mut o1 = fresh_impl(3);
    let mut o2 = fresh_impl(3);
    proxy_call(&exp.input, &mut o1, ReceiverStyle::Move, 0, &vec![]).unwrap();
    proxy_call(&exp.input, &mut o2, ReceiverStyle::Move, 1, &vec![Value::Int(4)]).unwrap();
    assert_eq!(o1.calls.len(), 1);
    assert_eq!(o2.calls.len(), 1);
    assert_eq!(
        o2.calls[0],
        CallRecord {
            method: 1,
            args: vec![Value::Int(4)]
        }
    );
}

#[test]
fn mutable_derive_test() {
    let attrs = vec![
        ident("call_mut"),
        group(vec![]),
        Tok::Punct(','),
        ident("mut_proxy"),
        group(vec![ident("infallible_impl")]),
    ];
    let exp = enumizer(&attrs, &RawInput::Trait(three_method_trait(ReceiverStyle::Mut))).unwrap();
    assert!(exp.call_mut_fn.is_some());
    assert!(exp.mut_proxy.as_ref().unwrap().infallible_impl.is_some());

    let mut o = fresh_impl(3);
    proxy_call(&exp.input, &mut o, ReceiverStyle::Mut, 0, &vec![]).unwrap();
    proxy_call(&exp.input, &mut o, ReceiverStyle::Mut, 1, &vec![Value::Int(4)]).unwrap();
    assert_eq!(o.calls.len(), 2);
    assert_eq!(
        o.calls[1],
        CallRecord {
            method: 1,
            args: vec![Value::Int(4)]
        }
    );
}

#[test]
fn inherent_derive_test() {
    let attrs = vec![
        ident("inherent_impl"),
        Tok::Punct(','),
        ident("name"),
        Tok::Punct('='),
        ident("QqqEnum"),
        Tok::Punct(','),
        ident("call"),
        group(vec![ident("name"), Tok::Punct('='), ident("call")]),
        Tok::Punct(','),
        ident("ref_proxy"),
        group(vec![ident("name"), Tok::Punct('='), ident("QqqProxy")]),
    ];
    let raw = RawImpl {
        defaultness: false,
        unsafety: false,
        generics: false,
        where_clause: false,
        trait_impl: false,
        self_ty: RawSelfTy::Ident("Qqq".to_string()),
        items: vec![
            RawImplItem::Method(method("foo", vec![receiver(ReceiverStyle::Ref)], None)),
            RawImplItem::Method(method(
                "bar",
                vec![receiver(ReceiverStyle::Ref), arg("x", "i32")],
                None,
            )),
            RawImplItem::Method(method(
                "baz",
                vec![
                    receiver(ReceiverStyle::Ref),
                    arg("y", "String"),
                    arg("z", "Vec<u8>"),
                ],
                None,
            )),
        ],
    };
    let exp = enumizer(&attrs, &RawInput::Impl(raw)).unwrap();
    assert_eq!(exp.command_enum.name, "QqqEnum");
    assert_eq!(exp.call_ref_fn.as_ref().unwrap().name, "call");
    assert!(exp.call_ref_fn.as_ref().unwrap().inherent);
    assert_eq!(exp.ref_proxy.as_ref().unwrap().proxy.name, "QqqProxy");

    let mut o = fresh_impl(3);
    proxy_call(&exp.input, &mut o, ReceiverStyle::Ref, 0, &vec![]).unwrap();
    proxy_call(&exp.input, &mut o, ReceiverStyle::Ref, 1, &vec![Value::Int(4)]).unwrap();
    assert_eq!(o.calls.len(), 2);
}

#[test]
fn toowned_derive_test() {
    let attrs = vec![
        ident("call"),
        group(vec![]),
        Tok::Punct(','),
        ident("ref_proxy"),
        group(vec![ident("infallible_impl")]),
    ];
    let raw = RawTrait {
        name: "MyIface".to_string(),
        items: vec![
            RawTraitItem::Method(method(
                "primitive",
                vec![receiver(ReceiverStyle::Ref), arg("x", "i32")],
                None,
            )),
            RawTraitItem::Method(method(
                "by_value",
                vec![receiver(ReceiverStyle::Ref), arg("x", "String")],
                None,
            )),
            RawTraitItem::Method(method(
                "by_ref",
                vec![receiver(ReceiverStyle::Ref), to_owned_arg("y", "str")],
                None,
            )),
            RawTraitItem::Method(method(
                "by_ref2",
                vec![receiver(ReceiverStyle::Ref), to_owned_arg("y", "[u8]")],
                None,
            )),
        ],
    };
    let exp = enumizer(&attrs, &RawInput::Trait(raw)).unwrap();
    assert!(exp.input.methods[2].args[0].to_owned);
    assert!(exp.input.methods[3].args[0].to_owned);

    let mut o = fresh_impl(4);
    proxy_call(&exp.input, &mut o, ReceiverStyle::Ref, 0, &vec![Value::Int(3)]).unwrap();
    proxy_call(
        &exp.input,
        &mut o,
        ReceiverStyle::Ref,
        1,
        &vec![Value::Str("owned".to_string())],
    )
    .unwrap();
    proxy_call(
        &exp.input,
        &mut o,
        ReceiverStyle::Ref,
        2,
        &vec![Value::Str("by_ref".to_string())],
    )
    .unwrap();
    proxy_call(
        &exp.input,
        &mut o,
        ReceiverStyle::Ref,
        3,
        &vec![Value::Bytes(b"by_ref2".to_vec())],
    )
    .unwrap();
    assert_eq!(o.calls.len(), 4);
    assert_eq!(o.calls[2].args, vec![Value::Str("by_ref".to_string())]);
    assert_eq!(o.calls[3].args, vec![Value::Bytes(b"by_ref2".to_vec())]);
}

#[test]
fn returnval_derive_simple() {
    let attrs = vec![
        ident("returnval"),
        Tok::Punct('='),
        ident("flume_class"),
        Tok::Punct(','),
        ident("call"),
        group(vec![]),
        Tok::Punct(','),
        ident("ref_proxy"),
        group(vec![ident("unwrapping_impl")]),
    ];
    let raw = RawTrait {
        name: "MyIface".to_string(),
        items: vec![
            RawTraitItem::Method(method(
                "foo",
                vec![receiver(ReceiverStyle::Ref)],
                Some("String"),
            )),
            RawTraitItem::Method(method(
                "bar",
                vec![receiver(ReceiverStyle::Ref), arg("x", "i32")],
                Some("i32"),
            )),
            RawTraitItem::Method(method(
                "baz",
                vec![receiver(ReceiverStyle::Ref), arg("y", "String"), arg("z", "Vec<u8>")],
                None,
            )),
        ],
    };
    let exp = enumizer(&attrs, &RawInput::Trait(raw)).unwrap();
    assert_eq!(exp.input.params.returnval.as_ref().unwrap(), "flume_class");
    assert!(exp.ref_proxy.as_ref().unwrap().unwrapping_impl.is_some());

    let mut o = SimImpl {
        rets: vec![
            Value::Str("qqq".to_string()),
            Value::Int(17),
            Value::Unit,
        ],
        calls: vec![],
    };
    let r0 = proxy_call(&exp.input, &mut o, ReceiverStyle::Ref, 0, &vec![]).unwrap();
    match r0 {
        ProxyReply::Returned(v) => assert_eq!(v, Value::Str("qqq".to_string())),
        ProxyReply::NoReturn => panic!("expected a reply"),
    }
    let r1 = proxy_call(&exp.input, &mut o, ReceiverStyle::Ref, 1, &vec![Value::Int(4)]).unwrap();
    match r1 {
        ProxyReply::Returned(v) => assert_eq!(v, Value::Int(17)),
        ProxyReply::NoReturn => panic!("expected a reply"),
    }
    assert_eq!(o.calls.len(), 2);
}
