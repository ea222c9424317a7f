use trait_enumizer::AccessMode;
use trait_enumizer::Argument;
use trait_enumizer::FailedToSendReturnValue;
use trait_enumizer::InputData;
use trait_enumizer::Method;
use trait_enumizer::Params;
use trait_enumizer::ReceiverStyle;
use trait_enumizer::TyExpr;
use trait_enumizer::Value;
use trait_enumizer::analyze::DefError;
use trait_enumizer::channels::flume_create;
use trait_enumizer::channels::flume_recv;
use trait_enumizer::expand::EnumizerError;
use trait_enumizer::expand::RawInput;
use trait_enumizer::expand::enumizer;
use trait_enumizer::generate::ArmAction;
use trait_enumizer::generate::GenError;
use trait_enumizer::parse_args::ConfigError;
use trait_enumizer::parse_args::parse_args;
use trait_enumizer::raw::RawAttr;
use trait_enumizer::raw::RawFnArg;
use trait_enumizer::raw::RawMethod;
use trait_enumizer::raw::RawPat;
use trait_enumizer::raw::RawReceiver;
use trait_enumizer::raw::RawSignature;
use trait_enumizer::raw::RawTrait;
use trait_enumizer::raw::RawTraitItem;
use trait_enumizer::raw::RawTypedArg;
use trait_enumizer::semantics::CallRecord;
use trait_enumizer::semantics::Command;
use trait_enumizer::semantics::DispatchError;
use trait_enumizer::semantics::ProxyReply;
use trait_enumizer::semantics::SimImpl;
use trait_enumizer::semantics::apply_command;
use trait_enumizer::semantics::proxy_call;
use trait_enumizer::semantics::slot_drop_sender;
use trait_enumizer::semantics::slot_new;
use trait_enumizer::semantics::slot_recv;
use trait_enumizer::semantics::slot_send;
use trait_enumizer::tokens::Delim;
use trait_enumizer::tokens::Tok;
use trait_enumizer::value::to_owned_value;
use trait_enumizer::value::value_eq;

fn ident(s: &str) -> Tok {
    Tok::Ident(s.to_string())
}

fn group(toks: Vec<Tok>) -> Tok {
    Tok::Group(Delim::Paren, toks)
}

fn default_params() -> Params {
    Params {
        ref_proxy: None,
        mut_proxy: None,
        once_proxy: None,
        call_ref: None,
        call_mut: None,
        call_once: None,
        access_mode: AccessMode::Priv,
        returnval: None,
        enum_attr: vec![],
        enum_name: None,
        inherent_impl_mode: false,
    }
}

fn receiver(style: ReceiverStyle) -> RawFnArg {
    RawFnArg::Receiver(RawReceiver {
        reference: !matches!(style, ReceiverStyle::Move),
        lifetime: false,
        mutability: matches!(style, ReceiverStyle::Mut),
    })
}

fn raw_arg(name: &str, ty: &str) -> RawFnArg {
    RawFnArg::Typed(RawTypedArg {
        attrs: vec![],
        pat: RawPat::Ident {
            by_ref: false,
            name: name.to_string(),
        },
        ty: TyExpr {
            is_ref: false,
            base: ty.to_string(),
        },
    })
}

fn raw_method(name: &str, inputs: Vec<RawFnArg>, output: Option<&str>) -> RawMethod {
    RawMethod {
        attrs: vec![],
        sig: RawSignature {
            name: name.to_string(),
            constness: false,
            asyncness: false,
            unsafety: false,
            abi: false,
            generics: false,
            variadic: false,
            inputs,
            output: output.map(|t| TyExpr {
                is_ref: false,
                base: t.to_string(),
            }),
        },
        defaultness: false,
    }
}

fn model_method(name: &str, style: ReceiverStyle) -> Method {
    Method {
        name: name.to_string(),
        receiver_style: style,
        args: vec![],
        ret: None,
        enum_attr: vec![],
        return_attr: vec![],
        is_async: false,
    }
}

fn iface_of(styles: &[ReceiverStyle]) -> InputData {
    InputData {
        name: "I".to_string(),
        methods: styles
            .iter()
            .enumerate()
            .map(|(i, s)| model_method(&format!("m{}", i), *s))
            .collect(),
        params: default_params(),
    }
}

#[test]
fn scenario_shared_ref_round_trip() {
    let d = InputData {
        name: "Svc".to_string(),
        methods: vec![
            model_method("foo", ReceiverStyle::Ref),
            Method {
                name: "bar".to_string(),
                receiver_style: ReceiverStyle::Ref,
                args: vec![Argument {
                    name: "x".to_string(),
                    ty: TyExpr {
                        is_ref: false,
                        base: "i32".to_string(),
                    },
                    enum_attr: vec![],
                    to_owned: false,
                }],
                ret: None,
                enum_attr: vec![],
                return_attr: vec![],
                is_async: false,
            },
            Method {
                name: "baz".to_string(),
                receiver_style: ReceiverStyle::Ref,
                args: vec![
                    Argument {
                        name: "y".to_string(),
                        ty: TyExpr {
                            is_ref: false,
                            base: "String".to_string(),
                        },
                        enum_attr: vec![],
                        to_owned: false,
                    },
                    Argument {
                        name: "z".to_string(),
                        ty: TyExpr {
                            is_ref: false,
                            base: "Vec<u8>".to_string(),
                        },
                        enum_attr: vec![],
                        to_owned: false,
                    },
                ],
                ret: None,
                enum_attr: vec![],
                return_attr: vec![],
                is_async: false,
            },
        ],
        params: default_params(),
    };
    let mut o = SimImpl {
        rets: vec![Value::Unit, Value::Unit, Value::Unit],
        calls: vec![],
    };
    proxy_call(&d, &mut o, ReceiverStyle::Ref, 0, &vec![]).unwrap();
    proxy_call(&d, &mut o, ReceiverStyle::Ref, 1, &vec![Value::Int(4)]).unwrap();
    assert_eq!(
        o.calls,
        vec![
            CallRecord {
                method: 0,
                args: vec![]
            },
            CallRecord {
                method: 1,
                args: vec![Value::Int(4)]
            },
        ]
    );
}

#[test]
fn scenario_reply_forty_two() {
    let mut d = iface_of(&[ReceiverStyle::Ref]);
    d.methods[0].name = "get".to_string();
    d.methods[0].ret = Some(TyExpr {
        is_ref: false,
        base: "i32".to_string(),
    });
    d.params.returnval = Some("flume_class".to_string());
    let mut o = SimImpl {
        rets: vec![Value::Int(42)],
        calls: vec![],
    };
    let r = proxy_call(&d, &mut o, ReceiverStyle::Ref, 0, &vec![]).unwrap();
    assert!(matches!(r, ProxyReply::Returned(Value::Int(42))));

    // The dispatcher terminated before replying: the receive fails.
    let (tx, rx) = flume_create();
    drop(tx);
    assert!(flume_recv(&rx).is_err());
    let mut slot = slot_new();
    slot_drop_sender(&mut slot);
    assert!(slot_recv(&mut slot).is_err());
}

#[test]
fn at_most_once_reply() {
    let mut slot = slot_new();
    slot_send(&mut slot, Value::Int(7)).unwrap();
    let first = slot_recv(&mut slot).unwrap();
    assert_eq!(first, Value::Int(7));
    assert!(slot_recv(&mut slot).is_err());
    // A second send is also rejected: the slot is single use.
    let mut slot2 = slot_new();
    slot_send(&mut slot2, Value::Int(1)).unwrap();
    assert!(matches!(
        slot_send(&mut slot2, Value::Int(2)),
        Err(FailedToSendReturnValue)
    ));
}

#[test]
fn gating_rejection() {
    let raw = RawTrait {
        name: "MyIface".to_string(),
        items: vec![
            RawTraitItem::Method(raw_method("eat", vec![receiver(ReceiverStyle::Move)], None)),
            RawTraitItem::Method(raw_method("peek", vec![receiver(ReceiverStyle::Ref)], None)),
        ],
    };
    let denied = vec![ident("call"), group(vec![])];
    let r = enumizer(&denied, &RawInput::Trait(raw));
    assert!(matches!(r, Err(EnumizerError::CallRefWithNonRefMethods)));

    let raw2 = RawTrait {
        name: "MyIface".to_string(),
        items: vec![
            RawTraitItem::Method(raw_method("eat", vec![receiver(ReceiverStyle::Move)], None)),
            RawTraitItem::Method(raw_method("peek", vec![receiver(ReceiverStyle::Ref)], None)),
        ],
    };
    let allowed = vec![ident("call"), group(vec![ident("allow_panic")])];
    let exp = enumizer(&allowed, &RawInput::Trait(raw2)).unwrap();
    let call_fn = exp.call_ref_fn.as_ref().unwrap();
    assert!(matches!(
        call_fn.arms[0].action,
        ArmAction::MismatchFailure { .. }
    ));
    assert!(matches!(call_fn.arms[1].action, ArmAction::CallNoRet));

    // Exercising the mismatched arm is the deferred runtime failure.
    let mut o = SimImpl {
        rets: vec![Value::Unit, Value::Unit],
        calls: vec![],
    };
    let hit = apply_command(
        &exp.input,
        &mut o,
        ReceiverStyle::Ref,
        Command {
            method: 0,
            args: vec![],
        },
    );
    assert!(matches!(
        hit,
        Err(DispatchError::ConventionMismatch { .. })
    ));
    assert!(o.calls.is_empty());
}

#[test]
fn convention_fold_monotonicity() {
    let pure_ref = iface_of(&[ReceiverStyle::Ref, ReceiverStyle::Ref]);
    assert_eq!(
        pure_ref.receiver_style_that_is_the_most_inconvenient_for_caller(),
        ReceiverStyle::Ref
    );
    assert_eq!(
        pure_ref.receiver_style_that_is_the_most_inconvenient_for_callee(),
        ReceiverStyle::Ref
    );

    // Adding one by-value method pins the caller-side fold to by-value.
    let with_move = iface_of(&[ReceiverStyle::Ref, ReceiverStyle::Ref, ReceiverStyle::Move]);
    assert_eq!(
        with_move.receiver_style_that_is_the_most_inconvenient_for_caller(),
        ReceiverStyle::Move
    );

    // Adding one shared-reference method pins the callee-side fold to it.
    let with_ref = iface_of(&[ReceiverStyle::Move, ReceiverStyle::Mut, ReceiverStyle::Ref]);
    assert_eq!(
        with_ref.receiver_style_that_is_the_most_inconvenient_for_callee(),
        ReceiverStyle::Ref
    );

    let pure_move = iface_of(&[ReceiverStyle::Move, ReceiverStyle::Move]);
    assert_eq!(
        pure_move.receiver_style_that_is_the_most_inconvenient_for_callee(),
        ReceiverStyle::Move
    );
    assert_eq!(
        pure_move.sole_receiver_style(),
        Some(ReceiverStyle::Move)
    );
    assert_eq!(with_ref.sole_receiver_style(), None);
    assert_eq!(iface_of(&[]).sole_receiver_style(), None);
}

#[test]
fn ownership_conversion_idempotence() {
    let s = Value::Str("hello".to_string());
    let owned = to_owned_value(&s);
    assert!(value_eq(&owned, &s));
    let b = Value::Bytes(vec![1, 2, 3]);
    let owned_b = to_owned_value(&b);
    assert!(value_eq(&owned_b, &b));

    let borrowed: &str = "slice";
    let owned_str: String = borrowed.to_owned();
    let back: &str = &owned_str;
    assert_eq!(back, borrowed);
}

#[test]
fn generated_names() {
    let m = model_method("foo_bar", ReceiverStyle::Ref);
    assert_eq!(m.variant_name(), "FooBar");

    let d = iface_of(&[ReceiverStyle::Ref]);
    assert_eq!(d.enum_name(), "IEnum");

    assert_eq!(ReceiverStyle::Ref.call_fn_name(false), "call");
    assert_eq!(ReceiverStyle::Mut.call_fn_name(false), "call_mut");
    assert_eq!(ReceiverStyle::Move.call_fn_name(false), "call_once");
    assert_eq!(ReceiverStyle::Ref.call_fn_name(true), "try_call");
    assert_eq!(ReceiverStyle::Move.identpart(), "Once");
    assert_eq!(ReceiverStyle::Mut.identpart(), "Mut");
    assert_eq!(ReceiverStyle::Ref.identpart(), "");
    assert_eq!(ReceiverStyle::Ref.ts(), "&self");
    assert_eq!(ReceiverStyle::Mut.fn_trait(), "FnMut");
    assert_eq!(AccessMode::PubCrate.code(), "pub(crate)");
    assert_eq!(
        FailedToSendReturnValue.message(),
        "trait-enumizer: Failed to send return value back to caller"
    );
}

#[test]
fn rendered_text() {
    let attrs = vec![
        ident("call"),
        group(vec![]),
        Tok::Punct(','),
        ident("ref_proxy"),
        group(vec![ident("infallible_impl")]),
    ];
    let raw = RawTrait {
        name: "MyIface".to_string(),
        items: vec![
            RawTraitItem::Method(raw_method(
                "foo_bar",
                vec![receiver(ReceiverStyle::Ref), raw_arg("x", "i32")],
                None,
            )),
        ],
    };
    let exp = enumizer(&attrs, &RawInput::Trait(raw)).unwrap();
    let text = trait_enumizer::render::render_expansion(&exp);
    assert!(text.contains("enum MyIfaceEnum"));
    assert!(text.contains("FooBar { x : i32 , }"));
    assert!(text.contains("fn call < I : MyIface >"));
    assert!(text.contains("trait MyIfaceResultified < E >"));
    assert!(text.contains("fn try_foo_bar"));
    assert!(text.contains("struct MyIfaceProxy < E , F : Fn ( MyIfaceEnum ) -> Result < ( ) , E > >"));
    assert!(text.contains("impl < R : MyIfaceResultified < :: std :: convert :: Infallible > > MyIface for R"));
}

#[test]
fn analyzer_rejections() {
    let returnless = default_params();
    let mut bad_const = raw_method("c", vec![receiver(ReceiverStyle::Ref)], None);
    bad_const.sig.constness = true;
    let t = RawTrait {
        name: "T".to_string(),
        items: vec![RawTraitItem::Method(bad_const)],
    };
    assert!(matches!(
        InputData::parse_trait(&t, returnless),
        Err(DefError::UnsupportedConst(_))
    ));

    let t2 = RawTrait {
        name: "T".to_string(),
        items: vec![RawTraitItem::Method(raw_method("f", vec![], None))],
    };
    assert!(matches!(
        InputData::parse_trait(&t2, default_params()),
        Err(DefError::NoReceiver(_))
    ));

    let t3 = RawTrait {
        name: "T".to_string(),
        items: vec![RawTraitItem::Method(raw_method(
            "f",
            vec![receiver(ReceiverStyle::Ref)],
            Some("i32"),
        ))],
    };
    assert!(matches!(
        InputData::parse_trait(&t3, default_params()),
        Err(DefError::ReturnValueNotEnabled(_))
    ));

    let mut with_ret_params = default_params();
    with_ret_params.returnval = Some("flume_class".to_string());
    let t4 = RawTrait {
        name: "T".to_string(),
        items: vec![RawTraitItem::Method(raw_method(
            "f",
            vec![receiver(ReceiverStyle::Ref), raw_arg("ret", "i32")],
            Some("i32"),
        ))],
    };
    assert!(matches!(
        InputData::parse_trait(&t4, with_ret_params),
        Err(DefError::ReservedRetName(_))
    ));

    let t5 = RawTrait {
        name: "T".to_string(),
        items: vec![RawTraitItem::Method(RawMethod {
            attrs: vec![],
            sig: RawSignature {
                name: "f".to_string(),
                constness: false,
                asyncness: false,
                unsafety: false,
                abi: false,
                generics: false,
                variadic: false,
                inputs: vec![
                    receiver(ReceiverStyle::Ref),
                    RawFnArg::Typed(RawTypedArg {
                        attrs: vec![],
                        pat: RawPat::Other,
                        ty: TyExpr {
                            is_ref: false,
                            base: "i32".to_string(),
                        },
                    }),
                ],
                output: None,
            },
            defaultness: false,
        })],
    };
    assert!(matches!(
        InputData::parse_trait(&t5, default_params()),
        Err(DefError::PatternArg(_))
    ));

    let t6 = RawTrait {
        name: "T".to_string(),
        items: vec![RawTraitItem::AssocConst],
    };
    assert!(matches!(
        InputData::parse_trait(&t6, default_params()),
        Err(DefError::AssocConstUnsupported)
    ));

    // The ownership-conversion marker takes no arguments.
    let t7 = RawTrait {
        name: "T".to_string(),
        items: vec![RawTraitItem::Method(RawMethod {
            attrs: vec![],
            sig: RawSignature {
                name: "f".to_string(),
                constness: false,
                asyncness: false,
                unsafety: false,
                abi: false,
                generics: false,
                variadic: false,
                inputs: vec![
                    receiver(ReceiverStyle::Ref),
                    RawFnArg::Typed(RawTypedArg {
                        attrs: vec![RawAttr {
                            path_ident: Some("enumizer_to_owned".to_string()),
                            tokens: vec![Tok::Ident("junk".to_string())],
                        }],
                        pat: RawPat::Ident {
                            by_ref: false,
                            name: "y".to_string(),
                        },
                        ty: TyExpr {
                            is_ref: true,
                            base: "str".to_string(),
                        },
                    }),
                ],
                output: None,
            },
            defaultness: false,
        })],
    };
    assert!(matches!(
        InputData::parse_trait(&t7, default_params()),
        Err(DefError::ToOwnedWithArgs(_))
    ));
}

#[test]
fn config_rejections() {
    let unknown = vec![ident("zzz")];
    assert!(matches!(
        parse_args(&unknown),
        Err(ConfigError::UnknownParameter(_))
    ));

    let two_kinds = vec![
        ident("ref_proxy"),
        group(vec![
            ident("infallible_impl"),
            Tok::Punct(','),
            ident("unwrapping_impl"),
        ]),
    ];
    assert!(matches!(
        parse_args(&two_kinds),
        Err(ConfigError::MultipleImplKinds)
    ));

    let bad_sub = vec![ident("call"), group(vec![ident("whatever")])];
    assert!(matches!(
        parse_args(&bad_sub),
        Err(ConfigError::UnknownSubparameter(_))
    ));
}

#[test]
fn duplicate_option_rejections() {
    // The same dispatcher request given twice.
    let two_calls = vec![
        ident("call"),
        group(vec![]),
        Tok::Punct(','),
        ident("call"),
        group(vec![ident("allow_panic")]),
    ];
    match parse_args(&two_calls) {
        Err(ConfigError::DuplicateOption(s)) => assert_eq!(s, "call"),
        other => panic!("expected a duplicate-option error, got {:?}", other),
    }

    // The enum name assigned twice.
    let two_names = vec![
        ident("name"),
        Tok::Punct('='),
        ident("A"),
        Tok::Punct(','),
        ident("name"),
        Tok::Punct('='),
        ident("B"),
    ];
    match parse_args(&two_names) {
        Err(ConfigError::DuplicateOption(s)) => assert_eq!(s, "name"),
        other => panic!("expected a duplicate-option error, got {:?}", other),
    }

    // The channel class assigned twice.
    let two_returnvals = vec![
        ident("returnval"),
        Tok::Punct('='),
        ident("flume_class"),
        Tok::Punct(','),
        ident("returnval"),
        Tok::Punct('='),
        ident("flume_class"),
    ];
    assert!(matches!(
        parse_args(&two_returnvals),
        Err(ConfigError::DuplicateOption(_))
    ));

    // The same proxy request given twice.
    let two_proxies = vec![
        ident("ref_proxy"),
        group(vec![]),
        Tok::Punct(','),
        ident("ref_proxy"),
        group(vec![]),
    ];
    assert!(matches!(
        parse_args(&two_proxies),
        Err(ConfigError::DuplicateOption(_))
    ));

    // The access level set twice, even with different keywords.
    let two_access = vec![ident("pub"), Tok::Punct(','), ident("priv")];
    match parse_args(&two_access) {
        Err(ConfigError::DuplicateOption(s)) => assert_eq!(s, "priv"),
        other => panic!("expected a duplicate-option error, got {:?}", other),
    }

    // A repeated dispatcher sub-option.
    let dup_sub = vec![
        ident("call"),
        group(vec![
            ident("extra_arg_type"),
            group(vec![ident("i32")]),
            Tok::Punct(','),
            ident("extra_arg_type"),
            group(vec![ident("u64")]),
        ]),
    ];
    match parse_args(&dup_sub) {
        Err(ConfigError::DuplicateOption(s)) => assert_eq!(s, "extra_arg_type"),
        other => panic!("expected a duplicate-option error, got {:?}", other),
    }

    // The panic-mode option given twice, through either keyword.
    let dup_panic = vec![
        ident("call_once"),
        group(vec![ident("allow_panic"), Tok::Punct(','), ident("deny_panic")]),
    ];
    match parse_args(&dup_panic) {
        Err(ConfigError::DuplicateOption(s)) => assert_eq!(s, "deny_panic"),
        other => panic!("expected a duplicate-option error, got {:?}", other),
    }

    // A repeated adapter-impl kind.
    let dup_kind = vec![
        ident("ref_proxy"),
        group(vec![
            ident("infallible_impl"),
            Tok::Punct(','),
            ident("infallible_impl"),
        ]),
    ];
    match parse_args(&dup_kind) {
        Err(ConfigError::DuplicateOption(s)) => assert_eq!(s, "infallible_impl"),
        other => panic!("expected a duplicate-option error, got {:?}", other),
    }

    // Attribute injections form a list: repeating them stays accepted.
    let two_attrs = vec![
        ident("enum_attr"),
        Tok::Group(Delim::Bracket, vec![Tok::Literal("1".to_string())]),
        Tok::Punct(','),
        ident("enum_attr"),
        Tok::Group(Delim::Bracket, vec![Tok::Literal("2".to_string())]),
    ];
    assert_eq!(parse_args(&two_attrs).unwrap().enum_attr.len(), 2);
}

#[test]
fn generation_rejections() {
    // Ownership conversion on a non-reference argument.
    let raw = RawTrait {
        name: "T".to_string(),
        items: vec![RawTraitItem::Method(RawMethod {
            attrs: vec![],
            sig: RawSignature {
                name: "f".to_string(),
                constness: false,
                asyncness: false,
                unsafety: false,
                abi: false,
                generics: false,
                variadic: false,
                inputs: vec![
                    receiver(ReceiverStyle::Ref),
                    RawFnArg::Typed(RawTypedArg {
                        attrs: vec![RawAttr {
                            path_ident: Some("enumizer_to_owned".to_string()),
                            tokens: vec![],
                        }],
                        pat: RawPat::Ident {
                            by_ref: false,
                            name: "y".to_string(),
                        },
                        ty: TyExpr {
                            is_ref: false,
                            base: "String".to_string(),
                        },
                    }),
                ],
                output: None,
            },
            defaultness: false,
        })],
    };
    let attrs = vec![ident("call"), group(vec![])];
    assert!(matches!(
        enumizer(&attrs, &RawInput::Trait(raw)),
        Err(EnumizerError::Gen(GenError::ToOwnedOnNonRef { .. }))
    ));

    // The infallible impl demands that no return-value channel is active.
    let raw2 = RawTrait {
        name: "T".to_string(),
        items: vec![RawTraitItem::Method(raw_method(
            "f",
            vec![receiver(ReceiverStyle::Ref)],
            Some("i32"),
        ))],
    };
    let attrs2 = vec![
        ident("returnval"),
        Tok::Punct('='),
        ident("flume_class"),
        Tok::Punct(','),
        ident("ref_proxy"),
        group(vec![ident("infallible_impl")]),
    ];
    assert!(matches!(
        enumizer(&attrs2, &RawInput::Trait(raw2)),
        Err(EnumizerError::InfallibleWithReturnval)
    ));

    // A unique-reference proxy cannot serve shared-reference methods.
    let raw3 = RawTrait {
        name: "T".to_string(),
        items: vec![RawTraitItem::Method(raw_method(
            "f",
            vec![receiver(ReceiverStyle::Ref)],
            None,
        ))],
    };
    let attrs3 = vec![ident("mut_proxy"), group(vec![ident("unwrapping_impl")])];
    assert!(matches!(
        enumizer(&attrs3, &RawInput::Trait(raw3)),
        Err(EnumizerError::MutProxyImplWithRefMethods)
    ));

    // A by-value proxy serves only purely by-value interfaces.
    let raw4 = RawTrait {
        name: "T".to_string(),
        items: vec![RawTraitItem::Method(raw_method(
            "f",
            vec![receiver(ReceiverStyle::Ref)],
            None,
        ))],
    };
    let attrs4 = vec![ident("once_proxy"), group(vec![ident("unwrapping_impl")])];
    assert!(matches!(
        enumizer(&attrs4, &RawInput::Trait(raw4)),
        Err(EnumizerError::OnceProxyImplWithNonMoveMethods)
    ));

    // Adapter impls target a trait, which inherent mode does not define.
    let attrs5 = vec![
        ident("inherent_impl"),
        Tok::Punct(','),
        ident("ref_proxy"),
        group(vec![ident("infallible_impl")]),
    ];
    let raw5 = trait_enumizer::raw::RawImpl {
        defaultness: false,
        unsafety: false,
        generics: false,
        where_clause: false,
        trait_impl: false,
        self_ty: trait_enumizer::raw::RawSelfTy::Ident("Q".to_string()),
        items: vec![trait_enumizer::raw::RawImplItem::Method(raw_method(
            "f",
            vec![receiver(ReceiverStyle::Ref)],
            None,
        ))],
    };
    assert!(matches!(
        enumizer(&attrs5, &RawInput::Impl(raw5)),
        Err(EnumizerError::ImplIncompatibleWithInherentMode)
    ));
}
