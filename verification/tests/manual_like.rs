use trait_enumizer::AccessMode;
use trait_enumizer::Argument;
use trait_enumizer::InputData;
use trait_enumizer::Method;
use trait_enumizer::Params;
use trait_enumizer::ReceiverStyle;
use trait_enumizer::TyExpr;
use trait_enumizer::Value;
use trait_enumizer::semantics::CallRecord;
use trait_enumizer::semantics::SimImpl;
use trait_enumizer::semantics::proxy_call;

fn default_params() -> Params {
    Params {
        ref_proxy: None,
        mut_proxy: None,
        once_proxy: None,
        call_ref: None,
        call_mut: None,
        call_once: None,
        access_mode: AccessMode::Priv,
        returnval: None,
        enum_attr: vec![],
        enum_name: None,
        inherent_impl_mode: false,
    }
}

fn argument(name: &str, ty: &str, to_owned: bool) -> Argument {
    Argument {
        name: name.to_string(),
        ty: TyExpr {
            is_ref: to_owned,
            base: ty.to_string(),
        },
        enum_attr: vec![],
        to_owned,
    }
}

fn method(name: &str, style: ReceiverStyle, args: Vec<Argument>, ret: Option<&str>) -> Method {
    Method {
        name: name.to_string(),
        receiver_style: style,
        args,
        ret: ret.map(|t| TyExpr {
            is_ref: false,
            base: t.to_string(),
        }),
        enum_attr: vec![],
        return_attr: vec![],
        is_async: false,
    }
}

fn three_method_iface(style: ReceiverStyle) -> InputData {
    InputData {
        name: "MyIface".to_string(),
        methods: vec![
            method("foo", style, vec![], None),
            method("bar", style, vec![argument("x", "i32", false)], None),
            method(
                "baz",
                style,
                vec![argument("y", "String", false), argument("z", "Vec<u8>", false)],
                None,
            ),
        ],
        params: default_params(),
    }
}

fn fresh_impl(n: usize) -> SimImpl {
    SimImpl {
        rets: std::iter::repeat_with(|| Value::Unit).take(n).collect(),
        calls: vec![],
    }
}

#[test]
fn mutable_manual_test() {
    let d = three_method_iface(ReceiverStyle::Mut);
    let mut o = fresh_impl(3);
    proxy_call(&d, &mut o, ReceiverStyle::Mut, 0, &vec![]).unwrap();
    proxy_call(&d, &mut o, ReceiverStyle::Mut, 1, &vec![Value::Int(4)]).unwrap();
    assert_eq!(o.calls.len(), 2);
    assert_eq!(
        o.calls[0],
        CallRecord {
            method: 0,
            args: vec![]
        }
    );
    assert_eq!(
        o.calls[1],
        CallRecord {
            method: 1,
            args: vec![Value::Int(4)]
        }
    );
}

#[test]
fn move_manual_test() {
    let d = three_method_iface(ReceiverStyle::Move);
    let mut o = fresh_impl(3);
    proxy_call(&d, &mut o, ReceiverStyle::Move, 1, &vec![Value::Int(4)]).unwrap();
    assert_eq!(o.calls.len(), 1);
    assert_eq!(
        o.calls[0],
        CallRecord {
            method: 1,
            args: vec![Value::Int(4)]
        }
    );
}

#[test]
fn toowned_manual_test() {
    let d = InputData {
        name: "MyIface".to_string(),
        methods: vec![
            method(
                "primitive",
                ReceiverStyle::Ref,
                vec![argument("x", "i32", false)],
                None,
            ),
            method(
                "by_value",
                ReceiverStyle::Ref,
                vec![argument("x", "String", false)],
                None,
            ),
            method(
                "by_ref",
                ReceiverStyle::Ref,
                vec![argument("y", "str", true)],
                None,
            ),
            method(
                "by_ref2",
                ReceiverStyle::Ref,
                vec![argument("y", "[u8]", true)],
                None,
            ),
        ],
        params: default_params(),
    };
    let mut o = fresh_impl(4);
    proxy_call(&d, &mut o, ReceiverStyle::Ref, 0, &vec![Value::Int(3)]).unwrap();
    proxy_call(
        &d,
        &mut o,
        ReceiverStyle::Ref,
        1,
        &vec![Value::Str("owned".to_string())],
    )
    .unwrap();
    proxy_call(
        &d,
        &mut o,
        ReceiverStyle::Ref,
        2,
        &vec![Value::Str("by_ref".to_string())],
    )
    .unwrap();
    proxy_call(
        &d,
        &mut o,
        ReceiverStyle::Ref,
        3,
        &vec![Value::Bytes(b"by_ref2".to_vec())],
    )
    .unwrap();
    assert_eq!(o.calls.len(), 4);
    assert_eq!(o.calls[2].args, vec![Value::Str("by_ref".to_string())]);
    assert_eq!(o.calls[3].args, vec![Value::Bytes(b"by_ref2".to_vec())]);
}
