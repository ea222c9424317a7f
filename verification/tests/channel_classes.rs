use trait_enumizer::AccessMode;
use trait_enumizer::InputData;
use trait_enumizer::Method;
use trait_enumizer::Params;
use trait_enumizer::ReceiverStyle;
use trait_enumizer::TyExpr;
use trait_enumizer::Value;
use trait_enumizer::Argument;
use trait_enumizer::channels::crossbeam_create;
use trait_enumizer::channels::crossbeam_recv;
use trait_enumizer::channels::dispatch_crossbeam;
use trait_enumizer::channels::dispatch_flume;
use trait_enumizer::channels::dispatch_tokio_oneshot;
use trait_enumizer::channels::flume_create;
use trait_enumizer::channels::flume_recv;
use trait_enumizer::channels::tokio_oneshot_create;
use trait_enumizer::channels::tokio_oneshot_recv;
use trait_enumizer::semantics::Command;
use trait_enumizer::semantics::SimImpl;
use trait_enumizer::semantics::proxy_build_command;

fn qqq_iface(returnval: &str) -> InputData {
    InputData {
        name: "Qqq".to_string(),
        methods: vec![Method {
            name: "foo".to_string(),
            receiver_style: ReceiverStyle::Ref,
            args: vec![],
            ret: Some(TyExpr {
                is_ref: false,
                base: "String".to_string(),
            }),
            enum_attr: vec![],
            return_attr: vec![],
            is_async: false,
        }],
        params: Params {
            ref_proxy: None,
            mut_proxy: None,
            once_proxy: None,
            call_ref: None,
            call_mut: None,
            call_once: None,
            access_mode: AccessMode::Priv,
            returnval: Some(returnval.to_string()),
            enum_attr: vec![],
            enum_name: None,
            inherent_impl_mode: true,
        },
    }
}

fn qqq_impl() -> SimImpl {
    SimImpl {
        rets: vec![Value::Str("qqq".to_string())],
        calls: vec![],
    }
}

#[test]
fn flume_sync() {
    let d = qqq_iface("flume_class");
    let mut o = qqq_impl();
    let cmd = proxy_build_command(&d, 0, &vec![]);
    let (tx, rx) = flume_create();
    dispatch_flume(&d, &mut o, ReceiverStyle::Ref, cmd, &tx).unwrap();
    let got = flume_recv(&rx).unwrap();
    assert_eq!(got, Value::Str("qqq".to_string()));
    assert_eq!(o.calls.len(), 1);
}

#[test]
fn crossbeam_sync() {
    let d = qqq_iface("crossbeam_class");
    let mut o = qqq_impl();
    let cmd = proxy_build_command(&d, 0, &vec![]);
    let (tx, rx) = crossbeam_create();
    dispatch_crossbeam(&d, &mut o, ReceiverStyle::Ref, cmd, &tx).unwrap();
    let got = crossbeam_recv(&rx).unwrap();
    assert_eq!(got, Value::Str("qqq".to_string()));
    assert_eq!(o.calls.len(), 1);
}

#[test]
fn tokio_sync() {
    let d = qqq_iface("tokio_oneshot_class");
    let mut o = qqq_impl();
    let cmd = proxy_build_command(&d, 0, &vec![]);
    let (tx, rx) = tokio_oneshot_create();
    dispatch_tokio_oneshot(&d, &mut o, ReceiverStyle::Ref, cmd, tx).unwrap();
    let got = tokio_oneshot_recv(rx).unwrap();
    assert_eq!(got, Value::Str("qqq".to_string()));
    assert_eq!(o.calls.len(), 1);
}

#[test]
fn returnval_manual_flume_simple() {
    let d = InputData {
        name: "MyIface".to_string(),
        methods: vec![
            Method {
                name: "foo".to_string(),
                receiver_style: ReceiverStyle::Ref,
                args: vec![],
                ret: Some(TyExpr {
                    is_ref: false,
                    base: "String".to_string(),
                }),
                enum_attr: vec![],
                return_attr: vec![],
                is_async: false,
            },
            Method {
                name: "bar".to_string(),
                receiver_style: ReceiverStyle::Ref,
                args: vec![Argument {
                    name: "x".to_string(),
                    ty: TyExpr {
                        is_ref: false,
                        base: "i32".to_string(),
                    },
                    enum_attr: vec![],
                    to_owned: false,
                }],
                ret: Some(TyExpr {
                    is_ref: false,
                    base: "i32".to_string(),
                }),
                enum_attr: vec![],
                return_attr: vec![],
                is_async: false,
            },
        ],
        params: Params {
            ref_proxy: None,
            mut_proxy: None,
            once_proxy: None,
            call_ref: None,
            call_mut: None,
            call_once: None,
            access_mode: AccessMode::Priv,
            returnval: Some("flume_class".to_string()),
            enum_attr: vec![],
            enum_name: None,
            inherent_impl_mode: false,
        },
    };
    let mut o = SimImpl {
        rets: vec![Value::Str("qqq".to_string()), Value::Int(17)],
        calls: vec![],
    };
    let (tx1, rx1) = flume_create();
    dispatch_flume(
        &d,
        &mut o,
        ReceiverStyle::Ref,
        Command {
            method: 0,
            args: vec![],
        },
        &tx1,
    )
    .unwrap();
    assert_eq!(flume_recv(&rx1).unwrap(), Value::Str("qqq".to_string()));

    let (tx2, rx2) = flume_create();
    dispatch_flume(
        &d,
        &mut o,
        ReceiverStyle::Ref,
        Command {
            method: 1,
            args: vec![Value::Int(4)],
        },
        &tx2,
    )
    .unwrap();
    assert_eq!(flume_recv(&rx2).unwrap(), Value::Int(17));
    assert_eq!(o.calls.len(), 2);
}
