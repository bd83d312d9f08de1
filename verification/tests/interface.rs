use servant_macro::interface::{
    Arg, Declaration, InterfaceError, Item, Kind, Method, Param, Signature, TraitContext,
};

fn param(name: &str, ty: &str) -> Param {
    Param { name: name.to_string(), ty: ty.to_string() }
}

fn shared() -> Arg {
    Arg::Receiver { mutable: false, text: "&self".to_string() }
}

fn exclusive() -> Arg {
    Arg::Receiver { mutable: true, text: "&mut self".to_string() }
}

fn signature(name: &str, args: Vec<Arg>, ret: Option<&str>) -> Signature {
    Signature {
        qualifiers: String::new(),
        name: name.to_string(),
        generics: String::new(),
        args,
        ret: ret.map(|t| t.to_string()),
        bounds: String::new(),
        body: None,
    }
}

fn method(name: &str, args: Vec<Arg>, ret: Option<&str>) -> Item {
    Item::Method(signature(name, args, ret))
}

fn declaration(name: &str, items: Vec<Item>) -> Declaration {
    Declaration {
        qualifiers: "pub".to_string(),
        name: name.to_string(),
        bounds: String::new(),
        items,
    }
}

fn plain(name: &str, tag: &str, params: Vec<Param>, ret: &str) -> Method {
    Method {
        qualifiers: String::new(),
        name: name.to_string(),
        tag: tag.to_string(),
        generics: String::new(),
        receiver: "&self".to_string(),
        mutable: false,
        params,
        ret: ret.to_string(),
        bounds: String::new(),
        body: None,
    }
}

#[test]
fn hello_is_normalised() {
    let hello = declaration(
        "Hello",
        vec![
            method("hello", vec![shared(), Arg::Typed(param("n", "i32"))], Some("String")),
            method("bye", vec![shared()], None),
        ],
    );
    let ir = TraitContext::parse(&hello, Kind::Invoke).unwrap();
    assert_eq!(
        ir,
        TraitContext {
            qualifiers: "pub".to_string(),
            name: "Hello".to_string(),
            bounds: String::new(),
            kind: Kind::Invoke,
            methods: vec![
                plain("hello", "Hello", vec![param("n", "i32")], "String"),
                plain("bye", "Bye", vec![], "()"),
            ],
            request_name: "HelloRequest".to_string(),
            others: vec![],
        }
    );
}

#[test]
fn the_receiver_is_stripped_and_its_mutability_kept() {
    let sig = Signature {
        qualifiers: "async".to_string(),
        generics: "< T >".to_string(),
        bounds: "where T : Copy".to_string(),
        body: Some("{ }".to_string()),
        ..signature(
            "set_all",
            vec![exclusive(), Arg::Typed(param("a", "u8")), Arg::Typed(param("b", "Vec < u8 >"))],
            None,
        )
    };
    let m = Method::from_signature(&sig);
    assert_eq!(m.name, "set_all");
    assert_eq!(m.tag, "SetAll");
    assert_eq!(m.receiver, "&mut self");
    assert!(m.mutable);
    assert_eq!(m.qualifiers, "async");
    assert_eq!(m.generics, "< T >");
    assert_eq!(m.bounds, "where T : Copy");
    assert_eq!(m.body, Some("{ }".to_string()));
    assert_eq!(m.params, vec![param("a", "u8"), param("b", "Vec < u8 >")]);
    assert_eq!(m.ret, "()");

    let by_value = signature(
        "close",
        vec![Arg::Receiver { mutable: false, text: "self".to_string() }],
        Some("bool"),
    );
    let m = Method::from_signature(&by_value);
    assert_eq!(m.receiver, "self");
    assert!(!m.mutable);
    assert_eq!(m.ret, "bool");
}

#[test]
fn items_that_are_no_methods_declare_no_method() {
    let hello3 = declaration(
        "Hello3",
        vec![
            Item::Other("type Item ;".to_string()),
            method("hi", vec![shared(), Arg::Typed(param("name", "String"))], Some("String")),
            Item::Other("const N : usize ;".to_string()),
        ],
    );
    let ir = TraitContext::parse(&hello3, Kind::Invoke).unwrap();
    assert_eq!(ir.methods.len(), 1);
    assert_eq!(ir.methods[0].tag, "Hi");
    assert_eq!(ir.others, vec!["type Item ;".to_string(), "const N : usize ;".to_string()]);
    assert_eq!(ir.request_name, "Hello3Request");
}

#[test]
fn methods_keep_their_order() {
    let dog = declaration(
        "WatchDog",
        vec![
            method("export_servants", vec![shared()], Some("Vec < Oid >")),
            method("export_report_servants", vec![shared()], Some("Vec < Oid >")),
            method("version", vec![shared()], Some("String")),
        ],
    );
    let ir = TraitContext::parse(&dog, Kind::Watch).unwrap();
    let tags: Vec<&str> = ir.methods.iter().map(|m| m.tag.as_str()).collect();
    assert_eq!(tags, vec!["ExportServants", "ExportReportServants", "Version"]);
    assert_eq!(ir.kind, Kind::Watch);
}

#[test]
fn a_method_without_receiver_is_refused() {
    let no_receiver =
        declaration("Hello", vec![method("hello", vec![Arg::Typed(param("n", "i32"))], None)]);
    let no_args = declaration("Hello", vec![method("hello", vec![], None)]);
    for kind in [Kind::Invoke, Kind::Watch, Kind::Report, Kind::Notify] {
        assert_eq!(
            TraitContext::parse(&no_receiver, kind),
            Err(InterfaceError::MissingReceiver { method: "hello".to_string() })
        );
        assert_eq!(
            TraitContext::parse(&no_args, kind),
            Err(InterfaceError::MissingReceiver { method: "hello".to_string() })
        );
    }
    assert_eq!(
        InterfaceError::MissingReceiver { method: "hello".to_string() }.message(),
        "method 'hello' must take `&self` or `&mut self` as its first argument."
    );
}

#[test]
fn a_one_way_interface_returns_nothing() {
    let foo = declaration(
        "Foo",
        vec![
            method("f1", vec![shared()], None),
            method("f2", vec![shared()], Some("()")),
            method("f3", vec![shared()], Some("i32")),
            method("f4", vec![shared()], Some("String")),
        ],
    );
    assert_eq!(
        TraitContext::parse(&foo, Kind::Report),
        Err(InterfaceError::NonUnitReturn { method: "f3".to_string() })
    );
    assert_eq!(
        TraitContext::parse(&foo, Kind::Notify),
        Err(InterfaceError::NonUnitReturn { method: "f3".to_string() })
    );
    assert!(TraitContext::parse(&foo, Kind::Invoke).is_ok());
    assert!(TraitContext::parse(&foo, Kind::Watch).is_ok());
    assert_eq!(
        InterfaceError::NonUnitReturn { method: "f3".to_string() }.message(),
        "method 'f3' of a one-way interface must not return a value."
    );
}

#[test]
fn two_methods_with_one_tag_are_refused() {
    let clash = declaration(
        "Clash",
        vec![
            method("get", vec![shared()], None),
            method("f_1", vec![shared()], None),
            method("f1", vec![shared()], None),
            method("_get", vec![shared()], None),
        ],
    );
    let refused = TraitContext::parse(&clash, Kind::Invoke);
    assert_eq!(
        refused,
        Err(InterfaceError::TagCollision { first: "f_1".to_string(), second: "f1".to_string() })
    );
    assert_eq!(
        refused.unwrap_err().message(),
        "methods 'f_1' and 'f1' would share one variant of the request union."
    );
}

#[test]
fn an_error_in_a_method_comes_before_a_collision() {
    let both = declaration(
        "Both",
        vec![
            method("f1", vec![shared()], None),
            method("f_1", vec![shared()], None),
            method("g", vec![], None),
        ],
    );
    assert_eq!(
        TraitContext::parse(&both, Kind::Invoke),
        Err(InterfaceError::MissingReceiver { method: "g".to_string() })
    );
}

#[test]
fn an_empty_interface_is_an_interface() {
    let empty = declaration("Nothing", vec![]);
    let ir = TraitContext::parse(&empty, Kind::Notify).unwrap();
    assert_eq!(ir.methods, vec![]);
    assert_eq!(ir.request_name, "NothingRequest");
    assert_eq!(ir.kind, Kind::Notify);
    assert!(Kind::Notify.is_one_way());
    assert!(Kind::Report.is_one_way());
    assert!(!Kind::Invoke.is_one_way());
    assert!(!Kind::Watch.is_one_way());
}
