use servant_macro::config::{
    check_fragment, check_name, keys_of, refuse_unless, type_of_key, ConfigError, Configuration, Fragment,
    InvokeInterfaceAttributes, Literal, NotifyInterfaceAttributes, ReportInterfaceAttributes,
    ValueType, WatchInterfaceAttributes,
};
use servant_macro::interface::Kind;

fn text(key: &str, value: &str) -> Fragment {
    Fragment { key: Some(key.to_string()), value: Literal::Str(value.to_string()) }
}

fn flag(key: &str, value: bool) -> Fragment {
    Fragment { key: Some(key.to_string()), value: Literal::Bool(value) }
}

fn other(key: &str) -> Fragment {
    Fragment { key: Some(key.to_string()), value: Literal::Other }
}

fn unknown(key: &str, allowed: &[&str]) -> ConfigError {
    ConfigError::UnknownOption {
        key: key.to_string(),
        allowed: allowed.iter().map(|k| k.to_string()).collect(),
    }
}

fn wrong(key: &str, expected: ValueType) -> ConfigError {
    ConfigError::WrongValueType { key: key.to_string(), expected }
}

#[test]
fn unknown_key_on_invoke_names_the_key_and_the_schema() {
    let fragments = vec![
        text("proxy1", "ppp"),
        flag("callback", false),
        flag("persistency", true),
        text("servant", "ssss"),
    ];
    let refused = InvokeInterfaceAttributes::parse(&fragments);
    assert_eq!(
        refused,
        Err(unknown("proxy1", &["proxy", "servant", "persistency", "callback"]))
    );
    assert_eq!(
        refused.unwrap_err().message(),
        "option 'proxy1' is unknown: name expected 'proxy', 'servant', 'persistency', 'callback' only."
    );
}

#[test]
fn invoke_takes_all_four_keys() {
    let fragments = vec![
        text("proxy", "ppp"),
        flag("callback", false),
        flag("persistency", true),
        text("servant", "ssss"),
    ];
    let parsed = InvokeInterfaceAttributes::parse(&fragments).unwrap();
    assert_eq!(
        parsed,
        InvokeInterfaceAttributes {
            proxy: Some("ppp".to_string()),
            servant: Some("ssss".to_string()),
            persistency: Some(true),
            callback: Some(false),
        }
    );
    assert_eq!(parsed.proxy_name("Hello"), "ppp");
    assert_eq!(parsed.servant_name("Hello"), "ssss");
    assert!(parsed.persistent());
    assert!(!parsed.with_callbacks());
}

#[test]
fn omitted_keys_take_their_defaults() {
    let invoke = InvokeInterfaceAttributes::parse(&vec![]).unwrap();
    assert_eq!(
        invoke,
        InvokeInterfaceAttributes { proxy: None, servant: None, persistency: None, callback: None }
    );
    assert_eq!(invoke.proxy_name("Hello"), "HelloProxy");
    assert_eq!(invoke.servant_name("Hello"), "HelloServant");
    assert!(!invoke.persistent());
    assert!(!invoke.with_callbacks());

    let watch = WatchInterfaceAttributes::parse(&vec![]).unwrap();
    assert_eq!(watch.proxy_name("WatchDog"), "WatchDogProxy");
    assert_eq!(watch.servant_name("WatchDog"), "WatchDogServant");

    let report = ReportInterfaceAttributes::parse(&vec![]).unwrap();
    assert_eq!(report.proxy_name("Foo"), "FooStaff");
    assert_eq!(report.servant_name("Foo"), "FooOfficer");

    let notify = NotifyInterfaceAttributes::parse(&vec![]).unwrap();
    assert_eq!(notify.receiver_name("Bar"), "BarReceiver");
    assert_eq!(notify.notifier_name("Bar"), "BarNotifier");
}

#[test]
fn every_key_is_set_on_its_own() {
    let only_proxy = InvokeInterfaceAttributes::parse(&vec![text("proxy", "P")]).unwrap();
    assert_eq!(
        only_proxy,
        InvokeInterfaceAttributes {
            proxy: Some("P".to_string()),
            servant: None,
            persistency: None,
            callback: None
        }
    );
    let only_servant = InvokeInterfaceAttributes::parse(&vec![text("servant", "S")]).unwrap();
    assert_eq!(only_servant.servant, Some("S".to_string()));
    assert_eq!(only_servant.proxy, None);
    let only_persistency =
        InvokeInterfaceAttributes::parse(&vec![flag("persistency", true)]).unwrap();
    assert_eq!(only_persistency.persistency, Some(true));
    assert_eq!(only_persistency.callback, None);
    let only_callback = InvokeInterfaceAttributes::parse(&vec![flag("callback", true)]).unwrap();
    assert_eq!(only_callback.callback, Some(true));
    assert_eq!(only_callback.persistency, None);

    let watch = WatchInterfaceAttributes::parse(&vec![text("servant", "Dog")]).unwrap();
    assert_eq!(watch, WatchInterfaceAttributes { proxy: None, servant: Some("Dog".to_string()) });
    let report = ReportInterfaceAttributes::parse(&vec![text("proxy", "Reporter")]).unwrap();
    assert_eq!(
        report,
        ReportInterfaceAttributes { proxy: Some("Reporter".to_string()), servant: None }
    );
    let notify = NotifyInterfaceAttributes::parse(&vec![text("notifier", "Pusher")]).unwrap();
    assert_eq!(
        notify,
        NotifyInterfaceAttributes { receiver: None, notifier: Some("Pusher".to_string()) }
    );
}

#[test]
fn the_last_of_a_repeated_key_wins() {
    let fragments =
        vec![text("proxy", "First"), flag("callback", true), text("proxy", "Second"), flag("callback", false)];
    let parsed = InvokeInterfaceAttributes::parse(&fragments).unwrap();
    assert_eq!(parsed.proxy, Some("Second".to_string()));
    assert_eq!(parsed.callback, Some(false));
}

#[test]
fn parsing_twice_gives_the_same() {
    let fragments = vec![text("servant", "S"), flag("persistency", true)];
    assert_eq!(
        InvokeInterfaceAttributes::parse(&fragments),
        InvokeInterfaceAttributes::parse(&fragments)
    );
    let refused = vec![text("servant", "S"), flag("proxy", true)];
    assert_eq!(
        InvokeInterfaceAttributes::parse(&refused),
        InvokeInterfaceAttributes::parse(&refused)
    );
}

#[test]
fn a_value_of_the_wrong_type_is_refused() {
    let refused = InvokeInterfaceAttributes::parse(&vec![flag("proxy", true)]);
    assert_eq!(refused, Err(wrong("proxy", ValueType::Str)));
    assert_eq!(
        refused.unwrap_err().message(),
        "option 'proxy': value expected '&'static str' only."
    );
    let refused = InvokeInterfaceAttributes::parse(&vec![text("callback", "yes")]);
    assert_eq!(refused, Err(wrong("callback", ValueType::Bool)));
    assert_eq!(refused.unwrap_err().message(), "option 'callback': value expected 'bool' only.");
    assert_eq!(
        InvokeInterfaceAttributes::parse(&vec![other("persistency")]),
        Err(wrong("persistency", ValueType::Bool))
    );
    assert_eq!(
        WatchInterfaceAttributes::parse(&vec![other("servant")]),
        Err(wrong("servant", ValueType::Str))
    );
    assert_eq!(
        NotifyInterfaceAttributes::parse(&vec![flag("receiver", false)]),
        Err(wrong("receiver", ValueType::Str))
    );
}

#[test]
fn a_positional_value_is_refused() {
    let positional = Fragment { key: None, value: Literal::Str("HelloProxy".to_string()) };
    for kind in [Kind::Invoke, Kind::Watch, Kind::Report, Kind::Notify] {
        let refused = Configuration::parse(kind, &vec![positional.clone()]);
        assert_eq!(refused, Err(ConfigError::PositionalFieldNotAllowed));
    }
    assert_eq!(
        ConfigError::PositionalFieldNotAllowed.message(),
        "a value without a name is not allowed: write name = value."
    );
}

#[test]
fn the_first_error_is_reported() {
    let fragments = vec![text("proxy", "P"), flag("servant", true), text("proxy1", "x")];
    assert_eq!(
        InvokeInterfaceAttributes::parse(&fragments),
        Err(wrong("servant", ValueType::Str))
    );
    let fragments = vec![text("proxy1", "x"), flag("servant", true)];
    assert_eq!(
        WatchInterfaceAttributes::parse(&fragments),
        Err(unknown("proxy1", &["proxy", "servant"]))
    );
}

#[test]
fn each_kind_has_its_own_schema() {
    assert_eq!(keys_of(Kind::Invoke), vec!["proxy", "servant", "persistency", "callback"]);
    assert_eq!(keys_of(Kind::Watch), vec!["proxy", "servant"]);
    assert_eq!(keys_of(Kind::Report), vec!["proxy", "servant"]);
    assert_eq!(keys_of(Kind::Notify), vec!["receiver", "notifier"]);

    assert_eq!(type_of_key(Kind::Invoke, "persistency"), Some(ValueType::Bool));
    assert_eq!(type_of_key(Kind::Invoke, "callback"), Some(ValueType::Bool));
    assert_eq!(type_of_key(Kind::Invoke, "proxy"), Some(ValueType::Str));
    assert_eq!(type_of_key(Kind::Watch, "persistency"), None);
    assert_eq!(type_of_key(Kind::Report, "callback"), None);
    assert_eq!(type_of_key(Kind::Notify, "proxy"), None);
    assert_eq!(type_of_key(Kind::Notify, "notifier"), Some(ValueType::Str));
    assert_eq!(type_of_key(Kind::Invoke, "receiver"), None);
    assert_eq!(type_of_key(Kind::Invoke, "Proxy"), None);

    assert_eq!(
        WatchInterfaceAttributes::parse(&vec![flag("persistency", true)]),
        Err(unknown("persistency", &["proxy", "servant"]))
    );
    assert_eq!(
        ReportInterfaceAttributes::parse(&vec![flag("callback", true)]),
        Err(unknown("callback", &["proxy", "servant"]))
    );
    assert_eq!(
        NotifyInterfaceAttributes::parse(&vec![text("servant", "S")]),
        Err(unknown("servant", &["receiver", "notifier"]))
    );
}

#[test]
fn a_fragment_is_checked_against_the_schema() {
    assert_eq!(check_fragment(Kind::Invoke, &text("proxy", "P")), None);
    assert_eq!(check_fragment(Kind::Invoke, &flag("callback", true)), None);
    assert_eq!(
        check_fragment(Kind::Notify, &text("proxy", "P")),
        Some(unknown("proxy", &["receiver", "notifier"]))
    );
    assert_eq!(
        check_fragment(Kind::Report, &flag("proxy", true)),
        Some(wrong("proxy", ValueType::Str))
    );
}

#[test]
fn configuration_is_of_the_kind_asked_for() {
    let fragments = vec![text("proxy", "P")];
    assert_eq!(
        Configuration::parse(Kind::Invoke, &fragments),
        Ok(Configuration::Invoke(InvokeInterfaceAttributes {
            proxy: Some("P".to_string()),
            servant: None,
            persistency: None,
            callback: None
        }))
    );
    assert_eq!(
        Configuration::parse(Kind::Watch, &fragments),
        Ok(Configuration::Watch(WatchInterfaceAttributes {
            proxy: Some("P".to_string()),
            servant: None
        }))
    );
    assert_eq!(
        Configuration::parse(Kind::Report, &fragments),
        Ok(Configuration::Report(ReportInterfaceAttributes {
            proxy: Some("P".to_string()),
            servant: None
        }))
    );
    assert_eq!(
        Configuration::parse(Kind::Notify, &vec![text("receiver", "R")]),
        Ok(Configuration::Notify(NotifyInterfaceAttributes {
            receiver: Some("R".to_string()),
            notifier: None
        }))
    );
}

#[test]
fn a_name_that_is_no_identifier_is_refused() {
    let invalid = |key: &str, name: &str| {
        Some(ConfigError::InvalidName { key: key.to_string(), name: name.to_string() })
    };
    assert_eq!(refuse_unless("proxy", "P", true), None);
    assert_eq!(refuse_unless("proxy", "not a name", false), invalid("proxy", "not a name"));

    assert_eq!(check_name("proxy", &None), None);
    assert_eq!(check_name("proxy", &Some("HelloProxy2".to_string())), None);
    assert_eq!(check_name("proxy", &Some("_hidden".to_string())), None);
    assert_eq!(check_name("proxy", &Some("Zähler".to_string())), None);
    for name in ["", " ", "two words", "9Lives", "a-b", "a::b", "A<T>", "struct", "_", "\"P\"", "P;"] {
        assert_eq!(check_name("servant", &Some(name.to_string())), invalid("servant", name));
    }

    let both = InvokeInterfaceAttributes {
        proxy: Some("1".to_string()),
        servant: Some("2".to_string()),
        persistency: None,
        callback: None,
    };
    assert_eq!(both.check_names(), invalid("proxy", "1"));
    let second = WatchInterfaceAttributes { proxy: None, servant: Some("2".to_string()) };
    assert_eq!(second.check_names(), invalid("servant", "2"));
    let report = ReportInterfaceAttributes { proxy: Some("Staff".to_string()), servant: None };
    assert_eq!(report.check_names(), None);
    let notify =
        NotifyInterfaceAttributes { receiver: Some("R".to_string()), notifier: Some("".to_string()) };
    assert_eq!(notify.check_names(), invalid("notifier", ""));
    assert_eq!(Configuration::Notify(notify).check_names(), invalid("notifier", ""));
    assert_eq!(
        invalid("notifier", "").unwrap().message(),
        "option 'notifier': '' is not an identifier."
    );
}
