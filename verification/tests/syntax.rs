use servant_macro::config::{Fragment, Literal};
use servant_macro::interface::{Arg, Declaration, Item, Param, Signature};
use servant_macro::syntax::{read_declaration, read_fragments};

fn text(key: &str, value: &str) -> Fragment {
    Fragment { key: Some(key.to_string()), value: Literal::Str(value.to_string()) }
}

fn flag(key: &str, value: bool) -> Fragment {
    Fragment { key: Some(key.to_string()), value: Literal::Bool(value) }
}

#[test]
fn a_configuration_block_is_read() {
    let fragments = read_fragments(
        "proxy = \"HelloProxy2\", servant = \"HelloServant2\", callback = false, persistency = true",
    );
    assert_eq!(
        fragments,
        Ok(vec![
            text("proxy", "HelloProxy2"),
            text("servant", "HelloServant2"),
            flag("callback", false),
            flag("persistency", true),
        ])
    );
}

#[test]
fn an_empty_block_has_no_fragment() {
    assert_eq!(read_fragments(""), Ok(vec![]));
    assert_eq!(read_fragments("  "), Ok(vec![]));
}

#[test]
fn a_trailing_comma_is_fine() {
    assert_eq!(read_fragments("callback = true,"), Ok(vec![flag("callback", true)]));
}

#[test]
fn a_string_is_read_by_its_content() {
    assert_eq!(read_fragments("proxy = \"a\\\"b\\n\""), Ok(vec![text("proxy", "a\"b\n")]));
    assert_eq!(read_fragments("proxy = r#\"a\"b\"#"), Ok(vec![text("proxy", "a\"b")]));
}

#[test]
fn other_literals_are_neither_text_nor_flag() {
    assert_eq!(
        read_fragments("proxy = 1, servant = 'c', callback = 1.5, persistency = b\"x\""),
        Ok(vec![
            Fragment { key: Some("proxy".to_string()), value: Literal::Other },
            Fragment { key: Some("servant".to_string()), value: Literal::Other },
            Fragment { key: Some("callback".to_string()), value: Literal::Other },
            Fragment { key: Some("persistency".to_string()), value: Literal::Other },
        ])
    );
}

#[test]
fn a_path_is_a_key_as_it_prints() {
    assert_eq!(read_fragments("a::b = true"), Ok(vec![flag("a :: b", true)]));
}

#[test]
fn a_value_alone_is_positional() {
    assert_eq!(
        read_fragments("\"HelloProxy\", callback = true, false, 7"),
        Ok(vec![
            Fragment { key: None, value: Literal::Str("HelloProxy".to_string()) },
            flag("callback", true),
            Fragment { key: None, value: Literal::Bool(false) },
            Fragment { key: None, value: Literal::Other },
        ])
    );
}

#[test]
fn a_key_alone_has_no_value_of_a_known_type() {
    assert_eq!(
        read_fragments("proxy, servant(\"S\")"),
        Ok(vec![
            Fragment { key: Some("proxy".to_string()), value: Literal::Other },
            Fragment { key: Some("servant".to_string()), value: Literal::Other },
        ])
    );
}

#[test]
fn what_is_no_list_of_values_is_a_syntax_error() {
    for block in ["proxy: \"P\"", "proxy = ", "proxy = \"P\" servant = \"S\"", "proxy = P", "= \"P\"", "proxy = \"P"] {
        let refused = read_fragments(block).unwrap_err();
        assert!(!refused.message.is_empty());
        assert_ne!(refused.message, block);
    }
    assert_eq!(
        read_fragments("proxy = ").unwrap_err().message,
        "unexpected end of input, expected literal"
    );
    assert_eq!(read_fragments("proxy = P").unwrap_err().message, "expected literal");
    assert_eq!(read_fragments("+").unwrap_err().message, "expected identifier or literal");
}

fn receiver(mutable: bool, text: &str) -> Arg {
    Arg::Receiver { mutable, text: text.to_string() }
}

fn typed(name: &str, ty: &str) -> Arg {
    Arg::Typed(Param { name: name.to_string(), ty: ty.to_string() })
}

fn signature(name: &str, args: Vec<Arg>, ret: Option<&str>) -> Signature {
    Signature {
        qualifiers: String::new(),
        name: name.to_string(),
        generics: String::new(),
        args,
        ret: ret.map(|t| t.to_string()),
        bounds: String::new(),
        body: None,
    }
}

#[test]
fn a_trait_is_read() {
    let declaration = read_declaration(
        "pub trait Hello3 {
            type Item;
            fn hi(&self, name: String) -> String;
            fn set(&mut self, values: Vec<Option<u8>>);
            fn close(self);
            fn make(count: usize) -> Self;
            const N: usize;
        }",
    );
    assert_eq!(
        declaration,
        Ok(Declaration {
            qualifiers: "pub".to_string(),
            name: "Hello3".to_string(),
            bounds: String::new(),
            items: vec![
                Item::Other("type Item ;".to_string()),
                Item::Method(signature(
                    "hi",
                    vec![receiver(false, "& self"), typed("name", "String")],
                    Some("String")
                )),
                Item::Method(signature(
                    "set",
                    vec![receiver(true, "& mut self"), typed("values", "Vec < Option < u8 > >")],
                    None
                )),
                Item::Method(signature("close", vec![receiver(false, "self")], None)),
                Item::Method(signature("make", vec![typed("count", "usize")], Some("Self"))),
                Item::Other("const N : usize ;".to_string()),
            ],
        })
    );
}

#[test]
fn what_stands_around_the_signature_is_read_as_text() {
    let declaration = read_declaration(
        "#[cfg(test)] pub(crate) unsafe trait Hello<'x, T: Clone>: Send + 'x where T: Default {
            #[inline] async unsafe extern \"C\" fn hi<U>(&'x mut self, u: U) -> T where U: Copy { loop {} }
            fn bye(mut self);
        }",
    )
    .unwrap();
    assert_eq!(declaration.qualifiers, "# [cfg (test)] pub (crate) unsafe");
    assert_eq!(declaration.name, "Hello");
    assert_eq!(declaration.bounds, "< 'x , T : Clone > : Send + 'x where T : Default");
    assert_eq!(
        declaration.items,
        vec![
            Item::Method(Signature {
                qualifiers: "# [inline] async unsafe extern \"C\"".to_string(),
                name: "hi".to_string(),
                generics: "< U >".to_string(),
                args: vec![receiver(true, "& 'x mut self"), typed("u", "U")],
                ret: Some("T".to_string()),
                bounds: "where U : Copy".to_string(),
                body: Some("{ loop { } }".to_string()),
            }),
            Item::Method(signature("bye", vec![receiver(true, "mut self")], None)),
        ]
    );
}

#[test]
fn an_explicit_unit_is_read_as_it_is_written() {
    let declaration = read_declaration("trait T { fn f(&self) -> (); }").unwrap();
    assert_eq!(declaration.qualifiers, "");
    assert_eq!(
        declaration.items,
        vec![Item::Method(signature("f", vec![receiver(false, "& self")], Some("()")))]
    );
}

#[test]
fn an_empty_trait_has_no_item() {
    assert_eq!(
        read_declaration("trait Nothing {}"),
        Ok(Declaration {
            qualifiers: String::new(),
            name: "Nothing".to_string(),
            bounds: String::new(),
            items: vec![]
        })
    );
}

#[test]
fn what_is_no_trait_is_a_syntax_error() {
    for text in ["", "struct Hello;", "trait", "trait Hello { fn }", "trait Hello {} trait Bye {}"] {
        let refused = read_declaration(text).unwrap_err();
        assert!(!refused.message.is_empty());
        assert_ne!(refused.message, text);
    }
    assert_eq!(
        read_declaration("trait Hello { fn f(&self, &self); }").unwrap_err().message,
        "unexpected second method receiver"
    );
}
