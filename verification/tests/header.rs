use unreal_doc::builder::file::{parse_unreal_cpp_element, parse_unreal_cpp_header, proxy_content};
use unreal_doc::builder::primitives::{parse_value_type, parse_visibility};
use unreal_doc::builder::types::{parse_element, Element};
use unreal_doc::document::{
    Attribute, Document, PropertyArray, Specifiers, StructClassMode, Visibility,
};
use unreal_doc::policy::Settings;
use unreal_doc::tree::{is_well_formed, Node, Rule};

fn node(rule: Rule, text: &str, children: Vec<Node>) -> Node {
    Node { rule, text: text.to_owned(), line: 1, children }
}

fn leaf(rule: Rule, text: &str) -> Node {
    node(rule, text, vec![])
}

fn at_line(mut n: Node, line: usize) -> Node {
    n.line = line;
    n
}

fn show_all() -> Settings {
    Settings { document_private: true, document_protected: true, show_all: true }
}

fn docs(text: &str) -> Node {
    leaf(Rule::DocCommentLines, text)
}

fn single(name: &str) -> Node {
    node(Rule::SpecifierSingle, name, vec![leaf(Rule::Identifier, name)])
}

fn pair(key: &str, value: &str) -> Node {
    node(
        Rule::SpecifierPair,
        "",
        vec![leaf(Rule::Identifier, key), leaf(Rule::Identifier, value)],
    )
}

fn macro_with(rule: Rule, specifiers: Vec<Node>) -> Node {
    node(rule, "", vec![node(Rule::Other, "", specifiers)])
}

fn enum_element(name: &str, variants: &[&str]) -> Node {
    node(
        Rule::ElementEnum,
        "",
        vec![
            macro_with(Rule::Uenum, vec![single("BlueprintType")]),
            node(Rule::EnumSignature, "", vec![leaf(Rule::Identifier, name)]),
            node(
                Rule::EnumBody,
                "",
                variants.iter().map(|v| leaf(Rule::Identifier, v)).collect(),
            ),
        ],
    )
}

fn element(children: Vec<Node>) -> Node {
    node(Rule::Element, "", children)
}

fn function_element(return_type: Option<&str>, name: &str, body: Vec<Node>) -> Node {
    let mut signature = vec![];
    if let Some(return_type) = return_type {
        signature.push(leaf(Rule::ValueType, return_type));
    }
    signature.push(leaf(Rule::Identifier, name));
    signature.push(node(Rule::FunctionArguments, "", vec![]));
    let rule = if return_type.is_some() {
        Rule::FunctionSignature
    } else {
        Rule::ConstructorSignature
    };
    node(
        Rule::ElementFunction,
        "",
        vec![
            macro_with(Rule::Ufunction, vec![]),
            node(rule, "", signature),
            node(Rule::FunctionBody, "", body),
        ],
    )
}

fn property_element(value_type: &str, name: &str) -> Node {
    node(
        Rule::ElementProperty,
        "",
        vec![
            macro_with(Rule::Uproperty, vec![single("EditAnywhere")]),
            node(
                Rule::PropertySignature,
                "",
                vec![leaf(Rule::ValueType, value_type), leaf(Rule::Identifier, name)],
            ),
        ],
    )
}

fn snippet(id: &str, body: &str) -> Node {
    node(
        Rule::Snippet,
        "",
        vec![leaf(Rule::Identifier, id), leaf(Rule::SnippetInner, body)],
    )
}

fn struct_class(rule: Rule, name: &str, body: Vec<Node>) -> Node {
    let (macro_rule, signature_rule) = if rule == Rule::ElementStruct {
        (Rule::Ustruct, Rule::StructSignature)
    } else {
        (Rule::Uclass, Rule::ClassSignature)
    };
    node(
        rule,
        "",
        vec![
            macro_with(macro_rule, vec![]),
            node(signature_rule, "", vec![leaf(Rule::Identifier, name)]),
            node(Rule::StructClassBody, "", body),
        ],
    )
}

fn parse(tree: &Node, document: &mut Document, settings: &Settings, filename: &str) {
    assert!(is_well_formed(tree));
    parse_unreal_cpp_header(tree, document, settings, filename);
}

#[test]
fn test_parsing() {
    let tree = node(
        Rule::File,
        "",
        vec![
            element(vec![docs("/// Colors."), enum_element("EColor", &["Red", "Green"])]),
            snippet("usage", "    a();\n    b();"),
            element(vec![
                docs("/// A point."),
                struct_class(
                    Rule::ElementStruct,
                    "FPoint",
                    vec![element(vec![docs("/// X."), property_element("float", "X")])],
                ),
            ]),
            element(vec![
                docs("/// An actor."),
                struct_class(
                    Rule::ElementClass,
                    "AThing",
                    vec![
                        leaf(Rule::Visibility, "public"),
                        element(vec![docs("/// Makes it."), function_element(None, "AThing", vec![])]),
                        element(vec![
                            docs("/// Runs it."),
                            function_element(Some("void"), "Run", vec![]),
                        ]),
                    ],
                ),
            ]),
            element(vec![docs("/// Free."), function_element(Some("int32"), "Free", vec![])]),
            leaf(Rule::Other, "anything"),
        ],
    );
    let mut document = Document::default();
    parse(&tree, &mut document, &Default::default(), "Test.h");
    assert_eq!(document.enums.len(), 1);
    assert_eq!(document.enums[0].name, "EColor");
    assert_eq!(document.enums[0].doc_comments.as_deref(), Some("Colors."));
    assert_eq!(document.enums[0].variants, vec!["Red".to_owned(), "Green".to_owned()]);
    assert_eq!(document.enums[0].filename, "Test.h");
    assert_eq!(
        document.enums[0].specifiers,
        Some(Specifiers {
            attributes: vec![Attribute::Single("BlueprintType".to_owned())],
            meta: vec![],
        })
    );
    assert_eq!(document.structs.len(), 1);
    assert_eq!(document.structs[0].mode, StructClassMode::Struct);
    assert_eq!(document.structs[0].properties.len(), 1);
    assert_eq!(document.structs[0].properties[0].value_type, "float");
    assert_eq!(document.classes.len(), 1);
    assert_eq!(document.classes[0].constructors.len(), 1);
    assert_eq!(document.classes[0].methods.len(), 1);
    assert_eq!(document.classes[0].methods[0].return_type.as_deref(), Some("void"));
    assert_eq!(document.functions.len(), 1);
    assert_eq!(document.functions[0].name, "Free");
    assert_eq!(document.snippets.len(), 1);
    assert_eq!(document.snippets[0].name, "usage");
    assert_eq!(document.snippets[0].content, "a();\nb();");
    assert!(document.delegates.is_empty());
}

#[test]
fn a_tree_that_is_no_file_changes_nothing() {
    let tree = element(vec![docs("/// Colors."), enum_element("EColor", &["Red"])]);
    let mut document = Document::new();
    parse(&tree, &mut document, &show_all(), "Test.h");
    assert_eq!(document, Document::new());
}

#[test]
fn struct_members_are_public_until_a_label() {
    let body = vec![
        element(vec![property_element("int32", "A")]),
        leaf(Rule::Visibility, "protected"),
        element(vec![property_element("int32", "B")]),
        element(vec![property_element("int32", "C")]),
        leaf(Rule::Visibility, "friend"),
        element(vec![property_element("int32", "D")]),
        leaf(Rule::Visibility, "private"),
        element(vec![property_element("int32", "E")]),
    ];
    let tree = node(
        Rule::File,
        "",
        vec![element(vec![struct_class(Rule::ElementStruct, "FThing", body)])],
    );
    let mut document = Document::new();
    parse(&tree, &mut document, &show_all(), "Thing.h");
    let seen: Vec<(String, Visibility)> = document.structs[0]
        .properties
        .iter()
        .map(|p| (p.name.clone(), p.visibility))
        .collect();
    assert_eq!(
        seen,
        vec![
            ("A".to_owned(), Visibility::Public),
            ("B".to_owned(), Visibility::Protected),
            ("C".to_owned(), Visibility::Protected),
            ("D".to_owned(), Visibility::Protected),
            ("E".to_owned(), Visibility::Private),
        ]
    );
}

#[test]
fn class_members_are_private_until_a_label() {
    let body = vec![
        element(vec![property_element("int32", "A")]),
        leaf(Rule::Visibility, "public"),
        element(vec![property_element("int32", "B")]),
    ];
    let tree = node(
        Rule::File,
        "",
        vec![element(vec![struct_class(Rule::ElementClass, "UThing", body)])],
    );
    let mut document = Document::new();
    parse(&tree, &mut document, &show_all(), "Thing.h");
    assert_eq!(document.structs.len(), 0);
    let properties = &document.classes[0].properties;
    assert_eq!(properties.len(), 2);
    assert_eq!(properties[0].visibility, Visibility::Private);
    assert_eq!(properties[1].visibility, Visibility::Public);
    assert_eq!(StructClassMode::Struct.default_visibility(), Visibility::Public);
    assert_eq!(StructClassMode::Class.default_visibility(), Visibility::Private);
}

#[test]
fn default_settings_keep_documented_public_members_only() {
    let body = vec![
        element(vec![docs("/// Kept."), property_element("int32", "A")]),
        element(vec![property_element("int32", "Undocumented")]),
        leaf(Rule::Visibility, "private"),
        element(vec![docs("/// Hidden."), property_element("int32", "B")]),
    ];
    let tree = node(
        Rule::File,
        "",
        vec![
            element(vec![docs("/// Doc."), struct_class(Rule::ElementStruct, "FThing", body)]),
            element(vec![enum_element("EUndocumented", &[])]),
        ],
    );
    let mut document = Document::new();
    parse(&tree, &mut document, &Settings::default(), "Thing.h");
    assert_eq!(document.enums.len(), 0);
    assert_eq!(document.structs[0].properties.len(), 1);
    assert_eq!(document.structs[0].properties[0].name, "A");
}

#[test]
fn a_function_without_return_type_is_a_constructor() {
    let body = vec![
        element(vec![function_element(None, "Anything", vec![])]),
        element(vec![function_element(Some("void"), "FThing", vec![])]),
        element(vec![function_element(None, "FThing", vec![])]),
    ];
    let tree = node(
        Rule::File,
        "",
        vec![element(vec![struct_class(Rule::ElementStruct, "FThing", body)])],
    );
    let mut document = Document::new();
    parse(&tree, &mut document, &show_all(), "Thing.h");
    let item = &document.structs[0];
    let constructors: Vec<&str> = item.constructors.iter().map(|f| f.name.as_str()).collect();
    let methods: Vec<&str> = item.methods.iter().map(|f| f.name.as_str()).collect();
    assert_eq!(constructors, vec!["Anything", "FThing"]);
    assert_eq!(methods, vec!["FThing"]);
    assert!(item.constructors.iter().all(|f| f.return_type.is_none()));
    assert!(item.methods.iter().all(|f| f.return_type.is_some()));
}

fn delegate(rule: Rule, arguments: Node) -> Node {
    node(
        rule,
        "",
        vec![
            macro_with(Rule::Udelegate, vec![]),
            leaf(Rule::DelegateName, "FOnValue"),
            arguments,
        ],
    )
}

#[test]
fn dynamic_delegate_with_one_argument() {
    let arguments = node(
        Rule::DynamicDelegateArguments,
        "",
        vec![node(
            Rule::DynamicDelegateArgument,
            "",
            vec![leaf(Rule::ValueType, "int32"), leaf(Rule::Identifier, "Value")],
        )],
    );
    let tree = node(
        Rule::File,
        "",
        vec![element(vec![at_line(delegate(Rule::ElementDynamicDelegate, arguments), 7)])],
    );
    let mut document = Document::new();
    parse(&tree, &mut document, &show_all(), "Delegates.h");
    assert_eq!(document.delegates.len(), 1);
    let item = &document.delegates[0];
    assert_eq!(item.name, "FOnValue");
    assert!(item.dynamic);
    assert!(!item.multicast);
    assert_eq!(item.arguments.len(), 1);
    assert_eq!(item.arguments[0].name.as_deref(), Some("Value"));
    assert_eq!(item.arguments[0].value_type, "int32");
    assert_eq!(item.return_type, None);
    assert_eq!(item.fileline, 7);
    assert_eq!(item.filename, "Delegates.h");
}

#[test]
fn delegate_variants_set_their_flags_and_argument_grammar() {
    let plain_arguments = || {
        node(
            Rule::DelegateArguments,
            "",
            vec![
                node(
                    Rule::DelegateArgument,
                    "",
                    vec![
                        leaf(Rule::ValueType, " float "),
                        leaf(Rule::DelegateArgumentName, "Delta"),
                        leaf(Rule::Identifier, "NotAName"),
                    ],
                ),
                node(Rule::DelegateArgument, "", vec![leaf(Rule::ValueType, "bool")]),
            ],
        )
    };
    let tree = node(
        Rule::File,
        "",
        vec![
            element(vec![delegate(Rule::ElementDelegate, plain_arguments())]),
            element(vec![delegate(Rule::ElementMulticastDelegate, plain_arguments())]),
        ],
    );
    let mut document = Document::new();
    parse(&tree, &mut document, &show_all(), "Delegates.h");
    assert_eq!(document.delegates.len(), 1);
    let item = &document.delegates[0];
    assert!(item.multicast);
    assert!(!item.dynamic);
    assert_eq!(item.arguments.len(), 2);
    assert_eq!(item.arguments[0].name.as_deref(), Some("Delta"));
    assert_eq!(item.arguments[0].value_type, "float");
    assert_eq!(item.arguments[1].name, None);

    let dynamic = element(vec![node(
        Rule::ElementDynMulticastDelegate,
        "",
        vec![leaf(Rule::DelegateName, "FBoth"), leaf(Rule::ValueType, " bool ")],
    )]);
    let mut document = Document::new();
    match parse_unreal_cpp_element(&dynamic, &mut document, &show_all(), "Delegates.h") {
        Element::Delegate(item) => {
            assert!(item.multicast && item.dynamic);
            assert_eq!(item.return_type.as_deref(), Some("bool"));
            assert_eq!(item.specifiers, None);
        }
        other => panic!("no delegate: {:?}", other),
    }
}

#[test]
fn redeclared_enum_overwrites_the_first_entry() {
    let first = node(
        Rule::File,
        "",
        vec![
            element(vec![enum_element("EColor", &["Red"])]),
            element(vec![enum_element("EShape", &["Round"])]),
        ],
    );
    let second = node(
        Rule::File,
        "",
        vec![element(vec![enum_element("EColor", &["Blue", "Green"])])],
    );
    let mut document = Document::new();
    parse(&first, &mut document, &show_all(), "First.h");
    assert_eq!(document.enums.len(), 2);
    parse(&second, &mut document, &show_all(), "Second.h");
    assert_eq!(document.enums.len(), 2);
    assert_eq!(document.enums[0].name, "EColor");
    assert_eq!(document.enums[0].filename, "Second.h");
    assert_eq!(document.enums[0].variants, vec!["Blue".to_owned(), "Green".to_owned()]);
    assert_eq!(document.enums[1].name, "EShape");
    assert_eq!(document.enums[1].filename, "First.h");
}

fn proxy(doc: Option<&str>, tags: &[&str], lines: &[&str], declaration: Node) -> Node {
    let mut children = vec![];
    if let Some(doc) = doc {
        children.push(docs(doc));
    }
    children.push(node(
        Rule::ProxyTags,
        "",
        tags.iter().map(|t| leaf(Rule::Identifier, t)).collect(),
    ));
    for line in lines {
        children.push(leaf(Rule::ProxyLineContent, line));
    }
    children.push(element(vec![declaration]));
    node(Rule::Proxy, "", children)
}

#[test]
fn proxy_without_doc_comments_adds_no_entry() {
    let tree = node(
        Rule::File,
        "",
        vec![
            proxy(None, &["a"], &["void F();"], function_element(Some("void"), "F", vec![])),
            proxy(None, &["a"], &["int32 P;"], property_element("int32", "P")),
        ],
    );
    let mut document = Document::new();
    parse(&tree, &mut document, &show_all(), "Proxy.h");
    assert!(document.proxy_functions.is_empty());
    assert!(document.proxy_properties.is_empty());
    assert_eq!(document, Document::new());
}

#[test]
fn proxy_with_doc_comments_forwards_the_declaration_under_its_tags() {
    let body = vec![snippet("inside", "  x")];
    let tree = node(
        Rule::File,
        "",
        vec![
            proxy(
                Some("/// Forwarded."),
                &["core", "math", "core"],
                &["void ", "F();"],
                function_element(Some("void"), "F", body),
            ),
            proxy(Some("/// A value."), &[], &["int32 P;"], property_element("int32", "P")),
            proxy(Some("/// An enum."), &[], &[], enum_element("E", &[])),
        ],
    );
    assert_eq!(proxy_content(&tree.children[0]), "void F();");
    let mut document = Document::new();
    parse(&tree, &mut document, &Settings::default(), "Proxy.h");
    assert_eq!(document.proxy_functions.len(), 1);
    let forwarded = &document.proxy_functions[0];
    assert_eq!(forwarded.tags, vec!["core".to_owned(), "math".to_owned()]);
    assert_eq!(forwarded.item.name, "F");
    assert_eq!(forwarded.item.doc_comments.as_deref(), Some("Forwarded."));
    assert_eq!(forwarded.item.visibility, Visibility::Public);
    assert_eq!(document.proxy_properties.len(), 1);
    assert_eq!(document.proxy_properties[0].item.name, "P");
    assert_eq!(document.proxy_properties[0].item.doc_comments.as_deref(), Some("A value."));
    assert!(document.enums.is_empty());
    assert_eq!(document.snippets.len(), 1);
    assert_eq!(document.snippets[0].content, "x");
}

#[test]
fn raw_text_fields_are_the_trimmed_source_text() {
    let signature = node(
        Rule::FunctionSignature,
        "",
        vec![
            leaf(Rule::TemplateDeclaration, "  template <typename T>\n"),
            leaf(Rule::Virtualness, "virtual"),
            leaf(Rule::ValueType, "\tconst TArray< int32 >&  "),
            leaf(Rule::Operator, "operator +"),
            node(
                Rule::FunctionArguments,
                "",
                vec![
                    node(
                        Rule::FunctionArgument,
                        "",
                        vec![
                            docs("/// The amount."),
                            leaf(Rule::ValueType, " TMap<FName,  int32> "),
                            leaf(Rule::Identifier, "Amount"),
                            node(
                                Rule::DefaultValue,
                                " = { 1,  2 } ",
                                vec![leaf(Rule::Other, "{ 1,  2 } ")],
                            ),
                        ],
                    ),
                    leaf(Rule::Other, ","),
                    node(Rule::FunctionArgument, "", vec![leaf(Rule::ValueType, "bool")]),
                ],
            ),
            leaf(Rule::Constness, "const"),
            leaf(Rule::Overrideness, "override"),
        ],
    );
    let tree = element(vec![at_line(
        node(Rule::ElementFunction, "", vec![signature]),
        42,
    )]);
    let mut document = Document::new();
    let parsed = parse_unreal_cpp_element(&tree, &mut document, &show_all(), "Raw.h");
    let function = match parsed {
        Element::Function(function) => function,
        other => panic!("no function: {:?}", other),
    };
    assert_eq!(function.template.as_deref(), Some("template <typename T>"));
    assert_eq!(function.return_type.as_deref(), Some("const TArray< int32 >&"));
    assert_eq!(function.name, "operator +");
    assert!(function.is_virtual && function.is_const_this && function.is_override);
    assert!(!function.is_static);
    assert_eq!(function.specifiers, None);
    assert_eq!(function.fileline, 42);
    assert_eq!(function.arguments.len(), 2);
    assert_eq!(function.arguments[0].name.as_deref(), Some("Amount"));
    assert_eq!(function.arguments[0].value_type, "TMap<FName,  int32>");
    assert_eq!(function.arguments[0].default_value.as_deref(), Some("{ 1,  2 }"));
    assert_eq!(function.arguments[0].doc_comments.as_deref(), Some("The amount."));
    assert_eq!(function.arguments[1].name, None);
    assert_eq!(function.arguments[1].value_type, "bool");
    assert_eq!(parse_value_type(&leaf(Rule::ValueType, "  int32 * ")), "int32 *");
    assert_eq!(parse_value_type(&leaf(Rule::ValueType, "   ")), "");
}

#[test]
fn property_signature_fields() {
    let signature = node(
        Rule::PropertySignature,
        "",
        vec![
            leaf(Rule::Staticness, "static"),
            leaf(Rule::ValueType, " uint8 "),
            leaf(Rule::Identifier, "Bytes"),
            node(Rule::PropertyArray, "[ 16 ]", vec![leaf(Rule::Other, " 16 ")]),
            node(Rule::DefaultValue, "= {}", vec![leaf(Rule::Other, "{}")]),
        ],
    );
    let specifiers = macro_with(
        Rule::Uproperty,
        vec![
            single("EditAnywhere"),
            pair("Category", "Main"),
            node(Rule::SpecifierMeta, "", vec![pair("ClampMin", "0"), single("Hidden")]),
            single("Transient"),
        ],
    );
    let tree = element(vec![
        docs("/// Bytes."),
        node(Rule::ElementProperty, "", vec![specifiers, signature]),
    ]);
    let mut snippets = vec![];
    let parsed = parse_element(&tree, Visibility::Protected, &show_all(), &mut snippets, "P.h");
    let property = match parsed {
        Element::Property(property) => property,
        other => panic!("no property: {:?}", other),
    };
    assert_eq!(property.name, "Bytes");
    assert_eq!(property.value_type, "uint8");
    assert_eq!(property.array, PropertyArray::Sized("16".to_owned()));
    assert_eq!(property.default_value.as_deref(), Some("{}"));
    assert!(property.is_static);
    assert_eq!(property.visibility, Visibility::Protected);
    assert_eq!(property.doc_comments.as_deref(), Some("Bytes."));
    assert_eq!(
        property.specifiers,
        Some(Specifiers {
            attributes: vec![
                Attribute::Single("EditAnywhere".to_owned()),
                Attribute::Pair { key: "Category".to_owned(), value: "Main".to_owned() },
                Attribute::Single("Transient".to_owned()),
            ],
            meta: vec![
                Attribute::Pair { key: "ClampMin".to_owned(), value: "0".to_owned() },
                Attribute::Single("Hidden".to_owned()),
            ],
        })
    );
    let unsized_array = element(vec![node(
        Rule::ElementProperty,
        "",
        vec![
            node(Rule::Uproperty, "", vec![]),
            node(Rule::PropertySignature, "", vec![leaf(Rule::PropertyArray, "[]")]),
        ],
    )]);
    match parse_element(&unsized_array, Visibility::Public, &show_all(), &mut snippets, "P.h") {
        Element::Property(property) => {
            assert_eq!(property.array, PropertyArray::Unsized);
            assert_eq!(property.specifiers, Some(Specifiers { attributes: vec![], meta: vec![] }));
        }
        other => panic!("no property: {:?}", other),
    }
    assert!(snippets.is_empty());
}

#[test]
fn struct_signature_and_injects() {
    let signature = node(
        Rule::StructSignature,
        "",
        vec![
            leaf(Rule::TemplateDeclaration, " template <class T> "),
            leaf(Rule::Api, "CORE_API"),
            leaf(Rule::Identifier, "FThing"),
            node(
                Rule::Inheritances,
                "",
                vec![
                    node(
                        Rule::Other,
                        "",
                        vec![leaf(Rule::Visibility, "public"), leaf(Rule::ValueType, " FBase ")],
                    ),
                    node(
                        Rule::Other,
                        "",
                        vec![leaf(Rule::Visibility, "private"), leaf(Rule::ValueType, "IFace<T>")],
                    ),
                ],
            ),
        ],
    );
    let body = node(
        Rule::StructClassBody,
        "",
        vec![
            node(
                Rule::Inject,
                "",
                vec![leaf(Rule::Identifier, "a"), leaf(Rule::Identifier, "b")],
            ),
            node(Rule::Inject, "", vec![leaf(Rule::Identifier, "a")]),
        ],
    );
    let tree = element(vec![at_line(
        node(Rule::ElementStruct, "", vec![signature, body]),
        3,
    )]);
    assert!(is_well_formed(&tree));
    let mut document = Document::new();
    let parsed = parse_unreal_cpp_element(&tree, &mut document, &show_all(), "S.h");
    let item = match parsed {
        Element::StructClass(item) => item,
        other => panic!("no struct: {:?}", other),
    };
    assert_eq!(item.template.as_deref(), Some("template <class T>"));
    assert_eq!(item.api.as_deref(), Some("CORE_API"));
    assert_eq!(item.name, "FThing");
    assert_eq!(item.fileline, 3);
    assert_eq!(item.inherits.len(), 2);
    assert_eq!(item.inherits[0].visibility, Visibility::Public);
    assert_eq!(item.inherits[0].name, "FBase");
    assert_eq!(item.inherits[1].visibility, Visibility::Private);
    assert_eq!(item.inherits[1].name, "IFace<T>");
    assert_eq!(item.injects, vec!["a".to_owned(), "b".to_owned()]);
}

#[test]
fn snippets_are_registered_by_name_and_the_last_one_stays() {
    let tree = node(
        Rule::File,
        "",
        vec![
            snippet("one", "  first"),
            snippet("two", "second"),
            element(vec![function_element(
                Some("void"),
                "Hidden",
                vec![leaf(Rule::Other, "x"), snippet("one", "\tagain\n\t\tmore")],
            )]),
            node(Rule::Snippet, "", vec![leaf(Rule::Identifier, "no_body")]),
        ],
    );
    let mut document = Document::new();
    parse(&tree, &mut document, &Settings::default(), "Snippets.h");
    assert!(document.functions.is_empty());
    assert_eq!(document.snippets.len(), 2);
    assert_eq!(document.snippets[0].name, "one");
    assert_eq!(document.snippets[0].content, "again\n\tmore");
    assert_eq!(document.snippets[1].name, "two");
    assert_eq!(document.snippets[1].content, "second");
}

#[test]
fn visibility_labels() {
    assert_eq!(parse_visibility(&leaf(Rule::Visibility, "private")), Some(Visibility::Private));
    assert_eq!(
        parse_visibility(&leaf(Rule::Visibility, "protected")),
        Some(Visibility::Protected)
    );
    assert_eq!(parse_visibility(&leaf(Rule::Visibility, "public")), Some(Visibility::Public));
    assert_eq!(parse_visibility(&leaf(Rule::Visibility, "Public")), None);
    assert_eq!(parse_visibility(&leaf(Rule::Visibility, "")), None);
}

#[test]
fn trees_that_lack_a_required_child_are_not_well_formed() {
    assert!(!is_well_formed(&leaf(Rule::SpecifierSingle, "x")));
    assert!(!is_well_formed(&node(
        Rule::SpecifierPair,
        "",
        vec![leaf(Rule::Identifier, "k")]
    )));
    assert!(!is_well_formed(&leaf(Rule::EnumSignature, "")));
    assert!(!is_well_formed(&element(vec![leaf(Rule::DefaultValue, "")])));
    let no_keyword = node(
        Rule::Inheritances,
        "",
        vec![node(
            Rule::Other,
            "",
            vec![leaf(Rule::Visibility, "friend"), leaf(Rule::ValueType, "B")],
        )],
    );
    assert!(!is_well_formed(&no_keyword));
    let short = node(
        Rule::Inheritances,
        "",
        vec![node(Rule::Other, "", vec![leaf(Rule::Visibility, "public")])],
    );
    assert!(!is_well_formed(&short));
    assert!(is_well_formed(&leaf(Rule::File, "")));
    assert!(is_well_formed(&pair("k", "v")));
}
