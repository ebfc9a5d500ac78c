use unreal_doc::collection::{position_of, upsert};
use unreal_doc::document::Document;
use unreal_doc::document::{Attribute, Snippet, Specifiers};
use unreal_doc::document::Argument;
use unreal_doc::document::{Delegate, Function, StructClass, StructClassMode};
use unreal_doc::markdown::{
    bake_delegate, bake_enum, bake_function, bake_property, bake_struct_class, decimal_text,
    FunctionText, append_argument_body, bake_delegate_argument, bake_function_argument, append_returns, append_summary, bake_delegate_comments, bake_delegate_return_type,
    bake_function_comments, bake_function_return_type, bake_specifiers,
    bake_struct_class_comments, indent, prefix_lines,
};
use unreal_doc::document::BookFile;
use unreal_doc::pages::{
    close_book_directory, include_book_index, include_index_line, open_book_directory, OpenDirectory,
    bake_index_directory, bake_index_margin, bake_index_page, is_page, page_title,
    parse_index_line, IndexLine, bake_reference_page, bake_section_entry, bake_section_heading, code_reference, fix_site_references, preprocess_content, rebuild, replace_code_references,
    replace_snippets, site_reference, snippet_block,
};
use unreal_doc::manifest::{BookFold, BookOutput};
use unreal_doc::policy::{ExportPolicy, Settings};
use unreal_doc::document::{Enum, Property, PropertyArray, Visibility};
use unreal_doc::text::{
    join, leading_whitespace_count, parse_doc_comments, parse_snippet_inner,
};

#[test]
fn snippet_margin_is_the_least_indent() {
    let body = "    four\n    four\n  two\n      six";
    assert_eq!(parse_snippet_inner(body), "  four\n  four\ntwo\n    six");
}

#[test]
fn snippet_with_a_blank_line_keeps_its_indentation() {
    assert_eq!(parse_snippet_inner("    a\n\n    b"), "    a\n\n    b");
    assert_eq!(parse_snippet_inner("    a\n      \n    b"), "a\n  \nb");
}

#[test]
fn snippet_edge_cases() {
    assert_eq!(parse_snippet_inner(""), "");
    assert_eq!(parse_snippet_inner("  only"), "only");
    assert_eq!(parse_snippet_inner("  a\r\n   b\r\n"), "a\n b");
    assert_eq!(parse_snippet_inner(" a\r"), "a\r");
    assert_eq!(parse_snippet_inner("\n"), "");
    assert_eq!(parse_snippet_inner(" a\n\n b\n"), " a\n\n b");
    assert_eq!(parse_snippet_inner("\u{a0}\u{a0}x\n\u{a0}\u{a0}\u{a0}y"), "x\n\u{a0}y");
}

#[test]
fn leading_whitespace_is_counted_in_characters() {
    assert_eq!(leading_whitespace_count(""), 0);
    assert_eq!(leading_whitespace_count("x  "), 0);
    assert_eq!(leading_whitespace_count(" \t\u{2003}x y"), 3);
    assert_eq!(leading_whitespace_count("   "), 3);
}

#[test]
fn doc_comments_keep_line_order_and_blank_lines() {
    let block = "/// first\n\n   ///   second  \n/// ";
    assert_eq!(parse_doc_comments(block), "first\n\nsecond\n");
    assert_eq!(parse_doc_comments("///a\r\n//b\r\n\t/// c /// d"), "a\n\nc /// d");
    assert_eq!(parse_doc_comments(""), "");
    assert_eq!(parse_doc_comments("//// x"), "/ x");
}

#[test]
fn lines_are_joined_by_line_feeds() {
    assert_eq!(join(&vec![]), "");
    assert_eq!(join(&vec!["a".to_owned()]), "a");
    assert_eq!(join(&vec!["a".to_owned(), "".to_owned(), "b".to_owned()]), "a\n\nb");
}

fn snippet(name: &str, content: &str) -> Snippet {
    Snippet { name: name.to_owned(), content: content.to_owned() }
}

#[test]
fn entering_under_a_name_that_is_present_replaces_the_entry() {
    let mut items = vec![];
    assert!(!upsert(&mut items, snippet("a", "1")));
    assert!(!upsert(&mut items, snippet("b", "2")));
    assert!(upsert(&mut items, snippet("a", "3")));
    assert_eq!(items, vec![snippet("a", "3"), snippet("b", "2")]);
    assert!(!upsert(&mut items, snippet("c", "4")));
    assert_eq!(items.len(), 3);
    assert_eq!(items[2], snippet("c", "4"));
}

#[test]
fn book_output_defaults() {
    let output = BookOutput::new(None);
    assert_eq!(output.html.default_theme, "ayu");
    assert_eq!(output.html.preferred_dark_theme, "ayu");
    assert!(output.html.mathjax_support);
    assert!(output.html.no_section_label);
    assert_eq!(output.html.site_url, "/");
    assert_eq!(output.html.fold, BookFold { enable: false, level: 0 });
    let output = BookOutput::new(Some("/docs/".to_owned()));
    assert_eq!(output.html.site_url, "/docs/");
}

fn property(visibility: Visibility, doc_comments: Option<&str>) -> Property {
    Property {
        name: "P".to_owned(),
        value_type: "int32".to_owned(),
        array: PropertyArray::Unsized,
        default_value: None,
        specifiers: None,
        visibility,
        is_static: false,
        doc_comments: doc_comments.map(|d| d.to_owned()),
    }
}

#[test]
fn settings_as_export_policy() {
    let defaults = Settings::default();
    assert_eq!(
        defaults,
        Settings { document_private: false, document_protected: false, show_all: false }
    );
    assert!(defaults.can_export_property(&property(Visibility::Public, Some("d"))));
    assert!(!defaults.can_export_property(&property(Visibility::Public, None)));
    assert!(!defaults.can_export_property(&property(Visibility::Protected, Some("d"))));
    assert!(!defaults.can_export_property(&property(Visibility::Private, Some("d"))));
    let protected = Settings { document_protected: true, ..defaults };
    assert!(protected.can_export_property(&property(Visibility::Protected, Some("d"))));
    assert!(!protected.can_export_property(&property(Visibility::Private, Some("d"))));
    let all = Settings { document_private: true, document_protected: true, show_all: true };
    assert!(all.can_export_property(&property(Visibility::Private, None)));
    let item = Enum {
        name: "E".to_owned(),
        doc_comments: None,
        specifiers: None,
        variants: vec![],
        filename: "E.h".to_owned(),
        fileline: 1,
    };
    assert!(!defaults.can_export_enum(&item));
    assert!(all.can_export_enum(&item));
    assert!(defaults.can_show(Visibility::Public));
    assert!(!defaults.can_show(Visibility::Private));
}

#[test]
fn indent_moves_every_line_right() {
    assert_eq!(indent(4, "a\nb"), "    a\n    b");
    assert_eq!(indent(2, "a\n\nb\n"), "  a\n  \n  b");
    assert_eq!(indent(0, "a\nb\n"), "a\nb\n");
    assert_eq!(indent(3, ""), "");
}

#[test]
fn specifiers_are_listed_under_their_headings() {
    let specifiers = Specifiers {
        attributes: vec![
            Attribute::Single("BlueprintCallable".to_owned()),
            Attribute::Pair { key: "Category".to_owned(), value: "Main".to_owned() },
        ],
        meta: vec![Attribute::Single("Hidden".to_owned())],
    };
    let mut content = "x".to_owned();
    bake_specifiers(&specifiers, &mut content);
    assert_eq!(
        content,
        "x**_Reflection-enabled_**\n\n### Specifiers:\n- **BlueprintCallable**\n- **Category** = _Main_\n\n### Meta Specifiers:\n- **Hidden**\n\n"
    );
    let mut content = String::new();
    bake_specifiers(&Specifiers { attributes: vec![], meta: vec![] }, &mut content);
    assert_eq!(content, "**_Reflection-enabled_**\n\n");
}

#[test]
fn summary_of_a_doc_comment() {
    let comments = Some("<summary>Does it.</summary>\n<returns>The count.</returns>".to_owned());
    let mut content = String::new();
    bake_function_comments(&comments, &mut content);
    assert_eq!(content, "<summary>\n\nDoes it.</summary>");
    let mut content = String::new();
    bake_delegate_comments(&comments, &mut content);
    assert_eq!(content, "<summary>\n\nDoes it.</summary>");
    let mut content = "# ".to_owned();
    bake_struct_class_comments(&comments, &mut content);
    assert_eq!(content, "# Does it.");
    let plain = Some("Just text.".to_owned());
    let mut content = String::new();
    bake_function_comments(&plain, &mut content);
    assert_eq!(content, "Just text.");
    let mut content = "kept".to_owned();
    bake_function_comments(&None, &mut content);
    assert_eq!(content, "kept");
    let mut content = String::new();
    append_summary(&plain, &Some("found".to_owned()), false, &mut content);
    assert_eq!(content, "found");
}

#[test]
fn section_on_the_returned_value() {
    let comments = Some("<summary>Does it.</summary>\n<returns>The count.</returns>".to_owned());
    let expected = "---\n\n# **Returns**\n\n*\n    ```cpp\n    int32\n    ```\n    \n    The count.\n    \n\n";
    let mut content = String::new();
    bake_function_return_type(&Some("int32".to_owned()), &comments, &mut content);
    assert_eq!(content, expected);
    let mut content = String::new();
    bake_delegate_return_type(&Some("int32".to_owned()), &comments, &mut content);
    assert_eq!(content, expected);
    let mut content = String::new();
    bake_function_return_type(&Some("void".to_owned()), &comments, &mut content);
    assert_eq!(content, "");
    bake_function_return_type(&None, &comments, &mut content);
    assert_eq!(content, "");
    append_returns(&Some("bool".to_owned()), &None, &mut content);
    assert_eq!(
        content,
        "---\n\n# **Returns**\n\n*\n    ```cpp\n    bool\n    ```\n    \n    \n    \n\n"
    );
}

fn document_with_an_enum_and_a_snippet() -> Document {
    let mut document = Document::new();
    document.enums.push(Enum {
        name: "EColor".to_owned(),
        doc_comments: None,
        specifiers: None,
        variants: vec![],
        filename: "E.h".to_owned(),
        fileline: 1,
    });
    document.snippets.push(snippet("usage", "a();\nb();"));
    document
}

#[test]
fn entries_are_found_by_name() {
    let items = vec![snippet("a", "1"), snippet("b", "2"), snippet("a", "3")];
    assert_eq!(position_of(&items, "a"), Some(0));
    assert_eq!(position_of(&items, "b"), Some(1));
    assert_eq!(position_of(&items, "c"), None);
    assert_eq!(position_of(&Vec::<Snippet>::new(), "a"), None);
}

#[test]
fn references_to_entities() {
    let document = document_with_an_enum_and_a_snippet();
    assert_eq!(
        code_reference("enum", "EColor", &None, &document),
        "[**`EColor`**](/reference/enums/EColor.md)"
    );
    assert_eq!(
        code_reference("enum", "EColor", &Some("RedOne".to_owned()), &document),
        "[**`EColor::RedOne`**](/reference/enums/EColor.md#redone)"
    );
    assert_eq!(code_reference("struct", "EColor", &None, &document), "**`EColor`**");
    assert_eq!(
        code_reference("class", "UThing", &Some("Run".to_owned()), &document),
        "**`UThing::Run`**"
    );
    assert_eq!(code_reference("other", "EColor", &None, &document), "**`EColor`**");
}

#[test]
fn snippet_blocks() {
    let document = document_with_an_enum_and_a_snippet();
    assert_eq!(snippet_block("  ", "usage", &document), "```cpp\n  a();\n  b();\n  ```");
    assert_eq!(
        snippet_block("// ", "gone", &document),
        "```\n// Missing snippet: gone\n// ```"
    );
    assert_eq!(prefix_lines("> ", "a\n\nb\n"), "> a\n> \n> b");
    assert_eq!(prefix_lines("", "a\r\nb"), "a\nb");
}

#[test]
fn links_below_the_site_url() {
    assert_eq!(site_reference("/docs/", "reference/enums/", false, " a.md "), "](/docs/reference/enums/a.md)");
    assert_eq!(site_reference("/docs/", "reference/enums/", true, "b.md#x"), "](/docs/b.md#x)");
}

#[test]
fn a_text_is_put_together_from_gaps_and_replacements() {
    let gaps = vec!["a".to_owned(), "b".to_owned(), "c".to_owned()];
    let replacements = vec!["1".to_owned(), "2".to_owned()];
    assert_eq!(rebuild(&gaps, &replacements), "a1b2c");
    assert_eq!(rebuild(&gaps, &vec![]), "abc");
    assert_eq!(rebuild(&vec![], &vec![]), "");
}

#[test]
fn references_in_a_page_are_rendered() {
    let document = document_with_an_enum_and_a_snippet();
    assert_eq!(
        replace_code_references(
            "See [`enum: EColor`]() and [`class: UThing::Run`]().\n[`enum:EColor :: Red`]()",
            &document
        ),
        "See [**`EColor`**](/reference/enums/EColor.md) and **`UThing::Run`**.\n[**`EColor::Red`**](/reference/enums/EColor.md#red)"
    );
    assert_eq!(replace_code_references("nothing here", &document), "nothing here");
    assert_eq!(replace_code_references("", &document), "");
}

#[test]
fn snippets_in_a_page_are_put_in() {
    let document = document_with_an_enum_and_a_snippet();
    assert_eq!(
        replace_snippets("before\n```snippet\nusage\n```\nafter", &document),
        "before\n```cpp\na();\nb();\n```\nafter"
    );
    assert_eq!(
        replace_snippets("``` snippet\n  // usage\n  ```", &document),
        "```cpp\n  // a();\n  // b();\n  // ```"
    );
    assert_eq!(
        replace_snippets("```snippet\ngone\n```", &document),
        "```\nMissing snippet: gone\n```"
    );
}

#[test]
fn links_in_a_page_are_put_below_the_site_url() {
    assert_eq!(
        fix_site_references("[a](b.md)\n[c]( /d.md#x) [e](f.txt)", "/docs/", "reference/"),
        "[a](/docs/reference/b.md)\n[c](/docs/d.md#x) [e](f.txt)"
    );
}

#[test]
fn a_page_is_prepared_in_three_steps() {
    let document = document_with_an_enum_and_a_snippet();
    let page = "[`enum: EColor`]()\n```snippet\nusage\n```\n[next](next.md)";
    assert_eq!(
        preprocess_content(page, &document, &None, "reference/enums/"),
        "[**`EColor`**](/reference/enums/EColor.md)\n```cpp\na();\nb();\n```\n[next](/reference/enums/next.md)"
    );
    assert_eq!(
        preprocess_content("[next](/next.md)", &document, &Some("/site/".to_owned()), "x/"),
        "[next](/site/next.md)"
    );
}

fn argument(name: Option<&str>, doc_comments: Option<&str>) -> Argument {
    Argument {
        name: name.map(|n| n.to_owned()),
        value_type: "int32".to_owned(),
        default_value: None,
        doc_comments: doc_comments.map(|d| d.to_owned()),
    }
}

#[test]
fn entry_of_a_function_argument() {
    let comments = Some("<param name=\"Count\">How many.</param>".to_owned());
    let mut content = String::new();
    bake_function_argument(
        &argument(Some("Count"), Some("Own.")),
        "int32 Count",
        &comments,
        &mut content,
    );
    assert_eq!(
        content,
        "* ## __`Count`__\n\n    ```cpp\n    int32 Count\n    ```\n    \n    Own.\n    \n    How many.\n    \n\n"
    );
    let mut content = String::new();
    bake_function_argument(&argument(None, None), "int32", &comments, &mut content);
    assert_eq!(content, "* _Unnamed_\n\n    ```cpp\n    int32\n    ```\n    \n    \n    \n\n");
    let mut content = String::new();
    bake_function_argument(&argument(Some("Other"), None), "int32 Other", &comments, &mut content);
    assert_eq!(
        content,
        "* ## __`Other`__\n\n    ```cpp\n    int32 Other\n    ```\n    \n    \n    \n\n"
    );
    let mut content = String::new();
    bake_function_argument(&argument(Some("a(b"), None), "int32 x", &comments, &mut content);
    assert_eq!(content, "* ## __`a(b`__\n\n    ```cpp\n    int32 x\n    ```\n    \n    \n    \n\n");
}

#[test]
fn entry_of_a_delegate_argument() {
    let mut content = String::new();
    bake_delegate_argument(&argument(None, None), "int32 /*Value*/", &None, &mut content);
    assert_eq!(
        content,
        "* ## __`Value`__\n\n    ```cpp\n    int32 /*Value*/\n    ```\n    \n    \n    \n\n"
    );
    let mut content = String::new();
    bake_delegate_argument(&argument(None, None), "int32", &None, &mut content);
    assert_eq!(content, "* _Unnamed_\n\n    ```cpp\n    int32\n    ```\n    \n    \n    \n\n");
    let mut content = String::new();
    bake_delegate_argument(&argument(Some("V"), None), "int32 V", &None, &mut content);
    assert_eq!(content, "* ## __`V`__\n\n    ```cpp\n    int32 V\n    ```\n    \n    \n    \n\n");
    let mut content = "x".to_owned();
    append_argument_body("s", &None, &Some("d".to_owned()), &mut content);
    assert_eq!(content, "x    ```cpp\n    s\n    ```\n    \n    \n    \n    d\n    \n\n");
}

#[test]
fn numbers_in_decimal() {
    assert_eq!(decimal_text(0), "0");
    assert_eq!(decimal_text(7), "7");
    assert_eq!(decimal_text(10), "10");
    assert_eq!(decimal_text(4096), "4096");
    assert_eq!(decimal_text(1234567890), "1234567890");
    assert_eq!(decimal_text(usize::MAX), usize::MAX.to_string());
}

#[test]
fn page_of_an_enum() {
    let item = Enum {
        name: "EColor".to_owned(),
        doc_comments: Some("Colors.".to_owned()),
        specifiers: Some(Specifiers { attributes: vec![], meta: vec![] }),
        variants: vec![],
        filename: "Color.h".to_owned(),
        fileline: 12,
    };
    let mut content = String::new();
    bake_enum(&item, "enum class EColor {};", &mut content);
    assert_eq!(
        content,
        "# **Enum: `EColor`**\n\n```cpp\n//  Color.h : 12\n\nenum class EColor {};\n```\n\n---\n\n**_Reflection-enabled_**\n\n---\n\nColors.\n\n"
    );
}

#[test]
fn entry_of_a_property() {
    let item = property(Visibility::Public, Some("Doc."));
    let mut content = String::new();
    bake_property(&item, "int32 P;", &mut content, true);
    assert_eq!(
        content,
        "* # __`P`__\n\n    ```cpp\n    int32 P;\n    ```\n    \n    ---\n    \n    Doc.\n    \n\n"
    );
    let mut content = String::new();
    bake_property(&item, "int32 P;", &mut content, false);
    assert_eq!(
        content,
        "# **Property: `P`**\n\n```cpp\nint32 P;\n```\n\n---\n\nDoc.\n\n\n\n"
    );
}

fn function(name: &str, return_type: Option<&str>, arguments: Vec<Argument>) -> Function {
    Function {
        name: name.to_owned(),
        return_type: return_type.map(|r| r.to_owned()),
        arguments,
        template: None,
        is_virtual: false,
        is_const_this: false,
        is_override: false,
        is_static: false,
        specifiers: None,
        visibility: Visibility::Public,
        doc_comments: Some("<summary>Runs.</summary>".to_owned()),
        filename: "F.h".to_owned(),
        fileline: 3,
    }
}

#[test]
fn entry_of_a_function() {
    let item = function("Run", Some("void"), vec![]);
    let mut content = String::new();
    bake_function(&item, "void Run();", &vec![], &mut content, false);
    assert_eq!(
        content,
        "# **Function: `Run`**\n\n```cpp\n//  F.h : 3\n\nvoid Run();\n```\n\n<summary>\n\nRuns.</summary>\n\n\n\n"
    );
    let item = function("Get", Some("int32"), vec![argument(Some("A"), None)]);
    let mut content = String::new();
    bake_function(&item, "int32 Get(int32 A);", &vec!["int32 A".to_owned()], &mut content, true);
    let block = "```cpp\n//  F.h : 3\n\nint32 Get(int32 A);\n```\n\n<details>\n\n<summary>\n\nRuns.</summary>\n\n---\n\n# **Arguments**\n\n* ## __`A`__\n\n    ```cpp\n    int32 A\n    ```\n    \n    \n    \n\n\n\n---\n\n# **Returns**\n\n*\n    ```cpp\n    int32\n    ```\n    \n    \n    \n\n</details>\n\n";
    assert_eq!(content, format!("* # __`Get`__\n\n{}\n\n", indent(4, block)));
}

#[test]
fn page_of_a_delegate() {
    let item = Delegate {
        name: "FOnValue".to_owned(),
        multicast: false,
        dynamic: true,
        arguments: vec![argument(Some("Value"), None)],
        return_type: None,
        specifiers: None,
        doc_comments: None,
        filename: "D.h".to_owned(),
        fileline: 1,
    };
    let mut content = String::new();
    bake_delegate(&item, "DECLARE(FOnValue);", "void F(int32 Value);", &vec![], &mut content);
    assert_eq!(
        content,
        "# **Delegate: `FOnValue`**\n\n```cpp\n// Delegate type\nDECLARE(FOnValue);\n\n// Compatible function signtature\nvoid F(int32 Value);\n\n```\n\n---\n\n# **Parameters**\n\n* ## __`Value`__\n\n    ```cpp\n    \n    ```\n    \n    \n    \n\n\n\n"
    );
}

#[test]
fn page_of_a_struct() {
    let item = StructClass {
        mode: StructClassMode::Class,
        name: "UThing".to_owned(),
        doc_comments: Some("<summary>A thing.</summary>".to_owned()),
        specifiers: None,
        template: None,
        api: None,
        inherits: vec![],
        injects: vec![],
        properties: vec![property(Visibility::Public, Some("Doc."))],
        methods: vec![function("Run", Some("void"), vec![])],
        constructors: vec![],
        filename: "T.h".to_owned(),
        fileline: 20,
    };
    let methods = vec![FunctionText { signature: "void Run();".to_owned(), arguments: vec![] }];
    let mut content = String::new();
    bake_struct_class(&item, "class UThing;", &vec!["int32 P;".to_owned()], &methods, &mut content);
    let mut expected =
        "# **Class: `UThing`**\n\n```cpp\n//  T.h : 20\n\nclass UThing;\n```\n\n---\n\nA thing.\n\n---\n\n# **Properties**\n\n"
            .to_owned();
    bake_property(&item.properties[0], "int32 P;", &mut expected, true);
    expected.push_str("\n\n---\n\n# **Methods**\n\n");
    bake_function(&item.methods[0], "void Run();", &vec![], &mut expected, true);
    expected.push_str("\n\n");
    assert_eq!(content, expected);
    let mut empty = StructClass { properties: vec![], methods: vec![], ..item };
    empty.mode = StructClassMode::Struct;
    let mut content = String::new();
    bake_struct_class(&empty, "struct UThing;", &vec![], &vec![], &mut content);
    assert_eq!(
        content,
        "# **Struct: `UThing`**\n\n```cpp\n//  T.h : 20\n\nstruct UThing;\n```\n\n---\n\nA thing.\n\n"
    );
}

#[test]
fn sections_of_the_reference() {
    let mut index = "i".to_owned();
    let mut reference = "r".to_owned();
    let mut listing = bake_section_heading("Enums", "enums", &mut index, &mut reference);
    assert_eq!(index, "i  - [Enums](reference/enums.md)\n");
    assert_eq!(reference, "r\n## Enums\n");
    assert_eq!(listing, "# Enums\n\n");
    bake_section_entry("enums", "EColor", &mut index, &mut listing, &mut reference);
    assert_eq!(
        index,
        "i  - [Enums](reference/enums.md)\n    - [EColor](reference/enums/EColor.md)\n"
    );
    assert_eq!(listing, "# Enums\n\n- [`EColor`](reference/enums/EColor.md)\n");
    assert_eq!(reference, "r\n## Enums\n- [`EColor`](reference/enums/EColor.md)\n");
    assert_eq!(bake_reference_page("structs", "FPoint"), "reference/structs/FPoint.md");
}

#[test]
fn lines_of_a_book_index() {
    assert_eq!(parse_index_line(""), None);
    assert_eq!(parse_index_line("   \t"), None);
    assert_eq!(parse_index_line("  # a comment"), None);
    assert_eq!(
        parse_index_line(" intro.md "),
        Some(IndexLine { name: "intro.md".to_owned(), title: None })
    );
    assert_eq!(
        parse_index_line("guide : The Guide: part one "),
        Some(IndexLine { name: "guide".to_owned(), title: Some("The Guide: part one".to_owned()) })
    );
    assert_eq!(
        parse_index_line(":x"),
        Some(IndexLine { name: "".to_owned(), title: Some("x".to_owned()) })
    );
}

#[test]
fn pages_and_their_titles() {
    assert!(is_page("a.md"));
    assert!(is_page(".md"));
    assert!(!is_page("md"));
    assert!(!is_page("a.md "));
    assert!(!is_page("guide"));
    assert_eq!(page_title(&Some("Given".to_owned()), "# First\nrest", "a.md"), "Given");
    assert_eq!(page_title(&None, "## First page \nrest", "a.md"), "First page");
    assert_eq!(page_title(&None, "plain", "a.md"), "plain");
    assert_eq!(page_title(&None, "###", "a.md"), "");
    assert_eq!(page_title(&None, "", "a.md"), "a.md");
}

#[test]
fn entries_of_the_book_summary() {
    let mut index = "x".to_owned();
    bake_index_margin(0, &mut index);
    assert_eq!(index, "x");
    bake_index_margin(2, &mut index);
    assert_eq!(index, "x    ");
    let mut listing = String::new();
    bake_index_page("Intro", "guide/intro.md", "intro.md", &mut index, &mut listing);
    assert_eq!(index, "x    - [Intro](guide/intro.md)\n");
    assert_eq!(listing, "- [Intro](intro.md)\n");
    bake_index_directory("More", "guide/more", &mut listing);
    assert_eq!(listing, "- [Intro](intro.md)\n- [More](guide/more/index.md)\n");
}

fn book_file(name: &str, content: &str) -> BookFile {
    BookFile { name: name.to_owned(), content: content.to_owned() }
}

fn book() -> Vec<BookFile> {
    vec![
        book_file("index.txt", "# the book\nintro.md\nguide: The Guide\nmissing.md\n"),
        book_file("index.md", "Welcome."),
        book_file("intro.md", "# Introduction\nText."),
        book_file("guide/index.txt", "first.md: First"),
        book_file("guide/first.md", "One."),
    ]
}

#[test]
fn a_directory_of_the_book_is_opened_by_its_index() {
    let input = book();
    assert_eq!(
        open_book_directory(&None, &input),
        Some(OpenDirectory {
            path: "".to_owned(),
            lines: "# the book\nintro.md\nguide: The Guide\nmissing.md\n".to_owned(),
            listing: "Welcome.\n\n# Pages\n\n".to_owned(),
        })
    );
    assert_eq!(
        open_book_directory(&Some("guide".to_owned()), &input),
        Some(OpenDirectory {
            path: "guide/".to_owned(),
            lines: "first.md: First".to_owned(),
            listing: "# Pages\n\n".to_owned(),
        })
    );
    assert_eq!(open_book_directory(&Some("other".to_owned()), &input), None);
}

#[test]
fn lines_of_an_index_are_included_one_by_one() {
    let input = book();
    let mut output = vec![];
    let mut index = String::new();
    let mut listing = String::new();
    let next = include_index_line("", "# the book", &input, &mut output, &mut index, &mut listing, 1);
    assert_eq!((next, index.as_str(), listing.as_str(), output.len()), (None, "", "", 0));
    let next = include_index_line("", "intro.md", &input, &mut output, &mut index, &mut listing, 1);
    assert_eq!(next, None);
    assert_eq!(index, "  - [Introduction](intro.md)\n");
    assert_eq!(listing, "- [Introduction](intro.md)\n");
    assert_eq!(output, vec![book_file("src/intro.md", "# Introduction\nText.")]);
    let next =
        include_index_line("", "guide: The Guide", &input, &mut output, &mut index, &mut listing, 0);
    assert_eq!(next.as_deref(), Some("guide"));
    assert_eq!(index, "  - [Introduction](intro.md)\n- [The Guide](guide/index.md)\n");
    let next =
        include_index_line("guide/", "first.md: First", &input, &mut output, &mut index, &mut listing, 1);
    assert_eq!(next, None);
    assert_eq!(
        index,
        "  - [Introduction](intro.md)\n- [The Guide](guide/index.md)\n  - [First](guide/first.md)\n"
    );
    assert_eq!(listing, "- [Introduction](intro.md)\n- [First](first.md)\n");
    assert_eq!(output.len(), 2);
    assert_eq!(output[1], book_file("src/guide/first.md", "One."));
    let before = index.clone();
    let next = include_index_line("", "missing.md", &input, &mut output, &mut index, &mut listing, 2);
    assert_eq!(next, None);
    assert_eq!(index, format!("{}    ", before));
    assert_eq!(output.len(), 2);
    close_book_directory("guide/", "list".to_owned(), &mut output);
    assert_eq!(output[2], book_file("src/guide/index.md", "list"));
    close_book_directory("guide/", "again".to_owned(), &mut output);
    assert_eq!(output.len(), 3);
    assert_eq!(output[2], book_file("src/guide/index.md", "again"));
}

#[test]
fn the_book_is_included_directory_by_directory() {
    let input = book();
    let mut output = vec![];
    let mut index = "# Index\n\n".to_owned();
    include_book_index(&None, &input, &mut output, &mut index, 0);
    assert_eq!(
        index,
        "# Index\n\n- [Introduction](intro.md)\n- [The Guide](guide/index.md)\n  - [First](guide/first.md)\n"
    );
    assert_eq!(
        output,
        vec![
            book_file("src/intro.md", "# Introduction\nText."),
            book_file("src/guide/first.md", "One."),
            book_file("src/guide/index.md", "# Pages\n\n- [First](first.md)\n"),
            book_file("src/index.md", "Welcome.\n\n# Pages\n\n- [Introduction](intro.md)\n"),
        ]
    );
    let mut untouched = vec![];
    let mut index = String::new();
    include_book_index(&Some("nowhere".to_owned()), &input, &mut untouched, &mut index, 3);
    assert_eq!((untouched.len(), index.as_str()), (0, ""));
    let looping = vec![book_file("index.txt", ":again\n."), book_file("/index.txt", "x.md")];
    let mut output = vec![];
    let mut index = String::new();
    include_book_index(&None, &looping, &mut output, &mut index, 0);
    assert_eq!(index, "- [again](/index.md)\n  - [.](./index.md)\n");
    assert_eq!(output.len(), 2);
}
