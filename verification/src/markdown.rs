//! The markdown of the rendered book that depends on the document model
//! alone: indentation, specifiers, summaries, returned values, arguments,
//! and the pages of the entities.
use vstd::prelude::*;
use vstd::string::*;
use crate::document::{
    opt_specifiers, Argument, ArgumentView, Attribute, AttributeView, Delegate, DelegateView,
    Enum, EnumView, Function, FunctionView, Property, PropertyView, Specifiers, SpecifiersView,
    StructClass, StructClassMode, StructClassView,
};
use crate::text::{
    join, join_lines, lines_of, opt_text, same_text, str_lines, texts, views,
};

verus! {

/// `level` spaces.
pub open spec fn spaces(level: nat) -> Seq<char> {
    Seq::new(level, |i: int| ' ')
}

/// The text with `prefix` put before every line and the lines joined by
/// line feeds.
pub open spec fn prefixed(prefix: Seq<char>, content: Seq<char>) -> Seq<char> {
    join_lines(lines_of(content).map_values(|line: Seq<char>| prefix + line))
}

/// The text with every line moved right by `level` spaces and the lines
/// joined by line feeds; the text itself where `level` is 0.
pub open spec fn indented(level: nat, content: Seq<char>) -> Seq<char> {
    if level > 0 {
        prefixed(spaces(level), content)
    } else {
        content
    }
}

/// Puts `prefix` before every line of `content`.
pub fn prefix_lines(prefix: &str, content: &str) -> (r: String)
    ensures
        r@ == prefixed(prefix@, content@),
{
    let lines = str_lines(content);
    let ghost wanted = lines_of(content@).map_values(|line: Seq<char>| prefix@ + line);
    let mut out: Vec<String> = Vec::new();
    let mut i: usize = 0;
    while i < lines.len()
        invariant
            i <= lines.len(),
            texts(lines@) == lines_of(content@),
            wanted == lines_of(content@).map_values(|line: Seq<char>| prefix@ + line),
            texts(out@) =~= wanted.take(i as int),
        decreases lines.len() - i,
    {
        let mut line = prefix.to_owned();
        line.append(lines[i].as_str());
        let ghost before = out@;
        proof {
            assert(texts(lines@)[i as int] == lines@[i as int]@);
        }
        out.push(line);
        proof {
            assert(texts(out@) =~= texts(before).push(line@));
            assert(wanted.take(i + 1) =~= wanted.take(i as int).push(wanted[i as int]));
        }
        i += 1;
    }
    proof {
        assert(wanted.take(lines.len() as int) =~= wanted);
    }
    join(&out)
}

/// Moves every line of `content` right by `level` spaces.
pub fn indent(level: usize, content: &str) -> (r: String)
    ensures
        r@ == indented(level as nat, content@),
{
    if level == 0 {
        return content.to_owned();
    }
    let mut margin = String::new();
    let mut k: usize = 0;
    while k < level
        invariant
            k <= level,
            margin@ =~= spaces(k as nat),
        decreases level - k,
    {
        proof {
            reveal_strlit(" ");
            assert(" "@ =~= seq![' ']);
        }
        margin.append(" ");
        k += 1;
    }
    prefix_lines(margin.as_str(), content)
}

/// `content` followed by the list entry of one attribute.
pub open spec fn with_attribute(content: Seq<char>, attribute: AttributeView) -> Seq<char> {
    match attribute {
        AttributeView::Single(name) => content + "- **"@ + name + "**\n"@,
        AttributeView::Pair { key, value } => content + "- **"@ + key + "** = _"@ + value + "_\n"@,
    }
}

/// `content` followed by the list entries of the first `n` attributes.
pub open spec fn with_attributes(content: Seq<char>, attributes: Seq<AttributeView>, n: nat)
    -> Seq<char>
    decreases n,
{
    if n == 0 {
        content
    } else {
        with_attribute(with_attributes(content, attributes, (n - 1) as nat), attributes[n - 1])
    }
}

/// `content` followed by a headed list of the attributes; `content` itself
/// where there is no attribute.
pub open spec fn with_attribute_section(
    content: Seq<char>,
    heading: Seq<char>,
    attributes: Seq<AttributeView>,
) -> Seq<char> {
    if attributes.len() > 0 {
        with_attributes(content + heading, attributes, attributes.len())
    } else {
        content
    }
}

/// `content` followed by the rendering of the specifiers: the reflection
/// marker, the specifiers and the meta specifiers, each list under its
/// heading and left out where it is empty, and a closing line feed.
pub open spec fn with_specifiers(content: Seq<char>, specifiers: SpecifiersView) -> Seq<char> {
    with_attribute_section(
        with_attribute_section(
            content + "**_Reflection-enabled_**\n"@,
            "\n### Specifiers:\n"@,
            specifiers.attributes,
        ),
        "\n### Meta Specifiers:\n"@,
        specifiers.meta,
    ) + "\n"@
}

fn bake_attributes(heading: &str, attributes: &Vec<Attribute>, content: &mut String)
    ensures
        final(content)@ == with_attribute_section(old(content)@, heading@, views(attributes@)),
{
    if attributes.len() > 0 {
        content.append(heading);
        let ghost start = content@;
        let mut i: usize = 0;
        while i < attributes.len()
            invariant
                i <= attributes.len(),
                content@ == with_attributes(start, views(attributes@), i as nat),
            decreases attributes.len() - i,
        {
            match &attributes[i] {
                Attribute::Single(name) => {
                    content.append("- **");
                    content.append(name.as_str());
                    content.append("**\n");
                },
                Attribute::Pair { key, value } => {
                    content.append("- **");
                    content.append(key.as_str());
                    content.append("** = _");
                    content.append(value.as_str());
                    content.append("_\n");
                },
            }
            i += 1;
        }
    }
}

/// Appends the rendering of the specifiers to `content`.
pub fn bake_specifiers(specifiers: &Specifiers, content: &mut String)
    ensures
        final(content)@ == with_specifiers(old(content)@, specifiers@),
{
    content.append("**_Reflection-enabled_**\n");
    bake_attributes("\n### Specifiers:\n", &specifiers.attributes, content);
    bake_attributes("\n### Meta Specifiers:\n", &specifiers.meta, content);
    content.append("\n");
}

/// What capture group `group` of the regular expression `pattern` holds in
/// the leftmost match in `text`; `None` where the pattern does not compile,
/// does not match, or the group took no part in the match.
pub uninterp spec fn regex_group(pattern: Seq<char>, text: Seq<char>, group: nat) -> Option<
    Seq<char>,
>;

/// `Regex::new`, then `Regex::captures` and `Captures::get` on the compiled
/// expression: the text of one capture group of the leftmost match, which
/// [`regex_group`] names. A pattern that does not compile gives `None`.
#[verifier::external_body]
pub(crate) fn regex_capture(pattern: &str, text: &str, group: usize) -> (r: Option<String>)
    ensures
        opt_text(r) == regex_group(pattern@, text@, group as nat),
{
    match regex::Regex::new(pattern) {
        Ok(expression) => expression.captures(text).and_then(|found| found.get(group)).map(
            |part| part.as_str().to_owned(),
        ),
        Err(_) => None,
    }
}

/// The pattern that finds the summary of a doc comment.
pub open spec fn summary_pattern() -> Seq<char> {
    "(?ms).*<summary>(.*)</summary>.*"@
}

/// The pattern that finds the description of the returned value.
pub open spec fn returns_pattern() -> Seq<char> {
    "<returns>(.*)</returns>"@
}

/// The summary that the pattern finds in a doc comment, if any.
pub open spec fn summary_of(comments: Option<Seq<char>>) -> Option<Seq<char>> {
    match comments {
        Some(text) => regex_group(summary_pattern(), text, 1),
        None => None,
    }
}

/// The description of the returned value that the pattern finds in a doc
/// comment, if any.
pub open spec fn returns_of(comments: Option<Seq<char>>) -> Option<Seq<char>> {
    match comments {
        Some(text) => regex_group(returns_pattern(), text, 1),
        None => None,
    }
}

/// `content` followed by the summary of a doc comment: the summary that was
/// found, between summary tags where `tagged`; the whole comment where no
/// summary was found; nothing where there is no comment.
pub open spec fn with_summary(
    content: Seq<char>,
    comments: Option<Seq<char>>,
    summary: Option<Seq<char>>,
    tagged: bool,
) -> Seq<char> {
    match comments {
        None => content,
        Some(text) => match summary {
            Some(found) => if tagged {
                content + "<summary>\n\n"@ + found + "</summary>"@
            } else {
                content + found
            },
            None => content + text,
        },
    }
}

/// Appends the summary of a doc comment, given what the summary pattern
/// found in it.
pub fn append_summary(
    comments: &Option<String>,
    summary: &Option<String>,
    tagged: bool,
    content: &mut String,
)
    ensures
        final(content)@ == with_summary(
            old(content)@,
            opt_text(*comments),
            opt_text(*summary),
            tagged,
        ),
{
    match comments {
        None => {},
        Some(text) => match summary {
            Some(found) => {
                if tagged {
                    content.append("<summary>\n\n");
                    content.append(found.as_str());
                    content.append("</summary>");
                } else {
                    content.append(found.as_str());
                }
            },
            None => content.append(text.as_str()),
        },
    }
}

fn find_summary(comments: &Option<String>) -> (r: Option<String>)
    ensures
        opt_text(r) == summary_of(opt_text(*comments)),
{
    match comments {
        Some(text) => regex_capture("(?ms).*<summary>(.*)</summary>.*", text.as_str(), 1),
        None => None,
    }
}

/// Appends the summary of the doc comment of a struct or class, untagged.
pub fn bake_struct_class_comments(doc_comments: &Option<String>, content: &mut String)
    ensures
        final(content)@ == with_summary(
            old(content)@,
            opt_text(*doc_comments),
            summary_of(opt_text(*doc_comments)),
            false,
        ),
{
    let summary = find_summary(doc_comments);
    append_summary(doc_comments, &summary, false, content);
}

/// Appends the summary of the doc comment of a delegate, between summary
/// tags.
pub fn bake_delegate_comments(doc_comments: &Option<String>, content: &mut String)
    ensures
        final(content)@ == with_summary(
            old(content)@,
            opt_text(*doc_comments),
            summary_of(opt_text(*doc_comments)),
            true,
        ),
{
    let summary = find_summary(doc_comments);
    append_summary(doc_comments, &summary, true, content);
}

/// Appends the summary of the doc comment of a function, between summary
/// tags.
pub fn bake_function_comments(doc_comments: &Option<String>, content: &mut String)
    ensures
        final(content)@ == with_summary(
            old(content)@,
            opt_text(*doc_comments),
            summary_of(opt_text(*doc_comments)),
            true,
        ),
{
    let summary = find_summary(doc_comments);
    append_summary(doc_comments, &summary, true, content);
}

/// The text of an optional description; empty where there is none.
pub open spec fn text_or_empty(text: Option<Seq<char>>) -> Seq<char> {
    match text {
        Some(found) => found,
        None => Seq::empty(),
    }
}

/// `content` followed by the section on the returned value: the type in a
/// code block and the description, indented by four spaces under a list
/// marker. Nothing is added where there is no return type or it is `void`.
pub open spec fn with_returns(
    content: Seq<char>,
    return_type: Option<Seq<char>>,
    description: Option<Seq<char>>,
) -> Seq<char> {
    match return_type {
        Some(value_type) if value_type != "void"@ => content + "---\n\n# **Returns**\n\n"@
            + "*\n"@ + indented(
            4,
            Seq::<char>::empty() + "```cpp\n"@ + value_type + "\n```\n\n"@ + text_or_empty(
                description,
            ) + "\n\n"@,
        ) + "\n\n"@,
        _ => content,
    }
}

/// Appends the section on the returned value, given what the returns
/// pattern found in the doc comment.
pub fn append_returns(
    return_type: &Option<String>,
    description: &Option<String>,
    content: &mut String,
)
    ensures
        final(content)@ == with_returns(
            old(content)@,
            opt_text(*return_type),
            opt_text(*description),
        ),
{
    match return_type {
        Some(value_type) => {
            if !same_text(value_type, "void") {
                content.append("---\n\n# **Returns**\n\n");
                content.append("*\n");
                let mut block = String::new();
                block.append("```cpp\n");
                block.append(value_type.as_str());
                block.append("\n```\n\n");
                match description {
                    Some(found) => block.append(found.as_str()),
                    None => {
                        proof {
                            assert(block@ + Seq::<char>::empty() =~= block@);
                        }
                    },
                }
                block.append("\n\n");
                let shifted = indent(4, block.as_str());
                content.append(shifted.as_str());
                content.append("\n\n");
            }
        },
        None => {},
    }
}

fn find_returns(comments: &Option<String>) -> (r: Option<String>)
    ensures
        opt_text(r) == returns_of(opt_text(*comments)),
{
    match comments {
        Some(text) => regex_capture("<returns>(.*)</returns>", text.as_str(), 1),
        None => None,
    }
}

/// Appends the section on the value that a function returns.
pub fn bake_function_return_type(
    return_type: &Option<String>,
    doc_comments: &Option<String>,
    content: &mut String,
)
    ensures
        final(content)@ == with_returns(
            old(content)@,
            opt_text(*return_type),
            returns_of(opt_text(*doc_comments)),
        ),
{
    let description = find_returns(doc_comments);
    append_returns(return_type, &description, content);
}

/// Appends the section on the value that a delegate returns.
pub fn bake_delegate_return_type(
    return_type: &Option<String>,
    doc_comments: &Option<String>,
    content: &mut String,
)
    ensures
        final(content)@ == with_returns(
            old(content)@,
            opt_text(*return_type),
            returns_of(opt_text(*doc_comments)),
        ),
{
    let description = find_returns(doc_comments);
    append_returns(return_type, &description, content);
}

/// The pattern that finds the description of the parameter `name` in a doc
/// comment.
pub open spec fn param_pattern(name: Seq<char>) -> Seq<char> {
    Seq::<char>::empty() + "<param name=\\\""@ + name + "\\\">(.*)</param>"@
}

/// The description of an argument that the doc comment of its function or
/// delegate holds, if the argument is named and the comment describes it.
pub open spec fn param_doc_of(comments: Option<Seq<char>>, name: Option<Seq<char>>) -> Option<
    Seq<char>,
> {
    match (comments, name) {
        (Some(text), Some(name)) => regex_group(param_pattern(name), text, 1),
        _ => None,
    }
}

/// The pattern that finds a name that a declaration holds in a comment.
pub open spec fn hidden_name_pattern() -> Seq<char> {
    "(?ms)/\\*(.*)\\*/"@
}

/// `block` followed by the description of a parameter, set off by an empty
/// line, where there is one.
pub open spec fn with_param_doc(block: Seq<char>, param_doc: Option<Seq<char>>) -> Seq<char> {
    match param_doc {
        Some(text) => block + "\n\n"@ + text,
        None => block,
    }
}

/// `content` followed by the body of an argument's entry: its declaration
/// in a code block, its own doc comment and the description that the doc
/// comment of its function gives, indented by four spaces.
pub open spec fn with_argument_body(
    content: Seq<char>,
    signature: Seq<char>,
    doc_comments: Option<Seq<char>>,
    param_doc: Option<Seq<char>>,
) -> Seq<char> {
    content + indented(
        4,
        with_param_doc(
            Seq::<char>::empty() + "```cpp\n"@ + signature + "\n```\n\n"@ + text_or_empty(
                doc_comments,
            ),
            param_doc,
        ) + "\n\n"@,
    ) + "\n\n"@
}

/// `content` followed by the heading of an argument's entry: its name in
/// code, or a note that it has none.
pub open spec fn with_argument_heading(content: Seq<char>, name: Option<Seq<char>>) -> Seq<char> {
    match name {
        Some(name) => content + "* ## __`"@ + name + "`__\n\n"@,
        None => content + "* _Unnamed_\n\n"@,
    }
}

/// Appends the heading of an argument's entry.
pub fn append_argument_heading(name: &Option<String>, content: &mut String)
    ensures
        final(content)@ == with_argument_heading(old(content)@, opt_text(*name)),
{
    match name {
        Some(name) => {
            content.append("* ## __`");
            content.append(name.as_str());
            content.append("`__\n\n");
        },
        None => content.append("* _Unnamed_\n\n"),
    }
}

/// Appends the body of an argument's entry, given the description that was
/// found in the doc comment of its function or delegate.
pub fn append_argument_body(
    signature: &str,
    doc_comments: &Option<String>,
    param_doc: &Option<String>,
    content: &mut String,
)
    ensures
        final(content)@ == with_argument_body(
            old(content)@,
            signature@,
            opt_text(*doc_comments),
            opt_text(*param_doc),
        ),
{
    let mut block = String::new();
    block.append("```cpp\n");
    block.append(signature);
    block.append("\n```\n\n");
    match doc_comments {
        Some(text) => block.append(text.as_str()),
        None => {
            proof {
                assert(block@ + Seq::<char>::empty() =~= block@);
            }
        },
    }
    match param_doc {
        Some(text) => {
            block.append("\n\n");
            block.append(text.as_str());
        },
        None => {},
    }
    block.append("\n\n");
    let shifted = indent(4, block.as_str());
    content.append(shifted.as_str());
    content.append("\n\n");
}

fn find_param_doc(comments: &Option<String>, name: &Option<String>) -> (r: Option<String>)
    ensures
        opt_text(r) == param_doc_of(opt_text(*comments), opt_text(*name)),
{
    match comments {
        Some(text) => match name {
            Some(name) => {
                let mut pattern = String::new();
                pattern.append("<param name=\\\"");
                pattern.append(name.as_str());
                pattern.append("\\\">(.*)</param>");
                regex_capture(pattern.as_str(), text.as_str(), 1)
            },
            None => None,
        },
        None => None,
    }
}

/// Appends the entry of an argument of a function. `signature` is the
/// declaration of the argument as it is to be shown.
pub fn bake_function_argument(
    item: &Argument,
    signature: &str,
    fun_comments: &Option<String>,
    content: &mut String,
)
    ensures
        final(content)@ == with_argument_body(
            with_argument_heading(old(content)@, opt_text(item.name)),
            signature@,
            opt_text(item.doc_comments),
            param_doc_of(opt_text(*fun_comments), opt_text(item.name)),
        ),
{
    append_argument_heading(&item.name, content);
    let param_doc = find_param_doc(fun_comments, &item.name);
    append_argument_body(signature, &item.doc_comments, &param_doc, content);
}

/// The name that heads the entry of an argument of a delegate: its own, or
/// the one that its declaration holds in a comment.
pub open spec fn delegate_argument_name(name: Option<Seq<char>>, signature: Seq<char>) -> Option<
    Seq<char>,
> {
    match name {
        Some(name) => Some(name),
        None => regex_group(hidden_name_pattern(), signature, 1),
    }
}

/// Appends the entry of an argument of a delegate. `signature` is the
/// declaration of the argument as it is to be shown; an argument without a
/// name is headed by the name that the declaration holds in a comment, if
/// there is one.
pub fn bake_delegate_argument(
    item: &Argument,
    signature: &str,
    fun_comments: &Option<String>,
    content: &mut String,
)
    ensures
        final(content)@ == with_argument_body(
            with_argument_heading(
                old(content)@,
                delegate_argument_name(opt_text(item.name), signature@),
            ),
            signature@,
            opt_text(item.doc_comments),
            param_doc_of(opt_text(*fun_comments), opt_text(item.name)),
        ),
{
    match &item.name {
        Some(_) => append_argument_heading(&item.name, content),
        None => {
            let hidden = regex_capture("(?ms)/\\*(.*)\\*/", signature, 1);
            append_argument_heading(&hidden, content);
        },
    }
    let param_doc = find_param_doc(fun_comments, &item.name);
    append_argument_body(signature, &item.doc_comments, &param_doc, content);
}

/// The decimal digit of a number below ten.
pub open spec fn digit(d: nat) -> Seq<char> {
    if d == 0 {
        "0"@
    } else if d == 1 {
        "1"@
    } else if d == 2 {
        "2"@
    } else if d == 3 {
        "3"@
    } else if d == 4 {
        "4"@
    } else if d == 5 {
        "5"@
    } else if d == 6 {
        "6"@
    } else if d == 7 {
        "7"@
    } else if d == 8 {
        "8"@
    } else {
        "9"@
    }
}

/// A number in decimal digits, without leading zeros.
pub open spec fn decimal(n: nat) -> Seq<char>
    decreases n,
{
    if n < 10 {
        digit(n)
    } else {
        decimal(n / 10) + digit(n % 10)
    }
}

fn digit_text(d: usize) -> (r: &'static str)
    requires
        d < 10,
    ensures
        r@ == digit(d as nat),
{
    if d == 0 {
        "0"
    } else if d == 1 {
        "1"
    } else if d == 2 {
        "2"
    } else if d == 3 {
        "3"
    } else if d == 4 {
        "4"
    } else if d == 5 {
        "5"
    } else if d == 6 {
        "6"
    } else if d == 7 {
        "7"
    } else if d == 8 {
        "8"
    } else {
        "9"
    }
}

/// Writes a number in decimal digits.
pub fn decimal_text(n: usize) -> (r: String)
    ensures
        r@ == decimal(n as nat),
    decreases n,
{
    if n < 10 {
        digit_text(n).to_owned()
    } else {
        let mut out = decimal_text(n / 10);
        out.append(digit_text(n % 10));
        out
    }
}

/// `content` followed by the specifiers between rules, where there are any.
pub open spec fn with_optional_specifiers(
    content: Seq<char>,
    specifiers: Option<SpecifiersView>,
) -> Seq<char> {
    match specifiers {
        Some(specifiers) => with_specifiers(content + "---\n\n"@, specifiers),
        None => content,
    }
}

fn bake_optional_specifiers(specifiers: &Option<Specifiers>, content: &mut String)
    ensures
        final(content)@ == with_optional_specifiers(
            old(content)@,
            opt_specifiers(*specifiers),
        ),
{
    match specifiers {
        Some(specifiers) => {
            content.append("---\n\n");
            bake_specifiers(specifiers, content);
        },
        None => {},
    }
}

/// `content` followed by a code block that holds the place of a
/// declaration in the sources and the declaration.
pub open spec fn with_located_declaration(
    content: Seq<char>,
    filename: Seq<char>,
    fileline: nat,
    signature: Seq<char>,
) -> Seq<char> {
    content + "```cpp\n//  "@ + filename + " : "@ + decimal(fileline) + "\n\n"@ + signature
        + "\n```\n\n"@
}

fn bake_located_declaration(
    filename: &String,
    fileline: usize,
    signature: &str,
    content: &mut String,
)
    ensures
        final(content)@ == with_located_declaration(
            old(content)@,
            filename@,
            fileline as nat,
            signature@,
        ),
{
    content.append("```cpp\n//  ");
    content.append(filename.as_str());
    content.append(" : ");
    let line = decimal_text(fileline);
    content.append(line.as_str());
    content.append("\n\n");
    content.append(signature);
    content.append("\n```\n\n");
}

fn append_optional(text: &Option<String>, content: &mut String)
    ensures
        final(content)@ == old(content)@ + text_or_empty(opt_text(*text)),
{
    match text {
        Some(found) => content.append(found.as_str()),
        None => {
            proof {
                assert(content@ + Seq::<char>::empty() =~= content@);
            }
        },
    }
}

/// `content` followed by the page of an enum: heading, declaration,
/// specifiers and doc comment.
pub open spec fn with_enum(content: Seq<char>, item: EnumView, signature: Seq<char>) -> Seq<char> {
    with_optional_specifiers(
        with_located_declaration(
            content + "# **Enum: `"@ + item.name + "`**\n\n"@,
            item.filename,
            item.fileline,
            signature,
        ),
        item.specifiers,
    ) + "---\n\n"@ + text_or_empty(item.doc_comments) + "\n\n"@
}

/// Appends the page of an enum. `signature` is the declaration of the enum
/// as it is to be shown.
pub fn bake_enum(item: &Enum, signature: &str, content: &mut String)
    ensures
        final(content)@ == with_enum(old(content)@, item@, signature@),
{
    content.append("# **Enum: `");
    content.append(item.name.as_str());
    content.append("`**\n\n");
    bake_located_declaration(&item.filename, item.fileline, signature, content);
    bake_optional_specifiers(&item.specifiers, content);
    content.append("---\n\n");
    append_optional(&item.doc_comments, content);
    content.append("\n\n");
}

/// The heading of a member in the list of its type, or of an entity on a
/// page of its own.
pub open spec fn with_heading(content: Seq<char>, kind: Seq<char>, name: Seq<char>, member: bool)
    -> Seq<char> {
    if member {
        content + "* # __`"@ + name + "`__\n\n"@
    } else {
        content + "# **"@ + kind + ": `"@ + name + "`**\n\n"@
    }
}

fn bake_heading(kind: &str, name: &String, member: bool, content: &mut String)
    ensures
        final(content)@ == with_heading(old(content)@, kind@, name@, member),
{
    if member {
        content.append("* # __`");
        content.append(name.as_str());
        content.append("`__\n\n");
    } else {
        content.append("# **");
        content.append(kind);
        content.append(": `");
        content.append(name.as_str());
        content.append("`**\n\n");
    }
}

/// The level by which the entry of a member is indented: four spaces in
/// the list of its type, none on a page of its own.
pub open spec fn member_level(member: bool) -> nat {
    if member {
        4
    } else {
        0
    }
}

/// `content` followed by the entry of a property: heading, then
/// declaration, specifiers and doc comment, indented where it is a member.
pub open spec fn with_property(
    content: Seq<char>,
    item: PropertyView,
    signature: Seq<char>,
    member: bool,
) -> Seq<char> {
    with_heading(content, "Property"@, item.name, member) + indented(
        member_level(member),
        with_optional_specifiers(
            Seq::<char>::empty() + "```cpp\n"@ + signature + "\n```\n\n"@,
            item.specifiers,
        ) + "---\n\n"@ + text_or_empty(item.doc_comments) + "\n\n"@,
    ) + "\n\n"@
}

/// Appends the entry of a property. `signature` is the declaration of the
/// property as it is to be shown.
pub fn bake_property(item: &Property, signature: &str, content: &mut String, member: bool)
    ensures
        final(content)@ == with_property(old(content)@, item@, signature@, member),
{
    bake_heading("Property", &item.name, member, content);
    let level: usize = if member {
        4
    } else {
        0
    };
    let mut block = String::new();
    block.append("```cpp\n");
    block.append(signature);
    block.append("\n```\n\n");
    bake_optional_specifiers(&item.specifiers, &mut block);
    block.append("---\n\n");
    append_optional(&item.doc_comments, &mut block);
    block.append("\n\n");
    let shifted = indent(level, block.as_str());
    content.append(shifted.as_str());
    content.append("\n\n");
}

/// The `i`-th of `items`, or the empty text where there is none.
pub open spec fn text_at(items: Seq<Seq<char>>, i: int) -> Seq<char> {
    if 0 <= i < items.len() {
        items[i]
    } else {
        Seq::empty()
    }
}

/// `content` followed by the entries of the first `n` arguments of a
/// function, each with its declaration from `signatures`.
pub open spec fn with_function_arguments(
    content: Seq<char>,
    arguments: Seq<ArgumentView>,
    signatures: Seq<Seq<char>>,
    comments: Option<Seq<char>>,
    n: nat,
) -> Seq<char>
    decreases n,
{
    if n == 0 {
        content
    } else {
        let argument = arguments[n - 1];
        with_argument_body(
            with_argument_heading(
                with_function_arguments(content, arguments, signatures, comments, (n - 1) as nat),
                argument.name,
            ),
            text_at(signatures, n - 1),
            argument.doc_comments,
            param_doc_of(comments, argument.name),
        )
    }
}

/// `content` followed by the entries of the first `n` arguments of a
/// delegate, each with its declaration from `signatures`.
pub open spec fn with_delegate_arguments(
    content: Seq<char>,
    arguments: Seq<ArgumentView>,
    signatures: Seq<Seq<char>>,
    comments: Option<Seq<char>>,
    n: nat,
) -> Seq<char>
    decreases n,
{
    if n == 0 {
        content
    } else {
        let argument = arguments[n - 1];
        with_argument_body(
            with_argument_heading(
                with_delegate_arguments(content, arguments, signatures, comments, (n - 1) as nat),
                delegate_argument_name(argument.name, text_at(signatures, n - 1)),
            ),
            text_at(signatures, n - 1),
            argument.doc_comments,
            param_doc_of(comments, argument.name),
        )
    }
}

fn signature_at(signatures: &Vec<String>, i: usize) -> (r: String)
    ensures
        r@ == text_at(texts(signatures@), i as int),
{
    if i < signatures.len() {
        signatures[i].clone()
    } else {
        String::new()
    }
}

/// The body of the entry of a function, before it is indented.
pub open spec fn function_block(
    item: FunctionView,
    signature: Seq<char>,
    arguments: Seq<Seq<char>>,
    member: bool,
) -> Seq<char> {
    let declared = with_located_declaration(
        Seq::empty(),
        item.filename,
        item.fileline,
        signature,
    );
    let opened = if member {
        declared + "<details>\n\n"@
    } else {
        declared
    };
    let described = with_summary(
        with_optional_specifiers(opened, item.specifiers),
        item.doc_comments,
        summary_of(item.doc_comments),
        true,
    ) + "\n\n"@;
    let listed = if item.arguments.len() > 0 {
        with_function_arguments(
            described + "---\n\n# **Arguments**\n\n"@,
            item.arguments,
            arguments,
            item.doc_comments,
            item.arguments.len(),
        ) + "\n\n"@
    } else {
        described
    };
    let returned = with_returns(listed, item.return_type, returns_of(item.doc_comments));
    if member {
        returned + "</details>\n\n"@
    } else {
        returned
    }
}

/// `content` followed by the entry of a function: heading, then
/// declaration, specifiers, summary, arguments and returned value, folded
/// and indented where it is a member.
pub open spec fn with_function(
    content: Seq<char>,
    item: FunctionView,
    signature: Seq<char>,
    arguments: Seq<Seq<char>>,
    member: bool,
) -> Seq<char> {
    with_heading(content, "Function"@, item.name, member) + indented(
        member_level(member),
        function_block(item, signature, arguments, member),
    ) + "\n\n"@
}

/// Appends the entry of a function. `signature` is the declaration of the
/// function as it is to be shown, `arguments` those of its arguments in
/// order; an argument beyond them is shown without a declaration.
pub fn bake_function(
    item: &Function,
    signature: &str,
    arguments: &Vec<String>,
    content: &mut String,
    member: bool,
)
    ensures
        final(content)@ == with_function(
            old(content)@,
            item@,
            signature@,
            texts(arguments@),
            member,
        ),
{
    bake_heading("Function", &item.name, member, content);
    let level: usize = if member {
        4
    } else {
        0
    };
    let mut block = String::new();
    bake_located_declaration(&item.filename, item.fileline, signature, &mut block);
    if member {
        block.append("<details>\n\n");
    }
    bake_optional_specifiers(&item.specifiers, &mut block);
    bake_function_comments(&item.doc_comments, &mut block);
    block.append("\n\n");
    if item.arguments.len() > 0 {
        block.append("---\n\n# **Arguments**\n\n");
        let ghost start = block@;
        let mut i: usize = 0;
        while i < item.arguments.len()
            invariant
                i <= item.arguments.len(),
                block@ == with_function_arguments(
                    start,
                    item@.arguments,
                    texts(arguments@),
                    item@.doc_comments,
                    i as nat,
                ),
            decreases item.arguments.len() - i,
        {
            let shown = signature_at(arguments, i);
            proof {
                assert(item@.arguments[i as int] == item.arguments[i as int]@);
            }
            bake_function_argument(
                &item.arguments[i],
                shown.as_str(),
                &item.doc_comments,
                &mut block,
            );
            i += 1;
        }
        block.append("\n\n");
    }
    bake_function_return_type(&item.return_type, &item.doc_comments, &mut block);
    if member {
        block.append("</details>\n\n");
    }
    let shifted = indent(level, block.as_str());
    content.append(shifted.as_str());
    content.append("\n\n");
}

/// `content` followed by the page of a delegate: heading, the declaration
/// and the signature of a compatible function, specifiers, summary,
/// parameters and returned value.
pub open spec fn with_delegate(
    content: Seq<char>,
    item: DelegateView,
    signature: Seq<char>,
    callback_signature: Seq<char>,
    arguments: Seq<Seq<char>>,
) -> Seq<char> {
    let described = with_summary(
        with_optional_specifiers(
            content + "# **Delegate: `"@ + item.name + "`**\n\n"@
                + "```cpp\n// Delegate type\n"@ + signature
                + "\n\n// Compatible function signtature\n"@ + callback_signature
                + "\n\n```\n\n"@,
            item.specifiers,
        ),
        item.doc_comments,
        summary_of(item.doc_comments),
        true,
    );
    let listed = if item.arguments.len() > 0 {
        with_delegate_arguments(
            described + "---\n\n# **Parameters**\n\n"@,
            item.arguments,
            arguments,
            item.doc_comments,
            item.arguments.len(),
        )
    } else {
        described
    };
    with_returns(listed, item.return_type, returns_of(item.doc_comments)) + "\n\n"@
}

/// Appends the page of a delegate. `signature` is the declaration of the
/// delegate as it is to be shown, `callback_signature` that of a function
/// that fits it, `arguments` those of its arguments in order.
pub fn bake_delegate(
    item: &Delegate,
    signature: &str,
    callback_signature: &str,
    arguments: &Vec<String>,
    content: &mut String,
)
    ensures
        final(content)@ == with_delegate(
            old(content)@,
            item@,
            signature@,
            callback_signature@,
            texts(arguments@),
        ),
{
    content.append("# **Delegate: `");
    content.append(item.name.as_str());
    content.append("`**\n\n");
    content.append("```cpp\n// Delegate type\n");
    content.append(signature);
    content.append("\n\n// Compatible function signtature\n");
    content.append(callback_signature);
    content.append("\n\n```\n\n");
    bake_optional_specifiers(&item.specifiers, content);
    bake_delegate_comments(&item.doc_comments, content);
    if item.arguments.len() > 0 {
        content.append("---\n\n# **Parameters**\n\n");
        let ghost start = content@;
        let mut i: usize = 0;
        while i < item.arguments.len()
            invariant
                i <= item.arguments.len(),
                content@ == with_delegate_arguments(
                    start,
                    item@.arguments,
                    texts(arguments@),
                    item@.doc_comments,
                    i as nat,
                ),
            decreases item.arguments.len() - i,
        {
            let shown = signature_at(arguments, i);
            proof {
                assert(item@.arguments[i as int] == item.arguments[i as int]@);
            }
            bake_delegate_argument(
                &item.arguments[i],
                shown.as_str(),
                &item.doc_comments,
                content,
            );
            i += 1;
        }
    }
    bake_delegate_return_type(&item.return_type, &item.doc_comments, content);
    content.append("\n\n");
}

/// The declarations of a method and of its arguments, as they are to be
/// shown.
#[derive(Clone, Debug, PartialEq, Eq)]
pub struct FunctionText {
    pub signature: String,
    pub arguments: Vec<String>,
}

pub struct FunctionTextView {
    pub signature: Seq<char>,
    pub arguments: Seq<Seq<char>>,
}

impl View for FunctionText {
    type V = FunctionTextView;

    open spec fn view(&self) -> FunctionTextView {
        FunctionTextView { signature: self.signature@, arguments: texts(self.arguments@) }
    }
}

/// The `i`-th of `items`, or empty declarations where there is none.
pub open spec fn function_text_at(items: Seq<FunctionTextView>, i: int) -> FunctionTextView {
    if 0 <= i < items.len() {
        items[i]
    } else {
        FunctionTextView { signature: Seq::empty(), arguments: Seq::empty() }
    }
}

/// `content` followed by the entries of the first `n` properties.
pub open spec fn with_properties(
    content: Seq<char>,
    properties: Seq<PropertyView>,
    signatures: Seq<Seq<char>>,
    n: nat,
) -> Seq<char>
    decreases n,
{
    if n == 0 {
        content
    } else {
        with_property(
            with_properties(content, properties, signatures, (n - 1) as nat),
            properties[n - 1],
            text_at(signatures, n - 1),
            true,
        )
    }
}

/// `content` followed by the entries of the first `n` methods.
pub open spec fn with_methods(
    content: Seq<char>,
    methods: Seq<FunctionView>,
    declarations: Seq<FunctionTextView>,
    n: nat,
) -> Seq<char>
    decreases n,
{
    if n == 0 {
        content
    } else {
        with_function(
            with_methods(content, methods, declarations, (n - 1) as nat),
            methods[n - 1],
            function_text_at(declarations, n - 1).signature,
            function_text_at(declarations, n - 1).arguments,
            true,
        )
    }
}

/// The word that heads the page of a struct or of a class.
pub open spec fn mode_word(mode: StructClassMode) -> Seq<char> {
    match mode {
        StructClassMode::Struct => "Struct"@,
        StructClassMode::Class => "Class"@,
    }
}

/// `content` followed by the page of a struct or class: heading,
/// declaration, specifiers, summary, and the lists of its properties and of
/// its methods, each left out where it is empty.
pub open spec fn with_struct_class(
    content: Seq<char>,
    item: StructClassView,
    signature: Seq<char>,
    properties: Seq<Seq<char>>,
    methods: Seq<FunctionTextView>,
) -> Seq<char> {
    let described = with_summary(
        with_optional_specifiers(
            with_located_declaration(
                with_heading(content, mode_word(item.mode), item.name, false),
                item.filename,
                item.fileline,
                signature,
            ),
            item.specifiers,
        ) + "---\n\n"@,
        item.doc_comments,
        summary_of(item.doc_comments),
        false,
    ) + "\n\n"@;
    let with_members = if item.properties.len() > 0 {
        with_properties(
            described + "---\n\n# **Properties**\n\n"@,
            item.properties,
            properties,
            item.properties.len(),
        ) + "\n\n"@
    } else {
        described
    };
    if item.methods.len() > 0 {
        with_methods(
            with_members + "---\n\n# **Methods**\n\n"@,
            item.methods,
            methods,
            item.methods.len(),
        ) + "\n\n"@
    } else {
        with_members
    }
}

/// Appends the page of a struct or class. `signature` is the declaration
/// of the type as it is to be shown, `properties` those of its properties
/// and `methods` those of its methods, each in order.
pub fn bake_struct_class(
    item: &StructClass,
    signature: &str,
    properties: &Vec<String>,
    methods: &Vec<FunctionText>,
    content: &mut String,
)
    ensures
        final(content)@ == with_struct_class(
            old(content)@,
            item@,
            signature@,
            texts(properties@),
            views(methods@),
        ),
{
    match item.mode {
        StructClassMode::Struct => bake_heading("Struct", &item.name, false, content),
        StructClassMode::Class => bake_heading("Class", &item.name, false, content),
    }
    bake_located_declaration(&item.filename, item.fileline, signature, content);
    bake_optional_specifiers(&item.specifiers, content);
    content.append("---\n\n");
    bake_struct_class_comments(&item.doc_comments, content);
    content.append("\n\n");
    if item.properties.len() > 0 {
        content.append("---\n\n# **Properties**\n\n");
        let ghost start = content@;
        let mut i: usize = 0;
        while i < item.properties.len()
            invariant
                i <= item.properties.len(),
                content@ == with_properties(
                    start,
                    item@.properties,
                    texts(properties@),
                    i as nat,
                ),
            decreases item.properties.len() - i,
        {
            let shown = signature_at(properties, i);
            proof {
                assert(item@.properties[i as int] == item.properties[i as int]@);
            }
            bake_property(&item.properties[i], shown.as_str(), content, true);
            i += 1;
        }
        content.append("\n\n");
    }
    if item.methods.len() > 0 {
        content.append("---\n\n# **Methods**\n\n");
        let ghost start = content@;
        let none: Vec<String> = Vec::new();
        let mut i: usize = 0;
        while i < item.methods.len()
            invariant
                i <= item.methods.len(),
                none@.len() == 0,
                content@ == with_methods(start, item@.methods, views(methods@), i as nat),
            decreases item.methods.len() - i,
        {
            proof {
                assert(item@.methods[i as int] == item.methods[i as int]@);
                assert(texts(none@) =~= Seq::<Seq<char>>::empty());
            }
            if i < methods.len() {
                proof {
                    assert(views(methods@)[i as int] == methods[i as int]@);
                }
                bake_function(
                    &item.methods[i],
                    methods[i].signature.as_str(),
                    &methods[i].arguments,
                    content,
                    true,
                );
            } else {
                proof {
                    reveal_strlit("");
                    assert(""@ =~= Seq::<char>::empty());
                }
                bake_function(&item.methods[i], "", &none, content, true);
            }
            i += 1;
        }
        content.append("\n\n");
    }
}

} // verus!
