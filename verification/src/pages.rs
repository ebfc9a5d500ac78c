//! Whole pages of the book: references to entities, snippets and links are
//! found by regular expressions and replaced.
use vstd::prelude::*;
use vstd::string::*;
use crate::collection::{index_of, names_of, position_of, upsert, upserted};
use crate::document::{
    BookFile, BookFileView, Delegate, Document, DocumentView, Enum, Function, Snippet,
    StructClass,
};
use crate::markdown::{prefix_lines, prefixed, spaces, text_at};
use crate::text::{
    first_occurrence, lines_of, opt_text, same_text, str_lines, str_split_once, str_trim, texts,
    trimmed, views,
};

verus! {

/// The text in lower case, as Unicode defines it.
pub uninterp spec fn lowercase(text: Seq<char>) -> Seq<char>;

/// `str::to_lowercase`: the lower-case equivalent of the text, which
/// [`lowercase`] names.
#[verifier::external_body]
pub(crate) fn str_to_lowercase(text: &str) -> (r: String)
    ensures
        r@ == lowercase(text@),
{
    text.to_lowercase()
}

/// The directory of the reference pages of one kind of entity, where the
/// document holds an entity of that kind and name.
pub open spec fn reference_dir(element: Seq<char>, name: Seq<char>, document: DocumentView)
    -> Option<Seq<char>> {
    if element == "enum"@ {
        if index_of(names_of::<Enum>(document.enums), name) >= 0 {
            Some("enums"@)
        } else {
            None
        }
    } else if element == "struct"@ {
        if index_of(names_of::<StructClass>(document.structs), name) >= 0 {
            Some("structs"@)
        } else {
            None
        }
    } else if element == "class"@ {
        if index_of(names_of::<StructClass>(document.classes), name) >= 0 {
            Some("classes"@)
        } else {
            None
        }
    } else if element == "function"@ {
        if index_of(names_of::<Function>(document.functions), name) >= 0 {
            Some("functions"@)
        } else {
            None
        }
    } else if element == "delegate"@ {
        if index_of(names_of::<Delegate>(document.delegates), name) >= 0 {
            Some("delegates"@)
        } else {
            None
        }
    } else {
        None
    }
}

/// What stands in a page for a reference to an entity: the name in bold
/// code, with the section where one is given, and linked to the entity's
/// page (and to the section's anchor) where the document holds the entity.
pub open spec fn code_reference_text(
    element: Seq<char>,
    name: Seq<char>,
    section: Option<Seq<char>>,
    document: DocumentView,
) -> Seq<char> {
    match (reference_dir(element, name, document), section) {
        (Some(dir), Some(part)) => Seq::<char>::empty() + "[**`"@ + name + "::"@ + part
            + "`**](/reference/"@ + dir + "/"@ + name + ".md#"@ + lowercase(part) + ")"@,
        (Some(dir), None) => Seq::<char>::empty() + "[**`"@ + name + "`**](/reference/"@ + dir
            + "/"@ + name + ".md)"@,
        (None, Some(part)) => Seq::<char>::empty() + "**`"@ + name + "::"@ + part + "`**"@,
        (None, None) => Seq::<char>::empty() + "**`"@ + name + "`**"@,
    }
}

fn find_reference_dir(element: &str, name: &str, document: &Document) -> (r: Option<String>)
    ensures
        opt_text(r) == reference_dir(element@, name@, document@),
{
    let kind = element.to_owned();
    if same_text(&kind, "enum") {
        match position_of(&document.enums, name) {
            Some(_) => Some("enums".to_owned()),
            None => None,
        }
    } else if same_text(&kind, "struct") {
        match position_of(&document.structs, name) {
            Some(_) => Some("structs".to_owned()),
            None => None,
        }
    } else if same_text(&kind, "class") {
        match position_of(&document.classes, name) {
            Some(_) => Some("classes".to_owned()),
            None => None,
        }
    } else if same_text(&kind, "function") {
        match position_of(&document.functions, name) {
            Some(_) => Some("functions".to_owned()),
            None => None,
        }
    } else if same_text(&kind, "delegate") {
        match position_of(&document.delegates, name) {
            Some(_) => Some("delegates".to_owned()),
            None => None,
        }
    } else {
        None
    }
}

/// Renders a reference to the entity of the given kind and name, and to a
/// section of its page where one is given.
pub fn code_reference(element: &str, name: &str, section: &Option<String>, document: &Document)
    -> (r: String)
    ensures
        r@ == code_reference_text(element@, name@, opt_text(*section), document@),
{
    let dir = find_reference_dir(element, name, document);
    let mut out = String::new();
    match dir {
        Some(dir) => {
            out.append("[**`");
            out.append(name);
            match section {
                Some(part) => {
                    out.append("::");
                    out.append(part.as_str());
                    out.append("`**](/reference/");
                    out.append(dir.as_str());
                    out.append("/");
                    out.append(name);
                    out.append(".md#");
                    let anchor = str_to_lowercase(part.as_str());
                    out.append(anchor.as_str());
                    out.append(")");
                },
                None => {
                    out.append("`**](/reference/");
                    out.append(dir.as_str());
                    out.append("/");
                    out.append(name);
                    out.append(".md)");
                },
            }
        },
        None => {
            out.append("**`");
            out.append(name);
            match section {
                Some(part) => {
                    out.append("::");
                    out.append(part.as_str());
                },
                None => {},
            }
            out.append("`**");
        },
    }
    out
}

/// What stands in a page for a snippet that is asked for by name: the
/// snippet in a code block, `prefix` before each of its lines and before the
/// closing fence; a note that the snippet is missing where there is none.
pub open spec fn snippet_block_text(prefix: Seq<char>, name: Seq<char>, document: DocumentView)
    -> Seq<char> {
    let at = index_of(names_of::<Snippet>(document.snippets), name);
    if at >= 0 {
        Seq::<char>::empty() + "```cpp\n"@ + prefixed(prefix, document.snippets[at].content)
            + "\n"@ + prefix + "```"@
    } else {
        Seq::<char>::empty() + "```\n"@ + prefix + "Missing snippet: "@ + name + "\n"@ + prefix
            + "```"@
    }
}

/// Renders the code block that takes the place of a request for a snippet.
pub fn snippet_block(prefix: &str, name: &str, document: &Document) -> (r: String)
    ensures
        r@ == snippet_block_text(prefix@, name@, document@),
{
    let mut out = String::new();
    match position_of(&document.snippets, name) {
        Some(at) => {
            let lines = prefix_lines(prefix, document.snippets[at].content.as_str());
            proof {
                assert(document@.snippets[at as int] == document.snippets[at as int]@);
            }
            out.append("```cpp\n");
            out.append(lines.as_str());
            out.append("\n");
            out.append(prefix);
            out.append("```");
        },
        None => {
            out.append("```\n");
            out.append(prefix);
            out.append("Missing snippet: ");
            out.append(name);
            out.append("\n");
            out.append(prefix);
            out.append("```");
        },
    }
    out
}

/// The target of a link to a page of the book under the site URL: a rooted
/// reference directly below it, any other below the directory of the page
/// that holds the link.
pub open spec fn site_reference_text(
    site_url: Seq<char>,
    relative_path: Seq<char>,
    rooted: bool,
    reference: Seq<char>,
) -> Seq<char> {
    Seq::<char>::empty() + "]("@ + site_url + (if rooted {
        Seq::<char>::empty()
    } else {
        relative_path
    }) + trimmed(reference) + ")"@
}

/// Renders the target of a link to a page of the book.
pub fn site_reference(site_url: &str, relative_path: &str, rooted: bool, reference: &str) -> (r:
    String)
    ensures
        r@ == site_reference_text(site_url@, relative_path@, rooted, reference@),
{
    let mut out = String::new();
    out.append("](");
    out.append(site_url);
    if !rooted {
        out.append(relative_path);
    } else {
        proof {
            assert(out@ + Seq::<char>::empty() =~= out@);
        }
    }
    let target = str_trim(reference);
    out.append(target.as_str());
    out.append(")");
    out
}

/// The pieces of `text` that lie between the matches of the regular
/// expression `pattern`, in order; `None` where the pattern does not compile.
pub uninterp spec fn regex_gaps(pattern: Seq<char>, text: Seq<char>) -> Option<Seq<Seq<char>>>;

/// The capture groups of each match of the regular expression `pattern` in
/// `text`, in order, a group that took no part in its match being `None`;
/// `None` as a whole where the pattern does not compile.
pub uninterp spec fn regex_matches(pattern: Seq<char>, text: Seq<char>) -> Option<
    Seq<Seq<Option<Seq<char>>>>,
>;

/// The views of the capture groups of one match.
pub open spec fn group_views(groups: Seq<Option<String>>) -> Seq<Option<Seq<char>>> {
    groups.map_values(|group: Option<String>| opt_text(group))
}

/// The views of the capture groups of all matches.
pub open spec fn match_views(found: Seq<Vec<Option<String>>>) -> Seq<Seq<Option<Seq<char>>>> {
    found.map_values(|groups: Vec<Option<String>>| group_views(groups@))
}

/// `Regex::new`, then `Regex::split` on the compiled expression: the pieces
/// of the text between the matches, which [`regex_gaps`] names.
#[verifier::external_body]
pub(crate) fn regex_split(pattern: &str, text: &str) -> (r: Option<Vec<String>>)
    ensures
        match r {
            Some(gaps) => regex_gaps(pattern@, text@) == Some(texts(gaps@)),
            None => regex_gaps(pattern@, text@) is None,
        },
{
    match regex::Regex::new(pattern) {
        Ok(expression) => Some(expression.split(text).map(|gap| gap.to_owned()).collect()),
        Err(_) => None,
    }
}

/// `Regex::new`, then `Regex::captures_iter` on the compiled expression and
/// `Captures::iter` on each match: the capture groups of every match, which
/// [`regex_matches`] names.
#[verifier::external_body]
pub(crate) fn regex_captures_iter(pattern: &str, text: &str) -> (r: Option<
    Vec<Vec<Option<String>>>,
>)
    ensures
        match r {
            Some(found) => regex_matches(pattern@, text@) == Some(match_views(found@)),
            None => regex_matches(pattern@, text@) is None,
        },
{
    match regex::Regex::new(pattern) {
        Ok(expression) => Some(
            expression.captures_iter(text).map(
                |found| found.iter().map(|group| group.map(|part| part.as_str().to_owned())).collect(),
            ).collect(),
        ),
        Err(_) => None,
    }
}

/// The first `n` gaps, each followed by the replacement of the match that
/// ends it.
pub open spec fn interleaved(gaps: Seq<Seq<char>>, replacements: Seq<Seq<char>>, n: nat) -> Seq<
    char,
>
    decreases n,
{
    if n == 0 {
        Seq::empty()
    } else {
        interleaved(gaps, replacements, (n - 1) as nat) + text_at(gaps, n - 1) + text_at(
            replacements,
            n - 1,
        )
    }
}

/// The text put together again from its gaps, with a replacement in the
/// place of each match.
pub open spec fn rebuilt(gaps: Seq<Seq<char>>, replacements: Seq<Seq<char>>) -> Seq<char> {
    interleaved(
        gaps,
        replacements,
        if gaps.len() >= replacements.len() {
            gaps.len()
        } else {
            replacements.len()
        },
    )
}

/// Puts a text together again from its gaps and the replacements of its
/// matches.
pub fn rebuild(gaps: &Vec<String>, replacements: &Vec<String>) -> (r: String)
    ensures
        r@ == rebuilt(texts(gaps@), texts(replacements@)),
{
    let count: usize = if gaps.len() >= replacements.len() {
        gaps.len()
    } else {
        replacements.len()
    };
    let mut out = String::new();
    let mut i: usize = 0;
    while i < count
        invariant
            i <= count,
            out@ == interleaved(texts(gaps@), texts(replacements@), i as nat),
        decreases count - i,
    {
        let ghost before = out@;
        if i < gaps.len() {
            out.append(gaps[i].as_str());
        }
        let ghost between = out@;
        if i < replacements.len() {
            out.append(replacements[i].as_str());
        }
        proof {
            assert(between =~= before + text_at(texts(gaps@), i as int));
            assert(out@ =~= between + text_at(texts(replacements@), i as int));
        }
        i += 1;
    }
    out
}

/// The text of capture group `k` of a match, trimmed; empty where the group
/// took no part in the match.
pub open spec fn group_text(groups: Seq<Option<Seq<char>>>, k: int) -> Seq<char> {
    if 0 <= k < groups.len() && groups[k] is Some {
        trimmed(groups[k]->0)
    } else {
        Seq::empty()
    }
}

/// The text of capture group `k` of a match, trimmed, if the group took
/// part in the match.
pub open spec fn group_option(groups: Seq<Option<Seq<char>>>, k: int) -> Option<Seq<char>> {
    if 0 <= k < groups.len() && groups[k] is Some {
        Some(trimmed(groups[k]->0))
    } else {
        None
    }
}

fn group(groups: &Vec<Option<String>>, k: usize) -> (r: Option<String>)
    ensures
        opt_text(r) == group_option(group_views(groups@), k as int),
{
    if k < groups.len() {
        match &groups[k] {
            Some(text) => Some(str_trim(text.as_str())),
            None => None,
        }
    } else {
        None
    }
}

fn group_or_empty(groups: &Vec<Option<String>>, k: usize) -> (r: String)
    ensures
        r@ == group_text(group_views(groups@), k as int),
{
    match group(groups, k) {
        Some(text) => text,
        None => String::new(),
    }
}

/// The pattern of a reference to an entity: its kind, its name and
/// optionally a section, in a code span that is linked to nothing.
pub open spec fn code_reference_pattern() -> Seq<char> {
    "\\[`\\s*(\\w+)\\s*:\\s*(\\w+)\\s*(::\\s*(\\w+))?`\\]s*\\(\\s*\\)"@
}

/// The pattern of a request for a snippet: a fenced block marked `snippet`
/// that holds a prefix and the snippet's name.
pub open spec fn snippet_pattern() -> Seq<char> {
    "```\\s*snippet[\\n\\r]+([\\s/]*)(\\w+)[\\r\\n]+\\s*```"@
}

/// The pattern of a link to a page of the book, rooted or not.
pub open spec fn site_reference_pattern() -> Seq<char> {
    "\\]\\s*\\((\\s*/)?(.*\\.md(\\s*#.*)?)\\)"@
}

/// What takes the place of one reference to an entity.
pub open spec fn code_reference_of(groups: Seq<Option<Seq<char>>>, document: DocumentView) -> Seq<
    char,
> {
    code_reference_text(
        group_text(groups, 1),
        group_text(groups, 2),
        group_option(groups, 4),
        document,
    )
}

/// What takes the place of one request for a snippet. The prefix is taken
/// as it stands.
pub open spec fn snippet_block_of(groups: Seq<Option<Seq<char>>>, document: DocumentView) -> Seq<
    char,
> {
    snippet_block_text(
        if 1 < groups.len() && groups[1] is Some {
            groups[1]->0
        } else {
            Seq::empty()
        },
        group_text(groups, 2),
        document,
    )
}

/// What takes the place of one link to a page of the book.
pub open spec fn site_reference_of(
    groups: Seq<Option<Seq<char>>>,
    site_url: Seq<char>,
    relative_path: Seq<char>,
) -> Seq<char> {
    site_reference_text(
        site_url,
        relative_path,
        1 < groups.len() && groups[1] is Some,
        if 2 < groups.len() && groups[2] is Some {
            groups[2]->0
        } else {
            Seq::empty()
        },
    )
}

/// The text with each match replaced: put together from what the pattern
/// leaves between its matches and from `replacements`; the text itself where
/// the pattern does not compile.
pub open spec fn with_replacements(
    pattern: Seq<char>,
    content: Seq<char>,
    replacements: Seq<Seq<char>>,
) -> Seq<char> {
    match regex_gaps(pattern, content) {
        Some(gaps) => rebuilt(gaps, replacements),
        None => content,
    }
}

/// The replacements of all matches of a pattern, each by `replace`.
pub open spec fn replacements_of(
    pattern: Seq<char>,
    content: Seq<char>,
    replace: spec_fn(Seq<Option<Seq<char>>>) -> Seq<char>,
) -> Seq<Seq<char>> {
    match regex_matches(pattern, content) {
        Some(found) => found.map_values(replace),
        None => Seq::empty(),
    }
}

/// The page with every reference to an entity rendered.
pub open spec fn code_references_replaced(content: Seq<char>, document: DocumentView) -> Seq<
    char,
> {
    with_replacements(
        code_reference_pattern(),
        content,
        replacements_of(
            code_reference_pattern(),
            content,
            |groups: Seq<Option<Seq<char>>>| code_reference_of(groups, document),
        ),
    )
}

/// The page with every request for a snippet replaced by the snippet.
pub open spec fn snippets_replaced(content: Seq<char>, document: DocumentView) -> Seq<char> {
    with_replacements(
        snippet_pattern(),
        content,
        replacements_of(
            snippet_pattern(),
            content,
            |groups: Seq<Option<Seq<char>>>| snippet_block_of(groups, document),
        ),
    )
}

/// The page with every link to a page of the book put below the site URL.
pub open spec fn site_references_fixed(
    content: Seq<char>,
    site_url: Seq<char>,
    relative_path: Seq<char>,
) -> Seq<char> {
    with_replacements(
        site_reference_pattern(),
        content,
        replacements_of(
            site_reference_pattern(),
            content,
            |groups: Seq<Option<Seq<char>>>| site_reference_of(groups, site_url, relative_path),
        ),
    )
}

fn finish(pattern: &str, content: &str, replacements: &Vec<String>) -> (r: String)
    ensures
        r@ == with_replacements(pattern@, content@, texts(replacements@)),
{
    match regex_split(pattern, content) {
        Some(gaps) => rebuild(&gaps, replacements),
        None => content.to_owned(),
    }
}

/// Renders every reference to an entity in a page.
pub fn replace_code_references(content: &str, document: &Document) -> (r: String)
    ensures
        r@ == code_references_replaced(content@, document@),
{
    let pattern = "\\[`\\s*(\\w+)\\s*:\\s*(\\w+)\\s*(::\\s*(\\w+))?`\\]s*\\(\\s*\\)";
    let mut replacements: Vec<String> = Vec::new();
    let ghost replace = |groups: Seq<Option<Seq<char>>>| code_reference_of(groups, document@);
    match regex_captures_iter(pattern, content) {
        Some(found) => {
            let mut i: usize = 0;
            while i < found.len()
                invariant
                    i <= found.len(),
                    replace == |groups: Seq<Option<Seq<char>>>|
                        code_reference_of(groups, document@),
                    texts(replacements@) =~= match_views(found@).map_values(replace).take(
                        i as int,
                    ),
                decreases found.len() - i,
            {
                let element = group_or_empty(&found[i], 1);
                let name = group_or_empty(&found[i], 2);
                let section = group(&found[i], 4);
                let text = code_reference(element.as_str(), name.as_str(), &section, document);
                let ghost before = replacements@;
                replacements.push(text);
                proof {
                    let wanted = match_views(found@).map_values(replace);
                    assert(texts(replacements@) =~= texts(before).push(text@));
                    assert(wanted.take(i + 1) =~= wanted.take(i as int).push(wanted[i as int]));
                }
                i += 1;
            }
            proof {
                let wanted = match_views(found@).map_values(replace);
                assert(wanted.take(found.len() as int) =~= wanted);
            }
        },
        None => {
            proof {
                assert(texts(replacements@) =~= Seq::<Seq<char>>::empty());
            }
        },
    }
    finish(pattern, content, &replacements)
}

/// Replaces every request for a snippet in a page by the snippet.
pub fn replace_snippets(content: &str, document: &Document) -> (r: String)
    ensures
        r@ == snippets_replaced(content@, document@),
{
    let pattern = "```\\s*snippet[\\n\\r]+([\\s/]*)(\\w+)[\\r\\n]+\\s*```";
    let mut replacements: Vec<String> = Vec::new();
    let ghost replace = |groups: Seq<Option<Seq<char>>>| snippet_block_of(groups, document@);
    match regex_captures_iter(pattern, content) {
        Some(found) => {
            let mut i: usize = 0;
            while i < found.len()
                invariant
                    i <= found.len(),
                    replace == |groups: Seq<Option<Seq<char>>>|
                        snippet_block_of(groups, document@),
                    texts(replacements@) =~= match_views(found@).map_values(replace).take(
                        i as int,
                    ),
                decreases found.len() - i,
            {
                let groups = &found[i];
                let prefix = if 1 < groups.len() {
                    match &groups[1] {
                        Some(text) => text.clone(),
                        None => String::new(),
                    }
                } else {
                    String::new()
                };
                let name = group_or_empty(groups, 2);
                let text = snippet_block(prefix.as_str(), name.as_str(), document);
                let ghost before = replacements@;
                replacements.push(text);
                proof {
                    let wanted = match_views(found@).map_values(replace);
                    assert(texts(replacements@) =~= texts(before).push(text@));
                    assert(wanted.take(i + 1) =~= wanted.take(i as int).push(wanted[i as int]));
                }
                i += 1;
            }
            proof {
                let wanted = match_views(found@).map_values(replace);
                assert(wanted.take(found.len() as int) =~= wanted);
            }
        },
        None => {
            proof {
                assert(texts(replacements@) =~= Seq::<Seq<char>>::empty());
            }
        },
    }
    finish(pattern, content, &replacements)
}

/// Puts every link to a page of the book below the site URL.
pub fn fix_site_references(content: &str, site_url: &str, relative_path: &str) -> (r: String)
    ensures
        r@ == site_references_fixed(content@, site_url@, relative_path@),
{
    let pattern = "\\]\\s*\\((\\s*/)?(.*\\.md(\\s*#.*)?)\\)";
    let mut replacements: Vec<String> = Vec::new();
    let ghost replace = |groups: Seq<Option<Seq<char>>>|
        site_reference_of(groups, site_url@, relative_path@);
    match regex_captures_iter(pattern, content) {
        Some(found) => {
            let mut i: usize = 0;
            while i < found.len()
                invariant
                    i <= found.len(),
                    replace == |groups: Seq<Option<Seq<char>>>|
                        site_reference_of(groups, site_url@, relative_path@),
                    texts(replacements@) =~= match_views(found@).map_values(replace).take(
                        i as int,
                    ),
                decreases found.len() - i,
            {
                let groups = &found[i];
                let rooted = 1 < groups.len() && groups[1].is_some();
                let reference = if 2 < groups.len() {
                    match &groups[2] {
                        Some(text) => text.clone(),
                        None => String::new(),
                    }
                } else {
                    String::new()
                };
                let text = site_reference(site_url, relative_path, rooted, reference.as_str());
                let ghost before = replacements@;
                replacements.push(text);
                proof {
                    let wanted = match_views(found@).map_values(replace);
                    assert(texts(replacements@) =~= texts(before).push(text@));
                    assert(wanted.take(i + 1) =~= wanted.take(i as int).push(wanted[i as int]));
                }
                i += 1;
            }
            proof {
                let wanted = match_views(found@).map_values(replace);
                assert(wanted.take(found.len() as int) =~= wanted);
            }
        },
        None => {
            proof {
                assert(texts(replacements@) =~= Seq::<Seq<char>>::empty());
            }
        },
    }
    finish(pattern, content, &replacements)
}

/// The site URL of the book: the configured one, or the root.
pub open spec fn site_url_of(site_url: Option<Seq<char>>) -> Seq<char> {
    match site_url {
        Some(url) => url,
        None => "/"@,
    }
}

/// Prepares a page for the book: renders the references to entities, puts
/// the snippets in, and puts the links to pages below the site URL.
pub fn preprocess_content(
    content: &str,
    document: &Document,
    site_url: &Option<String>,
    relative_path: &str,
) -> (r: String)
    ensures
        r@ == site_references_fixed(
            snippets_replaced(code_references_replaced(content@, document@), document@),
            site_url_of(opt_text(*site_url)),
            relative_path@,
        ),
{
    let content = replace_code_references(content, document);
    let content = replace_snippets(content.as_str(), document);
    match site_url {
        Some(url) => fix_site_references(content.as_str(), url.as_str(), relative_path),
        None => fix_site_references(content.as_str(), "/", relative_path),
    }
}

/// The path of the page of an entity below the book's sources.
pub open spec fn reference_page(dir: Seq<char>, name: Seq<char>) -> Seq<char> {
    Seq::<char>::empty() + "reference/"@ + dir + "/"@ + name + ".md"@
}

/// The line that lists an entity on the page of its section and on the
/// page of the whole reference.
pub open spec fn listing_entry(dir: Seq<char>, name: Seq<char>) -> Seq<char> {
    Seq::<char>::empty() + "- [`"@ + name + "`]("@ + reference_page(dir, name) + ")\n"@
}

/// The line that lists an entity in the summary of the book.
pub open spec fn index_entry(dir: Seq<char>, name: Seq<char>) -> Seq<char> {
    Seq::<char>::empty() + "    - ["@ + name + "]("@ + reference_page(dir, name) + ")\n"@
}

/// The path of the page of an entity below the book's sources.
pub fn bake_reference_page(dir: &str, name: &str) -> (r: String)
    ensures
        r@ == reference_page(dir@, name@),
{
    let mut out = String::new();
    out.append("reference/");
    out.append(dir);
    out.append("/");
    out.append(name);
    out.append(".md");
    out
}

/// Opens a section of the reference: lists it in the summary and on the
/// page of the whole reference, and returns the start of its own page.
pub fn bake_section_heading(
    title: &str,
    dir: &str,
    index: &mut String,
    reference_listing: &mut String,
) -> (listing: String)
    ensures
        final(index)@ == old(index)@ + "  - ["@ + title@ + "](reference/"@ + dir@ + ".md)\n"@,
        final(reference_listing)@ == old(reference_listing)@ + "\n## "@ + title@ + "\n"@,
        listing@ == Seq::<char>::empty() + "# "@ + title@ + "\n\n"@,
{
    index.append("  - [");
    index.append(title);
    index.append("](reference/");
    index.append(dir);
    index.append(".md)\n");
    reference_listing.append("\n## ");
    reference_listing.append(title);
    reference_listing.append("\n");
    let mut listing = String::new();
    listing.append("# ");
    listing.append(title);
    listing.append("\n\n");
    listing
}

/// Lists an entity of a section: in the summary, on the page of its
/// section and on the page of the whole reference.
pub fn bake_section_entry(
    dir: &str,
    name: &str,
    index: &mut String,
    listing: &mut String,
    reference_listing: &mut String,
)
    ensures
        final(index)@ == old(index)@ + index_entry(dir@, name@),
        final(listing)@ == old(listing)@ + listing_entry(dir@, name@),
        final(reference_listing)@ == old(reference_listing)@ + listing_entry(dir@, name@),
{
    let path = bake_reference_page(dir, name);
    let mut line = String::new();
    line.append("    - [");
    line.append(name);
    line.append("](");
    line.append(path.as_str());
    line.append(")\n");
    index.append(line.as_str());
    let mut entry = String::new();
    entry.append("- [`");
    entry.append(name);
    entry.append("`](");
    entry.append(path.as_str());
    entry.append(")\n");
    listing.append(entry.as_str());
    reference_listing.append(entry.as_str());
}

/// One line of the index of a directory of the book: the name of a page or
/// of a directory, and the title to list it under, if the line gives one.
#[derive(Clone, Debug, PartialEq, Eq)]
pub struct IndexLine {
    pub name: String,
    pub title: Option<String>,
}

pub struct IndexLineView {
    pub name: Seq<char>,
    pub title: Option<Seq<char>>,
}

impl View for IndexLine {
    type V = IndexLineView;

    open spec fn view(&self) -> IndexLineView {
        IndexLineView { name: self.name@, title: opt_text(self.title) }
    }
}

/// The view of an optional index line.
pub open spec fn opt_index_line(line: Option<IndexLine>) -> Option<IndexLineView> {
    match line {
        Some(found) => Some(found@),
        None => None,
    }
}

/// What a line of an index says. A line that is blank or starts with `#`
/// after trimming says nothing; any other names a page or a directory, and
/// gives its title after the first colon, if it holds one.
pub open spec fn index_line_of(line: Seq<char>) -> Option<IndexLineView> {
    let text = trimmed(line);
    if text.len() == 0 || text[0] == '#' {
        None
    } else {
        let at = first_occurrence(text, seq![':'], 0);
        if at >= 0 {
            Some(
                IndexLineView {
                    name: trimmed(text.take(at)),
                    title: Some(trimmed(text.skip(at + 1))),
                },
            )
        } else {
            Some(IndexLineView { name: text, title: None })
        }
    }
}

/// Reads one line of the index of a directory of the book.
pub fn parse_index_line(line: &str) -> (r: Option<IndexLine>)
    ensures
        opt_index_line(r) == index_line_of(line@),
{
    let text = str_trim(line);
    let length: usize = text.as_str().unicode_len();
    if length == 0 {
        return None;
    }
    if text.as_str().get_char(0) == '#' {
        return None;
    }
    proof {
        reveal_strlit(":");
        assert(":"@ =~= seq![':']);
    }
    match str_split_once(text.as_str(), ":") {
        Some(parts) => Some(
            IndexLine {
                name: str_trim(parts.0.as_str()),
                title: Some(str_trim(parts.1.as_str())),
            },
        ),
        None => Some(IndexLine { name: text, title: None }),
    }
}

/// Whether a name is that of a page: it ends in `.md`.
pub open spec fn names_page(name: Seq<char>) -> bool {
    name.len() >= 3 && name.skip(name.len() - 3) == ".md"@
}

/// Tells whether a name is that of a page.
pub fn is_page(name: &str) -> (r: bool)
    ensures
        r == names_page(name@),
{
    let length: usize = name.unicode_len();
    if length < 3 {
        return false;
    }
    let end = name.substring_char(length - 3, length).to_owned();
    proof {
        assert(end@ =~= name@.skip(name@.len() - 3));
    }
    same_text(&end, ".md")
}

/// Number of `#` characters at the start of `s`.
pub open spec fn leading_marks(s: Seq<char>) -> nat
    decreases s.len(),
{
    if s.len() > 0 && s[0] == '#' {
        1 + leading_marks(s.skip(1))
    } else {
        0
    }
}

/// The leading marks of `s` end at the first index that holds another
/// character.
pub proof fn lemma_leading_marks_is(s: Seq<char>, n: int)
    requires
        0 <= n <= s.len(),
        forall|j: int| 0 <= j < n ==> #[trigger] s[j] == '#',
        n == s.len() || s[n] != '#',
    ensures
        leading_marks(s) == n,
    decreases n,
{
    if n > 0 {
        let rest = s.skip(1);
        assert forall|j: int| 0 <= j < n - 1 implies #[trigger] rest[j] == '#' by {
            assert(rest[j] == s[j + 1]);
        }
        lemma_leading_marks_is(rest, n - 1);
    }
}

/// The title that a heading line gives: the line without the `#` characters
/// at its start, trimmed.
pub open spec fn heading_title(line: Seq<char>) -> Seq<char> {
    trimmed(line.skip(leading_marks(line) as int))
}

/// The title under which a page is listed: the one that the index gives,
/// else the first line of the page as a heading, else the name of the page.
pub open spec fn page_title_of(title: Option<Seq<char>>, content: Seq<char>, name: Seq<char>)
    -> Seq<char> {
    match title {
        Some(given) => given,
        None => if lines_of(content).len() > 0 {
            heading_title(lines_of(content)[0])
        } else {
            name
        },
    }
}

/// Finds the title under which a page is listed.
pub fn page_title(title: &Option<String>, content: &str, name: &str) -> (r: String)
    ensures
        r@ == page_title_of(opt_text(*title), content@, name@),
{
    match title {
        Some(given) => given.clone(),
        None => {
            let lines = str_lines(content);
            if lines.len() > 0 {
                let line = lines[0].as_str();
                proof {
                    assert(texts(lines@)[0] == lines@[0]@);
                }
                let length: usize = line.unicode_len();
                let mut i: usize = 0;
                while i < length
                    invariant
                        i <= length,
                        length == line@.len(),
                        forall|j: int| 0 <= j < i ==> #[trigger] line@[j] == '#',
                    ensures
                        i <= length,
                        forall|j: int| 0 <= j < i ==> #[trigger] line@[j] == '#',
                        i == length || line@[i as int] != '#',
                    decreases length - i,
                {
                    if line.get_char(i) != '#' {
                        break ;
                    }
                    i += 1;
                }
                proof {
                    lemma_leading_marks_is(line@, i as int);
                }
                let rest = line.substring_char(i, length);
                proof {
                    assert(rest@ =~= line@.skip(i as int));
                }
                str_trim(rest)
            } else {
                name.to_owned()
            }
        },
    }
}

/// `index` followed by the margin of an entry at the given depth of the
/// book: two spaces for each level.
pub open spec fn with_index_margin(index: Seq<char>, level: nat) -> Seq<char> {
    index + spaces(2 * level)
}

/// Appends the margin of an entry at the given depth of the book.
pub fn bake_index_margin(level: usize, index: &mut String)
    ensures
        final(index)@ == with_index_margin(old(index)@, level as nat),
{
    let mut k: usize = 0;
    while k < level
        invariant
            k <= level,
            index@ =~= old(index)@ + spaces(2 * (k as nat)),
        decreases level - k,
    {
        proof {
            reveal_strlit("  ");
            assert("  "@ =~= seq![' ', ' ']);
        }
        index.append("  ");
        k += 1;
    }
}

/// Lists a page of the book: in the summary under its path, and on the
/// page of its directory under its name.
pub fn bake_index_page(
    title: &str,
    path: &str,
    name: &str,
    index: &mut String,
    listing: &mut String,
)
    ensures
        final(index)@ == old(index)@ + "- ["@ + title@ + "]("@ + path@ + ")\n"@,
        final(listing)@ == old(listing)@ + "- ["@ + title@ + "]("@ + name@ + ")\n"@,
{
    index.append("- [");
    index.append(title);
    index.append("](");
    index.append(path);
    index.append(")\n");
    listing.append("- [");
    listing.append(title);
    listing.append("](");
    listing.append(name);
    listing.append(")\n");
}

/// Lists a directory of the book in the summary, under the page of its own
/// index.
pub fn bake_index_directory(title: &str, path: &str, index: &mut String)
    ensures
        final(index)@ == old(index)@ + "- ["@ + title@ + "]("@ + path@ + "/index.md)\n"@,
{
    index.append("- [");
    index.append(title);
    index.append("](");
    index.append(path);
    index.append("/index.md)\n");
}

/// What is written while the index of one directory of the book is read:
/// the pages to write, the summary of the book, and the page that lists the
/// directory.
pub struct IndexState {
    pub output: Seq<BookFileView>,
    pub index: Seq<char>,
    pub listing: Seq<char>,
}

/// The title of an entry, or its name where the index gives no title.
pub open spec fn title_or_name(entry: IndexLineView) -> Seq<char> {
    match entry.title {
        Some(title) => title,
        None => entry.name,
    }
}

/// The state after one line of the index of the directory at `path` was
/// read. A line that says nothing changes nothing. A page that is among the
/// files is listed and written out; one that is not leaves only the margin
/// in the summary. A directory is listed in the summary.
pub open spec fn index_line_included(
    path: Seq<char>,
    line: Seq<char>,
    input: Seq<BookFileView>,
    level: nat,
    state: IndexState,
) -> IndexState {
    match index_line_of(line) {
        None => state,
        Some(entry) => {
            let margin = with_index_margin(state.index, level);
            let full = path + entry.name;
            if names_page(entry.name) {
                let at = index_of(names_of::<BookFile>(input), full);
                if at >= 0 {
                    let title = page_title_of(entry.title, input[at].content, entry.name);
                    IndexState {
                        output: upserted::<BookFile>(
                            state.output,
                            BookFileView { name: "src/"@ + full, content: input[at].content },
                        ),
                        index: margin + "- ["@ + title + "]("@ + full + ")\n"@,
                        listing: state.listing + "- ["@ + title + "]("@ + entry.name + ")\n"@,
                    }
                } else {
                    IndexState { index: margin, ..state }
                }
            } else {
                IndexState {
                    index: margin + "- ["@ + title_or_name(entry) + "]("@ + full
                        + "/index.md)\n"@,
                    ..state
                }
            }
        },
    }
}

/// The directory that a line of an index asks to be included next, if it
/// names one.
pub open spec fn index_line_directory(path: Seq<char>, line: Seq<char>) -> Option<Seq<char>> {
    match index_line_of(line) {
        Some(entry) if !names_page(entry.name) => Some(path + entry.name),
        _ => None,
    }
}

/// Reads one line of the index of the directory at `path` into the book,
/// and returns the directory that is to be included next, if the line names
/// one.
pub fn include_index_line(
    path: &str,
    line: &str,
    input: &Vec<BookFile>,
    output: &mut Vec<BookFile>,
    index: &mut String,
    listing: &mut String,
    level: usize,
) -> (next: Option<String>)
    ensures
        (IndexState {
            output: views(final(output)@),
            index: final(index)@,
            listing: final(listing)@,
        }) == index_line_included(
            path@,
            line@,
            views(input@),
            level as nat,
            IndexState { output: views(old(output)@), index: old(index)@, listing: old(listing)@ },
        ),
        opt_text(next) == index_line_directory(path@, line@),
{
    match parse_index_line(line) {
        None => None,
        Some(entry) => {
            bake_index_margin(level, index);
            let mut full = path.to_owned();
            full.append(entry.name.as_str());
            if is_page(entry.name.as_str()) {
                match position_of(input, full.as_str()) {
                    Some(at) => {
                        proof {
                            assert(views(input@)[at as int] == input[at as int]@);
                        }
                        let title = page_title(
                            &entry.title,
                            input[at].content.as_str(),
                            entry.name.as_str(),
                        );
                        bake_index_page(
                            title.as_str(),
                            full.as_str(),
                            entry.name.as_str(),
                            index,
                            listing,
                        );
                        let mut name = "src/".to_owned();
                        name.append(full.as_str());
                        upsert(output, BookFile { name, content: input[at].content.clone() });
                    },
                    None => {},
                }
                None
            } else {
                match &entry.title {
                    Some(title) => bake_index_directory(title.as_str(), full.as_str(), index),
                    None => bake_index_directory(entry.name.as_str(), full.as_str(), index),
                }
                Some(full)
            }
        },
    }
}

/// The path before the names of a directory's files: empty at the top of
/// the book, the directory and a slash below it.
pub open spec fn directory_path(dir: Option<Seq<char>>) -> Seq<char> {
    match dir {
        Some(name) => name + "/"@,
        None => Seq::empty(),
    }
}

/// The start of the page that lists a directory: the directory's own page,
/// if it has one, and the heading of the list.
pub open spec fn listing_start(path: Seq<char>, input: Seq<BookFileView>) -> Seq<char> {
    let at = index_of(names_of::<BookFile>(input), path + "index.md"@);
    if at >= 0 {
        input[at].content + "\n\n"@ + "# Pages\n\n"@
    } else {
        "# Pages\n\n"@
    }
}

/// A directory of the book that is about to be included.
#[derive(Clone, Debug, PartialEq, Eq)]
pub struct OpenDirectory {
    /// The path before the names of the directory's files.
    pub path: String,
    /// The text of the directory's index.
    pub lines: String,
    /// The start of the page that lists the directory.
    pub listing: String,
}

/// Opens a directory of the book: `None` where it has no index.
pub fn open_book_directory(dir: &Option<String>, input: &Vec<BookFile>) -> (r: Option<
    OpenDirectory,
>)
    ensures
        ({
            let path = directory_path(opt_text(*dir));
            let at = index_of(names_of::<BookFile>(views(input@)), path + "index.txt"@);
            match r {
                Some(open) => {
                    &&& at >= 0
                    &&& open.path@ == path
                    &&& open.lines@ == views(input@)[at].content
                    &&& open.listing@ == listing_start(path, views(input@))
                },
                None => at < 0,
            }
        }),
{
    let mut path = String::new();
    match dir {
        Some(name) => {
            path.append(name.as_str());
            path.append("/");
            proof {
                assert(path@ =~= name@ + "/"@);
            }
        },
        None => {},
    }
    let mut key = path.clone();
    key.append("index.txt");
    match position_of(input, key.as_str()) {
        Some(at) => {
            proof {
                assert(views(input@)[at as int] == input[at as int]@);
            }
            let mut page = path.clone();
            page.append("index.md");
            let mut listing = String::new();
            match position_of(input, page.as_str()) {
                Some(own) => {
                    proof {
                        assert(views(input@)[own as int] == input[own as int]@);
                    }
                    listing.append(input[own].content.as_str());
                    listing.append("\n\n");
                    listing.append("# Pages\n\n");
                    proof {
                        assert(listing@ =~= input[own as int]@.content + "\n\n"@
                            + "# Pages\n\n"@);
                    }
                },
                None => {
                    listing.append("# Pages\n\n");
                    proof {
                        assert(listing@ =~= "# Pages\n\n"@);
                    }
                },
            }
            Some(OpenDirectory { path, lines: input[at].content.clone(), listing })
        },
        None => None,
    }
}

/// Closes a directory of the book: enters the page that lists it among the
/// pages to write.
pub fn close_book_directory(path: &str, listing: String, output: &mut Vec<BookFile>)
    ensures
        views(final(output)@) == upserted::<BookFile>(
            views(old(output)@),
            BookFileView { name: "src/"@ + path@ + "index.md"@, content: listing@ },
        ),
{
    let mut name = "src/".to_owned();
    name.append(path);
    name.append("index.md");
    upsert(output, BookFile { name, content: listing });
}

/// The length of the longest of `names`.
pub open spec fn longest(names: Seq<Seq<char>>) -> nat
    decreases names.len(),
{
    if names.len() == 0 {
        0
    } else {
        let rest = longest(names.drop_last());
        if names.last().len() > rest {
            names.last().len()
        } else {
            rest
        }
    }
}

/// No name is longer than the longest.
pub proof fn lemma_longest(names: Seq<Seq<char>>, i: int)
    requires
        0 <= i < names.len(),
    ensures
        names[i].len() <= longest(names),
    decreases names.len(),
{
    if i < names.len() - 1 {
        lemma_longest(names.drop_last(), i);
    }
}

/// How much longer than `used` the name of a file of the book can be.
pub open spec fn budget(input: Seq<BookFileView>, used: nat) -> nat {
    let most = longest(names_of::<BookFile>(input));
    if most >= used {
        (most - used) as nat
    } else {
        0
    }
}

/// Whether the directory at `path` has an index among the files.
pub open spec fn has_index(path: Seq<char>, input: Seq<BookFileView>) -> bool {
    index_of(names_of::<BookFile>(input), path + "index.txt"@) >= 0
}

/// The path of a directory that has an index is shorter than the longest
/// name of a file.
pub proof fn lemma_budget(path: Seq<char>, input: Seq<BookFileView>)
    requires
        has_index(path, input),
    ensures
        budget(input, path.len()) >= 9,
        "/"@.len() == 1,
{
    reveal_strlit("index.txt");
    reveal_strlit("/");
    let names = names_of::<BookFile>(input);
    crate::collection::lemma_index_of(names, path + "index.txt"@);
    lemma_longest(names, index_of(names, path + "index.txt"@));
}

/// What is written while the book is put together: the pages to write and
/// the summary.
pub struct BookState {
    pub output: Seq<BookFileView>,
    pub index: Seq<char>,
}

/// The level below `level`.
pub open spec fn next_level(level: nat) -> nat {
    if level < usize::MAX {
        level + 1
    } else {
        level
    }
}

/// The book after a directory was included: nothing changes where the
/// directory has no index; else the lines of its index are read in order,
/// each directory that a line names is included in its place, one level
/// deeper, and the page that lists the directory is written.
pub open spec fn directory_included(
    dir: Option<Seq<char>>,
    input: Seq<BookFileView>,
    level: nat,
    state: BookState,
) -> BookState
    decreases 2 * budget(input, directory_path(dir).len()) + 1, 0nat,
{
    let path = directory_path(dir);
    if has_index(path, input) {
        let at = index_of(names_of::<BookFile>(input), path + "index.txt"@);
        let lines = lines_of(input[at].content);
        let read = lines_included(
            path,
            lines,
            lines.len(),
            input,
            level,
            IndexState {
                output: state.output,
                index: state.index,
                listing: listing_start(path, input),
            },
        );
        BookState {
            output: upserted::<BookFile>(
                read.output,
                BookFileView { name: "src/"@ + path + "index.md"@, content: read.listing },
            ),
            index: read.index,
        }
    } else {
        state
    }
}

/// The state after the first `n` lines of the index of the directory at
/// `path` were read.
pub open spec fn lines_included(
    path: Seq<char>,
    lines: Seq<Seq<char>>,
    n: nat,
    input: Seq<BookFileView>,
    level: nat,
    start: IndexState,
) -> IndexState
    decreases 2 * budget(input, path.len()), n,
    when has_index(path, input)
{
    if n == 0 {
        start
    } else {
        let before = lines_included(path, lines, (n - 1) as nat, input, level, start);
        let after = index_line_included(path, lines[n - 1], input, level, before);
        match index_line_directory(path, lines[n - 1]) {
            Some(next) => {
                proof {
                    lemma_budget(path, input);
                }
                let below = directory_included(
                    Some(next),
                    input,
                    next_level(level),
                    BookState { output: after.output, index: after.index },
                );
                IndexState { output: below.output, index: below.index, listing: after.listing }
            },
            None => after,
        }
    }
}

/// Includes a directory of the hand-written part of the book, and the
/// directories below it that its index names: lists their pages in the
/// summary and enters them, and the page that lists each directory, among
/// the pages to write.
pub fn include_book_index(
    dir: &Option<String>,
    input: &Vec<BookFile>,
    output: &mut Vec<BookFile>,
    index: &mut String,
    level: usize,
)
    ensures
        (BookState { output: views(final(output)@), index: final(index)@ }) == directory_included(
            opt_text(*dir),
            views(input@),
            level as nat,
            BookState { output: views(old(output)@), index: old(index)@ },
        ),
    decreases budget(views(input@), directory_path(opt_text(*dir)).len()),
{
    match open_book_directory(dir, input) {
        None => {},
        Some(open) => {
            let lines = str_lines(open.lines.as_str());
            let mut listing = open.listing;
            let ghost start = IndexState {
                output: views(output@),
                index: index@,
                listing: listing@,
            };
            let mut i: usize = 0;
            while i < lines.len()
                invariant
                    i <= lines.len(),
                    has_index(open.path@, views(input@)),
                    open.path@ == directory_path(opt_text(*dir)),
                    (IndexState { output: views(output@), index: index@, listing: listing@ })
                        == lines_included(
                        open.path@,
                        texts(lines@),
                        i as nat,
                        views(input@),
                        level as nat,
                        start,
                    ),
                decreases lines.len() - i,
            {
                proof {
                    assert(texts(lines@)[i as int] == lines@[i as int]@);
                }
                let next = include_index_line(
                    open.path.as_str(),
                    lines[i].as_str(),
                    input,
                    output,
                    index,
                    &mut listing,
                    level,
                );
                match next {
                    Some(_) => {
                        proof {
                            lemma_budget(open.path@, views(input@));
                        }
                        let deeper: usize = if level < usize::MAX {
                            level + 1
                        } else {
                            level
                        };
                        include_book_index(&next, input, output, index, deeper);
                    },
                    None => {},
                }
                i += 1;
            }
            close_book_directory(open.path.as_str(), listing, output);
        },
    }
}

} // verus!
