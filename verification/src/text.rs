//! Text primitives: lines, trimming, doc-comment stripping and the
//! indentation normalisation of snippets, each stated over `Seq<char>`.
use vstd::prelude::*;
use vstd::string::*;

verus! {

/// Whether a character has the Unicode `White_Space` property.
pub uninterp spec fn is_whitespace(c: char) -> bool;

/// Number of whitespace characters at the start of `s`.
pub open spec fn leading_whitespace(s: Seq<char>) -> nat
    decreases s.len(),
{
    if s.len() > 0 && is_whitespace(s[0]) {
        1 + leading_whitespace(s.skip(1))
    } else {
        0
    }
}

/// Number of whitespace characters at the end of `s`.
pub open spec fn trailing_whitespace(s: Seq<char>) -> nat
    decreases s.len(),
{
    if s.len() > 0 && is_whitespace(s.last()) {
        1 + trailing_whitespace(s.drop_last())
    } else {
        0
    }
}

/// `s` without its leading and trailing whitespace.
pub open spec fn trimmed(s: Seq<char>) -> Seq<char> {
    let rest = s.skip(leading_whitespace(s) as int);
    rest.take(rest.len() - trailing_whitespace(rest))
}

/// Index of the first line feed of `s` at or after `from`, or `s.len()`.
pub open spec fn line_end(s: Seq<char>, from: int) -> int
    decreases s.len() - from,
{
    if from < 0 || from >= s.len() {
        s.len() as int
    } else if s[from] == '\n' {
        from
    } else {
        line_end(s, from + 1)
    }
}

/// A line without the carriage return that stood before its line feed.
pub open spec fn without_carriage_return(line: Seq<char>) -> Seq<char> {
    if line.len() > 0 && line.last() == '\r' {
        line.drop_last()
    } else {
        line
    }
}

/// The lines of `s`: split at each line feed, a carriage return directly
/// before a line feed dropped with it, the last line ending optional.
pub open spec fn lines_of(s: Seq<char>) -> Seq<Seq<char>>
    decreases s.len(),
{
    if s.len() == 0 {
        Seq::empty()
    } else {
        let end = line_end(s, 0);
        if end < 0 || end >= s.len() {
            seq![s]
        } else {
            seq![without_carriage_return(s.take(end))] + lines_of(s.skip(end + 1))
        }
    }
}

/// The lines joined by single line feeds.
pub open spec fn join_lines(lines: Seq<Seq<char>>) -> Seq<char>
    decreases lines.len(),
{
    if lines.len() == 0 {
        Seq::empty()
    } else if lines.len() == 1 {
        lines[0]
    } else {
        join_lines(lines.drop_last()) + seq!['\n'] + lines.last()
    }
}

/// Whether `pat` stands in `s` at index `i`.
pub open spec fn occurs_at(s: Seq<char>, pat: Seq<char>, i: int) -> bool {
    0 <= i && i + pat.len() <= s.len() && s.subrange(i, i + pat.len()) == pat
}

/// Index of the first occurrence of `pat` in `s` at or after `from`, or -1.
pub open spec fn first_occurrence(s: Seq<char>, pat: Seq<char>, from: int) -> int
    decreases s.len() - from,
{
    if from < 0 || from >= s.len() || from + pat.len() > s.len() {
        -1
    } else if occurs_at(s, pat, from) {
        from
    } else {
        first_occurrence(s, pat, from + 1)
    }
}

/// The three slashes that open a doc-comment line.
pub open spec fn doc_marker() -> Seq<char> {
    seq!['/', '/', '/']
}

/// The text of one doc-comment line: what follows the first marker,
/// trimmed; empty where the line holds no marker.
pub open spec fn doc_line(line: Seq<char>) -> Seq<char> {
    let at = first_occurrence(line, doc_marker(), 0);
    if at < 0 {
        Seq::empty()
    } else {
        trimmed(line.skip(at + 3))
    }
}

/// The text of a doc-comment block: each line stripped, order and blank
/// lines kept.
pub open spec fn doc_comment_text(s: Seq<char>) -> Seq<char> {
    join_lines(lines_of(s).map_values(|line: Seq<char>| doc_line(line)))
}

/// The smallest count of leading whitespace over `lines`; 0 for no lines.
pub open spec fn min_indent(lines: Seq<Seq<char>>) -> nat
    decreases lines.len(),
{
    if lines.len() == 0 {
        0
    } else if lines.len() == 1 {
        leading_whitespace(lines[0])
    } else {
        let rest = min_indent(lines.drop_last());
        let last = leading_whitespace(lines.last());
        if last < rest { last } else { rest }
    }
}

/// Each line without its first `level` characters.
pub open spec fn strip_indent(lines: Seq<Seq<char>>, level: nat) -> Seq<Seq<char>> {
    lines.map_values(|line: Seq<char>| line.skip(level as int))
}

/// A snippet body with the margin shared by all its lines removed.
pub open spec fn snippet_text(s: Seq<char>) -> Seq<char> {
    join_lines(strip_indent(lines_of(s), min_indent(lines_of(s))))
}

/// The view of an optional text.
pub open spec fn opt_text(o: Option<String>) -> Option<Seq<char>> {
    match o {
        Some(s) => Some(s@),
        None => None,
    }
}

/// The views of a sequence of values, in order.
pub open spec fn views<T: View>(items: Seq<T>) -> Seq<T::V> {
    items.map_values(|item: T| item@)
}

/// The views of a sequence of strings, in order.
pub open spec fn texts(v: Seq<String>) -> Seq<Seq<char>> {
    views(v)
}

/// `char::is_whitespace`: the result is the character's `White_Space`
/// property, which [`is_whitespace`] names.
#[verifier::external_body]
pub(crate) fn char_is_whitespace(c: char) -> (r: bool)
    ensures
        r == is_whitespace(c),
{
    c.is_whitespace()
}

/// `str::trim`: the slice without its leading and trailing whitespace,
/// whitespace being the `White_Space` property.
#[verifier::external_body]
pub(crate) fn str_trim(s: &str) -> (r: String)
    ensures
        r@ == trimmed(s@),
{
    s.trim().to_owned()
}

/// `str::lines`: the lines of the slice without their endings, an ending
/// being a line feed or a carriage return followed by a line feed, the
/// last one optional.
#[verifier::external_body]
pub(crate) fn str_lines(s: &str) -> (r: Vec<String>)
    ensures
        texts(r@) == lines_of(s@),
{
    s.lines().map(|line| line.to_owned()).collect()
}

/// `str::split_once`: the parts before and after the first occurrence of
/// `pat`, or `None` where `pat` does not occur.
#[verifier::external_body]
pub(crate) fn str_split_once(s: &str, pat: &str) -> (r: Option<(String, String)>)
    requires
        pat@.len() > 0,
    ensures
        r is None <==> first_occurrence(s@, pat@, 0) < 0,
        r matches Some(parts) ==> {
            let at = first_occurrence(s@, pat@, 0);
            &&& parts.0@ == s@.take(at)
            &&& parts.1@ == s@.skip(at + pat@.len())
        },
{
    match s.split_once(pat) {
        Some((before, after)) => Some((before.to_owned(), after.to_owned())),
        None => None,
    }
}

/// Whether two texts hold the same characters.
pub fn same_text(a: &String, b: &str) -> (r: bool)
    ensures
        r == (a@ == b@),
{
    let other = String::from_str(b);
    *a == other
}

/// Joins `lines` with single line feeds.
pub fn join(lines: &Vec<String>) -> (r: String)
    ensures
        r@ == join_lines(texts(lines@)),
{
    let mut out = String::new();
    let mut i: usize = 0;
    while i < lines.len()
        invariant
            i <= lines.len(),
            out@ == join_lines(texts(lines@).take(i as int)),
        decreases lines.len() - i,
    {
        proof {
            reveal_strlit("\n");
            let next = texts(lines@).take(i + 1);
            assert(next.drop_last() =~= texts(lines@).take(i as int));
            assert(next.last() == lines@[i as int]@);
            assert("\n"@ =~= seq!['\n']);
        }
        if i > 0 {
            out.append("\n");
        }
        out.append(lines[i].as_str());
        proof {
            assert(Seq::<char>::empty() + lines@[i as int]@ =~= lines@[i as int]@);
        }
        i += 1;
    }
    proof {
        assert(texts(lines@).take(lines.len() as int) =~= texts(lines@));
    }
    out
}

/// A run of whitespace at the start of a text is no longer than the text.
pub proof fn lemma_leading_whitespace_bound(s: Seq<char>)
    ensures
        leading_whitespace(s) <= s.len(),
    decreases s.len(),
{
    if s.len() > 0 && is_whitespace(s[0]) {
        lemma_leading_whitespace_bound(s.skip(1));
    }
}

/// The leading whitespace of `s` ends at the first index that holds no
/// whitespace.
pub proof fn lemma_leading_whitespace_is(s: Seq<char>, n: int)
    requires
        0 <= n <= s.len(),
        forall|j: int| 0 <= j < n ==> is_whitespace(#[trigger] s[j]),
        n == s.len() || !is_whitespace(s[n]),
    ensures
        leading_whitespace(s) == n,
    decreases n,
{
    if n > 0 {
        let rest = s.skip(1);
        assert forall|j: int| 0 <= j < n - 1 implies is_whitespace(#[trigger] rest[j]) by {
            assert(rest[j] == s[j + 1]);
        }
        lemma_leading_whitespace_is(rest, n - 1);
    }
}

/// Where the leading whitespace of a text ends, a character that is no
/// whitespace stands, or the text ends.
pub proof fn lemma_leading_whitespace_stops(s: Seq<char>)
    ensures
        leading_whitespace(s) <= s.len(),
        leading_whitespace(s) < s.len() ==> !is_whitespace(s[leading_whitespace(s) as int]),
    decreases s.len(),
{
    if s.len() > 0 && is_whitespace(s[0]) {
        lemma_leading_whitespace_stops(s.skip(1));
    }
}

/// Where the trailing whitespace of a text begins, a character that is no
/// whitespace stands before it, or the text is all whitespace.
pub proof fn lemma_trailing_whitespace_stops(s: Seq<char>)
    ensures
        trailing_whitespace(s) <= s.len(),
        trailing_whitespace(s) < s.len() ==> !is_whitespace(
            s[s.len() - 1 - trailing_whitespace(s)],
        ),
    decreases s.len(),
{
    if s.len() > 0 && is_whitespace(s.last()) {
        lemma_trailing_whitespace_stops(s.drop_last());
    }
}

/// A trimmed text is one contiguous piece of the text it was taken from,
/// character for character, and neither begins nor ends with whitespace.
pub proof fn lemma_trimmed(s: Seq<char>)
    ensures
        ({
            let from = leading_whitespace(s) as int;
            let to = s.len() - trailing_whitespace(s.skip(from));
            &&& 0 <= from <= to <= s.len()
            &&& trimmed(s) == s.subrange(from, to)
        }),
        leading_whitespace(trimmed(s)) == 0,
        trailing_whitespace(trimmed(s)) == 0,
{
    lemma_leading_whitespace_stops(s);
    let from = leading_whitespace(s) as int;
    let rest = s.skip(from);
    lemma_trailing_whitespace_stops(rest);
    let kept = rest.take(rest.len() - trailing_whitespace(rest));
    assert(kept =~= s.subrange(from, s.len() - trailing_whitespace(rest)));
    if kept.len() > 0 {
        assert(kept[0] == s[from]);
        assert(kept.last() == rest[rest.len() - 1 - trailing_whitespace(rest)]);
    }
}

/// The shared margin of a snippet: it is no wider than the leading
/// whitespace of any line, some line has exactly that much, and stripping it
/// removes exactly that many characters from the front of every line.
pub proof fn lemma_snippet_margin(lines: Seq<Seq<char>>)
    ensures
        forall|i: int|
            0 <= i < lines.len() ==> min_indent(lines) <= leading_whitespace(#[trigger] lines[i]),
        lines.len() > 0 ==> exists|i: int|
            0 <= i < lines.len() && leading_whitespace(#[trigger] lines[i]) == min_indent(lines),
        strip_indent(lines, min_indent(lines)).len() == lines.len(),
        forall|i: int|
            0 <= i < lines.len() ==> {
                let stripped = #[trigger] strip_indent(lines, min_indent(lines))[i];
                &&& stripped == lines[i].skip(min_indent(lines) as int)
                &&& stripped.len() + min_indent(lines) == lines[i].len()
            },
    decreases lines.len(),
{
    if lines.len() > 1 {
        let front = lines.drop_last();
        lemma_snippet_margin(front);
        assert forall|i: int| 0 <= i < lines.len() implies min_indent(lines) <= leading_whitespace(
            #[trigger] lines[i],
        ) by {
            if i < front.len() {
                assert(front[i] == lines[i]);
            }
        }
        if leading_whitespace(lines.last()) < min_indent(front) {
            assert(leading_whitespace(lines[lines.len() - 1]) == min_indent(lines));
        } else {
            let k = choose|k: int|
                0 <= k < front.len() && leading_whitespace(#[trigger] front[k]) == min_indent(
                    front,
                );
            assert(front[k] == lines[k]);
        }
    } else if lines.len() == 1 {
        assert(leading_whitespace(lines[0]) == min_indent(lines));
    }
    assert forall|i: int| 0 <= i < lines.len() implies ({
        let stripped = #[trigger] strip_indent(lines, min_indent(lines))[i];
        &&& stripped == lines[i].skip(min_indent(lines) as int)
        &&& stripped.len() + min_indent(lines) == lines[i].len()
    }) by {
        lemma_leading_whitespace_bound(lines[i]);
    }
}

/// What [`first_occurrence`] finds: the first index at or after `from` at
/// which the pattern stands, and -1 exactly where it stands at none.
pub proof fn lemma_first_occurrence(s: Seq<char>, pat: Seq<char>, from: int)
    requires
        0 <= from,
        pat.len() > 0,
    ensures
        ({
            let at = first_occurrence(s, pat, from);
            &&& at == -1 || (from <= at && occurs_at(s, pat, at))
            &&& forall|j: int| from <= j && (j < at || at == -1) ==> !occurs_at(s, pat, j)
        }),
    decreases s.len() - from,
{
    if !(from >= s.len() || from + pat.len() > s.len()) && !occurs_at(s, pat, from) {
        lemma_first_occurrence(s, pat, from + 1);
    }
}

/// The entry of one doc-comment line: what follows the first marker of the
/// line, without the whitespace around it; empty where the line holds no
/// marker.
pub proof fn lemma_doc_line(line: Seq<char>)
    ensures
        ({
            let at = first_occurrence(line, doc_marker(), 0);
            &&& at >= 0 ==> occurs_at(line, doc_marker(), at)
            &&& forall|j: int| 0 <= j && (j < at || at < 0) ==> !occurs_at(line, doc_marker(), j)
            &&& at >= 0 ==> doc_line(line) == trimmed(line.skip(at + 3))
            &&& at < 0 ==> doc_line(line) == Seq::<char>::empty()
        }),
        leading_whitespace(doc_line(line)) == 0,
        trailing_whitespace(doc_line(line)) == 0,
{
    lemma_first_occurrence(line, doc_marker(), 0);
    let at = first_occurrence(line, doc_marker(), 0);
    if at >= 0 {
        lemma_trimmed(line.skip(at + 3));
    }
}

/// A doc-comment block keeps one entry per source line, in order: the
/// entry of a line is what follows its first marker, trimmed, and is empty
/// where the line holds no marker.
pub proof fn lemma_doc_comment_lines(s: Seq<char>)
    ensures
        doc_comment_text(s) == join_lines(
            Seq::new(lines_of(s).len(), |i: int| doc_line(lines_of(s)[i])),
        ),
        forall|line: Seq<char>|
            first_occurrence(line, doc_marker(), 0) < 0 ==> #[trigger] doc_line(line)
                == Seq::<char>::empty(),
{
    assert(lines_of(s).map_values(|line: Seq<char>| doc_line(line)) =~= Seq::new(
        lines_of(s).len(),
        |i: int| doc_line(lines_of(s)[i]),
    ));
}

/// Counts the whitespace characters at the start of `line`.
pub fn leading_whitespace_count(line: &str) -> (r: usize)
    ensures
        r == leading_whitespace(line@),
{
    let len: usize = line.unicode_len();
    let mut i: usize = 0;
    while i < len
        invariant
            i <= len,
            len == line@.len(),
            forall|j: int| 0 <= j < i ==> is_whitespace(#[trigger] line@[j]),
        ensures
            i <= len,
            forall|j: int| 0 <= j < i ==> is_whitespace(#[trigger] line@[j]),
            i == len || !is_whitespace(line@[i as int]),
        decreases len - i,
    {
        if !char_is_whitespace(line.get_char(i)) {
            break ;
        }
        i += 1;
    }
    proof {
        lemma_leading_whitespace_is(line@, i as int);
    }
    i
}

/// Normalises the indentation of a snippet body: removes from every line as
/// many leading characters as the least-indented line has leading
/// whitespace, and joins the lines again.
pub fn parse_snippet_inner(text: &str) -> (r: String)
    ensures
        r@ == snippet_text(text@),
{
    let lines = str_lines(text);
    let ghost all = texts(lines@);
    let mut level: usize = 0;
    let mut i: usize = 0;
    while i < lines.len()
        invariant
            i <= lines.len(),
            all == texts(lines@),
            level == min_indent(all.take(i as int)),
        decreases lines.len() - i,
    {
        let count = leading_whitespace_count(lines[i].as_str());
        proof {
            let next = all.take(i + 1);
            assert(next.drop_last() =~= all.take(i as int));
            assert(next.last() == lines@[i as int]@);
        }
        if i == 0 || count < level {
            level = count;
        }
        i += 1;
    }
    proof {
        assert(all.take(lines.len() as int) =~= all);
        lemma_snippet_margin(all);
    }
    let mut out: Vec<String> = Vec::new();
    let mut k: usize = 0;
    while k < lines.len()
        invariant
            k <= lines.len(),
            all == texts(lines@),
            level == min_indent(all),
            forall|j: int| 0 <= j < all.len() ==> level <= leading_whitespace(#[trigger] all[j]),
            texts(out@) =~= strip_indent(all, level as nat).take(k as int),
        decreases lines.len() - k,
    {
        let line = lines[k].as_str();
        let len: usize = line.unicode_len();
        proof {
            assert(all[k as int] == line@);
            lemma_leading_whitespace_bound(line@);
        }
        let rest = line.substring_char(level, len).to_owned();
        proof {
            assert(rest@ =~= line@.skip(level as int));
        }
        let ghost before = out@;
        out.push(rest);
        proof {
            let stripped = strip_indent(all, level as nat);
            assert(texts(out@) =~= texts(before).push(rest@));
            assert(stripped.take(k + 1) =~= stripped.take(k as int).push(stripped[k as int]));
        }
        k += 1;
    }
    proof {
        assert(strip_indent(all, level as nat).take(lines.len() as int) =~= strip_indent(
            all,
            level as nat,
        ));
    }
    join(&out)
}

/// Extracts the text of a doc-comment block: of each line what follows the
/// marker, trimmed, or nothing where the line has no marker; the lines are
/// joined again in their order.
pub fn parse_doc_comments(text: &str) -> (r: String)
    ensures
        r@ == doc_comment_text(text@),
{
    let lines = str_lines(text);
    let ghost all = texts(lines@);
    let ghost wanted = all.map_values(|line: Seq<char>| doc_line(line));
    let mut out: Vec<String> = Vec::new();
    let mut i: usize = 0;
    while i < lines.len()
        invariant
            i <= lines.len(),
            all == texts(lines@),
            wanted == all.map_values(|line: Seq<char>| doc_line(line)),
            texts(out@) =~= wanted.take(i as int),
        decreases lines.len() - i,
    {
        proof {
            reveal_strlit("///");
            assert("///"@ =~= doc_marker());
            assert(all[i as int] == lines@[i as int]@);
        }
        let entry = match str_split_once(lines[i].as_str(), "///") {
            Some(parts) => str_trim(parts.1.as_str()),
            None => String::new(),
        };
        let ghost before = out@;
        out.push(entry);
        proof {
            assert(texts(out@) =~= texts(before).push(entry@));
            assert(wanted.take(i + 1) =~= wanted.take(i as int).push(wanted[i as int]));
        }
        i += 1;
    }
    proof {
        assert(wanted.take(lines.len() as int) =~= wanted);
    }
    join(&out)
}

} // verus!
