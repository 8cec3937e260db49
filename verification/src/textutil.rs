//! Small command-level helpers: list splitting, batch-format detection,
//! assignee resolution, and plain-text rendering of references and
//! validation errors.

use vstd::prelude::*;

verus! {

use crate::models::task::TaskReference;
use crate::models::task::TaskSort;
use crate::models::task::TaskValidationError;
use crate::models::tag::TagColor;
use crate::text::is_ws_char;
use crate::text::spec_trim;

/// A list separator: comma or semicolon.
pub open spec fn is_sep_char(c: char) -> bool {
    c == ',' || c == ';'
}

/// The trimmed piece, kept only when nonempty.
pub open spec fn spec_finish_piece(cur: Seq<char>) -> Seq<Seq<char>> {
    if spec_trim(cur).len() == 0 {
        Seq::empty()
    } else {
        seq![spec_trim(cur)]
    }
}

/// Accumulate list pieces: split on separators, trim, drop empties.
pub open spec fn spec_split_acc(s: Seq<char>, cur: Seq<char>) -> Seq<Seq<char>>
    decreases s.len(),
{
    if s.len() == 0 {
        spec_finish_piece(cur)
    } else if is_sep_char(s[0]) {
        spec_finish_piece(cur) + spec_split_acc(s.drop_first(), Seq::empty())
    } else {
        spec_split_acc(s.drop_first(), cur.push(s[0]))
    }
}

/// The pieces of a comma- or semicolon-separated list, trimmed, with
/// empty pieces dropped.
pub open spec fn spec_split_list(s: Seq<char>) -> Seq<Seq<char>> {
    spec_split_acc(s, Seq::empty())
}

/// Split a comma- or semicolon-separated list into trimmed, nonempty
/// pieces.
pub fn split_list_string(value: &str) -> (r: Vec<String>)
    ensures
        r.deep_view() == spec_split_list(value@),
{
    let chars = crate::text::str_to_chars(value);
    let mut out: Vec<String> = Vec::new();
    let mut cur: Vec<char> = Vec::new();
    let ghost whole = chars@;
    proof {
        assert(whole.skip(0) =~= whole);
        assert(cur@ =~= Seq::<char>::empty());
        assert(out.deep_view() =~= Seq::<Seq<char>>::empty());
    }
    let mut i: usize = 0;
    while i < chars.len()
        invariant
            0 <= i <= chars@.len(),
            chars@ == whole,
            spec_split_list(whole) == out.deep_view() + spec_split_acc(
                whole.skip(i as int),
                cur@,
            ),
        decreases chars@.len() - i,
    {
        proof {
            assert(whole.skip(i as int)[0] == whole[i as int]);
            assert(whole.skip(i as int).drop_first() =~= whole.skip(i + 1));
        }
        let c = chars[i];
        if c == ',' || c == ';' {
            let piece = crate::text::trim_chars(&cur);
            let ghost prev = out.deep_view();
            if piece.len() > 0 {
                out.push(crate::text::chars_to_string(&piece));
                proof {
                    assert(out.deep_view() =~= prev.push(spec_trim(cur@)));
                    assert(out.deep_view() =~= prev + spec_finish_piece(cur@));
                }
            } else {
                proof {
                    assert(out.deep_view() =~= prev + spec_finish_piece(cur@));
                }
            }
            cur = Vec::new();
            proof {
                assert(cur@ =~= Seq::<char>::empty());
            }
        } else {
            cur.push(c);
        }
        i = i + 1;
    }
    proof {
        assert(whole.skip(i as int).len() == 0);
    }
    let piece = crate::text::trim_chars(&cur);
    let ghost prev = out.deep_view();
    if piece.len() > 0 {
        out.push(crate::text::chars_to_string(&piece));
        proof {
            assert(out.deep_view() =~= prev.push(spec_trim(cur@)));
            assert(out.deep_view() =~= prev + spec_finish_piece(cur@));
            assert(out.deep_view() =~= spec_split_list(whole));
        }
    } else {
        proof {
            assert(out.deep_view() =~= prev + spec_finish_piece(cur@));
            assert(out.deep_view() =~= spec_split_list(whole));
        }
    }
    out
}

/// Supported batch file formats.
#[derive(Debug, Clone, Copy, PartialEq, Eq, Structural)]
pub enum BatchFormat {
    /// A JSON array of records.
    Json,
    /// A CSV file with a header row.
    Csv,
}

/// The extension of a file name: what follows the last dot, when the dot
/// is neither first nor last.
pub open spec fn spec_extension(name: Seq<char>) -> Option<Seq<char>> {
    let d = crate::num::first_index_of(name.reverse(), '.');
    if d >= 1 && d < name.len() - 1 {
        Some(name.skip(name.len() - d))
    } else {
        None
    }
}

/// The extension of a file name, when it has one.
pub fn extension_of(name: &str) -> (r: Option<String>)
    ensures
        match r {
            Some(e) => spec_extension(name@) == Some(e@),
            None => spec_extension(name@) is None,
        },
{
    let chars = crate::text::str_to_chars(name);
    let mut rev: Vec<char> = Vec::new();
    let mut i: usize = chars.len();
    while i > 0
        invariant
            0 <= i <= chars@.len(),
            chars@ == name@,
            rev@ == name@.skip(i as int).reverse(),
        decreases i,
    {
        i = i - 1;
        rev.push(chars[i]);
        proof {
            assert(rev@ =~= name@.skip(i as int).reverse());
        }
    }
    proof {
        assert(name@.skip(0) =~= name@);
        assert(rev@ == name@.reverse());
    }
    match crate::num::find_char(&rev, '.') {
        Some(d) => {
            if d >= 1 && d + 1 < chars.len() {
                let ext = crate::num::slice_chars(&chars, chars.len() - d, chars.len());
                proof {
                    assert(ext@ =~= name@.skip(name@.len() - d));
                }
                Some(crate::text::chars_to_string(&ext))
            } else {
                None
            }
        },
        None => None,
    }
}

/// The batch format a file name implies: `json` and `csv` extensions are
/// recognized, case-insensitively.
pub open spec fn spec_batch_format(name: Seq<char>) -> Option<BatchFormat> {
    match spec_extension(name) {
        Some(e) => {
            let low = crate::text::spec_lower(e);
            if low == "json"@ {
                Some(BatchFormat::Json)
            } else if low == "csv"@ {
                Some(BatchFormat::Csv)
            } else {
                None
            }
        },
        None => None,
    }
}

/// Determine the batch format from a file name's extension.
pub fn detect_batch_format(name: &str) -> (r: Result<BatchFormat, String>)
    ensures
        match r {
            Ok(f) => spec_batch_format(name@) == Some(f),
            Err(m) => spec_batch_format(name@) is None && m@ == "unable to determine batch format for "@
                + name@ + "; specify --format"@,
        },
{
    match extension_of(name) {
        Some(e) => {
            let low = crate::text::to_ascii_lower(e.as_str());
            if crate::text::str_eq(low.as_str(), "json") {
                return Ok(BatchFormat::Json);
            }
            if crate::text::str_eq(low.as_str(), "csv") {
                return Ok(BatchFormat::Csv);
            }
        },
        None => {},
    }
    let mut msg = crate::text::str_to_chars("unable to determine batch format for ");
    let mut n = crate::text::str_to_chars(name);
    msg.append(&mut n);
    let mut tail = crate::text::str_to_chars("; specify --format");
    msg.append(&mut tail);
    Err(crate::text::chars_to_string(&msg))
}

/// The user-facing message for a task validation failure.
pub open spec fn spec_validation_message(err: TaskValidationError, context: Seq<char>) -> Seq<
    char,
> {
    match err {
        TaskValidationError::MissingName => "task name is required to "@ + context,
        TaskValidationError::MissingScope => "either --workspace or at least one --project must be provided to "@
            + context,
        TaskValidationError::EmptyUpdate => "no fields were updated"@,
    }
}

/// Render a task validation failure for the user.
pub fn map_validation_error(err: &TaskValidationError, context: &str) -> (r: String)
    ensures
        r@ == spec_validation_message(*err, context@),
{
    match err {
        TaskValidationError::MissingName => {
            let mut msg = crate::text::str_to_chars("task name is required to ");
            let mut c = crate::text::str_to_chars(context);
            msg.append(&mut c);
            crate::text::chars_to_string(&msg)
        },
        TaskValidationError::MissingScope => {
            let mut msg = crate::text::str_to_chars(
                "either --workspace or at least one --project must be provided to ",
            );
            let mut c = crate::text::str_to_chars(context);
            msg.append(&mut c);
            crate::text::chars_to_string(&msg)
        },
        TaskValidationError::EmptyUpdate => crate::strlist::copy_string("no fields were updated"),
    }
}

/// The assignee a command resolves to: an explicit value wins (with `me`
/// replaced by the configured default when one exists), a blank value
/// resolves to nothing, and an absent value falls back to the configured
/// default, then optionally to `me`.
pub open spec fn spec_resolve_assignee(
    input: Option<String>,
    default_assignee: Option<String>,
    fallback_me: bool,
) -> Option<Seq<char>> {
    match input {
        Some(value) => {
            let t = spec_trim(value@);
            if t.len() == 0 {
                None
            } else if crate::text::spec_lower(t) == "me"@ {
                match default_assignee {
                    Some(d) => Some(d@),
                    None => Some("me"@),
                }
            } else {
                Some(t)
            }
        },
        None => match default_assignee {
            Some(d) => Some(d@),
            None => if fallback_me {
                Some("me"@)
            } else {
                None
            },
        },
    }
}

/// Resolve the assignee for a command.
pub fn resolve_assignee(input: Option<String>, default_assignee: &Option<String>, fallback_me: bool)
    -> (r: Option<String>)
    ensures
        match r {
            Some(v) => spec_resolve_assignee(input, *default_assignee, fallback_me) == Some(v@),
            None => spec_resolve_assignee(input, *default_assignee, fallback_me) is None,
        },
{
    match input {
        Some(value) => {
            let t = crate::text::trim_str(value.as_str());
            if t.as_str().is_empty() {
                None
            } else {
                let low = crate::text::to_ascii_lower(t.as_str());
                if crate::text::str_eq(low.as_str(), "me") {
                    match default_assignee {
                        Some(d) => Some(crate::strlist::copy_string(d.as_str())),
                        None => Some(crate::strlist::copy_string("me")),
                    }
                } else {
                    Some(t)
                }
            }
        },
        None => match default_assignee {
            Some(d) => Some(crate::strlist::copy_string(d.as_str())),
            None => {
                if fallback_me {
                    Some(crate::strlist::copy_string("me"))
                } else {
                    None
                }
            },
        },
    }
}

/// One rendered reference line: a dash, the label, and the gid in
/// parentheses.
pub open spec fn spec_ref_line(r: TaskReference) -> Seq<char> {
    "- "@ + crate::models::workspace::spec_label(r.name, r.gid) + " ("@ + r.gid@ + ")\n"@
}

/// The rendered reference list.
pub open spec fn spec_task_refs_text(refs: Seq<TaskReference>) -> Seq<char>
    decreases refs.len(),
{
    if refs.len() == 0 {
        Seq::empty()
    } else {
        spec_ref_line(refs[0]) + spec_task_refs_text(refs.drop_first())
    }
}

/// Render task references, one `- label (gid)` line each.
pub fn format_task_refs(refs: &Vec<TaskReference>) -> (r: String)
    ensures
        r@ == spec_task_refs_text(refs@),
{
    let mut out: Vec<char> = Vec::new();
    let ghost whole = refs@;
    proof {
        assert(whole.skip(0) =~= whole);
    }
    let mut i: usize = 0;
    while i < refs.len()
        invariant
            0 <= i <= refs@.len(),
            refs@ == whole,
            spec_task_refs_text(whole) == out@ + spec_task_refs_text(whole.skip(i as int)),
        decreases refs@.len() - i,
    {
        proof {
            assert(whole.skip(i as int)[0] == whole[i as int]);
            assert(whole.skip(i as int).drop_first() =~= whole.skip(i + 1));
        }
        let mut dash = crate::text::str_to_chars("- ");
        out.append(&mut dash);
        let label = refs[i].label();
        let mut lc = crate::text::str_to_chars(label.as_str());
        out.append(&mut lc);
        let mut open_p = crate::text::str_to_chars(" (");
        out.append(&mut open_p);
        let mut gc = crate::text::str_to_chars(refs[i].gid.as_str());
        out.append(&mut gc);
        let mut close_p = crate::text::str_to_chars(")\n");
        out.append(&mut close_p);
        proof {
            assert(out@ + spec_task_refs_text(whole.skip(i + 1)) =~= spec_task_refs_text(whole));
        }
        i = i + 1;
    }
    proof {
        assert(whole.skip(i as int).len() == 0);
        assert(out@ =~= spec_task_refs_text(whole));
    }
    crate::text::chars_to_string(&out)
}

/// Batch records mark tasks completed unless they say otherwise.
pub fn true_by_default() -> (r: bool)
    ensures
        r,
{
    true
}

/// The slug for a tag color.
pub open spec fn spec_color_slug(color: TagColor) -> Seq<char> {
    match color {
        TagColor::DarkBlue => "dark-blue"@,
        TagColor::DarkBrown => "dark-brown"@,
        TagColor::DarkGreen => "dark-green"@,
        TagColor::DarkOrange => "dark-orange"@,
        TagColor::DarkPink => "dark-pink"@,
        TagColor::DarkPurple => "dark-purple"@,
        TagColor::DarkRed => "dark-red"@,
        TagColor::DarkTeal => "dark-teal"@,
        TagColor::DarkWarmGray => "dark-warm-gray"@,
        TagColor::LightBlue => "light-blue"@,
        TagColor::LightBrown => "light-brown"@,
        TagColor::LightGreen => "light-green"@,
        TagColor::LightOrange => "light-orange"@,
        TagColor::LightPink => "light-pink"@,
        TagColor::LightPurple => "light-purple"@,
        TagColor::LightRed => "light-red"@,
        TagColor::LightTeal => "light-teal"@,
        TagColor::LightWarmGray => "light-warm-gray"@,
        TagColor::Unknown => "unknown"@,
    }
}

/// Render a tag color as its slug.
pub fn format_color(color: TagColor) -> (r: String)
    ensures
        r@ == spec_color_slug(color),
{
    let s: &str = match color {
        TagColor::DarkBlue => "dark-blue",
        TagColor::DarkBrown => "dark-brown",
        TagColor::DarkGreen => "dark-green",
        TagColor::DarkOrange => "dark-orange",
        TagColor::DarkPink => "dark-pink",
        TagColor::DarkPurple => "dark-purple",
        TagColor::DarkRed => "dark-red",
        TagColor::DarkTeal => "dark-teal",
        TagColor::DarkWarmGray => "dark-warm-gray",
        TagColor::LightBlue => "light-blue",
        TagColor::LightBrown => "light-brown",
        TagColor::LightGreen => "light-green",
        TagColor::LightOrange => "light-orange",
        TagColor::LightPink => "light-pink",
        TagColor::LightPurple => "light-purple",
        TagColor::LightRed => "light-red",
        TagColor::LightTeal => "light-teal",
        TagColor::LightWarmGray => "light-warm-gray",
        TagColor::Unknown => "unknown",
    };
    crate::strlist::copy_string(s)
}

/// The parse of a task sort expression (matched verbatim).
pub open spec fn spec_parse_sort(v: Option<Seq<char>>) -> Result<Option<TaskSort>, Seq<char>> {
    match v {
        None => Ok(None),
        Some(s) => if s == "name"@ {
            Ok(Some(TaskSort::Name))
        } else if s == "due"@ || s == "due_on"@ {
            Ok(Some(TaskSort::DueOn))
        } else if s == "created"@ || s == "created_at"@ {
            Ok(Some(TaskSort::CreatedAt))
        } else if s == "modified"@ || s == "modified_at"@ {
            Ok(Some(TaskSort::ModifiedAt))
        } else if s == "assignee"@ {
            Ok(Some(TaskSort::Assignee))
        } else {
            Err(
                "unsupported sort value '"@ + s
                    + "'; expected name, due_on, created_at, modified_at, or assignee"@,
            )
        },
    }
}

/// Translate a task sort expression into its typed variant.
pub fn parse_sort(value: Option<&str>) -> (r: Result<Option<TaskSort>, String>)
    ensures
        match r {
            Ok(s) => spec_parse_sort(
                match value {
                    Some(v) => Some(v@),
                    None => None,
                },
            ) == Ok::<Option<TaskSort>, Seq<char>>(s),
            Err(m) => spec_parse_sort(
                match value {
                    Some(v) => Some(v@),
                    None => None,
                },
            ) == Err::<Option<TaskSort>, Seq<char>>(m@),
        },
{
    let raw = match value {
        Some(v) => v,
        None => {
            return Ok(None);
        },
    };
    if crate::text::str_eq(raw, "name") {
        Ok(Some(TaskSort::Name))
    } else if crate::text::str_eq(raw, "due") || crate::text::str_eq(raw, "due_on") {
        Ok(Some(TaskSort::DueOn))
    } else if crate::text::str_eq(raw, "created") || crate::text::str_eq(raw, "created_at") {
        Ok(Some(TaskSort::CreatedAt))
    } else if crate::text::str_eq(raw, "modified") || crate::text::str_eq(raw, "modified_at") {
        Ok(Some(TaskSort::ModifiedAt))
    } else if crate::text::str_eq(raw, "assignee") {
        Ok(Some(TaskSort::Assignee))
    } else {
        let mut msg = crate::text::str_to_chars("unsupported sort value '");
        let mut v = crate::text::str_to_chars(raw);
        msg.append(&mut v);
        let mut tail = crate::text::str_to_chars(
            "'; expected name, due_on, created_at, modified_at, or assignee",
        );
        msg.append(&mut tail);
        Err(crate::text::chars_to_string(&msg))
    }
}

} // verus!

verus! {

use crate::text::spec_is_blank;
use crate::text::spec_lower;

/// The least of three values.
pub open spec fn spec_min3(a: int, b: int, c: int) -> int {
    if a <= b && a <= c {
        a
    } else if b <= c {
        b
    } else {
        c
    }
}

fn min3(a: usize, b: usize, c: usize) -> (r: usize)
    ensures
        r == spec_min3(a as int, b as int, c as int),
{
    if a <= b && a <= c {
        a
    } else if b <= c {
        b
    } else {
        c
    }
}

/// The edit distance between the first `i` characters of `a` and the
/// first `j` characters of `b`: insertions, deletions and substitutions
/// each cost one.
pub open spec fn spec_lev(a: Seq<char>, b: Seq<char>, i: int, j: int) -> int
    decreases i, j,
{
    if i <= 0 {
        if j <= 0 {
            0
        } else {
            j
        }
    } else if j <= 0 {
        i
    } else if a[i - 1] == b[j - 1] {
        spec_lev(a, b, i - 1, j - 1)
    } else {
        1 + spec_min3(
            spec_lev(a, b, i - 1, j),
            spec_lev(a, b, i, j - 1),
            spec_lev(a, b, i - 1, j - 1),
        )
    }
}

/// The edit distance is non-negative and at most the longer length.
pub proof fn lemma_lev_bounds(a: Seq<char>, b: Seq<char>, i: int, j: int)
    requires
        0 <= i,
        0 <= j,
    ensures
        0 <= spec_lev(a, b, i, j),
        spec_lev(a, b, i, j) <= if i >= j {
            i
        } else {
            j
        },
    decreases i, j,
{
    if i > 0 && j > 0 {
        lemma_lev_bounds(a, b, i - 1, j - 1);
        if a[i - 1] != b[j - 1] {
            lemma_lev_bounds(a, b, i - 1, j);
            lemma_lev_bounds(a, b, i, j - 1);
        }
    }
}

/// The edit distance between two character vectors.
pub fn levenshtein_chars(av: &Vec<char>, bv: &Vec<char>) -> (r: usize)
    requires
        av@.len() < usize::MAX,
        bv@.len() < usize::MAX,
    ensures
        r == spec_lev(av@, bv@, av@.len() as int, bv@.len() as int),
{
    let ghost a = av@;
    let ghost b = bv@;
    let m = av.len();
    let n = bv.len();
    let mut prev: Vec<usize> = Vec::new();
    let mut j: usize = 0;
    while j <= n
        invariant
            av@ == a,
            bv@ == b,
            n == b.len(),
            n < usize::MAX,
            0 <= j <= n + 1,
            prev@.len() == j,
            forall|k: int| 0 <= k < j ==> prev@[k] == spec_lev(a, b, 0, k),
        decreases n + 1 - j,
    {
        prev.push(j);
        j = j + 1;
    }
    let mut i: usize = 1;
    while i <= m
        invariant
            av@ == a,
            bv@ == b,
            m == a.len(),
            n == b.len(),
            m < usize::MAX,
            n < usize::MAX,
            1 <= i <= m + 1,
            prev@.len() == n + 1,
            forall|k: int| 0 <= k <= n ==> prev@[k] == spec_lev(a, b, i - 1, k),
        decreases m + 1 - i,
    {
        let mut cur: Vec<usize> = Vec::new();
        cur.push(i);
        assert(cur@[0] == spec_lev(a, b, i as int, 0));
        let mut j2: usize = 1;
        while j2 <= n
            invariant
                av@ == a,
                bv@ == b,
                m == a.len(),
                n == b.len(),
                m < usize::MAX,
                n < usize::MAX,
                1 <= i <= m,
                1 <= j2 <= n + 1,
                prev@.len() == n + 1,
                forall|k: int| 0 <= k <= n ==> prev@[k] == spec_lev(a, b, i - 1, k),
                cur@.len() == j2,
                forall|k: int| 0 <= k < j2 ==> cur@[k] == spec_lev(a, b, i as int, k),
            decreases n + 1 - j2,
        {
            proof {
                lemma_lev_bounds(a, b, i - 1, j2 as int);
                lemma_lev_bounds(a, b, i as int, j2 - 1);
                lemma_lev_bounds(a, b, i - 1, j2 - 1);
            }
            if av[i - 1] == bv[j2 - 1] {
                cur.push(prev[j2 - 1]);
            } else {
                let best = min3(prev[j2], cur[j2 - 1], prev[j2 - 1]);
                cur.push(1 + best);
            }
            j2 = j2 + 1;
        }
        prev = cur;
        i = i + 1;
    }
    prev[n]
}

/// The edit distance between two strings.
pub fn levenshtein(a: &str, b: &str) -> (r: usize)
    requires
        a@.len() < usize::MAX,
        b@.len() < usize::MAX,
    ensures
        r == spec_lev(a@, b@, a@.len() as int, b@.len() as int),
{
    let av = crate::text::str_to_chars(a);
    let bv = crate::text::str_to_chars(b);
    levenshtein_chars(&av, &bv)
}

/// The fuzzy-match score of a task name against a query: a blank query
/// matches everything at score zero; a (case-insensitive) substring match
/// scores 500 minus its position; otherwise the score is the longer
/// length minus the edit distance, and a non-positive result is no match.
pub open spec fn spec_fuzzy_score(text: Seq<char>, query: Seq<char>) -> Option<int> {
    if spec_is_blank(query) {
        Some(0)
    } else {
        let hay = spec_lower(text);
        let nd = spec_lower(query);
        let pos = crate::filters::first_match_index(hay, nd);
        if pos >= 0 {
            Some(500 - pos)
        } else {
            let d = spec_lev(hay, nd, hay.len() as int, nd.len() as int);
            let m = if hay.len() >= nd.len() {
                hay.len() as int
            } else {
                nd.len() as int
            };
            if m - d <= 0 {
                None
            } else {
                Some(m - d)
            }
        }
    }
}

/// Score a task name against a search query.
pub fn fuzzy_score(text: &str, query: &str) -> (r: Option<i64>)
    requires
        text@.len() < 0x4000_0000,
        query@.len() < 0x4000_0000,
    ensures
        match r {
            Some(s) => spec_fuzzy_score(text@, query@) == Some(s as int),
            None => spec_fuzzy_score(text@, query@) is None,
        },
{
    if crate::text::is_blank(query) {
        return Some(0);
    }
    let tc = crate::text::str_to_chars(text);
    let hay = crate::text::lower_chars(&tc);
    let qc = crate::text::str_to_chars(query);
    let nd = crate::text::lower_chars(&qc);
    assert(nd@.len() > 0);
    match crate::text::find_sub(&hay, &nd) {
        Some(p) => {
            proof {
                crate::filters::lemma_first_match_found(hay@, nd@, p as int);
            }
            Some(500 - (p as i64))
        },
        None => {
            proof {
                crate::filters::lemma_first_match_none(hay@, nd@);
            }
            proof {
                lemma_lev_bounds(hay@, nd@, hay@.len() as int, nd@.len() as int);
            }
            let d = levenshtein_chars(&hay, &nd);
            let m = if hay.len() >= nd.len() {
                hay.len()
            } else {
                nd.len()
            };
            if m - d == 0 {
                None
            } else {
                Some((m - d) as i64)
            }
        },
    }
}

} // verus!
