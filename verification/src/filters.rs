//! Parsing of the filter expression language.
//!
//! An expression is `field=value`, `field!=value`, `field~regex` or
//! `field:substring`; the first operator found (searched in that order)
//! decides the form, and both sides are trimmed.

use vstd::prelude::*;

verus! {

use crate::models::project::ProjectFilter;
use crate::models::project::SpecProjectFilter;
use crate::models::project::ProjectSort;
use crate::models::project::regex_valid;
use crate::models::project::regex_compiles;
use crate::text::match_at;
use crate::text::spec_trim;
use crate::text::spec_lower;

/// The index of the first occurrence of `op` in `t`, or -1.
pub open spec fn first_match_index(t: Seq<char>, op: Seq<char>) -> int
    decreases t.len(),
{
    if op.len() == 0 {
        0
    } else if t.len() < op.len() {
        -1
    } else if t.take(op.len() as int) == op {
        0
    } else if first_match_index(t.drop_first(), op) < 0 {
        -1
    } else {
        1 + first_match_index(t.drop_first(), op)
    }
}

proof fn lemma_first_match_index(t: Seq<char>, op: Seq<char>, i: int)
    requires
        op.len() > 0,
        0 <= i <= t.len(),
        forall|j: int| 0 <= j < i ==> !match_at(t, op, j),
        i + op.len() <= t.len() ==> (match_at(t, op, i) || i < t.len()),
        i + op.len() > t.len() || match_at(t, op, i),
    ensures
        i + op.len() > t.len() ==> first_match_index(t, op) == -1,
        i + op.len() <= t.len() && match_at(t, op, i) ==> first_match_index(t, op) == i,
    decreases i,
{
    if t.len() < op.len() {
    } else if i == 0 {
        if match_at(t, op, 0) {
            assert(t.take(op.len() as int) =~= t.subrange(0, op.len() as int));
        }
    } else {
        assert(!match_at(t, op, 0));
        assert(t.take(op.len() as int) =~= t.subrange(0, op.len() as int));
        assert(t.take(op.len() as int) != op);
        assert forall|j: int| 0 <= j < i - 1 implies !match_at(t.drop_first(), op, j) by {
            if 0 <= j && j + op.len() <= t.drop_first().len() {
                assert(t.drop_first().subrange(j, j + op.len()) =~= t.subrange(
                    j + 1,
                    j + 1 + op.len(),
                ));
                assert(!match_at(t, op, j + 1));
            }
        }
        if i + op.len() <= t.len() && match_at(t, op, i) {
            assert(t.drop_first().subrange(i - 1, i - 1 + op.len()) =~= t.subrange(
                i,
                i + op.len(),
            ));
            assert(match_at(t.drop_first(), op, i - 1));
        }
        lemma_first_match_index(t.drop_first(), op, i - 1);
    }
}

/// The first occurrence of `op` in `t` is at `i`.
pub proof fn lemma_first_match_found(t: Seq<char>, op: Seq<char>, i: int)
    requires
        op.len() > 0,
        0 <= i,
        match_at(t, op, i),
        forall|j: int| 0 <= j < i ==> !match_at(t, op, j),
    ensures
        first_match_index(t, op) == i,
{
    lemma_first_match_index(t, op, i);
}

/// `op` does not occur in `t`.
pub proof fn lemma_first_match_none(t: Seq<char>, op: Seq<char>)
    requires
        op.len() > 0,
        !crate::text::spec_contains_seq(t, op),
    ensures
        first_match_index(t, op) == -1,
{
    if t.len() >= op.len() {
        assert forall|j: int| 0 <= j < t.len() - op.len() + 1 implies !match_at(t, op, j) by {
            assert(!crate::text::spec_contains_seq(t, op));
        }
        lemma_first_match_index(t, op, t.len() - op.len() + 1);
    } else {
        lemma_first_match_index(t, op, 0);
    }
}

/// Find the first occurrence of an operator, as an index into `t`.
fn find_op(t: &Vec<char>, op: &Vec<char>) -> (r: Option<usize>)
    requires
        op@.len() > 0,
    ensures
        match r {
            Some(i) => first_match_index(t@, op@) == i && i + op@.len() <= t@.len(),
            None => first_match_index(t@, op@) == -1,
        },
{
    match crate::text::find_sub(t, op) {
        Some(i) => {
            proof {
                lemma_first_match_index(t@, op@, i as int);
            }
            Some(i)
        },
        None => {
            proof {
                if t@.len() >= op@.len() {
                    assert forall|j: int| 0 <= j < t@.len() - op@.len() + 1 implies !match_at(
                        t@,
                        op@,
                        j,
                    ) by {
                        assert(!crate::text::spec_contains_seq(t@, op@));
                    }
                    lemma_first_match_index(t@, op@, t@.len() - op@.len() + 1);
                } else {
                    lemma_first_match_index(t@, op@, 0);
                }
            }
            None
        },
    }
}

/// The parse of one filter expression: the filter, or the error message.
pub open spec fn spec_parse_filter(expr: Seq<char>) -> Result<SpecProjectFilter, Seq<char>> {
    let t = spec_trim(expr);
    if t.len() == 0 {
        Err("filter expression cannot be empty"@)
    } else {
        let i = first_match_index(t, "!="@);
        if i >= 0 {
            Ok(SpecProjectFilter::NotEquals(spec_trim(t.take(i)), spec_trim(t.skip(i + 2))))
        } else {
            let j = first_match_index(t, "~"@);
            if j >= 0 {
                let field = spec_trim(t.take(j));
                let pat = spec_trim(t.skip(j + 1));
                if regex_valid(pat) {
                    Ok(SpecProjectFilter::Regex(field, pat))
                } else {
                    Err("failed to compile regex filter for field '"@ + field + "'"@)
                }
            } else {
                let k = first_match_index(t, "="@);
                if k >= 0 {
                    Ok(SpecProjectFilter::Equals(spec_trim(t.take(k)), spec_trim(t.skip(k + 1))))
                } else {
                    let l = first_match_index(t, ":"@);
                    if l >= 0 {
                        Ok(
                            SpecProjectFilter::Contains(
                                spec_trim(t.take(l)),
                                spec_trim(t.skip(l + 1)),
                            ),
                        )
                    } else {
                        Err(
                            "unable to parse filter expression '"@ + t
                                + "'; expected syntax field=value | field!=value | field~regex | field:substring"@,
                        )
                    }
                }
            }
        }
    }
}

fn trimmed_part(t: &Vec<char>, a: usize, b: usize) -> (r: String)
    requires
        a <= b <= t@.len(),
    ensures
        r@ == spec_trim(t@.subrange(a as int, b as int)),
{
    let part = crate::num::slice_chars(t, a, b);
    let trimmed = crate::text::trim_chars(&part);
    crate::text::chars_to_string(&trimmed)
}

/// Attempt to interpret a single filter expression.
pub fn parse_filter(expression: &str) -> (r: Result<ProjectFilter, String>)
    ensures
        match r {
            Ok(f) => spec_parse_filter(expression@) == Ok::<SpecProjectFilter, Seq<char>>(f@),
            Err(m) => spec_parse_filter(expression@) == Err::<SpecProjectFilter, Seq<char>>(m@),
        },
{
    proof {
        reveal_strlit("!=");
        reveal_strlit("~");
        reveal_strlit("=");
        reveal_strlit(":");
    }
    let chars = crate::text::str_to_chars(expression);
    let t = crate::text::trim_chars(&chars);
    if t.len() == 0 {
        return Err(crate::strlist::copy_string("filter expression cannot be empty"));
    }
    let ne = crate::text::str_to_chars("!=");
    match find_op(&t, &ne) {
        Some(i) => {
            let field = trimmed_part(&t, 0, i);
            let value = trimmed_part(&t, i + 2, t.len());
            proof {
                assert(t@.subrange(0, i as int) =~= t@.take(i as int));
                assert(t@.subrange(i + 2, t@.len() as int) =~= t@.skip(i + 2));
            }
            return Ok(ProjectFilter::NotEquals(field, value));
        },
        None => {},
    }
    let tilde = crate::text::str_to_chars("~");
    match find_op(&t, &tilde) {
        Some(j) => {
            let field = trimmed_part(&t, 0, j);
            let pat = trimmed_part(&t, j + 1, t.len());
            proof {
                assert(t@.subrange(0, j as int) =~= t@.take(j as int));
                assert(t@.subrange(j + 1, t@.len() as int) =~= t@.skip(j + 1));
            }
            if regex_compiles(pat.as_str()) {
                return Ok(ProjectFilter::Regex(field, pat));
            } else {
                let mut msg = crate::text::str_to_chars("failed to compile regex filter for field '");
                let mut f = crate::text::str_to_chars(field.as_str());
                msg.append(&mut f);
                let mut q = crate::text::str_to_chars("'");
                msg.append(&mut q);
                return Err(crate::text::chars_to_string(&msg));
            }
        },
        None => {},
    }
    let eq = crate::text::str_to_chars("=");
    match find_op(&t, &eq) {
        Some(k) => {
            let field = trimmed_part(&t, 0, k);
            let value = trimmed_part(&t, k + 1, t.len());
            proof {
                assert(t@.subrange(0, k as int) =~= t@.take(k as int));
                assert(t@.subrange(k + 1, t@.len() as int) =~= t@.skip(k + 1));
            }
            return Ok(ProjectFilter::Equals(field, value));
        },
        None => {},
    }
    let colon = crate::text::str_to_chars(":");
    match find_op(&t, &colon) {
        Some(l) => {
            let field = trimmed_part(&t, 0, l);
            let value = trimmed_part(&t, l + 1, t.len());
            proof {
                assert(t@.subrange(0, l as int) =~= t@.take(l as int));
                assert(t@.subrange(l + 1, t@.len() as int) =~= t@.skip(l + 1));
            }
            return Ok(ProjectFilter::Contains(field, value));
        },
        None => {},
    }
    let mut msg = crate::text::str_to_chars("unable to parse filter expression '");
    let mut tc = crate::num::slice_chars(&t, 0, t.len());
    proof {
        assert(tc@ =~= t@);
    }
    msg.append(&mut tc);
    let mut tail = crate::text::str_to_chars(
        "'; expected syntax field=value | field!=value | field~regex | field:substring",
    );
    msg.append(&mut tail);
    Err(crate::text::chars_to_string(&msg))
}

/// Parse a collection of expressions into project filters, stopping at
/// the first invalid one.
pub fn parse_filters(expressions: &Vec<String>) -> (r: Result<Vec<ProjectFilter>, String>)
    ensures
        match r {
            Ok(fs) => fs@.len() == expressions@.len() && forall|i: int|
                0 <= i < fs@.len() ==> spec_parse_filter(expressions.deep_view()[i]) == Ok::<
                    SpecProjectFilter,
                    Seq<char>,
                >((#[trigger] fs@[i])@),
            Err(m) => exists|i: int|
                0 <= i < expressions@.len() && spec_parse_filter(
                    #[trigger] expressions.deep_view()[i],
                ) == Err::<SpecProjectFilter, Seq<char>>(m@),
        },
{
    let mut out: Vec<ProjectFilter> = Vec::new();
    let mut i: usize = 0;
    while i < expressions.len()
        invariant
            0 <= i <= expressions@.len(),
            out@.len() == i,
            forall|j: int|
                0 <= j < i ==> spec_parse_filter(expressions.deep_view()[j]) == Ok::<
                    SpecProjectFilter,
                    Seq<char>,
                >((#[trigger] out@[j])@),
        decreases expressions@.len() - i,
    {
        proof {
            assert(expressions.deep_view()[i as int] == expressions@[i as int]@);
        }
        match parse_filter(expressions[i].as_str()) {
            Ok(f) => {
                out.push(f);
            },
            Err(m) => {
                return Err(m);
            },
        }
        i = i + 1;
    }
    Ok(out)
}

/// The parse of a sort expression.
pub open spec fn spec_parse_project_sort(v: Option<Seq<char>>) -> Result<
    Option<ProjectSort>,
    Seq<char>,
> {
    match v {
        None => Ok(None),
        Some(raw) => {
            let n = spec_lower(spec_trim(raw));
            if n == Seq::<char>::empty() {
                Ok(None)
            } else if n == "name"@ {
                Ok(Some(ProjectSort::Name))
            } else if n == "created_at"@ || n == "created"@ {
                Ok(Some(ProjectSort::CreatedAt))
            } else if n == "modified_at"@ || n == "modified"@ {
                Ok(Some(ProjectSort::ModifiedAt))
            } else {
                Err(
                    "unsupported sort field '"@ + n
                        + "'; supported values: name, created_at, modified_at"@,
                )
            }
        },
    }
}

/// Translate a sort expression into its typed variant.
pub fn parse_sort(value: Option<&str>) -> (r: Result<Option<ProjectSort>, String>)
    ensures
        match r {
            Ok(s) => spec_parse_project_sort(
                match value {
                    Some(v) => Some(v@),
                    None => None,
                },
            ) == Ok::<Option<ProjectSort>, Seq<char>>(s),
            Err(m) => spec_parse_project_sort(
                match value {
                    Some(v) => Some(v@),
                    None => None,
                },
            ) == Err::<Option<ProjectSort>, Seq<char>>(m@),
        },
{
    let raw = match value {
        Some(v) => v,
        None => {
            return Ok(None);
        },
    };
    let chars = crate::text::str_to_chars(raw);
    let trimmed = crate::text::trim_chars(&chars);
    let lowered = crate::text::lower_chars(&trimmed);
    let n = crate::text::chars_to_string(&lowered);
    if n.as_str().is_empty() {
        proof {
            assert(lowered@ =~= Seq::<char>::empty());
        }
        Ok(None)
    } else if crate::text::str_eq(n.as_str(), "name") {
        Ok(Some(ProjectSort::Name))
    } else if crate::text::str_eq(n.as_str(), "created_at") || crate::text::str_eq(
        n.as_str(),
        "created",
    ) {
        Ok(Some(ProjectSort::CreatedAt))
    } else if crate::text::str_eq(n.as_str(), "modified_at") || crate::text::str_eq(
        n.as_str(),
        "modified",
    ) {
        Ok(Some(ProjectSort::ModifiedAt))
    } else {
        let mut msg = crate::text::str_to_chars("unsupported sort field '");
        let mut nc = crate::text::str_to_chars(n.as_str());
        msg.append(&mut nc);
        let mut tail = crate::text::str_to_chars(
            "'; supported values: name, created_at, modified_at",
        );
        msg.append(&mut tail);
        Err(crate::text::chars_to_string(&msg))
    }
}

} // verus!
