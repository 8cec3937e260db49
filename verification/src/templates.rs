//! Template handling: name normalization and `{{variable}}` substitution
//! over project creation payloads. Loading template files is the driver's
//! business; everything here is pure text work.

use vstd::prelude::*;

verus! {

use crate::cachekey::pairs_view;
use crate::models::project::ProjectCreateData;
use crate::strlist::opt_view;
use crate::text::match_at;
use crate::text::spec_lower;
use crate::text::spec_trim;

/// A project template: a name, the project payload it expands to, and
/// bookkeeping the loader fills in.
#[derive(Debug, Clone, PartialEq, Eq)]
pub struct ProjectTemplate {
    /// Template name for display.
    pub name: String,
    /// Underlying project configuration.
    pub project: ProjectCreateData,
    /// Optional description for humans.
    pub description: Option<String>,
    /// Tag metadata applied during listing.
    pub tags: Vec<String>,
    /// Source file path, populated at load time.
    pub source: Option<String>,
}

/// What `char::is_alphanumeric` answers for one character.
pub uninterp spec fn is_alnum_of(c: char) -> bool;

/// Relies on `char::is_alphanumeric`: whether the character is Unicode
/// alphanumeric; a function of the character alone.
#[verifier::external_body]
fn char_is_alphanumeric(c: char) -> (r: bool)
    ensures
        r == is_alnum_of(c),
{
    c.is_alphanumeric()
}

/// A character that survives normalization: alphanumeric, `-`, or `_`.
pub open spec fn spec_keeps_in_normal(c: char) -> bool {
    is_alnum_of(c) || c == '-' || c == '_'
}

/// The normalized characters of a sequence.
pub open spec fn spec_normal_filter(s: Seq<char>) -> Seq<char>
    decreases s.len(),
{
    if s.len() == 0 {
        Seq::empty()
    } else if spec_keeps_in_normal(s[0]) {
        seq![s[0]] + spec_normal_filter(s.drop_first())
    } else {
        spec_normal_filter(s.drop_first())
    }
}

/// A template identifier normalized for comparison: trimmed, lower-cased,
/// and stripped to alphanumerics, hyphens and underscores.
pub open spec fn spec_normalize(s: Seq<char>) -> Seq<char> {
    spec_normal_filter(spec_lower(spec_trim(s)))
}

/// Normalize a template identifier for comparison.
pub fn normalize(value: &str) -> (r: String)
    ensures
        r@ == spec_normalize(value@),
{
    let chars = crate::text::str_to_chars(value);
    let trimmed = crate::text::trim_chars(&chars);
    let lowered = crate::text::lower_chars(&trimmed);
    let mut out: Vec<char> = Vec::new();
    let ghost whole = lowered@;
    proof {
        assert(whole.skip(0) =~= whole);
    }
    let mut i: usize = 0;
    while i < lowered.len()
        invariant
            0 <= i <= lowered@.len(),
            lowered@ == whole,
            spec_normal_filter(whole) == out@ + spec_normal_filter(whole.skip(i as int)),
        decreases lowered@.len() - i,
    {
        proof {
            assert(whole.skip(i as int)[0] == whole[i as int]);
            assert(whole.skip(i as int).drop_first() =~= whole.skip(i + 1));
        }
        let c = lowered[i];
        if char_is_alphanumeric(c) || c == '-' || c == '_' {
            out.push(c);
            proof {
                assert(out@ + spec_normal_filter(whole.skip(i + 1)) =~= spec_normal_filter(
                    whole,
                ));
            }
        }
        i = i + 1;
    }
    proof {
        assert(whole.skip(i as int).len() == 0);
        assert(out@ =~= spec_normal_filter(whole));
    }
    crate::text::chars_to_string(&out)
}

/// One left-to-right, non-overlapping replacement pass, the way
/// `str::replace` rewrites text.
pub open spec fn spec_replace(s: Seq<char>, pat: Seq<char>, rep: Seq<char>) -> Seq<char>
    decreases s.len(),
{
    if pat.len() == 0 || s.len() < pat.len() {
        s
    } else if s.take(pat.len() as int) == pat {
        rep + spec_replace(s.skip(pat.len() as int), pat, rep)
    } else {
        seq![s[0]] + spec_replace(s.drop_first(), pat, rep)
    }
}

/// Replace every occurrence of a pattern, left to right.
pub fn replace_chars(s: &Vec<char>, pat: &Vec<char>, rep: &Vec<char>) -> (r: Vec<char>)
    requires
        pat@.len() > 0,
    ensures
        r@ == spec_replace(s@, pat@, rep@),
{
    let mut out: Vec<char> = Vec::new();
    let ghost whole = s@;
    proof {
        assert(whole.skip(0) =~= whole);
    }
    let mut i: usize = 0;
    while i < s.len()
        invariant
            0 <= i <= s@.len(),
            s@ == whole,
            pat@.len() > 0,
            spec_replace(whole, pat@, rep@) == out@ + spec_replace(
                whole.skip(i as int),
                pat@,
                rep@,
            ),
        decreases s@.len() - i,
    {
        let rest_len = s.len() - i;
        if rest_len >= pat.len() {
            let window = crate::num::slice_chars(s, i, i + pat.len());
            proof {
                assert(window@ =~= whole.skip(i as int).take(pat@.len() as int));
            }
            if crate::text::chars_eq(&window, pat) {
                let mut rc = crate::num::slice_chars(rep, 0, rep.len());
                proof {
                    assert(rc@ =~= rep@);
                    assert(whole.skip(i as int).skip(pat@.len() as int) =~= whole.skip(
                        i + pat@.len(),
                    ));
                }
                out.append(&mut rc);
                proof {
                    assert(out@ + spec_replace(whole.skip(i + pat@.len()), pat@, rep@)
                        =~= spec_replace(whole, pat@, rep@));
                }
                i = i + pat.len();
                continue ;
            }
        }
        proof {
            assert(whole.skip(i as int)[0] == whole[i as int]);
            assert(whole.skip(i as int).drop_first() =~= whole.skip(i + 1));
        }
        out.push(s[i]);
        proof {
            assert(out@ + spec_replace(whole.skip(i + 1), pat@, rep@) =~= spec_replace(
                whole,
                pat@,
                rep@,
            ));
        }
        i = i + 1;
    }
    proof {
        assert(whole.skip(i as int).len() == 0);
        assert(out@ =~= spec_replace(whole, pat@, rep@));
    }
    out
}

/// The `{{key}}` token a variable replaces.
pub open spec fn spec_token(key: Seq<char>) -> Seq<char> {
    "{{"@ + key + "}}"@
}

/// The text after substituting every variable, in order.
pub open spec fn spec_substitute(s: Seq<char>, vars: Seq<(Seq<char>, Seq<char>)>) -> Seq<char>
    decreases vars.len(),
{
    if vars.len() == 0 {
        s
    } else {
        spec_substitute(
            spec_replace(s, spec_token(vars[0].0), vars[0].1),
            vars.drop_first(),
        )
    }
}

/// Apply variable substitutions to a string: each `{{key}}` token becomes
/// the variable's value.
pub fn substitute(input: &str, vars: &Vec<(String, String)>) -> (r: String)
    ensures
        r@ == spec_substitute(input@, pairs_view(vars@)),
{
    proof {
        reveal_strlit("{{");
        reveal_strlit("}}");
    }
    let open_b = crate::text::str_to_chars("{{");
    let close_b = crate::text::str_to_chars("}}");
    let mut cur = crate::text::str_to_chars(input);
    let ghost vv = pairs_view(vars@);
    proof {
        assert(vv.skip(0) =~= vv);
    }
    let mut i: usize = 0;
    while i < vars.len()
        invariant
            0 <= i <= vars@.len(),
            vv == pairs_view(vars@),
            open_b@ == "{{"@,
            close_b@ == "}}"@,
            "{{"@.len() == 2,
            spec_substitute(cur@, vv.skip(i as int)) == spec_substitute(input@, vv),
        decreases vars@.len() - i,
    {
        proof {
            assert(vv.skip(i as int)[0] == vv[i as int]);
            assert(vv.skip(i as int).drop_first() =~= vv.skip(i + 1));
            assert(vv[i as int] == (vars@[i as int].0@, vars@[i as int].1@));
        }
        let key = crate::text::str_to_chars(vars[i].0.as_str());
        let val = crate::text::str_to_chars(vars[i].1.as_str());
        let mut token: Vec<char> = crate::num::slice_chars(&open_b, 0, open_b.len());
        let mut kc = key;
        token.append(&mut kc);
        let mut cc = crate::num::slice_chars(&close_b, 0, close_b.len());
        token.append(&mut cc);
        proof {
            assert(token@ =~= spec_token(vars@[i as int].0@));
        }
        cur = replace_chars(&cur, &token, &val);
        i = i + 1;
    }
    proof {
        assert(vv.skip(i as int).len() == 0);
    }
    crate::text::chars_to_string(&cur)
}

/// The substitution image of an optional string.
pub open spec fn spec_subst_opt(
    o: Option<String>,
    vars: Seq<(Seq<char>, Seq<char>)>,
) -> Option<Seq<char>> {
    match o {
        Some(s) => Some(spec_substitute(s@, vars)),
        None => None,
    }
}

fn subst_opt(o: &Option<String>, vars: &Vec<(String, String)>) -> (r: Option<String>)
    ensures
        match r {
            Some(s) => spec_subst_opt(*o, pairs_view(vars@)) == Some(s@),
            None => spec_subst_opt(*o, pairs_view(vars@)) is None,
        },
{
    match o {
        Some(s) => Some(substitute(s.as_str(), vars)),
        None => None,
    }
}

/// Apply variable substitutions to a project creation payload: the name,
/// every optional text field, every member, and both halves of every
/// custom field.
pub fn apply_template_variables(data: ProjectCreateData, vars: &Vec<(String, String)>) -> (r:
    ProjectCreateData)
    ensures
        ({
            let vv = pairs_view(vars@);
            &&& r.name@ == spec_substitute(data.name@, vv)
            &&& opt_view(r.workspace) == spec_subst_opt(data.workspace, vv)
            &&& opt_view(r.team) == spec_subst_opt(data.team, vv)
            &&& opt_view(r.notes) == spec_subst_opt(data.notes, vv)
            &&& opt_view(r.color) == spec_subst_opt(data.color, vv)
            &&& opt_view(r.start_on) == spec_subst_opt(data.start_on, vv)
            &&& opt_view(r.due_on) == spec_subst_opt(data.due_on, vv)
            &&& opt_view(r.owner) == spec_subst_opt(data.owner, vv)
            &&& r.public == data.public
            &&& r.members.deep_view() == Seq::new(
                data.members@.len(),
                |i: int| spec_substitute(data.members@[i]@, vv),
            )
            &&& pairs_view(r.custom_fields@) == Seq::new(
                data.custom_fields@.len(),
                |i: int|
                    (
                        spec_substitute(data.custom_fields@[i].0@, vv),
                        spec_substitute(data.custom_fields@[i].1@, vv),
                    ),
            )
        }),
{
    let ghost vv = pairs_view(vars@);
    let name = substitute(data.name.as_str(), vars);
    let workspace = subst_opt(&data.workspace, vars);
    let team = subst_opt(&data.team, vars);
    let notes = subst_opt(&data.notes, vars);
    let color = subst_opt(&data.color, vars);
    let start_on = subst_opt(&data.start_on, vars);
    let due_on = subst_opt(&data.due_on, vars);
    let owner = subst_opt(&data.owner, vars);
    let mut members: Vec<String> = Vec::new();
    let mut i: usize = 0;
    while i < data.members.len()
        invariant
            0 <= i <= data.members@.len(),
            vv == pairs_view(vars@),
            members.deep_view() =~= Seq::new(
                i as nat,
                |j: int| spec_substitute(data.members@[j]@, vv),
            ),
        decreases data.members@.len() - i,
    {
        let ghost prev = members.deep_view();
        members.push(substitute(data.members[i].as_str(), vars));
        proof {
            assert(members.deep_view() =~= prev.push(spec_substitute(data.members@[i as int]@, vv)));
            assert(members.deep_view() =~= Seq::new(
                (i + 1) as nat,
                |j: int| spec_substitute(data.members@[j]@, vv),
            ));
        }
        i = i + 1;
    }
    let mut custom_fields: Vec<(String, String)> = Vec::new();
    let mut k: usize = 0;
    while k < data.custom_fields.len()
        invariant
            0 <= k <= data.custom_fields@.len(),
            vv == pairs_view(vars@),
            pairs_view(custom_fields@) =~= Seq::new(
                k as nat,
                |j: int|
                    (
                        spec_substitute(data.custom_fields@[j].0@, vv),
                        spec_substitute(data.custom_fields@[j].1@, vv),
                    ),
            ),
        decreases data.custom_fields@.len() - k,
    {
        let fk = substitute(data.custom_fields[k].0.as_str(), vars);
        let fv = substitute(data.custom_fields[k].1.as_str(), vars);
        let ghost prev = pairs_view(custom_fields@);
        custom_fields.push((fk, fv));
        proof {
            assert(pairs_view(custom_fields@) =~= prev.push(
                (
                    spec_substitute(data.custom_fields@[k as int].0@, vv),
                    spec_substitute(data.custom_fields@[k as int].1@, vv),
                ),
            ));
            assert(pairs_view(custom_fields@) =~= Seq::new(
                (k + 1) as nat,
                |j: int|
                    (
                        spec_substitute(data.custom_fields@[j].0@, vv),
                        spec_substitute(data.custom_fields@[j].1@, vv),
                    ),
            ));
        }
        k = k + 1;
    }
    ProjectCreateData {
        name,
        workspace,
        team,
        notes,
        color,
        start_on,
        due_on,
        public: data.public,
        owner,
        members,
        custom_fields,
    }
}

/// The file extensions that mark a template file.
pub open spec fn spec_is_template_name(name: Seq<char>) -> bool {
    ({
        let d = crate::num::first_index_of(name.reverse(), '.');
        &&& d >= 0
        &&& d < name.len() - 1
        &&& {
            let ext = name.skip(name.len() - d);
            ext == "toml"@ || ext == "template"@ || ext == "tpl"@
        }
    })
}

/// Whether a file name carries a template extension (`toml`, `template`
/// or `tpl`). Whether the path exists and is a file is the caller's check.
pub fn is_template_file(name: &str) -> (r: bool)
    ensures
        r == spec_is_template_name(name@),
{
    let chars = crate::text::str_to_chars(name);
    let mut rev: Vec<char> = Vec::new();
    let mut i: usize = chars.len();
    while i > 0
        invariant
            0 <= i <= chars@.len(),
            chars@ == name@,
            rev@ == name@.skip(i as int).reverse(),
        decreases i,
    {
        i = i - 1;
        rev.push(chars[i]);
        proof {
            assert(rev@ =~= name@.skip(i as int).reverse());
        }
    }
    proof {
        assert(name@.skip(0) =~= name@);
        assert(rev@ == name@.reverse());
    }
    match crate::num::find_char(&rev, '.') {
        Some(d) => {
            if d + 1 >= chars.len() {
                return false;
            }
            let ext = crate::num::slice_chars(&chars, chars.len() - d, chars.len());
            proof {
                assert(ext@ =~= name@.skip(name@.len() - d));
            }
            let toml = crate::text::str_to_chars("toml");
            let template = crate::text::str_to_chars("template");
            let tpl = crate::text::str_to_chars("tpl");
            crate::text::chars_eq(&ext, &toml) || crate::text::chars_eq(&ext, &template)
                || crate::text::chars_eq(&ext, &tpl)
        },
        None => false,
    }
}

/// Parse `KEY=VALUE` variable assignments, trimming both halves.
pub fn parse_variables(entries: &Vec<String>) -> (r: Result<Vec<(String, String)>, String>)
    ensures
        match r {
            Ok(vs) => vs@.len() == entries@.len() && (forall|i: int|
                0 <= i < vs@.len() ==> crate::filters::first_match_index(
                    #[trigger] entries.deep_view()[i],
                    "="@,
                ) >= 0) && forall|i: int|
                0 <= i < vs@.len() ==> ({
                    let e = entries.deep_view()[i];
                    let k = crate::filters::first_match_index(e, "="@);
                    (#[trigger] pairs_view(vs@)[i]) == (
                        spec_trim(e.take(k)),
                        spec_trim(e.skip(k + 1)),
                    )
                }),
            Err(m) => exists|i: int|
                0 <= i < entries@.len() && crate::filters::first_match_index(
                    #[trigger] entries.deep_view()[i],
                    "="@,
                ) == -1,
        },
{
    proof {
        reveal_strlit("=");
    }
    let eq = crate::text::str_to_chars("=");
    let mut out: Vec<(String, String)> = Vec::new();
    let mut i: usize = 0;
    while i < entries.len()
        invariant
            0 <= i <= entries@.len(),
            eq@ == "="@,
            "="@.len() == 1,
            out@.len() == i,
            forall|j: int|
                0 <= j < i ==> crate::filters::first_match_index(
                    #[trigger] entries.deep_view()[j],
                    "="@,
                ) >= 0,
            forall|j: int|
                0 <= j < i ==> ({
                    let e = entries.deep_view()[j];
                    let k = crate::filters::first_match_index(e, "="@);
                    (#[trigger] pairs_view(out@)[j]) == (
                        spec_trim(e.take(k)),
                        spec_trim(e.skip(k + 1)),
                    )
                }),
        decreases entries@.len() - i,
    {
        proof {
            assert(entries.deep_view()[i as int] == entries@[i as int]@);
        }
        let chars = crate::text::str_to_chars(entries[i].as_str());
        let cl = chars.len();
        match crate::text::find_sub(&chars, &eq) {
            Some(p) => {
                proof {
                    crate::filters::lemma_first_match_found(chars@, "="@, p as int);
                }
                let key_part = crate::num::slice_chars(&chars, 0, p);
                let key_t = crate::text::trim_chars(&key_part);
                let val_part = crate::num::slice_chars(&chars, p + 1, chars.len());
                let val_t = crate::text::trim_chars(&val_part);
                proof {
                    assert(chars@.subrange(0, p as int) =~= chars@.take(p as int));
                    assert(chars@.subrange(p + 1, chars@.len() as int) =~= chars@.skip(p + 1));
                }
                let ghost before = out@;
                out.push(
                    (
                        crate::text::chars_to_string(&key_t),
                        crate::text::chars_to_string(&val_t),
                    ),
                );
                proof {
                    assert forall|j: int| 0 <= j < i + 1 implies ({
                        let e = entries.deep_view()[j];
                        let k = crate::filters::first_match_index(e, "="@);
                        (#[trigger] pairs_view(out@)[j]) == (
                            spec_trim(e.take(k)),
                            spec_trim(e.skip(k + 1)),
                        )
                    }) by {
                        if j < i {
                            assert(pairs_view(out@)[j] == pairs_view(before)[j]);
                        } else {
                            assert(pairs_view(out@)[j] == (out@[j].0@, out@[j].1@));
                        }
                    }
                }
            },
            None => {
                proof {
                    crate::filters::lemma_first_match_none(chars@, "="@);
                }
                let mut msg = crate::text::str_to_chars("invalid var '");
                let mut e = crate::num::slice_chars(&chars, 0, chars.len());
                msg.append(&mut e);
                let mut tail = crate::text::str_to_chars("'; expected KEY=VALUE");
                msg.append(&mut tail);
                return Err(crate::text::chars_to_string(&msg));
            },
        }
        i = i + 1;
    }
    Ok(out)
}

} // verus!
