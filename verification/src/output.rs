//! Output format selection for project- and task-oriented commands, and
//! the key/value row the detail tables are built from. Rendering itself —
//! tables, colors, terminals — lives with the driver around the library.

use vstd::prelude::*;

verus! {

use crate::models::project::ProjectStatus;
use crate::models::user::UserReference;
use crate::models::user::spec_user_label;
use crate::strlist::opt_view;

/// Supported output formats for project-oriented commands.
#[derive(Debug, Clone, Copy, PartialEq, Eq, Structural)]
pub enum ProjectOutputFormat {
    /// Automatically selected table (default when interactive).
    Table,
    /// JSON representation suitable for scripting.
    Json,
    /// Comma separated value export.
    Csv,
    /// Markdown friendly tables.
    Markdown,
}

impl Default for ProjectOutputFormat {
    /// Tables are the default presentation.
    fn default() -> (r: ProjectOutputFormat)
        ensures
            r == ProjectOutputFormat::Table,
    {
        ProjectOutputFormat::Table
    }
}

/// The name of a project output format.
pub open spec fn spec_project_format_name(f: ProjectOutputFormat) -> Seq<char> {
    match f {
        ProjectOutputFormat::Table => "table"@,
        ProjectOutputFormat::Json => "json"@,
        ProjectOutputFormat::Csv => "csv"@,
        ProjectOutputFormat::Markdown => "markdown"@,
    }
}

impl ProjectOutputFormat {
    /// The format's name.
    pub fn as_str(&self) -> (r: &'static str)
        ensures
            r@ == spec_project_format_name(*self),
    {
        match self {
            ProjectOutputFormat::Table => "table",
            ProjectOutputFormat::Json => "json",
            ProjectOutputFormat::Csv => "csv",
            ProjectOutputFormat::Markdown => "markdown",
        }
    }
}

/// Parse a project output format name, case-insensitively; `md` is an
/// alias for `markdown`.
pub fn parse_project_output_format(s: &str) -> (r: Result<ProjectOutputFormat, String>)
    ensures
        ({
            let n = crate::text::spec_lower(s@);
            match r {
                Ok(f) => (n == "table"@ && f == ProjectOutputFormat::Table) || (n == "json"@ && f
                    == ProjectOutputFormat::Json) || (n == "csv"@ && f
                    == ProjectOutputFormat::Csv) || ((n == "markdown"@ || n == "md"@) && f
                    == ProjectOutputFormat::Markdown),
                Err(m) => n != "table"@ && n != "json"@ && n != "csv"@ && n != "markdown"@ && n
                    != "md"@ && m@ == "unsupported output format '"@ + n
                    + "'; expected table, json, csv, or markdown"@,
            }
        }),
{
    let n = crate::text::to_ascii_lower(s);
    if crate::text::str_eq(n.as_str(), "table") {
        Ok(ProjectOutputFormat::Table)
    } else if crate::text::str_eq(n.as_str(), "json") {
        Ok(ProjectOutputFormat::Json)
    } else if crate::text::str_eq(n.as_str(), "csv") {
        Ok(ProjectOutputFormat::Csv)
    } else if crate::text::str_eq(n.as_str(), "markdown") || crate::text::str_eq(
        n.as_str(),
        "md",
    ) {
        Ok(ProjectOutputFormat::Markdown)
    } else {
        let mut msg = crate::text::str_to_chars("unsupported output format '");
        let mut nc = crate::text::str_to_chars(n.as_str());
        msg.append(&mut nc);
        let mut tail = crate::text::str_to_chars("'; expected table, json, csv, or markdown");
        msg.append(&mut tail);
        Err(crate::text::chars_to_string(&msg))
    }
}

/// Supported output formats for task-oriented commands.
#[derive(Debug, Clone, Copy, PartialEq, Eq, Structural)]
pub enum TaskOutputFormat {
    /// Automatically selected table (default when interactive).
    Table,
    /// JSON representation suitable for scripting.
    Json,
    /// Comma separated value export.
    Csv,
    /// Markdown friendly tables.
    Markdown,
}

impl Default for TaskOutputFormat {
    /// Tables are the default presentation.
    fn default() -> (r: TaskOutputFormat)
        ensures
            r == TaskOutputFormat::Table,
    {
        TaskOutputFormat::Table
    }
}

/// The name of a task output format.
pub open spec fn spec_task_format_name(f: TaskOutputFormat) -> Seq<char> {
    match f {
        TaskOutputFormat::Table => "table"@,
        TaskOutputFormat::Json => "json"@,
        TaskOutputFormat::Csv => "csv"@,
        TaskOutputFormat::Markdown => "markdown"@,
    }
}

impl TaskOutputFormat {
    /// The format's name.
    pub fn as_str(&self) -> (r: &'static str)
        ensures
            r@ == spec_task_format_name(*self),
    {
        match self {
            TaskOutputFormat::Table => "table",
            TaskOutputFormat::Json => "json",
            TaskOutputFormat::Csv => "csv",
            TaskOutputFormat::Markdown => "markdown",
        }
    }
}

/// Parse a task output format name, case-insensitively; `md` is an alias
/// for `markdown`.
pub fn parse_task_output_format(s: &str) -> (r: Result<TaskOutputFormat, String>)
    ensures
        ({
            let n = crate::text::spec_lower(s@);
            match r {
                Ok(f) => (n == "table"@ && f == TaskOutputFormat::Table) || (n == "json"@ && f
                    == TaskOutputFormat::Json) || (n == "csv"@ && f == TaskOutputFormat::Csv) || ((
                n == "markdown"@ || n == "md"@) && f == TaskOutputFormat::Markdown),
                Err(m) => n != "table"@ && n != "json"@ && n != "csv"@ && n != "markdown"@ && n
                    != "md"@ && m@ == "unsupported output format '"@ + n
                    + "'; expected table, json, csv, or markdown"@,
            }
        }),
{
    let n = crate::text::to_ascii_lower(s);
    if crate::text::str_eq(n.as_str(), "table") {
        Ok(TaskOutputFormat::Table)
    } else if crate::text::str_eq(n.as_str(), "json") {
        Ok(TaskOutputFormat::Json)
    } else if crate::text::str_eq(n.as_str(), "csv") {
        Ok(TaskOutputFormat::Csv)
    } else if crate::text::str_eq(n.as_str(), "markdown") || crate::text::str_eq(
        n.as_str(),
        "md",
    ) {
        Ok(TaskOutputFormat::Markdown)
    } else {
        let mut msg = crate::text::str_to_chars("unsupported output format '");
        let mut nc = crate::text::str_to_chars(n.as_str());
        msg.append(&mut nc);
        let mut tail = crate::text::str_to_chars("'; expected table, json, csv, or markdown");
        msg.append(&mut tail);
        Err(crate::text::chars_to_string(&msg))
    }
}

/// One row of a key/value detail table.
#[derive(Debug, Clone, PartialEq, Eq)]
pub struct KeyValueRow {
    /// Row label.
    pub key: String,
    /// Row content.
    pub value: String,
}

impl KeyValueRow {
    /// Build a row from borrowed parts.
    pub fn new(key: &str, value: &str) -> (r: KeyValueRow)
        ensures
            r.key@ == key@,
            r.value@ == value@,
    {
        KeyValueRow {
            key: crate::strlist::copy_string(key),
            value: crate::strlist::copy_string(value),
        }
    }
}

/// The one-line descriptor of a project status update: its title and
/// timestamp joined by an em dash (the gid when both are absent), the
/// author's label in brackets, and the body text after a colon.
pub open spec fn spec_status_line(s: ProjectStatus) -> Seq<char> {
    let header = match (s.title, s.created_at) {
        (Some(t), Some(c)) => t@ + seq![' ', '\u{2014}', ' '] + c@,
        (Some(t), None) => t@,
        (None, Some(c)) => c@,
        (None, None) => s.gid@,
    };
    let with_author = match s.created_by {
        Some(u) => header + " ["@ + spec_user_label(u) + "]"@,
        None => header,
    };
    match s.text {
        Some(t) => with_author + ": "@ + t@,
        None => with_author,
    }
}

/// Render a project status update as one line.
pub fn format_status(status: &ProjectStatus) -> (r: String)
    ensures
        r@ == spec_status_line(*status),
{
    let mut out: Vec<char> = Vec::new();
    match (&status.title, &status.created_at) {
        (Some(t), Some(c)) => {
            let mut tc = crate::text::str_to_chars(t.as_str());
            out.append(&mut tc);
            out.push(' ');
            out.push('\u{2014}');
            out.push(' ');
            let mut cc = crate::text::str_to_chars(c.as_str());
            out.append(&mut cc);
            proof {
                assert(out@ =~= status.title->0@ + seq![' ', '\u{2014}', ' ']
                    + status.created_at->0@);
            }
        },
        (Some(t), None) => {
            let mut tc = crate::text::str_to_chars(t.as_str());
            out.append(&mut tc);
        },
        (None, Some(c)) => {
            let mut cc = crate::text::str_to_chars(c.as_str());
            out.append(&mut cc);
        },
        (None, None) => {
            let mut gc = crate::text::str_to_chars(status.gid.as_str());
            out.append(&mut gc);
        },
    }
    match &status.created_by {
        Some(u) => {
            let mut open_b = crate::text::str_to_chars(" [");
            out.append(&mut open_b);
            let label = u.label();
            let mut lc = crate::text::str_to_chars(label.as_str());
            out.append(&mut lc);
            let mut close_b = crate::text::str_to_chars("]");
            out.append(&mut close_b);
        },
        None => {},
    }
    match &status.text {
        Some(t) => {
            let mut colon = crate::text::str_to_chars(": ");
            out.append(&mut colon);
            let mut tc = crate::text::str_to_chars(t.as_str());
            out.append(&mut tc);
        },
        None => {},
    }
    proof {
        assert(out@ =~= spec_status_line(*status));
    }
    crate::text::chars_to_string(&out)
}

/// A user rendered with the email beside the name: `name <email>` when
/// both are present (and the email nonempty), else the name, else the
/// nonempty email, else the gid.
pub open spec fn spec_user_with_email(u: UserReference) -> Seq<char> {
    match (u.name, u.email) {
        (Some(n), Some(e)) => if e@.len() > 0 {
            n@ + " <"@ + e@ + ">"@
        } else {
            n@
        },
        (Some(n), None) => n@,
        (None, Some(e)) => if e@.len() > 0 {
            e@
        } else {
            u.gid@
        },
        (None, None) => u.gid@,
    }
}

/// Render a user with the email beside the name.
pub fn format_user_with_email(user: &UserReference) -> (r: String)
    ensures
        r@ == spec_user_with_email(*user),
{
    match (&user.name, &user.email) {
        (Some(n), Some(e)) => {
            if e.as_str().is_empty() {
                crate::strlist::copy_string(n.as_str())
            } else {
                let mut out = crate::text::str_to_chars(n.as_str());
                let mut open_a = crate::text::str_to_chars(" <");
                out.append(&mut open_a);
                let mut ec = crate::text::str_to_chars(e.as_str());
                out.append(&mut ec);
                let mut close_a = crate::text::str_to_chars(">");
                out.append(&mut close_a);
                crate::text::chars_to_string(&out)
            }
        },
        (Some(n), None) => crate::strlist::copy_string(n.as_str()),
        (None, Some(e)) => {
            if e.as_str().is_empty() {
                crate::strlist::copy_string(user.gid.as_str())
            } else {
                crate::strlist::copy_string(e.as_str())
            }
        },
        (None, None) => crate::strlist::copy_string(user.gid.as_str()),
    }
}

} // verus!
