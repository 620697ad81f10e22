//! SQL statements as the repositories hand them to the database: the text,
//! with one positional parameter per argument, and the arguments in order.
use vstd::prelude::*;
use crate::paging::PageWindow;
use crate::text::str_option_view;

verus! {

/// An argument bound to a statement parameter.
#[derive(Clone, Debug, PartialEq, Eq)]
pub enum SqlArg {
    Text(String),
    Int(i64),
}

/// The value of an argument.
pub enum SqlArgView {
    Text(Seq<char>),
    Int(int),
}

impl View for SqlArg {
    type V = SqlArgView;

    open spec fn view(&self) -> SqlArgView {
        match self {
            SqlArg::Text(s) => SqlArgView::Text(s@),
            SqlArg::Int(i) => SqlArgView::Int(*i as int),
        }
    }
}

pub open spec fn args_view(args: Seq<SqlArg>) -> Seq<SqlArgView> {
    args.map_values(|a: SqlArg| a@)
}

/// A statement: its text and its arguments.
pub struct SqlStatement {
    pub sql: String,
    pub args: Vec<SqlArg>,
}

/// The text and the argument values of a statement.
pub struct SqlStatementView {
    pub sql: Seq<char>,
    pub args: Seq<SqlArgView>,
}

impl View for SqlStatement {
    type V = SqlStatementView;

    open spec fn view(&self) -> SqlStatementView {
        SqlStatementView { sql: self.sql@, args: args_view(self.args@) }
    }
}

pub open spec fn text_arg(s: Seq<char>) -> SqlArgView {
    SqlArgView::Text(s)
}

pub open spec fn int_arg(i: int) -> SqlArgView {
    SqlArgView::Int(i)
}

impl SqlStatement {
    /// A statement with the given text and no argument yet.
    pub fn new(sql: &str) -> (s: Self)
        ensures
            s@.sql == sql@,
            s@.args == Seq::<SqlArgView>::empty(),
    {
        let s = SqlStatement { sql: sql.to_owned(), args: Vec::new() };
        assert(s@.args =~= Seq::<SqlArgView>::empty());
        s
    }

    /// Appends text to the statement.
    pub fn push_sql(&mut self, text: &str)
        ensures
            final(self)@.sql == old(self)@.sql + text@,
            final(self)@.args == old(self)@.args,
    {
        self.sql.append(text);
    }

    /// Appends an argument.
    pub fn push_arg(&mut self, arg: SqlArg)
        ensures
            final(self)@.sql == old(self)@.sql,
            final(self)@.args == old(self)@.args.push(arg@),
    {
        let ghost before = self.args@;
        self.args.push(arg);
        assert(args_view(before.push(arg)) =~= args_view(before).push(arg@));
    }

    /// Appends a text argument.
    pub fn push_text(&mut self, text: &str)
        ensures
            final(self)@.sql == old(self)@.sql,
            final(self)@.args == old(self)@.args.push(text_arg(text@)),
    {
        self.push_arg(SqlArg::Text(text.to_owned()));
    }

    /// Appends an integer argument.
    pub fn push_int(&mut self, value: i64)
        ensures
            final(self)@.sql == old(self)@.sql,
            final(self)@.args == old(self)@.args.push(int_arg(value as int)),
    {
        self.push_arg(SqlArg::Int(value));
    }
}

/// `clause` when `present`, nothing otherwise.
pub open spec fn optional_clause(present: bool, clause: Seq<char>) -> Seq<char> {
    if present {
        clause
    } else {
        Seq::empty()
    }
}

/// One text argument for a value that is present, none otherwise.
pub open spec fn optional_text_arg(value: Option<Seq<char>>) -> Seq<SqlArgView> {
    match value {
        Some(v) => seq![text_arg(v)],
        None => Seq::empty(),
    }
}

/// 1 for a value that is given, 0 for one that is not.
pub open spec fn given<T>(value: Option<T>) -> int {
    if value is Some {
        1
    } else {
        0
    }
}

/// `segment` stands in `text` from position `start` on.
pub open spec fn occurs_at(text: Seq<char>, start: int, segment: Seq<char>) -> bool {
    &&& 0 <= start
    &&& start + segment.len() <= text.len()
    &&& text.subrange(start, start + segment.len()) == segment
}

/// `segment` stands somewhere in `text`.
pub open spec fn occurs_in(text: Seq<char>, segment: Seq<char>) -> bool {
    exists|start: int| occurs_at(text, start, segment)
}

/// A segment put between two texts stands right after the first.
pub proof fn lemma_occurs_between(before: Seq<char>, segment: Seq<char>, after: Seq<char>)
    ensures
        occurs_at(before + segment + after, before.len() as int, segment),
{
    assert((before + segment + after).subrange(before.len() as int, (before.len() + segment.len()) as int) =~= segment);
}

/// A segment of a text keeps its place when text is appended, and moves by
/// the length of what is put before it.
pub proof fn lemma_occurs_in_context(
    before: Seq<char>,
    text: Seq<char>,
    after: Seq<char>,
    start: int,
    segment: Seq<char>,
)
    requires
        occurs_at(text, start, segment),
    ensures
        occurs_at(before + text + after, before.len() + start, segment),
        occurs_at(before + text, before.len() + start, segment),
        occurs_at(text + after, start, segment),
        occurs_in(before + text + after, segment),
        occurs_in(before + text, segment),
{
    assert((before + text + after).subrange(before.len() + start, before.len() + start + segment.len())
        =~= text.subrange(start, start + segment.len()));
    assert((before + text).subrange(before.len() + start, before.len() + start + segment.len())
        =~= text.subrange(start, start + segment.len()));
    assert((text + after).subrange(start, start + segment.len()) =~= text.subrange(start, start + segment.len()));
}

/// The organization as the scope filter compares it: empty when absent.
pub open spec fn organization_or_empty(organization_id: Option<Seq<char>>) -> Seq<char> {
    match organization_id {
        Some(o) => o,
        None => ""@,
    }
}

/// The arguments of the tenant and organization scope filter: the tenant,
/// then the organization twice.
pub open spec fn scope_args(tenant_id: Seq<char>, organization_id: Option<Seq<char>>) -> Seq<SqlArgView> {
    seq![
        text_arg(tenant_id),
        text_arg(organization_or_empty(organization_id)),
        text_arg(organization_or_empty(organization_id)),
    ]
}

/// The arguments that bound a page: its size, then its offset.
pub open spec fn window_args(window: PageWindow) -> Seq<SqlArgView> {
    seq![int_arg(window.page_size as int), int_arg(window.offset as int)]
}

/// The statements of one page of a list: the count of all matching rows,
/// the rows of the page, and the page they read.
pub struct ListStatements {
    pub count: SqlStatement,
    pub list: SqlStatement,
    pub window: PageWindow,
}

impl SqlStatement {
    /// Appends `clause` and binds `value` when the value is present.
    pub fn push_filter(&mut self, clause: &str, value: Option<&str>)
        ensures
            final(self)@.sql == old(self)@.sql + optional_clause(value is Some, clause@),
            final(self)@.args == old(self)@.args + optional_text_arg(str_option_view(value)),
    {
        match value {
            Some(v) => {
                self.push_sql(clause);
                self.push_text(v);
            },
            None => {},
        }
        assert(old(self)@.sql + Seq::<char>::empty() =~= old(self)@.sql);
        assert(old(self)@.args + Seq::<SqlArgView>::empty() =~= old(self)@.args);
        assert(old(self)@.args.push(text_arg(value.unwrap()@)) =~= old(self)@.args + seq![text_arg(value.unwrap()@)]);
    }

    /// Binds the tenant and organization scope: the tenant, then the
    /// organization, or an empty text, twice.
    pub fn push_scope(&mut self, tenant_id: &str, organization_id: Option<&str>)
        ensures
            final(self)@.sql == old(self)@.sql,
            final(self)@.args == old(self)@.args + scope_args(tenant_id@, str_option_view(organization_id)),
    {
        let organization: &str = match organization_id {
            Some(o) => o,
            None => "",
        };
        self.push_text(tenant_id);
        self.push_text(organization);
        self.push_text(organization);
        assert(self@.args =~= old(self)@.args + scope_args(tenant_id@, str_option_view(organization_id)));
    }

    /// Binds the size and the offset of a page.
    pub fn push_window(&mut self, window: PageWindow)
        ensures
            final(self)@.sql == old(self)@.sql,
            final(self)@.args == old(self)@.args + window_args(window),
    {
        self.push_int(window.page_size);
        self.push_int(window.offset);
        assert(self@.args =~= old(self)@.args + window_args(window));
    }
}

} // verus!
