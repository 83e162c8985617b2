//! The requests the tools send to GitLab, the JSON bodies they carry, and the
//! two ways a tool call is turned down.

use crate::text::push_str;
use vstd::prelude::*;

verus! {

/// The HTTP method of a request.
#[derive(Debug, Clone, Copy, PartialEq, Eq, Structural)]
pub enum HttpMethod {
    Get,
    Post,
    Put,
}

/// One value in a JSON request body.
#[derive(Debug)]
pub enum JsonField {
    /// `null`.
    Null,
    /// `true` or `false`.
    Bool(bool),
    /// A JSON string.
    Text(String),
    /// An array of numeric IDs.
    Ids(Vec<u64>),
}

/// What a body value is, with its text as characters.
pub enum FieldView {
    Null,
    Bool(bool),
    Text(Seq<char>),
    Ids(Seq<u64>),
}

impl View for JsonField {
    type V = FieldView;

    open spec fn view(&self) -> FieldView {
        match self {
            JsonField::Null => FieldView::Null,
            JsonField::Bool(b) => FieldView::Bool(*b),
            JsonField::Text(s) => FieldView::Text(s@),
            JsonField::Ids(v) => FieldView::Ids(v@),
        }
    }
}

/// A JSON object body, as its members in order.
pub type Body = Vec<(String, JsonField)>;

/// The members of a body, names and values taken by their views.
pub open spec fn body_view(b: Seq<(String, JsonField)>) -> Seq<(Seq<char>, FieldView)> {
    b.map_values(|m: (String, JsonField)| (m.0@, m.1@))
}

/// One request to the GitLab API.
#[derive(Debug)]
pub struct ApiRequest {
    /// The HTTP method.
    pub method: HttpMethod,
    /// The path below the API base URL, starting with `/`.
    pub path: String,
    /// The query parameters, in order.
    pub query: Vec<(String, String)>,
    /// The JSON object sent as the body, if any.
    pub body: Option<Body>,
}

/// What a request is, with all text as characters.
pub struct RequestView {
    pub method: HttpMethod,
    pub path: Seq<char>,
    pub query: Seq<(Seq<char>, Seq<char>)>,
    pub body: Option<Seq<(Seq<char>, FieldView)>>,
}

impl View for ApiRequest {
    type V = RequestView;

    open spec fn view(&self) -> RequestView {
        RequestView {
            method: self.method,
            path: self.path@,
            query: self.query.deep_view(),
            body: match self.body {
                Some(b) => Some(body_view(b@)),
                None => None,
            },
        }
    }
}

/// Why a tool call produced no request.
#[derive(Debug)]
pub enum Rejection {
    /// The parameters are invalid; the caller gets a protocol error.
    InvalidParams(String),
    /// The tool ran but failed; the caller gets an error result.
    ToolError(String),
}

/// A rejection with its text as characters.
pub enum RejectionView {
    InvalidParams(Seq<char>),
    ToolError(Seq<char>),
}

impl View for Rejection {
    type V = RejectionView;

    open spec fn view(&self) -> RejectionView {
        match self {
            Rejection::InvalidParams(s) => RejectionView::InvalidParams(s@),
            Rejection::ToolError(s) => RejectionView::ToolError(s@),
        }
    }
}

/// A fresh string holding the characters of `s`.
pub fn owned(s: &str) -> (r: String)
    ensures
        r@ == s@,
{
    let mut r = String::new();
    push_str(&mut r, s);
    r
}

/// A rejection for invalid parameters.
pub fn invalid_params(message: &str) -> (r: Rejection)
    ensures
        r@ == RejectionView::InvalidParams(message@),
{
    Rejection::InvalidParams(owned(message))
}

/// A rejection reported as a failed tool result.
pub fn tool_error(message: &str) -> (r: Rejection)
    ensures
        r@ == RejectionView::ToolError(message@),
{
    Rejection::ToolError(owned(message))
}

/// The message given when a write tool is called while writes are off.
pub open spec fn write_disabled_text() -> Seq<char> {
    "write tools are disabled; set GITLAB_ALLOW_WRITE=true to enable them"@
}

/// The rejection of a write tool while writes are off.
pub fn write_disabled() -> (r: Rejection)
    ensures
        r@ == RejectionView::ToolError(write_disabled_text()),
{
    tool_error("write tools are disabled; set GITLAB_ALLOW_WRITE=true to enable them")
}

/// A body member holding text.
pub open spec fn text_member(name: Seq<char>, value: Seq<char>) -> Seq<(Seq<char>, FieldView)> {
    seq![(name, FieldView::Text(value))]
}

/// A body member that is present only when the text is given.
pub open spec fn optional_text_member(name: Seq<char>, value: Option<Seq<char>>) -> Seq<
    (Seq<char>, FieldView),
> {
    match value {
        Some(v) => seq![(name, FieldView::Text(v))],
        None => Seq::empty(),
    }
}

/// A body member holding the text, or `null` when it is absent.
pub open spec fn nullable_text_member(name: Seq<char>, value: Option<Seq<char>>) -> Seq<
    (Seq<char>, FieldView),
> {
    match value {
        Some(v) => seq![(name, FieldView::Text(v))],
        None => seq![(name, FieldView::Null)],
    }
}

/// A body member that is present only when the boolean is given.
pub open spec fn optional_bool_member(name: Seq<char>, value: Option<bool>) -> Seq<
    (Seq<char>, FieldView),
> {
    match value {
        Some(b) => seq![(name, FieldView::Bool(b))],
        None => Seq::empty(),
    }
}

/// A body member holding the boolean, or `null` when it is absent.
pub open spec fn nullable_bool_member(name: Seq<char>, value: Option<bool>) -> Seq<
    (Seq<char>, FieldView),
> {
    match value {
        Some(b) => seq![(name, FieldView::Bool(b))],
        None => seq![(name, FieldView::Null)],
    }
}

/// A body member that is present only when the IDs are given.
pub open spec fn optional_ids_member(name: Seq<char>, value: Option<Seq<u64>>) -> Seq<
    (Seq<char>, FieldView),
> {
    match value {
        Some(v) => seq![(name, FieldView::Ids(v))],
        None => Seq::empty(),
    }
}

/// A body member holding the IDs, or `null` when they are absent.
pub open spec fn nullable_ids_member(name: Seq<char>, value: Option<Seq<u64>>) -> Seq<
    (Seq<char>, FieldView),
> {
    match value {
        Some(v) => seq![(name, FieldView::Ids(v))],
        None => seq![(name, FieldView::Null)],
    }
}

/// The view of an optional list of IDs.
pub open spec fn ids_view(value: Option<Vec<u64>>) -> Option<Seq<u64>> {
    match value {
        Some(v) => Some(v@),
        None => None,
    }
}

/// Appends one member to a body.
pub fn push_member(body: &mut Body, name: &str, value: JsonField)
    ensures
        body_view(final(body)@) == body_view(old(body)@).push((name@, value@)),
{
    let ghost before = body_view(body@);
    body.push((owned(name), value));
    assert(body_view(body@) =~= before.push((name@, value@)));
}

/// Appends a text member.
pub fn push_text(body: &mut Body, name: &str, value: String)
    ensures
        body_view(final(body)@) == body_view(old(body)@) + text_member(name@, value@),
{
    let ghost v = value@;
    push_member(body, name, JsonField::Text(value));
    assert(body_view(old(body)@).push((name@, FieldView::Text(v))) =~= body_view(old(body)@)
        + text_member(name@, v));
}

/// Appends a text member when the text is given.
pub fn push_optional_text(body: &mut Body, name: &str, value: Option<String>)
    ensures
        body_view(final(body)@) == body_view(old(body)@) + optional_text_member(
            name@,
            crate::query::opt_view(value),
        ),
{
    match value {
        Some(v) => push_text(body, name, v),
        None => {
            assert(body_view(body@) + optional_text_member(name@, None) =~= body_view(body@));
        },
    }
}

/// Appends a text member, or `null` when the text is absent.
pub fn push_nullable_text(body: &mut Body, name: &str, value: Option<String>)
    ensures
        body_view(final(body)@) == body_view(old(body)@) + nullable_text_member(
            name@,
            crate::query::opt_view(value),
        ),
{
    match value {
        Some(v) => push_text(body, name, v),
        None => {
            push_member(body, name, JsonField::Null);
            assert(body_view(old(body)@).push((name@, FieldView::Null)) =~= body_view(old(body)@)
                + nullable_text_member(name@, None));
        },
    }
}

/// Appends a boolean member when the boolean is given.
pub fn push_optional_bool(body: &mut Body, name: &str, value: Option<bool>)
    ensures
        body_view(final(body)@) == body_view(old(body)@) + optional_bool_member(name@, value),
{
    match value {
        Some(b) => {
            push_member(body, name, JsonField::Bool(b));
            assert(body_view(old(body)@).push((name@, FieldView::Bool(b))) =~= body_view(
                old(body)@,
            ) + optional_bool_member(name@, value));
        },
        None => {
            assert(body_view(body@) + optional_bool_member(name@, None) =~= body_view(body@));
        },
    }
}

/// Appends a boolean member, or `null` when the boolean is absent.
pub fn push_nullable_bool(body: &mut Body, name: &str, value: Option<bool>)
    ensures
        body_view(final(body)@) == body_view(old(body)@) + nullable_bool_member(name@, value),
{
    let f = match value {
        Some(b) => JsonField::Bool(b),
        None => JsonField::Null,
    };
    push_member(body, name, f);
    assert(body_view(old(body)@).push((name@, f@)) =~= body_view(old(body)@)
        + nullable_bool_member(name@, value));
}

/// Appends an ID list member when the list is given.
pub fn push_optional_ids(body: &mut Body, name: &str, value: Option<Vec<u64>>)
    ensures
        body_view(final(body)@) == body_view(old(body)@) + optional_ids_member(
            name@,
            ids_view(value),
        ),
{
    match value {
        Some(v) => {
            let ghost w = v@;
            push_member(body, name, JsonField::Ids(v));
            assert(body_view(old(body)@).push((name@, FieldView::Ids(w))) =~= body_view(
                old(body)@,
            ) + optional_ids_member(name@, Some(w)));
        },
        None => {
            assert(body_view(body@) + optional_ids_member(name@, None) =~= body_view(body@));
        },
    }
}

/// Appends an ID list member, or `null` when the list is absent.
pub fn push_nullable_ids(body: &mut Body, name: &str, value: Option<Vec<u64>>)
    ensures
        body_view(final(body)@) == body_view(old(body)@) + nullable_ids_member(
            name@,
            ids_view(value),
        ),
{
    let ghost iv = ids_view(value);
    let f = match value {
        Some(v) => JsonField::Ids(v),
        None => JsonField::Null,
    };
    push_member(body, name, f);
    assert(body_view(old(body)@).push((name@, f@)) =~= body_view(old(body)@)
        + nullable_ids_member(name@, iv));
}

} // verus!
