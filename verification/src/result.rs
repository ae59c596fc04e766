//! What a tool hands back to its client.
use vstd::prelude::*;

verus! {

/// A piece of a tool's answer.
#[derive(Debug)]
pub enum ToolContent {
    Text { text: String },
    Image { data: String, mime_type: String },
}

/// A column of a table: the field it shows and its heading.
#[derive(Debug)]
pub struct TableColumn {
    pub key: String,
    pub label: String,
}

/// What a table offers to do: the tool to call and its arguments.
#[derive(Debug)]
pub struct TableAction {
    pub id: &'static str,
    pub label: &'static str,
    pub tool: &'static str,
    pub arguments: serde_json::Value,
}

/// A table that a client can show.
#[derive(Debug)]
pub struct TableApp {
    pub title: &'static str,
    pub columns: Vec<TableColumn>,
    pub rows: Vec<serde_json::Value>,
    pub actions: Vec<TableAction>,
}

/// A tool's answer.
#[derive(Debug)]
pub struct ToolCallResult {
    pub content: Vec<ToolContent>,
    pub structured_content: Option<serde_json::Value>,
    pub is_error: Option<bool>,
    pub app: Option<TableApp>,
}

impl ToolCallResult {
    /// An answer that is one text.
    pub fn text(text: String) -> (r: Self)
        ensures
            r.content@ == seq![ToolContent::Text { text }],
            r.structured_content is None,
            r.is_error is None,
            r.app is None,
    {
        let mut content: Vec<ToolContent> = Vec::new();
        content.push(ToolContent::Text { text });
        let r = ToolCallResult { content, structured_content: None, is_error: None, app: None };
        assert(r.content@ =~= seq![ToolContent::Text { text }]);
        r
    }

    /// The same answer with a table to show.
    pub fn with_app(self, app: TableApp) -> (r: Self)
        ensures
            r == (ToolCallResult { app: Some(app), ..self }),
    {
        ToolCallResult {
            content: self.content,
            structured_content: self.structured_content,
            is_error: self.is_error,
            app: Some(app),
        }
    }
}

/// The texts of an answer, one behind the other.
pub open spec fn joined_texts(content: Seq<ToolContent>) -> Seq<char>
    decreases content.len(),
{
    if content.len() == 0 {
        seq![]
    } else {
        joined_texts(content.drop_last()) + match content.last() {
            ToolContent::Text { text } => text@,
            _ => seq![],
        }
    }
}

/// Joins the texts of an answer.
pub fn join_texts(content: &Vec<ToolContent>) -> (r: String)
    ensures
        r@ == joined_texts(content@),
{
    let mut out: String = String::new();
    let mut i: usize = 0;
    assert(out@ =~= joined_texts(content@.take(0)));
    while i < content.len()
        invariant
            i <= content@.len(),
            out@ == joined_texts(content@.take(i as int)),
        decreases content@.len() - i,
    {
        if let ToolContent::Text { text } = &content[i] {
            out.append(text.as_str());
        }
        proof {
            let next = content@.take(i + 1);
            assert(next.drop_last() =~= content@.take(i as int));
            assert(next.last() == content@[i as int]);
            assert(out@ =~= joined_texts(next));
        }
        i += 1;
    }
    assert(content@.take(content@.len() as int) =~= content@);
    out
}

} // verus!
