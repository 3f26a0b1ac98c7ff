//! The commit-log line.
//!
//! The log command walks the history and shows one entry per commit: a
//! lock icon when the commit is signed, its short identifier, and the
//! first line of its message; the detailed form adds dimmed date and
//! author lines. The walking and the date formatting belong to the
//! command layer; the entry's shape is decided here.

use vstd::prelude::*;
use vstd::string::StringExecFns;

use crate::node::Icon;
use crate::node::Node;
use crate::node::Status;
use crate::node::spec_first_line;
use crate::node::first_line;
use crate::objects::CommitInfo;
use crate::objects::short_id;
use crate::objects::spec_short_id;

verus! {

/// The head line of a log entry: the lock icon when signed, the short
/// commit id, and the first line of the message.
pub open spec fn is_log_head(c: CommitInfo, n: Node) -> bool {
    &&& n is Block
    &&& n->Block_0@.len() == 4
    &&& n->Block_0@[0] == (if c.signed {
        Node::Icon(Icon::Lock, Some(Status::Success))
    } else {
        Node::Spacer
    })
    &&& n->Block_0@[1] is Attribute
    &&& n->Block_0@[1]->Attribute_0 is CommitShort
    &&& n->Block_0@[1]->Attribute_0->CommitShort_0@ == spec_short_id(c.id@)
    &&& n->Block_0@[2] == Node::Spacer
    &&& n->Block_0@[3] is Text
    &&& n->Block_0@[3]->Text_0@ == spec_first_line(c.message@)
    &&& n->Block_0@[3]->Text_1 is None
}

/// A dimmed metadata line of a log entry: a fixed label followed by the
/// given content.
pub open spec fn is_meta_line(label: Seq<char>, content: Seq<char>, n: Node) -> bool {
    &&& n is Dimmed
    &&& (*n->Dimmed_0) is Text
    &&& (*n->Dimmed_0)->Text_0@ == label + content
    &&& (*n->Dimmed_0)->Text_1 is None
}

/// A whole log entry: the head line alone, or the head line with its
/// dimmed date and author lines in the detailed form.
pub open spec fn is_log_entry(
    c: CommitInfo,
    date: Seq<char>,
    author: Seq<char>,
    detailed: bool,
    n: Node,
) -> bool {
    if detailed {
        &&& n is MultiLine
        &&& n->MultiLine_0@.len() == 3
        &&& is_log_head(c, n->MultiLine_0@[0])
        &&& is_meta_line("Date: "@, date, n->MultiLine_0@[1])
        &&& is_meta_line("Author: "@, author, n->MultiLine_0@[2])
    } else {
        is_log_head(c, n)
    }
}

/// A dimmed metadata line.
fn meta_line(label: &str, content: &String) -> (n: Node)
    ensures
        is_meta_line(label@, content@, n),
{
    let mut s = label.to_owned();
    s.append(content.as_str());
    Node::Dimmed(Box::new(Node::Text(s, Option::None)))
}

/// Builds one log entry for a commit: its short id, first message line
/// and signature mark, with dimmed date and author lines in the detailed
/// form. The date and author texts come already formatted from the
/// command layer.
pub fn log_entry(c: &CommitInfo, date: &String, author: &String, detailed: bool) -> (n: Node)
    ensures
        is_log_entry(*c, date@, author@, detailed, n),
{
    let mut cs: Vec<Node> = Vec::new();
    if c.signed {
        cs.push(Node::Icon(Icon::Lock, Option::Some(Status::Success)));
    } else {
        cs.push(Node::Spacer);
    }
    cs.push(Node::Attribute(crate::node::Attribute::CommitShort(short_id(&c.id))));
    cs.push(Node::Spacer);
    cs.push(Node::Text(first_line(&c.message), Option::None));
    let head = Node::Block(cs);
    if detailed {
        let mut lines: Vec<Node> = Vec::new();
        lines.push(head);
        lines.push(meta_line("Date: ", date));
        lines.push(meta_line("Author: ", author));
        Node::MultiLine(lines)
    } else {
        head
    }
}

} // verus!
