//! The declarative display tree.
//!
//! A [`Node`] is an immutable value describing displayable structure: plain
//! text (optionally capped to a width), enumerated icons and change
//! indicators, typed attributes, horizontal and vertical composition, titled
//! groups and style modifiers. Constructing a tree performs no output; only a
//! rendering backend turns it into terminal bytes.

use vstd::prelude::*;
use vstd::string::StrSliceExecFns;
use vstd::string::StringExecFns;

verus! {

/// Tint applied to an icon; it never changes the glyph itself.
#[derive(Clone, Copy, PartialEq, Eq, Structural, Debug)]
pub enum Status {
    Success,
    Error,
    Neutral,
}

/// The closed set of icon glyphs.
#[derive(Clone, Copy, PartialEq, Eq, Structural, Debug)]
pub enum Icon {
    Check,
    ArrowUp,
    ArrowDown,
    Lock,
}

/// Per-entry change markers shown in the working-tree listing.
#[derive(Clone, Copy, PartialEq, Eq, Structural, Debug)]
pub enum Indicator {
    New,
    Modified,
    Renamed,
    Deleted,
    Unknown,
}

/// Typed metadata rendered with a fixed style per kind.
#[derive(Debug)]
pub enum Attribute {
    Branch(String),
    Tag(String),
    CommitShort(String),
    Operation(String),
}

/// An immutable tree describing what to show, independent of color, width and
/// pagination decisions, which all live in the rendering backend.
#[derive(Debug)]
pub enum Node {
    /// A text run; the optional cap truncates to that many characters,
    /// marking the cut with an ellipsis.
    Text(String, Option<usize>),
    /// An enumerated glyph with an optional status tint.
    Icon(Icon, Option<Status>),
    /// A change marker with a fixed glyph and color per kind.
    Indicator(Indicator),
    /// Typed metadata with a fixed style per kind.
    Attribute(Attribute),
    /// One unit of horizontal whitespace; composable, never collapsed.
    Spacer,
    /// Horizontal composition on a single line.
    Block(Vec<Node>),
    /// Vertical composition, one child per line.
    MultiLine(Vec<Node>),
    /// A titled section with an optional count annotation wrapping a body.
    Group(String, Option<usize>, Box<Node>),
    /// Renders its child dimmed.
    Dimmed(Box<Node>),
    /// Renders its child as a continuation line.
    Continued(Box<Node>),
}

/// The character appended where a capped text was cut short.
pub open spec fn truncation_marker() -> char {
    '\u{2026}'
}

/// What a capped text displays: inputs of at most `cap` characters pass
/// through unchanged; longer inputs keep `cap - 1` characters and end with
/// the truncation marker, so the result never exceeds `cap` characters. A
/// zero cap leaves no room even for the marker and displays nothing.
pub open spec fn capped(s: Seq<char>, cap: nat) -> Seq<char> {
    if s.len() <= cap {
        s
    } else if cap == 0 {
        Seq::empty()
    } else {
        s.subrange(0, cap - 1) + seq![truncation_marker()]
    }
}

/// Truncates `s` to at most `cap` characters, cutting at a character
/// boundary and marking a cut with an ellipsis.
pub fn cap_text(s: &str, cap: usize) -> (r: String)
    ensures
        r@ == capped(s@, cap as nat),
{
    let n = s.unicode_len();
    if n <= cap {
        s.to_owned()
    } else if cap == 0 {
        String::new()
    } else {
        let head = s.substring_char(0, cap - 1);
        let mut out = head.to_owned();
        proof {
            reveal_strlit("\u{2026}");
        }
        out.append("\u{2026}");
        proof {
            assert(out@ =~= capped(s@, cap as nat));
        }
        out
    }
}

impl Node {
    /// A plain, uncapped text node.
    pub fn text(s: String) -> (n: Node)
        ensures
            n == Node::Text(s, None::<usize>),
    {
        Node::Text(s, None)
    }

    /// A text node capped to `cap` characters.
    pub fn text_capped(s: String, cap: usize) -> (n: Node)
        ensures
            n == Node::Text(s, Some(cap)),
    {
        Node::Text(s, Some(cap))
    }

    /// A text node holding only the first line of `s`.
    pub fn text_head_1(s: String) -> (n: Node)
        ensures
            n matches Node::Text(t, c) && t@ == spec_first_line(s@) && c is None,
    {
        Node::Text(first_line(&s), None)
    }

    /// An icon without a status tint.
    pub fn icon(kind: Icon) -> (n: Node)
        ensures
            n == Node::Icon(kind, None::<Status>),
    {
        Node::Icon(kind, None)
    }

    /// A single spacer.
    pub fn spacer() -> (n: Node)
        ensures
            n == Node::Spacer,
    {
        Node::Spacer
    }

    /// Attaches a status tint to an icon node; any other node is returned
    /// unchanged, since only icons carry a tint.
    pub fn with_status(self, status: Status) -> (n: Node)
        ensures
            n == (match self {
                Node::Icon(kind, _) => Node::Icon(kind, Some(status)),
                other => other,
            }),
    {
        match self {
            Node::Icon(kind, _) => Node::Icon(kind, Some(status)),
            other => other,
        }
    }

    /// Wraps a node so it renders dimmed.
    pub fn dimmed(inner: Node) -> (n: Node)
        ensures
            n == Node::Dimmed(Box::new(inner)),
    {
        Node::Dimmed(Box::new(inner))
    }

    /// Wraps a node so it renders as a continuation line.
    pub fn continued(inner: Node) -> (n: Node)
        ensures
            n == Node::Continued(Box::new(inner)),
    {
        Node::Continued(Box::new(inner))
    }
}

/// An icon followed by a spacer and a message, the usual one-line notice.
pub fn message_with_icon(kind: Icon, message: String) -> (n: Node)
    ensures
        n matches Node::Block(cs) && cs@ =~= seq![
            Node::Icon(kind, Some(Status::Success)),
            Node::Spacer,
            Node::Text(message, None::<usize>),
        ],
{
    let mut children: Vec<Node> = Vec::new();
    children.push(Node::Icon(kind, Some(Status::Success)));
    children.push(Node::Spacer);
    children.push(Node::Text(message, None));
    Node::Block(children)
}

/// The prefix of `s` up to, and not including, its first line break.
pub open spec fn spec_first_line(s: Seq<char>) -> Seq<char>
    decreases s.len(),
{
    if s.len() == 0 {
        s
    } else if s[0] == '\n' {
        Seq::empty()
    } else {
        seq![s[0]] + spec_first_line(s.drop_first())
    }
}

/// Up to the first line break, the first line is simply a prefix: if no
/// break occurs before position `k` and position `k` is a break or the end,
/// the first line is the first `k` characters.
proof fn lemma_first_line_take(s: Seq<char>, k: int)
    requires
        0 <= k <= s.len(),
        forall|j: int| 0 <= j < k ==> s[j] != '\n',
        k == s.len() || s[k] == '\n',
    ensures
        spec_first_line(s) == s.subrange(0, k),
    decreases k,
{
    if k == 0 {
        if s.len() == 0 {
            assert(spec_first_line(s) =~= s.subrange(0, 0));
        } else {
            assert(s[0] == '\n');
            assert(spec_first_line(s) =~= s.subrange(0, 0));
        }
    } else {
        assert(s[0] != '\n');
        let t = s.drop_first();
        assert(forall|j: int| 0 <= j < k - 1 ==> t[j] != '\n');
        lemma_first_line_take(t, k - 1);
        assert(spec_first_line(s) =~= s.subrange(0, k));
    }
}

/// The first line of `s` as an owned string.
pub fn first_line(s: &String) -> (r: String)
    ensures
        r@ == spec_first_line(s@),
{
    let sl = s.as_str();
    let n = sl.unicode_len();
    let mut i: usize = 0;
    let mut stop: bool = false;
    while !stop && i < n
        invariant
            0 <= i <= n,
            n == s@.len(),
            sl@ == s@,
            forall|j: int| 0 <= j < i ==> s@[j] != '\n',
            stop ==> i < n && s@[i as int] == '\n',
        decreases n - i, (if stop { 0int } else { 1int }),
    {
        if sl.get_char(i) == '\n' {
            stop = true;
        } else {
            i = i + 1;
        }
    }
    proof {
        lemma_first_line_take(s@, i as int);
    }
    let line = sl.substring_char(0, i);
    line.to_owned()
}

/// The capping law: a text longer than its cap (of at least one column)
/// displays exactly `cap` characters and ends with the truncation marker;
/// a text that fits displays unchanged. A zero cap leaves no room for the
/// marker and is the one width without it.
pub proof fn lemma_text_cap(s: Seq<char>, cap: nat)
    requires
        cap >= 1,
    ensures
        s.len() > cap ==> capped(s, cap).len() == cap && capped(s, cap).last()
            == truncation_marker(),
        s.len() <= cap ==> capped(s, cap) == s,
{
}

} // verus!
