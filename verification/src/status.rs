//! The working-tree status view.
//!
//! The command layer queries the repository and hands the results here as
//! plain values; this module decides what the status display shows — the
//! head line with its ahead/behind indicators, an in-progress operation,
//! the staged and unstaged changes, and the commits not yet merged or
//! pulled — and drives a rendering backend with the resulting trees.

use vstd::prelude::*;

use crate::fmt::dec_digits;
use crate::fmt::fmt_node;
use crate::node::Icon;
use crate::node::Indicator;
use crate::node::Node;
use crate::node::Status;
use crate::node::spec_first_line;
use crate::node::first_line;
use crate::objects::CommitInfo;
use crate::objects::short_id;
use crate::objects::spec_short_id;
use crate::render::Render;
use crate::render::RenderError;

use crate::classify::GitError;
use crate::classify::GitErrorCode;

verus! {

/// The index bit of a freshly added entry.
pub const STATUS_INDEX_NEW: u32 = 1;

/// The index bit of a modified entry.
pub const STATUS_INDEX_MODIFIED: u32 = 2;

/// The index bit of a deleted entry.
pub const STATUS_INDEX_DELETED: u32 = 4;

/// The index bit of a renamed entry.
pub const STATUS_INDEX_RENAMED: u32 = 8;

/// The index bit of an entry whose file type changed.
pub const STATUS_INDEX_TYPECHANGE: u32 = 16;

/// The working-tree bit of an untracked entry.
pub const STATUS_WT_NEW: u32 = 128;

/// The working-tree bit of a modified entry.
pub const STATUS_WT_MODIFIED: u32 = 256;

/// The working-tree bit of a deleted entry.
pub const STATUS_WT_DELETED: u32 = 512;

/// The working-tree bit of an entry whose file type changed.
pub const STATUS_WT_TYPECHANGE: u32 = 1024;

/// The working-tree bit of a renamed entry.
pub const STATUS_WT_RENAMED: u32 = 2048;

/// What happened to an entry.
#[derive(Clone, Copy, PartialEq, Eq, Structural, Debug)]
pub enum Change {
    New,
    Type,
    Modified,
    Renamed,
    Deleted,
}

/// Where a change sits: still in the working tree, or already staged in
/// the index.
#[derive(Clone, Copy, PartialEq, Eq, Structural, Debug)]
pub enum EntryStatus {
    Unknown,
    WorkTree(Change),
    Index(Change),
}

/// One changed path, with the raw status bits the repository reported.
#[derive(Debug)]
pub struct Entry {
    pub path: String,
    pub bits: u32,
}

/// How raw status bits read as an entry status: the working-tree and index
/// bits are tried in a fixed order and the first one set decides.
pub open spec fn spec_entry_status(bits: u32) -> EntryStatus {
    if bits & STATUS_WT_NEW != 0 {
        EntryStatus::WorkTree(Change::New)
    } else if bits & STATUS_INDEX_NEW != 0 {
        EntryStatus::Index(Change::New)
    } else if bits & STATUS_WT_MODIFIED != 0 {
        EntryStatus::WorkTree(Change::Modified)
    } else if bits & STATUS_INDEX_MODIFIED != 0 {
        EntryStatus::Index(Change::Modified)
    } else if bits & STATUS_WT_RENAMED != 0 {
        EntryStatus::WorkTree(Change::Renamed)
    } else if bits & STATUS_INDEX_RENAMED != 0 {
        EntryStatus::Index(Change::Renamed)
    } else if bits & STATUS_WT_DELETED != 0 {
        EntryStatus::WorkTree(Change::Deleted)
    } else if bits & STATUS_INDEX_DELETED != 0 {
        EntryStatus::Index(Change::Deleted)
    } else if bits & STATUS_WT_TYPECHANGE != 0 {
        EntryStatus::WorkTree(Change::Type)
    } else if bits & STATUS_INDEX_TYPECHANGE != 0 {
        EntryStatus::Index(Change::Type)
    } else {
        EntryStatus::Unknown
    }
}

/// Whether an entry with these bits counts as staged: its first set bit is
/// an index bit.
pub open spec fn spec_is_staged(bits: u32) -> bool {
    spec_entry_status(bits) is Index
}

impl Entry {
    /// The entry's path.
    pub fn path(&self) -> (r: &String)
        ensures
            r == &self.path,
    {
        &self.path
    }

    /// The entry's status, read from its raw bits.
    pub fn status(&self) -> (r: EntryStatus)
        ensures
            r == spec_entry_status(self.bits),
    {
        let bits = self.bits;
        if bits & STATUS_WT_NEW != 0 {
            EntryStatus::WorkTree(Change::New)
        } else if bits & STATUS_INDEX_NEW != 0 {
            EntryStatus::Index(Change::New)
        } else if bits & STATUS_WT_MODIFIED != 0 {
            EntryStatus::WorkTree(Change::Modified)
        } else if bits & STATUS_INDEX_MODIFIED != 0 {
            EntryStatus::Index(Change::Modified)
        } else if bits & STATUS_WT_RENAMED != 0 {
            EntryStatus::WorkTree(Change::Renamed)
        } else if bits & STATUS_INDEX_RENAMED != 0 {
            EntryStatus::Index(Change::Renamed)
        } else if bits & STATUS_WT_DELETED != 0 {
            EntryStatus::WorkTree(Change::Deleted)
        } else if bits & STATUS_INDEX_DELETED != 0 {
            EntryStatus::Index(Change::Deleted)
        } else if bits & STATUS_WT_TYPECHANGE != 0 {
            EntryStatus::WorkTree(Change::Type)
        } else if bits & STATUS_INDEX_TYPECHANGE != 0 {
            EntryStatus::Index(Change::Type)
        } else {
            EntryStatus::Unknown
        }
    }

    /// Whether the entry counts as staged.
    pub fn is_staged(&self) -> (r: bool)
        ensures
            r == spec_is_staged(self.bits),
    {
        match self.status() {
            EntryStatus::Index(_) => true,
            _ => false,
        }
    }
}

/// The change marker an entry status displays.
pub open spec fn indicator_for(s: EntryStatus) -> Indicator {
    match s {
        EntryStatus::Unknown => Indicator::Unknown,
        EntryStatus::WorkTree(c) | EntryStatus::Index(c) => match c {
            Change::New => Indicator::New,
            Change::Modified => Indicator::Modified,
            Change::Renamed => Indicator::Renamed,
            Change::Deleted => Indicator::Deleted,
            Change::Type => Indicator::Unknown,
        },
    }
}

/// The staged entries, in order.
pub open spec fn staged_of(s: Seq<Entry>) -> Seq<Entry>
    decreases s.len(),
{
    if s.len() == 0 {
        Seq::empty()
    } else if spec_is_staged(s.last().bits) {
        staged_of(s.drop_last()) + seq![s.last()]
    } else {
        staged_of(s.drop_last())
    }
}

/// The unstaged entries, in order.
pub open spec fn unstaged_of(s: Seq<Entry>) -> Seq<Entry>
    decreases s.len(),
{
    if s.len() == 0 {
        Seq::empty()
    } else if !spec_is_staged(s.last().bits) {
        unstaged_of(s.drop_last()) + seq![s.last()]
    } else {
        unstaged_of(s.drop_last())
    }
}

/// One displayed change: two spacers, the change marker, a spacer and the
/// path.
pub open spec fn is_entry_line(e: Entry, n: Node) -> bool {
    &&& n is Block
    &&& n->Block_0@.len() == 5
    &&& n->Block_0@[0] == Node::Spacer
    &&& n->Block_0@[1] == Node::Spacer
    &&& n->Block_0@[2] == Node::Indicator(indicator_for(spec_entry_status(e.bits)))
    &&& n->Block_0@[3] == Node::Spacer
    &&& n->Block_0@[4] is Text
    &&& n->Block_0@[4]->Text_0@ == e.path@
    &&& n->Block_0@[4]->Text_1 is None
}

/// A titled group of displayed changes: the title, the entry count and one
/// line per entry.
pub open spec fn is_changes_group(title: Seq<char>, entries: Seq<Entry>, n: Node) -> bool {
    &&& n is Group
    &&& n->Group_0@ == title
    &&& n->Group_1 matches Some(k) && k as nat == entries.len()
    &&& (*n->Group_2) is MultiLine
    &&& (*n->Group_2)->MultiLine_0@.len() == entries.len()
    &&& forall|i: int|
        0 <= i < entries.len() ==> is_entry_line(entries[i], (*n->Group_2)->MultiLine_0@[i])
}

/// The whole changes tree: a staged group and an unstaged group, each
/// present exactly when it has entries.
pub open spec fn is_changes_tree(entries: Seq<Entry>, n: Node) -> bool {
    let staged = staged_of(entries);
    let unstaged = unstaged_of(entries);
    &&& n is MultiLine
    &&& if staged.len() > 0 && unstaged.len() > 0 {
        &&& n->MultiLine_0@.len() == 2
        &&& is_changes_group("Staged Changes"@, staged, n->MultiLine_0@[0])
        &&& is_changes_group("Unstaged Changes"@, unstaged, n->MultiLine_0@[1])
    } else if staged.len() > 0 {
        &&& n->MultiLine_0@.len() == 1
        &&& is_changes_group("Staged Changes"@, staged, n->MultiLine_0@[0])
    } else if unstaged.len() > 0 {
        &&& n->MultiLine_0@.len() == 1
        &&& is_changes_group("Unstaged Changes"@, unstaged, n->MultiLine_0@[0])
    } else {
        false
    }
}

/// What a changes rendering appends to the output: nothing when there are
/// no changes, else the image of the changes tree, with no line break
/// because the caller composes further output below it.
pub open spec fn changes_appended(entries: Seq<Entry>, styled: bool, a: Seq<char>) -> bool {
    if staged_of(entries).len() == 0 && unstaged_of(entries).len() == 0 {
        a == Seq::<char>::empty()
    } else {
        exists|t: Node| is_changes_tree(entries, t) && a == fmt_node(t, styled)
    }
}

/// One displayed change as a node.
fn entry_line(e: &Entry) -> (n: Node)
    ensures
        is_entry_line(*e, n),
{
    let indicator = match e.status() {
        EntryStatus::Unknown => Indicator::Unknown,
        EntryStatus::WorkTree(c) | EntryStatus::Index(c) => match c {
            Change::New => Indicator::New,
            Change::Modified => Indicator::Modified,
            Change::Renamed => Indicator::Renamed,
            Change::Deleted => Indicator::Deleted,
            Change::Type => Indicator::Unknown,
        },
    };
    let mut cs: Vec<Node> = Vec::new();
    cs.push(Node::Spacer);
    cs.push(Node::Spacer);
    cs.push(Node::Indicator(indicator));
    cs.push(Node::Spacer);
    cs.push(Node::Text(e.path.clone(), Option::None));
    Node::Block(cs)
}

/// A titled group of changes as a node.
fn changes_group(title: &str, entries: &Vec<Entry>) -> (n: Node)
    ensures
        is_changes_group(title@, entries@, n),
{
    let mut lines: Vec<Node> = Vec::new();
    let mut i: usize = 0;
    while i < entries.len()
        invariant
            0 <= i <= entries@.len(),
            lines@.len() == i,
            forall|j: int| 0 <= j < i ==> is_entry_line(entries@[j], lines@[j]),
        decreases entries@.len() - i,
    {
        lines.push(entry_line(&entries[i]));
        i = i + 1;
    }
    let count = entries.len();
    Node::Group(title.to_owned(), Option::Some(count), Box::new(Node::MultiLine(lines)))
}

/// Entry sequences that display alike: same length, same paths, same
/// bits.
pub open spec fn same_entries(a: Seq<Entry>, b: Seq<Entry>) -> bool {
    a.len() == b.len() && (forall|i: int|
        0 <= i < a.len() ==> a[i].path@ == b[i].path@ && a[i].bits == b[i].bits)
}

/// Splits entries into their staged and unstaged parts, keeping order.
fn partition_entries(entries: &Vec<Entry>) -> (r: (Vec<Entry>, Vec<Entry>))
    ensures
        same_entries(r.0@, staged_of(entries@)),
        same_entries(r.1@, unstaged_of(entries@)),
{
    let mut staged: Vec<Entry> = Vec::new();
    let mut unstaged: Vec<Entry> = Vec::new();
    let mut i: usize = 0;
    while i < entries.len()
        invariant
            0 <= i <= entries@.len(),
            same_entries(staged@, staged_of(entries@.subrange(0, i as int))),
            same_entries(unstaged@, unstaged_of(entries@.subrange(0, i as int))),
        decreases entries@.len() - i,
    {
        proof {
            assert(entries@.subrange(0, i + 1).drop_last() =~= entries@.subrange(0, i as int));
            assert(entries@.subrange(0, i + 1).last() == entries@[i as int]);
        }
        let e = Entry { path: entries[i].path.clone(), bits: entries[i].bits };
        if e.is_staged() {
            staged.push(e);
        } else {
            unstaged.push(e);
        }
        proof {
            assert(same_entries(staged@, staged_of(entries@.subrange(0, i + 1))));
            assert(same_entries(unstaged@, unstaged_of(entries@.subrange(0, i + 1))));
        }
        i = i + 1;
    }
    proof {
        assert(entries@.subrange(0, entries@.len() as int) =~= entries@);
    }
    (staged, unstaged)
}

/// Renders the staged and unstaged changes as two titled groups, each
/// present exactly when it has entries; with no changes at all, nothing is
/// written.
pub fn render_changes<R: Render>(ui: &mut R, entries: &Vec<Entry>) -> (r: Result<
    (),
    RenderError,
>)
    ensures
        final(ui).styled() == old(ui).styled(),
        exists|a: Seq<char>|
            changes_appended(entries@, old(ui).styled(), a) && final(ui).out() == old(ui).out()
                + a,
        staged_of(entries@).len() == 0 && unstaged_of(entries@).len() == 0 ==> r is Ok,
{
    let (staged, unstaged) = partition_entries(entries);
    let mut groups: Vec<Node> = Vec::new();
    if staged.len() > 0 {
        groups.push(changes_group("Staged Changes", &staged));
    }
    if unstaged.len() > 0 {
        groups.push(changes_group("Unstaged Changes", &unstaged));
    }
    if groups.len() == 0 {
        proof {
            assert(staged_of(entries@).len() == 0 && unstaged_of(entries@).len() == 0);
            assert(changes_appended(entries@, old(ui).styled(), Seq::<char>::empty()));
            assert(ui.out() =~= old(ui).out() + Seq::<char>::empty());
        }
        return Result::Ok(());
    }
    let tree = Node::MultiLine(groups);
    proof {
        assert(is_changes_tree(entries@, tree));
    }
    let r = ui.render(&tree);
    proof {
        assert(changes_appended(entries@, old(ui).styled(), fmt_node(tree, old(ui).styled())));
    }
    r
}

/// The summary a head line shows: the branch name and the head commit's
/// message.
#[derive(Debug)]
pub struct HeadSummary {
    pub name: String,
    pub message: String,
}

/// The repository's head as the display logic sees it.
#[derive(Debug)]
pub enum Head {
    /// A born branch with its summary.
    Branch(HeadSummary),
    /// A repository with no commit yet.
    Unborn,
}

/// The ahead/behind indicators: an up arrow with the ahead count, a down
/// arrow with the behind count, or both, each only when its count is not
/// zero.
pub open spec fn is_indicators(ahead: u64, behind: u64, n: Node) -> bool {
    &&& n is Block
    &&& if ahead == 0 && behind != 0 {
        &&& n->Block_0@.len() == 3
        &&& n->Block_0@[0] == Node::Icon(Icon::ArrowDown, Some(Status::Error))
        &&& n->Block_0@[1] == Node::Spacer
        &&& n->Block_0@[2] is Text
        &&& n->Block_0@[2]->Text_0@ == dec_digits(behind as nat)
        &&& n->Block_0@[2]->Text_1 is None
    } else if behind == 0 && ahead != 0 {
        &&& n->Block_0@.len() == 3
        &&& n->Block_0@[0] == Node::Icon(Icon::ArrowUp, Some(Status::Success))
        &&& n->Block_0@[1] == Node::Spacer
        &&& n->Block_0@[2] is Text
        &&& n->Block_0@[2]->Text_0@ == dec_digits(ahead as nat)
        &&& n->Block_0@[2]->Text_1 is None
    } else if ahead != 0 && behind != 0 {
        &&& n->Block_0@.len() == 6
        &&& n->Block_0@[0] == Node::Icon(Icon::ArrowUp, Some(Status::Success))
        &&& n->Block_0@[1] == Node::Spacer
        &&& n->Block_0@[2] is Text
        &&& n->Block_0@[2]->Text_0@ == dec_digits(ahead as nat)
        &&& n->Block_0@[2]->Text_1 is None
        &&& n->Block_0@[3] == Node::Spacer
        &&& n->Block_0@[4] == Node::Icon(Icon::ArrowDown, Some(Status::Error))
        &&& n->Block_0@[5] is Text
        &&& n->Block_0@[5]->Text_0@ == dec_digits(behind as nat)
        &&& n->Block_0@[5]->Text_1 is None
    } else {
        false
    }
}

/// A text node holding the decimal digits of a count.
fn count_text(x: u64) -> (n: Node)
    ensures
        n is Text,
        n->Text_0@ == dec_digits(x as nat),
        n->Text_1 is None,
{
    let mut s = String::new();
    crate::fmt::append_dec(&mut s, x);
    Node::Text(s, Option::None)
}

/// The indicator block a branch shows against its upstream: nothing when
/// the branch is level with it, else the nonzero ahead and behind counts,
/// each under its arrow.
pub fn remote_state_indicators(ahead: u64, behind: u64) -> (r: Option<Node>)
    ensures
        ahead == 0 && behind == 0 ==> r is None,
        !(ahead == 0 && behind == 0) ==> (r matches Some(n) && is_indicators(ahead, behind, n)),
{
    if ahead == 0 && behind == 0 {
        Option::None
    } else if ahead == 0 {
        let mut cs: Vec<Node> = Vec::new();
        cs.push(Node::Icon(Icon::ArrowDown, Option::Some(Status::Error)));
        cs.push(Node::Spacer);
        cs.push(count_text(behind));
        Option::Some(Node::Block(cs))
    } else if behind == 0 {
        let mut cs: Vec<Node> = Vec::new();
        cs.push(Node::Icon(Icon::ArrowUp, Option::Some(Status::Success)));
        cs.push(Node::Spacer);
        cs.push(count_text(ahead));
        Option::Some(Node::Block(cs))
    } else {
        let mut cs: Vec<Node> = Vec::new();
        cs.push(Node::Icon(Icon::ArrowUp, Option::Some(Status::Success)));
        cs.push(Node::Spacer);
        cs.push(count_text(ahead));
        cs.push(Node::Spacer);
        cs.push(Node::Icon(Icon::ArrowDown, Option::Some(Status::Error)));
        cs.push(count_text(behind));
        Option::Some(Node::Block(cs))
    }
}

/// The head line of a born branch: its name attribute, the indicators when
/// the branch is not level with its upstream, and the first line of the
/// head commit's message capped to the usual width.
pub open spec fn is_head_line(h: HeadSummary, state: Option<(u64, u64)>, n: Node) -> bool {
    let p = state->0;
    let with_ind = state is Some && !(p.0 == 0 && p.1 == 0);
    &&& n is Block
    &&& if with_ind {
        &&& n->Block_0@.len() == 5
        &&& is_branch_attr(h.name@, n->Block_0@[0])
        &&& n->Block_0@[1] == Node::Spacer
        &&& is_indicators(p.0, p.1, n->Block_0@[2])
        &&& n->Block_0@[3] == Node::Spacer
        &&& is_summary_text(h.message@, n->Block_0@[4])
    } else {
        &&& n->Block_0@.len() == 3
        &&& is_branch_attr(h.name@, n->Block_0@[0])
        &&& n->Block_0@[1] == Node::Spacer
        &&& is_summary_text(h.message@, n->Block_0@[2])
    }
}

/// A branch-name attribute with the given name.
pub open spec fn is_branch_attr(name: Seq<char>, n: Node) -> bool {
    &&& n is Attribute
    &&& n->Attribute_0 is Branch
    &&& n->Attribute_0->Branch_0@ == name
}

/// The message summary: its first line, capped to 75 characters.
pub open spec fn is_summary_text(message: Seq<char>, n: Node) -> bool {
    &&& n is Text
    &&& n->Text_0@ == spec_first_line(message)
    &&& n->Text_1 == Some(75usize)
}

/// What the head rendering appends: the head line of a born branch, or a
/// placeholder branch attribute when no branch is born yet, each followed
/// by a line break.
pub open spec fn branch_appended(head: Head, state: Option<(u64, u64)>, styled: bool, a: Seq<char>) -> bool {
    match head {
        Head::Branch(h) => exists|t: Node| is_head_line(h, state, t) && a == fmt_node(t, styled) + seq!['\n'],
        Head::Unborn => exists|t: Node|
            is_branch_attr("[no branch]"@, t) && a == fmt_node(t, styled) + seq!['\n'],
    }
}

/// Renders the head line: the branch name, the ahead/behind indicators
/// when they exist, and the head commit's summary; an unborn branch shows
/// a placeholder.
pub fn render_branch<R: Render>(ui: &mut R, head: &Head, state: &Option<(u64, u64)>) -> (r:
    Result<(), RenderError>)
    ensures
        final(ui).styled() == old(ui).styled(),
        exists|a: Seq<char>|
            branch_appended(*head, *state, old(ui).styled(), a) && final(ui).out() == old(
                ui,
            ).out() + a,
{
    match head {
        Head::Unborn => {
            let t = Node::Attribute(crate::node::Attribute::Branch("[no branch]".to_owned()));
            let r = ui.renderln(&t);
            proof {
                assert(is_branch_attr("[no branch]"@, t));
                assert(ui.out() =~= old(ui).out() + (fmt_node(t, old(ui).styled())
                    + seq!['\n']));
                assert(branch_appended(
                    *head,
                    *state,
                    old(ui).styled(),
                    fmt_node(t, old(ui).styled()) + seq!['\n'],
                ));
            }
            r
        },
        Head::Branch(h) => {
            let mut cs: Vec<Node> = Vec::new();
            cs.push(Node::Attribute(crate::node::Attribute::Branch(h.name.clone())));
            cs.push(Node::Spacer);
            let mut with_ind = false;
            match state {
                Option::Some(p) => {
                    match remote_state_indicators(p.0, p.1) {
                        Option::Some(ind) => {
                            cs.push(ind);
                            cs.push(Node::Spacer);
                            with_ind = true;
                        },
                        Option::None => {},
                    }
                },
                Option::None => {},
            }
            cs.push(Node::Text(first_line(&h.message), Option::Some(75)));
            let t = Node::Block(cs);
            let r = ui.renderln(&t);
            proof {
                assert(is_head_line(*h, *state, t));
                assert(ui.out() =~= old(ui).out() + (fmt_node(t, old(ui).styled())
                    + seq!['\n']));
                assert(branch_appended(
                    *head,
                    *state,
                    old(ui).styled(),
                    fmt_node(t, old(ui).styled()) + seq!['\n'],
                ));
            }
            r
        },
    }
}

/// The kinds of step a rebase schedules.
#[derive(Clone, Copy, PartialEq, Eq, Structural, Debug)]
pub enum RebaseKind {
    Pick,
    Reword,
    Edit,
    Squash,
    Fixup,
    Exec,
}

/// One scheduled rebase step.
#[derive(Debug)]
pub struct RebaseOp {
    pub id: String,
    pub kind: RebaseKind,
    pub message: String,
}

/// The display name of a rebase step kind.
pub open spec fn rebase_kind_name(k: RebaseKind) -> Seq<char> {
    match k {
        RebaseKind::Pick => "pick"@,
        RebaseKind::Reword => "reword"@,
        RebaseKind::Edit => "edit"@,
        RebaseKind::Squash => "squash"@,
        RebaseKind::Fixup => "fixup"@,
        RebaseKind::Exec => "exec"@,
    }
}

/// The display name of a rebase step kind.
fn rebase_kind_str(k: RebaseKind) -> (r: &'static str)
    ensures
        r@ == rebase_kind_name(k),
{
    match k {
        RebaseKind::Pick => "pick",
        RebaseKind::Reword => "reword",
        RebaseKind::Edit => "edit",
        RebaseKind::Squash => "squash",
        RebaseKind::Fixup => "fixup",
        RebaseKind::Exec => "exec",
    }
}

/// One displayed rebase step: its kind, its short commit id dimmed, and
/// the first line of its message.
pub open spec fn is_rebase_line(op: RebaseOp, n: Node) -> bool {
    &&& n is Block
    &&& n->Block_0@.len() == 7
    &&& n->Block_0@[0] == Node::Spacer
    &&& n->Block_0@[1] == Node::Spacer
    &&& n->Block_0@[2] is Attribute
    &&& n->Block_0@[2]->Attribute_0 is Operation
    &&& n->Block_0@[2]->Attribute_0->Operation_0@ == rebase_kind_name(op.kind)
    &&& n->Block_0@[3] == Node::Spacer
    &&& n->Block_0@[4] is Dimmed
    &&& (*n->Block_0@[4]->Dimmed_0) is Text
    &&& (*n->Block_0@[4]->Dimmed_0)->Text_0@ == spec_short_id(op.id@)
    &&& (*n->Block_0@[4]->Dimmed_0)->Text_1 is None
    &&& n->Block_0@[5] == Node::Spacer
    &&& n->Block_0@[6] is Text
    &&& n->Block_0@[6]->Text_0@ == spec_first_line(op.message@)
    &&& n->Block_0@[6]->Text_1 is None
}

/// The closing hint of the rebase group.
pub open spec fn is_rebase_hint(n: Node) -> bool {
    &&& n is Block
    &&& n->Block_0@.len() == 3
    &&& n->Block_0@[0] == Node::Spacer
    &&& n->Block_0@[1] == Node::Spacer
    &&& n->Block_0@[2] is Continued
    &&& (*n->Block_0@[2]->Continued_0) is Text
    &&& (*n->Block_0@[2]->Continued_0)->Text_0@ == "Fix conflicts and run 'git rebase --continue'"@
    &&& (*n->Block_0@[2]->Continued_0)->Text_1 is None
}

/// The rebase group: titled with the step count, one line per scheduled
/// step, and the closing hint.
pub open spec fn is_rebase_tree(ops: Seq<RebaseOp>, n: Node) -> bool {
    &&& n is Group
    &&& n->Group_0@ == "Rebase"@
    &&& n->Group_1 matches Some(k) && k as nat == ops.len()
    &&& (*n->Group_2) is MultiLine
    &&& (*n->Group_2)->MultiLine_0@.len() == ops.len() + 1
    &&& forall|i: int| 0 <= i < ops.len() ==> is_rebase_line(ops[i], (*n->Group_2)->MultiLine_0@[i])
    &&& is_rebase_hint((*n->Group_2)->MultiLine_0@[ops.len() as int])
}

/// One displayed rebase step as a node.
fn rebase_line(op: &RebaseOp) -> (n: Node)
    ensures
        is_rebase_line(*op, n),
{
    let mut cs: Vec<Node> = Vec::new();
    cs.push(Node::Spacer);
    cs.push(Node::Spacer);
    cs.push(Node::Attribute(crate::node::Attribute::Operation(rebase_kind_str(op.kind).to_owned())));
    cs.push(Node::Spacer);
    cs.push(Node::Dimmed(Box::new(Node::Text(short_id(&op.id), Option::None))));
    cs.push(Node::Spacer);
    cs.push(Node::Text(first_line(&op.message), Option::None));
    Node::Block(cs)
}

/// What a rebase rendering appends: the image of the rebase group and a
/// line break.
pub open spec fn rebase_appended(ops: Seq<RebaseOp>, styled: bool, a: Seq<char>) -> bool {
    exists|t: Node| is_rebase_tree(ops, t) && a == fmt_node(t, styled) + seq!['\n']
}

/// Renders the in-progress rebase: its scheduled steps and the closing
/// hint, under a count-annotated title.
pub fn render_rebase<R: Render>(ui: &mut R, ops: &Vec<RebaseOp>) -> (r: Result<(), RenderError>)
    ensures
        final(ui).styled() == old(ui).styled(),
        exists|a: Seq<char>|
            rebase_appended(ops@, old(ui).styled(), a) && final(ui).out() == old(ui).out() + a,
{
    let mut lines: Vec<Node> = Vec::new();
    let mut i: usize = 0;
    while i < ops.len()
        invariant
            0 <= i <= ops@.len(),
            lines@.len() == i,
            forall|j: int| 0 <= j < i ==> is_rebase_line(ops@[j], lines@[j]),
        decreases ops@.len() - i,
    {
        lines.push(rebase_line(&ops[i]));
        i = i + 1;
    }
    let mut hint: Vec<Node> = Vec::new();
    hint.push(Node::Spacer);
    hint.push(Node::Spacer);
    hint.push(Node::Continued(Box::new(Node::Text(
        "Fix conflicts and run 'git rebase --continue'".to_owned(),
        Option::None,
    ))));
    lines.push(Node::Block(hint));
    let count = ops.len();
    let t = Node::Group("Rebase".to_owned(), Option::Some(count), Box::new(Node::MultiLine(lines)));
    let r = ui.renderln(&t);
    proof {
        assert(is_rebase_tree(ops@, t));
        assert(ui.out() =~= old(ui).out() + (fmt_node(t, old(ui).styled()) + seq!['\n']));
        assert(rebase_appended(ops@, old(ui).styled(), fmt_node(t, old(ui).styled())
            + seq!['\n']));
    }
    r
}

/// The repository-wide operation in progress, as the display logic sees
/// it.
#[derive(Clone, Copy, PartialEq, Eq, Structural, Debug)]
pub enum RepoState {
    /// No operation in progress.
    Clean,
    Merge,
    Revert,
    CherryPick,
    Bisect,
    Rebase,
}

/// A bare text node with the given content.
pub open spec fn is_plain_text(s: Seq<char>, n: Node) -> bool {
    &&& n is Text
    &&& n->Text_0@ == s
    &&& n->Text_1 is None
}

/// What the state rendering appends: nothing when no operation is in
/// progress, a one-line notice for a merge, revert or cherry-pick, and the
/// rebase group for a rebase.
pub open spec fn state_appended(rs: RepoState, ops: Seq<RebaseOp>, styled: bool, a: Seq<char>) -> bool {
    match rs {
        RepoState::Clean => a == Seq::<char>::empty(),
        RepoState::Merge => exists|t: Node|
            is_plain_text("Merge in progress"@, t) && a == fmt_node(t, styled) + seq!['\n'],
        RepoState::Revert => exists|t: Node|
            is_plain_text("Revert in progress"@, t) && a == fmt_node(t, styled) + seq!['\n'],
        RepoState::CherryPick => exists|t: Node|
            is_plain_text("Cherry-pick in progress"@, t) && a == fmt_node(t, styled)
                + seq!['\n'],
        RepoState::Bisect => false,
        RepoState::Rebase => rebase_appended(ops, styled, a),
    }
}

/// Renders the operation in progress, if any: a one-line notice, or the
/// rebase group with the scheduled steps.
pub fn render_state<R: Render>(ui: &mut R, state: RepoState, ops: &Vec<RebaseOp>) -> (r: Result<
    (),
    RenderError,
>)
    requires
        !(state is Bisect),
    ensures
        final(ui).styled() == old(ui).styled(),
        exists|a: Seq<char>|
            state_appended(state, ops@, old(ui).styled(), a) && final(ui).out() == old(
                ui,
            ).out() + a,
        state is Clean ==> r is Ok,
{
    match state {
        RepoState::Clean => {
            proof {
                assert(ui.out() =~= old(ui).out() + Seq::<char>::empty());
            }
            Result::Ok(())
        },
        RepoState::Merge => {
            let t = Node::Text("Merge in progress".to_owned(), Option::None);
            let r = ui.renderln(&t);
            proof {
                assert(is_plain_text("Merge in progress"@, t));
                assert(ui.out() =~= old(ui).out() + (fmt_node(t, old(ui).styled())
                    + seq!['\n']));
            }
            r
        },
        RepoState::Revert => {
            let t = Node::Text("Revert in progress".to_owned(), Option::None);
            let r = ui.renderln(&t);
            proof {
                assert(is_plain_text("Revert in progress"@, t));
                assert(ui.out() =~= old(ui).out() + (fmt_node(t, old(ui).styled())
                    + seq!['\n']));
            }
            r
        },
        RepoState::CherryPick => {
            let t = Node::Text("Cherry-pick in progress".to_owned(), Option::None);
            let r = ui.renderln(&t);
            proof {
                assert(is_plain_text("Cherry-pick in progress"@, t));
                assert(ui.out() =~= old(ui).out() + (fmt_node(t, old(ui).styled())
                    + seq!['\n']));
            }
            r
        },
        RepoState::Bisect => {
            proof {
                assert(false);
            }
            Result::Ok(())
        },
        RepoState::Rebase => render_rebase(ui, ops),
    }
}

/// One displayed commit: a lock icon when it is signed, its short id
/// dimmed, and the first line of its message.
pub open spec fn is_commit_line(c: CommitInfo, n: Node) -> bool {
    &&& n is Block
    &&& n->Block_0@.len() == 5
    &&& n->Block_0@[0] == (if c.signed {
        Node::Icon(Icon::Lock, Some(Status::Success))
    } else {
        Node::Spacer
    })
    &&& n->Block_0@[1] == Node::Spacer
    &&& n->Block_0@[2] is Dimmed
    &&& (*n->Block_0@[2]->Dimmed_0) is Text
    &&& (*n->Block_0@[2]->Dimmed_0)->Text_0@ == spec_short_id(c.id@)
    &&& (*n->Block_0@[2]->Dimmed_0)->Text_1 is None
    &&& n->Block_0@[3] == Node::Spacer
    &&& n->Block_0@[4] is Text
    &&& n->Block_0@[4]->Text_0@ == spec_first_line(c.message@)
    &&& n->Block_0@[4]->Text_1 is None
}

/// A titled group of displayed commits with its count.
pub open spec fn is_commits_group(title: Seq<char>, cs: Seq<CommitInfo>, n: Node) -> bool {
    &&& n is Group
    &&& n->Group_0@ == title
    &&& n->Group_1 matches Some(k) && k as nat == cs.len()
    &&& (*n->Group_2) is MultiLine
    &&& (*n->Group_2)->MultiLine_0@.len() == cs.len()
    &&& forall|i: int| 0 <= i < cs.len() ==> is_commit_line(cs[i], (*n->Group_2)->MultiLine_0@[i])
}

/// The whole commits tree: the unmerged and unpulled groups, each present
/// exactly when it has commits.
pub open spec fn is_commits_tree(ahead: Seq<CommitInfo>, behind: Seq<CommitInfo>, n: Node) -> bool {
    &&& n is MultiLine
    &&& if ahead.len() > 0 && behind.len() > 0 {
        &&& n->MultiLine_0@.len() == 2
        &&& is_commits_group("Unmerged into remote"@, ahead, n->MultiLine_0@[0])
        &&& is_commits_group("Unpulled from remote"@, behind, n->MultiLine_0@[1])
    } else if ahead.len() > 0 {
        &&& n->MultiLine_0@.len() == 1
        &&& is_commits_group("Unmerged into remote"@, ahead, n->MultiLine_0@[0])
    } else if behind.len() > 0 {
        &&& n->MultiLine_0@.len() == 1
        &&& is_commits_group("Unpulled from remote"@, behind, n->MultiLine_0@[0])
    } else {
        false
    }
}

/// What a commits rendering appends: nothing when both lists are empty,
/// else the image of the commits tree and a line break.
pub open spec fn commits_appended(
    ahead: Seq<CommitInfo>,
    behind: Seq<CommitInfo>,
    styled: bool,
    a: Seq<char>,
) -> bool {
    if ahead.len() == 0 && behind.len() == 0 {
        a == Seq::<char>::empty()
    } else {
        exists|t: Node| is_commits_tree(ahead, behind, t) && a == fmt_node(t, styled) + seq!['\n']
    }
}

/// One displayed commit as a node.
fn commit_line(c: &CommitInfo) -> (n: Node)
    ensures
        is_commit_line(*c, n),
{
    let mut cs: Vec<Node> = Vec::new();
    if c.signed {
        cs.push(Node::Icon(Icon::Lock, Option::Some(Status::Success)));
    } else {
        cs.push(Node::Spacer);
    }
    cs.push(Node::Spacer);
    cs.push(Node::Dimmed(Box::new(Node::Text(short_id(&c.id), Option::None))));
    cs.push(Node::Spacer);
    cs.push(Node::Text(first_line(&c.message), Option::None));
    Node::Block(cs)
}

/// A titled group of commits as a node.
fn commits_group(title: &str, cs: &Vec<CommitInfo>) -> (n: Node)
    ensures
        is_commits_group(title@, cs@, n),
{
    let mut lines: Vec<Node> = Vec::new();
    let mut i: usize = 0;
    while i < cs.len()
        invariant
            0 <= i <= cs@.len(),
            lines@.len() == i,
            forall|j: int| 0 <= j < i ==> is_commit_line(cs@[j], lines@[j]),
        decreases cs@.len() - i,
    {
        lines.push(commit_line(&cs[i]));
        i = i + 1;
    }
    let count = cs.len();
    Node::Group(title.to_owned(), Option::Some(count), Box::new(Node::MultiLine(lines)))
}

/// Renders the commits not yet merged into and not yet pulled from the
/// upstream, each group present exactly when it has commits; with neither,
/// nothing is written.
pub fn render_commits<R: Render>(
    ui: &mut R,
    ahead: &Vec<CommitInfo>,
    behind: &Vec<CommitInfo>,
) -> (r: Result<(), RenderError>)
    ensures
        final(ui).styled() == old(ui).styled(),
        exists|a: Seq<char>|
            commits_appended(ahead@, behind@, old(ui).styled(), a) && final(ui).out() == old(
                ui,
            ).out() + a,
        ahead@.len() == 0 && behind@.len() == 0 ==> r is Ok,
{
    let mut groups: Vec<Node> = Vec::new();
    if ahead.len() > 0 {
        groups.push(commits_group("Unmerged into remote", ahead));
    }
    if behind.len() > 0 {
        groups.push(commits_group("Unpulled from remote", behind));
    }
    if groups.len() == 0 {
        proof {
            assert(commits_appended(ahead@, behind@, old(ui).styled(), Seq::<char>::empty()));
            assert(ui.out() =~= old(ui).out() + Seq::<char>::empty());
        }
        return Result::Ok(());
    }
    let t = Node::MultiLine(groups);
    let r = ui.renderln(&t);
    proof {
        assert(is_commits_tree(ahead@, behind@, t));
        assert(ui.out() =~= old(ui).out() + (fmt_node(t, old(ui).styled()) + seq!['\n']));
        assert(commits_appended(ahead@, behind@, old(ui).styled(), fmt_node(t, old(ui).styled())
            + seq!['\n']));
    }
    r
}

/// The head reference as the display logic sees it: whether it is a
/// branch, and the targets of the branch and of its upstream, when each
/// is known.
#[derive(Debug)]
pub struct HeadRef {
    pub is_branch: bool,
    pub target: Option<String>,
    pub upstream_target: Option<String>,
}

/// Decides whether the view can compare the branch against an upstream:
/// only a born branch head with both its own target and an upstream target
/// yields the pair to compare; an unborn head reads as no comparison, and
/// any other head lookup failure stays an error.
pub fn find_state(head: Result<HeadRef, GitError>) -> (r: Result<
    Option<(String, String)>,
    GitError,
>)
    ensures
        match head {
            Result::Err(e) => if e.code is UnbornBranch {
                r matches Result::Ok(s) && s is None
            } else {
                r == Result::<Option<(String, String)>, GitError>::Err(e)
            },
            Result::Ok(h) => if h.is_branch && h.target is Some && h.upstream_target is Some {
                r matches Result::Ok(s) && (s matches Some(p) && p.0 == h.target->0 && p.1
                    == h.upstream_target->0)
            } else {
                r matches Result::Ok(s) && s is None
            },
        },
{
    match head {
        Result::Err(e) => {
            match e.code {
                GitErrorCode::UnbornBranch => Result::Ok(Option::None),
                _ => Result::Err(e),
            }
        },
        Result::Ok(h) => {
            if !h.is_branch {
                return Result::Ok(Option::None);
            }
            match (h.target, h.upstream_target) {
                (Option::Some(local), Option::Some(remote)) => Result::Ok(
                    Option::Some((local, remote)),
                ),
                _ => Result::Ok(Option::None),
            }
        },
    }
}

/// Everything the status view shows, prepared as plain values.
#[derive(Debug)]
pub struct StatusView {
    /// The head line's content.
    pub head: Head,
    /// The ahead/behind counts against the upstream, when an upstream
    /// comparison exists.
    pub state: Option<(u64, u64)>,
    /// The operation in progress.
    pub repo_state: RepoState,
    /// The scheduled rebase steps, read when a rebase is in progress.
    pub rebase_ops: Vec<RebaseOp>,
    /// The changed entries of the working tree and index.
    pub entries: Vec<Entry>,
    /// The commits not yet merged into the upstream.
    pub ahead: Vec<CommitInfo>,
    /// The commits not yet pulled from the upstream.
    pub behind: Vec<CommitInfo>,
}

/// Renders the whole status view, top to bottom: the head line, the
/// operation in progress, the changed entries, and — when an upstream
/// comparison exists — the unmerged and unpulled commits.
pub fn render<R: Render>(ui: &mut R, view: &StatusView) -> (r: Result<(), RenderError>)
    requires
        !(view.repo_state is Bisect),
    ensures
        final(ui).styled() == old(ui).styled(),
        r is Ok ==> exists|a: Seq<char>, b: Seq<char>, c: Seq<char>, d: Seq<char>|
            {
                &&& branch_appended(view.head, view.state, old(ui).styled(), a)
                &&& state_appended(view.repo_state, view.rebase_ops@, old(ui).styled(), b)
                &&& changes_appended(view.entries@, old(ui).styled(), c)
                &&& (view.state is Some ==> commits_appended(
                    view.ahead@,
                    view.behind@,
                    old(ui).styled(),
                    d,
                ))
                &&& (view.state is None ==> d == Seq::<char>::empty())
                &&& final(ui).out() == old(ui).out() + a + b + c + d
            },
        r is Err ==> {
            ||| exists|a: Seq<char>|
                branch_appended(view.head, view.state, old(ui).styled(), a) && final(ui).out()
                    == old(ui).out() + a
            ||| exists|a: Seq<char>, b: Seq<char>|
                branch_appended(view.head, view.state, old(ui).styled(), a) && state_appended(
                    view.repo_state,
                    view.rebase_ops@,
                    old(ui).styled(),
                    b,
                ) && final(ui).out() == old(ui).out() + a + b
            ||| exists|a: Seq<char>, b: Seq<char>, c: Seq<char>|
                branch_appended(view.head, view.state, old(ui).styled(), a) && state_appended(
                    view.repo_state,
                    view.rebase_ops@,
                    old(ui).styled(),
                    b,
                ) && changes_appended(view.entries@, old(ui).styled(), c) && final(ui).out()
                    == old(ui).out() + a + b + c
            ||| exists|a: Seq<char>, b: Seq<char>, c: Seq<char>, d: Seq<char>|
                branch_appended(view.head, view.state, old(ui).styled(), a) && state_appended(
                    view.repo_state,
                    view.rebase_ops@,
                    old(ui).styled(),
                    b,
                ) && changes_appended(view.entries@, old(ui).styled(), c) && commits_appended(
                    view.ahead@,
                    view.behind@,
                    old(ui).styled(),
                    d,
                ) && final(ui).out() == old(ui).out() + a + b + c + d
        },
{
    let ghost o0 = ui.out();
    let r1 = render_branch(ui, &view.head, &view.state);
    let ghost o1 = ui.out();
    let ghost wa = choose|a: Seq<char>|
        branch_appended(view.head, view.state, old(ui).styled(), a) && o1 == o0 + a;
    match r1 {
        Result::Err(e) => {
            proof {
                assert(ui.out() == o0 + wa);
            }
            return Result::Err(e);
        },
        Result::Ok(()) => {},
    }
    let r2 = render_state(ui, view.repo_state, &view.rebase_ops);
    let ghost o2 = ui.out();
    let ghost wb = choose|b: Seq<char>|
        state_appended(view.repo_state, view.rebase_ops@, old(ui).styled(), b) && o2 == o1 + b;
    match r2 {
        Result::Err(e) => {
            proof {
                assert(ui.out() =~= o0 + wa + wb);
            }
            return Result::Err(e);
        },
        Result::Ok(()) => {},
    }
    let r3 = render_changes(ui, &view.entries);
    let ghost o3 = ui.out();
    let ghost wc = choose|c: Seq<char>|
        changes_appended(view.entries@, old(ui).styled(), c) && o3 == o2 + c;
    match r3 {
        Result::Err(e) => {
            proof {
                assert(ui.out() =~= o0 + wa + wb + wc);
            }
            return Result::Err(e);
        },
        Result::Ok(()) => {},
    }
    let r4 = match view.state {
        Option::Some(_) => render_commits(ui, &view.ahead, &view.behind),
        Option::None => Result::Ok(()),
    };
    match r4 {
        Result::Err(e) => {
            proof {
                let wd = choose|d: Seq<char>|
                    commits_appended(view.ahead@, view.behind@, old(ui).styled(), d) && ui.out()
                        == o3 + d;
                assert(ui.out() =~= o0 + wa + wb + wc + wd);
            }
            return Result::Err(e);
        },
        Result::Ok(()) => {},
    }
    proof {
        let wd = if view.state is Some {
            choose|d: Seq<char>|
                commits_appended(view.ahead@, view.behind@, old(ui).styled(), d) && ui.out() == o3
                    + d
        } else {
            Seq::<char>::empty()
        };
        if view.state is None {
            assert(ui.out() =~= o3 + wd);
        }
        assert(ui.out() =~= o0 + wa + wb + wc + wd);
    }
    Result::Ok(())
}

} // verus!
