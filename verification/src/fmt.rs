//! The formatted image of a display tree.
//!
//! Both rendering backends produce exactly the text described here; they
//! differ only in the destination. Styling is controlled by a single
//! capability flag: when the destination understands terminal escape codes,
//! colored pieces are wrapped in a select-graphic-rendition sequence,
//! otherwise they pass through bare.

use vstd::prelude::*;
use vstd::string::StrSliceExecFns;
use vstd::string::StringExecFns;

use crate::node::Attribute;
use crate::node::Icon;
use crate::node::Indicator;
use crate::node::Node;
use crate::node::Status;
use crate::node::cap_text;
use crate::node::capped;

verus! {

broadcast use vstd::std_specs::vec::group_vec_axioms;

/// A terminal escape sequence selecting the rendition named by `code`.
pub open spec fn csi(code: Seq<char>) -> Seq<char> {
    seq!['\u{1b}', '['] + code + seq!['m']
}

/// The escape sequence restoring the default rendition.
pub open spec fn reset() -> Seq<char> {
    csi(seq!['0'])
}

/// `body` wrapped in the rendition `code` when styling is on and a code is
/// given; the bare body otherwise.
pub open spec fn painted(body: Seq<char>, code: Option<Seq<char>>, styled: bool) -> Seq<char> {
    if styled && code is Some {
        csi(code->0) + body + reset()
    } else {
        body
    }
}

/// The glyph of each icon kind; a status tint never changes it.
pub open spec fn icon_glyph(kind: Icon) -> Seq<char> {
    match kind {
        Icon::Check => seq!['\u{2713}'],
        Icon::ArrowUp => seq!['\u{2191}'],
        Icon::ArrowDown => seq!['\u{2193}'],
        Icon::Lock => seq!['\u{26bf}'],
    }
}

/// The rendition selected by a status tint: green for success, red for
/// error, none for neutral.
pub open spec fn status_code(status: Option<Status>) -> Option<Seq<char>> {
    match status {
        Option::Some(Status::Success) => Option::Some(seq!['3', '2']),
        Option::Some(Status::Error) => Option::Some(seq!['3', '1']),
        _ => Option::None,
    }
}

/// The glyph of each change indicator.
pub open spec fn indicator_glyph(kind: Indicator) -> Seq<char> {
    match kind {
        Indicator::New => seq!['+'],
        Indicator::Modified => seq!['~'],
        Indicator::Renamed => seq!['>'],
        Indicator::Deleted => seq!['-'],
        Indicator::Unknown => seq!['?'],
    }
}

/// The fixed rendition of each change indicator.
pub open spec fn indicator_code(kind: Indicator) -> Seq<char> {
    match kind {
        Indicator::New => seq!['3', '2'],
        Indicator::Modified => seq!['3', '3'],
        Indicator::Renamed => seq!['3', '6'],
        Indicator::Deleted => seq!['3', '1'],
        Indicator::Unknown => seq!['3', '5'],
    }
}

/// The payload text of an attribute.
pub open spec fn attribute_text(attr: Attribute) -> Seq<char> {
    match attr {
        Attribute::Branch(name) => name@,
        Attribute::Tag(name) => name@,
        Attribute::CommitShort(id) => id@,
        Attribute::Operation(name) => name@,
    }
}

/// The fixed rendition of each attribute kind.
pub open spec fn attribute_code(attr: Attribute) -> Seq<char> {
    match attr {
        Attribute::Branch(_) => seq!['3', '6'],
        Attribute::Tag(_) => seq!['3', '5'],
        Attribute::CommitShort(_) => seq!['3', '3'],
        Attribute::Operation(_) => seq!['3', '5'],
    }
}

/// The decimal digit characters of `n`, most significant first.
pub open spec fn dec_digits(n: nat) -> Seq<char>
    decreases n,
{
    if n < 10 {
        digit_seq(n)
    } else {
        dec_digits(n / 10) + digit_seq(n % 10)
    }
}

/// The character of a single decimal digit.
pub open spec fn digit_seq(d: nat) -> Seq<char> {
    if d == 0 {
        seq!['0']
    } else if d == 1 {
        seq!['1']
    } else if d == 2 {
        seq!['2']
    } else if d == 3 {
        seq!['3']
    } else if d == 4 {
        seq!['4']
    } else if d == 5 {
        seq!['5']
    } else if d == 6 {
        seq!['6']
    } else if d == 7 {
        seq!['7']
    } else if d == 8 {
        seq!['8']
    } else {
        seq!['9']
    }
}

/// The count annotation of a group title: nothing, or a parenthesised count.
pub open spec fn count_note(count: Option<usize>) -> Seq<char> {
    match count {
        Option::None => Seq::empty(),
        Option::Some(k) => seq![' ', '('] + dec_digits(k as nat) + seq![')'],
    }
}

/// The formatted image of a node. Text is capped, icons and indicators show
/// their fixed glyph under their tint, blocks concatenate children with no
/// separator, multi-line nodes put one child per line, a group shows its
/// title line above its body, and the style modifiers wrap or prefix their
/// child without changing its content.
pub open spec fn fmt_node(n: Node, styled: bool) -> Seq<char>
    decreases n, 0int,
{
    match n {
        Node::Text(s, cap) => match cap {
            Option::None => s@,
            Option::Some(c) => capped(s@, c as nat),
        },
        Node::Icon(kind, status) => painted(icon_glyph(kind), status_code(status), styled),
        Node::Indicator(kind) => painted(
            indicator_glyph(kind),
            Option::Some(indicator_code(kind)),
            styled,
        ),
        Node::Attribute(attr) => painted(
            attribute_text(attr),
            Option::Some(attribute_code(attr)),
            styled,
        ),
        Node::Spacer => seq![' '],
        Node::Block(_) => fmt_row(n->Block_0@, 0, styled),
        Node::MultiLine(_) => fmt_column(n->MultiLine_0@, 0, styled),
        Node::Group(title, count, _) => painted(
            title@ + count_note(count),
            Option::Some(seq!['1']),
            styled,
        ) + seq!['\n'] + fmt_node(*n->Group_2, styled),
        Node::Dimmed(_) => painted(
            fmt_node(*n->Dimmed_0, styled),
            Option::Some(seq!['2']),
            styled,
        ),
        Node::Continued(_) => seq!['\u{21aa}', ' '] + fmt_node(*n->Continued_0, styled),
    }
}

/// The children of a horizontal block from position `i` on, concatenated
/// with no separator.
pub open spec fn fmt_row(cs: Seq<Node>, i: int, styled: bool) -> Seq<char>
    decreases cs, cs.len() - i,
{
    if i < 0 || i >= cs.len() {
        Seq::empty()
    } else {
        fmt_node(cs[i], styled) + fmt_row(cs, i + 1, styled)
    }
}

/// The children of a vertical block from position `i` on, one per line,
/// joined by single line breaks.
pub open spec fn fmt_column(cs: Seq<Node>, i: int, styled: bool) -> Seq<char>
    decreases cs, cs.len() - i,
{
    if i < 0 || i >= cs.len() {
        Seq::empty()
    } else if i == cs.len() - 1 {
        fmt_node(cs[i], styled)
    } else {
        fmt_node(cs[i], styled) + seq!['\n'] + fmt_column(cs, i + 1, styled)
    }
}

/// One decimal digit as a string slice.
fn digit_str(d: u64) -> (r: &'static str)
    requires
        d < 10,
    ensures
        r@ == digit_seq(d as nat),
{
    proof {
        reveal_strlit("0");
        reveal_strlit("1");
        reveal_strlit("2");
        reveal_strlit("3");
        reveal_strlit("4");
        reveal_strlit("5");
        reveal_strlit("6");
        reveal_strlit("7");
        reveal_strlit("8");
        reveal_strlit("9");
    }
    if d == 0 {
        "0"
    } else if d == 1 {
        "1"
    } else if d == 2 {
        "2"
    } else if d == 3 {
        "3"
    } else if d == 4 {
        "4"
    } else if d == 5 {
        "5"
    } else if d == 6 {
        "6"
    } else if d == 7 {
        "7"
    } else if d == 8 {
        "8"
    } else {
        "9"
    }
}

/// The view of an optional rendition code given as a string slice.
pub open spec fn opt_code(code: Option<&str>) -> Option<Seq<char>> {
    match code {
        Option::Some(c) => Option::Some(c@),
        Option::None => Option::None,
    }
}

/// Appends `body` to `out`, wrapped in the rendition `code` when styling is
/// on.
fn paint_into(out: &mut String, body: &str, code: Option<&'static str>, styled: bool)
    ensures
        final(out)@ == old(out)@ + painted(body@, opt_code(code), styled),
{
    if styled && code.is_some() {
        let c = code.unwrap();
        out.append("\u{1b}[");
        out.append(c);
        out.append("m");
        out.append(body);
        out.append("\u{1b}[0m");
        proof {
            reveal_strlit("\u{1b}[");
            reveal_strlit("m");
            reveal_strlit("\u{1b}[0m");
            assert("\u{1b}["@ =~= seq!['\u{1b}', '[']);
            assert("m"@ =~= seq!['m']);
            assert("\u{1b}[0m"@ =~= reset());
            assert(out@ =~= old(out)@ + painted(body@, opt_code(code), styled));
        }
    } else {
        out.append(body);
    }
}

/// The glyph of an icon as a string slice.
fn icon_str(kind: Icon) -> (r: &'static str)
    ensures
        r@ == icon_glyph(kind),
{
    proof {
        reveal_strlit("\u{2713}");
        reveal_strlit("\u{2191}");
        reveal_strlit("\u{2193}");
        reveal_strlit("\u{26bf}");
    }
    match kind {
        Icon::Check => "\u{2713}",
        Icon::ArrowUp => "\u{2191}",
        Icon::ArrowDown => "\u{2193}",
        Icon::Lock => "\u{26bf}",
    }
}

/// The glyph of a change indicator as a string slice.
fn indicator_str(kind: Indicator) -> (r: &'static str)
    ensures
        r@ == indicator_glyph(kind),
{
    proof {
        reveal_strlit("+");
        reveal_strlit("~");
        reveal_strlit(">");
        reveal_strlit("-");
        reveal_strlit("?");
    }
    match kind {
        Indicator::New => "+",
        Indicator::Modified => "~",
        Indicator::Renamed => ">",
        Indicator::Deleted => "-",
        Indicator::Unknown => "?",
    }
}

/// The rendition code of a change indicator as a string slice.
fn indicator_code_str(kind: Indicator) -> (r: &'static str)
    ensures
        r@ == indicator_code(kind),
{
    proof {
        reveal_strlit("32");
        reveal_strlit("33");
        reveal_strlit("36");
        reveal_strlit("31");
        reveal_strlit("35");
    }
    match kind {
        Indicator::New => "32",
        Indicator::Modified => "33",
        Indicator::Renamed => "36",
        Indicator::Deleted => "31",
        Indicator::Unknown => "35",
    }
}

/// Appends the formatted image of `n` to `out`.
pub fn format_into(out: &mut String, n: &Node, styled: bool)
    ensures
        final(out)@ == old(out)@ + fmt_node(*n, styled),
    decreases *n, 0int,
{
    match n {
        Node::Text(s, cap) => {
            match cap {
                Option::None => {
                    out.append(s.as_str());
                },
                Option::Some(c) => {
                    let t = cap_text(s.as_str(), *c);
                    out.append(t.as_str());
                },
            }
        },
        Node::Icon(kind, status) => {
            let code: Option<&'static str> = match status {
                Option::Some(Status::Success) => Option::Some("32"),
                Option::Some(Status::Error) => Option::Some("31"),
                _ => Option::None,
            };
            proof {
                reveal_strlit("32");
                reveal_strlit("31");
                assert(opt_code(code) == status_code(*status));
            }
            paint_into(out, icon_str(*kind), code, styled);
        },
        Node::Indicator(kind) => {
            paint_into(out, indicator_str(*kind), Option::Some(indicator_code_str(*kind)), styled);
        },
        Node::Attribute(attr) => {
            let (body, code): (&str, &'static str) = match attr {
                Attribute::Branch(name) => (name.as_str(), "36"),
                Attribute::Tag(name) => (name.as_str(), "35"),
                Attribute::CommitShort(id) => (id.as_str(), "33"),
                Attribute::Operation(name) => (name.as_str(), "35"),
            };
            proof {
                reveal_strlit("36");
                reveal_strlit("35");
                reveal_strlit("33");
                assert(body@ == attribute_text(*attr));
                assert(code@ =~= attribute_code(*attr));
            }
            paint_into(out, body, Option::Some(code), styled);
        },
        Node::Spacer => {
            out.append(" ");
            proof {
                reveal_strlit(" ");
                assert(out@ =~= old(out)@ + fmt_node(*n, styled));
            }
        },
        Node::Block(cs) => {
            let ghost orig = out@;
            let len = cs.len();
            let mut i: usize = 0;
            while i < len
                invariant
                    0 <= i <= len,
                    len == cs@.len(),
                    *n is Block,
                    cs@ == n->Block_0@,
                    out@ + fmt_row(cs@, i as int, styled) == orig + fmt_row(cs@, 0, styled),
                decreases len - i,
            {
                proof {
                    assert(decreases_to!(*n => n->Block_0));
                    assert(decreases_to!(n->Block_0 => n->Block_0@));
                    assert(decreases_to!(n->Block_0@ => n->Block_0@[i as int]));
                    assert(decreases_to!(*n => n->Block_0@[i as int]));
                }
                let ghost before = out@;
                format_into(out, &cs[i], styled);
                proof {
                    assert(out@ + fmt_row(cs@, i + 1, styled) =~= before + (fmt_node(
                        cs@[i as int],
                        styled,
                    ) + fmt_row(cs@, i + 1, styled)));
                    assert(out@ + fmt_row(cs@, i + 1, styled) == before + fmt_row(
                        cs@,
                        i as int,
                        styled,
                    ));
                }
                i = i + 1;
            }
            proof {
                assert(out@ + fmt_row(cs@, len as int, styled) =~= out@);
                assert(out@ =~= orig + fmt_node(*n, styled));
            }
        },
        Node::MultiLine(cs) => {
            let ghost orig = out@;
            let len = cs.len();
            let mut i: usize = 0;
            while i < len
                invariant
                    0 <= i <= len,
                    len == cs@.len(),
                    *n is MultiLine,
                    cs@ == n->MultiLine_0@,
                    out@ + fmt_column(cs@, i as int, styled) == orig + fmt_column(cs@, 0, styled),
                decreases len - i,
            {
                proof {
                    assert(decreases_to!(*n => n->MultiLine_0));
                    assert(decreases_to!(n->MultiLine_0 => n->MultiLine_0@));
                    assert(decreases_to!(n->MultiLine_0@ => n->MultiLine_0@[i as int]));
                    assert(decreases_to!(*n => n->MultiLine_0@[i as int]));
                }
                let ghost before = out@;
                format_into(out, &cs[i], styled);
                if i + 1 < len {
                    out.append("\n");
                    proof {
                        reveal_strlit("\n");
                        assert(out@ + fmt_column(cs@, i + 1, styled) =~= before + (fmt_node(
                            cs@[i as int],
                            styled,
                        ) + seq!['\n'] + fmt_column(cs@, i + 1, styled)));
                        assert(out@ + fmt_column(cs@, i + 1, styled) == before + fmt_column(
                            cs@,
                            i as int,
                            styled,
                        ));
                    }
                } else {
                    proof {
                        assert(out@ + fmt_column(cs@, i + 1, styled) =~= before + fmt_node(
                            cs@[i as int],
                            styled,
                        ));
                        assert(out@ + fmt_column(cs@, i + 1, styled) == before + fmt_column(
                            cs@,
                            i as int,
                            styled,
                        ));
                    }
                }
                i = i + 1;
            }
            proof {
                assert(out@ + fmt_column(cs@, len as int, styled) =~= out@);
                assert(out@ =~= orig + fmt_node(*n, styled));
            }
        },
        Node::Group(title, count, body) => {
            let mut line: String = title.as_str().to_owned();
            match count {
                Option::Some(k) => {
                    line.append(" (");
                    append_dec(&mut line, *k as u64);
                    line.append(")");
                    proof {
                        reveal_strlit(" (");
                        reveal_strlit(")");
                        assert(line@ =~= title@ + count_note(*count));
                    }
                },
                Option::None => {
                    proof {
                        assert(line@ =~= title@ + count_note(*count));
                    }
                },
            }
            paint_into(out, line.as_str(), Option::Some("1"), styled);
            out.append("\n");
            proof {
                reveal_strlit("1");
                reveal_strlit("\n");
            }
            format_into(out, body, styled);
            proof {
                assert(out@ =~= old(out)@ + fmt_node(*n, styled));
            }
        },
        Node::Dimmed(body) => {
            if styled {
                out.append("\u{1b}[2m");
                format_into(out, body, styled);
                out.append("\u{1b}[0m");
                proof {
                    reveal_strlit("\u{1b}[2m");
                    reveal_strlit("\u{1b}[0m");
                    reveal_strlit("2");
                    assert("\u{1b}[2m"@ =~= csi(seq!['2']));
                    assert("\u{1b}[0m"@ =~= reset());
                    assert(out@ =~= old(out)@ + fmt_node(*n, styled));
                }
            } else {
                format_into(out, body, styled);
            }
        },
        Node::Continued(body) => {
            out.append("\u{21aa} ");
            proof {
                reveal_strlit("\u{21aa} ");
                assert("\u{21aa} "@ =~= seq!['\u{21aa}', ' ']);
            }
            format_into(out, body, styled);
            proof {
                assert(out@ =~= old(out)@ + fmt_node(*n, styled));
            }
        },
    }
}

/// The formatted image of `n` as an owned string.
pub fn format_node(n: &Node, styled: bool) -> (r: String)
    ensures
        r@ == fmt_node(*n, styled),
{
    let mut out = String::new();
    format_into(&mut out, n, styled);
    proof {
        assert(out@ =~= fmt_node(*n, styled));
    }
    out
}

/// Appends the decimal digits of `x` to `out`.
pub fn append_dec(out: &mut String, x: u64)
    ensures
        final(out)@ == old(out)@ + dec_digits(x as nat),
    decreases x,
{
    if x < 10 {
        out.append(digit_str(x));
    } else {
        append_dec(out, x / 10);
        out.append(digit_str(x % 10));
        proof {
            assert(out@ =~= old(out)@ + dec_digits(x as nat));
        }
    }
}

} // verus!
