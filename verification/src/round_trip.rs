use vstd::prelude::*;

use crate::ast::Loc;
use crate::ast::Node;
use crate::ast::NodeKind;
use crate::context::CodeWriterContext;
use crate::render::esc_chars;
use crate::render::r;
use crate::render::r_body;
use crate::render::r_lines;
use crate::render::r_sep;
use crate::render::sp_ind;

verus! {

broadcast use crate::render::seq_add_assoc;

/// Undoes the escaping of a single-quoted literal: a backslash directly
/// before an interpolation marker or a quote is dropped, every other
/// character stands for itself — and a bare interior quote is a parse
/// failure, since the renderer always escapes the delimiter.
pub open spec fn unescape_single(s: Seq<char>) -> Option<Seq<char>>
    decreases s.len(),
{
    if s.len() >= 2 && s[s.len() - 2] == '\\' && (s.last() == '#' || s.last() == '\'') {
        match unescape_single(s.take(s.len() - 2)) {
            Some(u) => Some(u.push(s.last())),
            None => None,
        }
    } else if s.len() >= 1 {
        if s.last() == '\'' {
            None
        } else {
            match unescape_single(s.drop_last()) {
                Some(u) => Some(u.push(s.last())),
                None => None,
            }
        }
    } else {
        Some(Seq::empty())
    }
}

/// The text between the quotes of a rendered single-quoted string, read
/// back as its content.
pub open spec fn parse_single_quoted(t: Seq<char>) -> Option<Seq<char>> {
    if t.len() >= 2 && t[0] == '\'' && t.last() == '\'' {
        unescape_single(t.subrange(1, t.len() - 1))
    } else {
        None
    }
}

/// Escaped text never ends in a bare backslash, provided the content held
/// none.
proof fn lemma_esc_no_trailing_backslash(s: Seq<char>, esc: char, esc_to: Seq<char>)
    requires
        forall|i: int| 0 <= i < s.len() ==> s[i] != '\\',
        esc == '\'',
        esc_to == "\\'"@,
    ensures
        esc_chars(s, esc, esc_to).len() > 0 ==> esc_chars(s, esc, esc_to).last() != '\\',
    decreases s.len(),
{
    reveal_strlit("\\'");
    if s.len() > 0 {
        lemma_esc_no_trailing_backslash(s.drop_last(), esc, esc_to);
    }
}

/// Unescaping undoes escaping, for content free of backslashes. This is
/// the heart of the literal round trip: what a plain string literal renders
/// to reads back as exactly the stored content.
pub proof fn lemma_unescape_escape(s: Seq<char>)
    requires
        forall|i: int| 0 <= i < s.len() ==> s[i] != '\\',
    ensures
        unescape_single(esc_chars(s, '\'', "\\'"@)) == Some(s),
    decreases s.len(),
{
    reveal_strlit("\\'");
    if s.len() == 0 {
        assert(unescape_single(esc_chars(s, '\'', "\\'"@)) == Some(Seq::<char>::empty()));
        assert(Seq::<char>::empty() =~= s);
    } else {
        lemma_unescape_escape(s.drop_last());
        let e = esc_chars(s, '\'', "\\'"@);
        let prev = esc_chars(s.drop_last(), '\'', "\\'"@);
        if s.last() == '#' {
            assert(e == prev + seq!['\\', '#']);
            assert(e.take(e.len() - 2) =~= prev);
            assert(unescape_single(e) == Some(unescape_single(prev)->Some_0.push('#')));
            assert(unescape_single(prev)->Some_0.push('#') =~= s);
        } else if s.last() == '\'' {
            assert("\\'"@.len() == 2 && "\\'"@[0] == '\\' && "\\'"@[1] == '\'');
            assert(e == prev + "\\'"@);
            assert(e.len() == prev.len() + 2);
            assert(e[e.len() - 2] == '\\');
            assert(e.last() == '\'');
            assert(e.take(e.len() - 2) =~= prev);
            assert(unescape_single(e) == Some(unescape_single(prev)->Some_0.push('\'')));
            assert(unescape_single(prev)->Some_0.push('\'') =~= s);
        } else {
            lemma_esc_no_trailing_backslash(s.drop_last(), '\'', "\\'"@);
            assert(e == prev + seq![s.last()]);
            assert(e.len() == prev.len() + 1);
            assert(e.last() == s.last());
            assert(e.drop_last() =~= prev);
            if e.len() >= 2 && e[e.len() - 2] == '\\' && (e.last() == '#' || e.last() == '\'') {
                assert(false);
            }
            assert(unescape_single(e) == Some(unescape_single(prev)->Some_0.push(s.last())));
            assert(unescape_single(prev)->Some_0.push(s.last()) =~= s);
        }
    }
}

/// Rendering a plain string literal whose content holds no backslash, then
/// reading the quoted text back, yields the stored content unchanged.
pub proof fn lemma_str_round_trip(value: String, c: CodeWriterContext)
    requires
        forall|i: int| 0 <= i < value@.len() ==> value@[i] != '\\',
    ensures
        parse_single_quoted(r(Node::Str { value }, c)) == Some(value@),
{
    reveal_strlit("'");
    reveal_strlit("\\'");
    let t = r(Node::Str { value }, c);
    let e = esc_chars(value@, '\'', "\\'"@);
    assert(t == "'"@ + e + "'"@);
    assert(t.len() == e.len() + 2);
    assert(t[0] == '\'');
    assert(t.last() == '\'');
    assert(t.subrange(1, t.len() - 1) =~= e);
    lemma_unescape_escape(value@);
}

/// A numeric literal renders as exactly its stored numeral: reading the
/// rendered text back gives the value the numeral denotes.
pub proof fn lemma_int_round_trip(value: String, c: CodeWriterContext)
    ensures
        r(Node::Int { value }, c) == value@,
        crate::explore_constants::parse_dec(r(Node::Int { value }, c))
            == crate::explore_constants::parse_dec(value@),
{
}

/// The same for float literals: the stored numeral is reproduced verbatim.
pub proof fn lemma_float_round_trip(value: String, c: CodeWriterContext)
    ensures
        r(Node::Float { value }, c) == value@,
{
}

/// The keyword literals render as their own keywords, so they read back as
/// themselves.
pub proof fn lemma_keyword_literals(c: CodeWriterContext)
    ensures
        forall|n: Node| n matches Node::Nil {  } ==> #[trigger] r(n, c) == "nil"@,
        forall|n: Node| n matches Node::True {  } ==> #[trigger] r(n, c) == "true"@,
        forall|n: Node| n matches Node::False {  } ==> #[trigger] r(n, c) == "false"@,
{
}

/// A plain symbol literal with its usual leading marker renders as a colon
/// followed by exactly the stored name, so the name reads back by dropping
/// the colon.
pub proof fn lemma_sym_round_trip(name: String, begin: Loc, c: CodeWriterContext)
    requires
        c.parent_node_type != NodeKind::PairKey,
    ensures
        r(Node::Sym { name, begin_l: Some(begin), end_l: None }, c) == ":"@ + name@,
        r(Node::Sym { name, begin_l: Some(begin), end_l: None }, c).drop_first() == name@,
{
    reveal_strlit(":");
    let t = r(Node::Sym { name, begin_l: Some(begin), end_l: None }, c);
    assert(t == ":"@ + name@);
    assert(t.drop_first() =~= name@);
}

/// When both optional delimiter markers are absent, rendering omits both
/// delimiters even for a non-empty element list: the array renders as the
/// bare comma-joined elements.
pub proof fn lemma_bare_delimiters(elements: Vec<Node>, c: CodeWriterContext)
    ensures
        r(Node::Array { elements, begin_l: None, end_l: None }, c) == r_sep(
            elements@,
            c.spec_make_child(NodeKind::Array),
            ", "@,
        ),
{
}

/// And with both markers present, the same element list gains exactly the
/// two delimiters around the same joined text.
pub proof fn lemma_present_delimiters(
    elements: Vec<Node>,
    b: Loc,
    e: Loc,
    c: CodeWriterContext,
)
    requires
        b.spec_size() != 3,
    ensures
        r(Node::Array { elements, begin_l: Some(b), end_l: Some(e) }, c) == "["@ + r_sep(
            elements@,
            c.spec_make_child(NodeKind::Array),
            ", "@,
        ) + "]"@,
{
}

/// One indentation step is exactly two further spaces.
pub proof fn lemma_indent_step(n: u32)
    requires
        n < u32::MAX,
    ensures
        sp_ind((n + 1) as u32) == sp_ind(n) + "  "@,
{
    reveal_strlit("  ");
    assert(sp_ind((n + 1) as u32) =~= sp_ind(n) + "  "@);
}

/// One rendering step: the shape of a module node.
proof fn lemma_module_unfold(name: Box<Node>, body: Option<Box<Node>>, c: CodeWriterContext)
    ensures
        r(Node::Module { name, body }, c) == "module "@ + r(*name, c.spec_make_child(NodeKind::Module))
            + crate::render::r_body_with_end(body, c.spec_make_child(NodeKind::Module)),
{
}

/// One rendering step: the tail of a definition-like construct.
proof fn lemma_bwe_unfold(b: Box<Node>, c: CodeWriterContext)
    ensures
        crate::render::r_body_with_end(Some(b), c) == "\n"@ + r_body(*b, c.spec_indent()) + sp_ind(
            c.indent,
        ) + "end"@,
{
}

/// One rendering step: a bare statement sequence inside a body keeps its
/// own line layout.
proof fn lemma_body_begin(b: Node, c: CodeWriterContext)
    requires
        b.spec_is_begin_block(),
    ensures
        r_body(b, c) == r(b, c),
{
}

/// One rendering step: a bare statement sequence renders as its lines.
proof fn lemma_begin_lines(stmts: Vec<Node>, c: CodeWriterContext)
    requires
        c.parent_node_type != NodeKind::Part,
    ensures
        r(Node::Begin { statements: stmts, begin_l: None, end_l: None }, c) == r_lines(
            stmts@,
            c.spec_make_child(NodeKind::Begin),
        ),
{
}

/// One rendering step: a single-statement line list.
proof fn lemma_lines_single(st: Node, c: CodeWriterContext)
    requires
        !st.spec_is_begin_block(),
    ensures
        r_lines(seq![st], c) == sp_ind(c.indent) + r(st, c) + "\n"@,
{
    reveal_with_fuel(r_lines, 2);
    assert(seq![st].drop_last() =~= Seq::<Node>::empty());
    assert(seq![st].last() == st);
}

/// A module whose body is a single plain statement renders with that
/// statement on its own line, indented exactly one step (two spaces) deeper
/// than the module header, and with the closing keyword back at the
/// header's own depth.
pub proof fn lemma_module_body_indent(
    name: Box<Node>,
    st: Node,
    stmts: Vec<Node>,
    c: CodeWriterContext,
)
    requires
        stmts@ == seq![st],
        !st.spec_is_begin_block(),
        c.indent < u32::MAX,
    ensures
        ({
            let cc = c.spec_make_child(NodeKind::Module);
            let line_ctx = CodeWriterContext {
                parent_node_type: NodeKind::Begin,
                indent: (c.indent + 1) as u32,
            };
            r(
                Node::Module {
                    name,
                    body: Some(
                        Box::new(Node::Begin { statements: stmts, begin_l: None, end_l: None }),
                    ),
                },
                c,
            ) == "module "@ + r(*name, cc) + "\n"@ + sp_ind(c.indent) + "  "@ + r(st, line_ctx)
                + "\n"@ + sp_ind(c.indent) + "end"@
        }),
{
    let cc = c.spec_make_child(NodeKind::Module);
    let inner = cc.spec_indent();
    let body_node = Node::Begin { statements: stmts, begin_l: None, end_l: None };
    let b = Box::new(body_node);
    lemma_module_unfold(name, Some(b), c);
    lemma_bwe_unfold(b, cc);
    assert(body_node.spec_is_begin_block());
    lemma_body_begin(body_node, inner);
    lemma_begin_lines(stmts, inner);
    lemma_lines_single(st, inner.spec_make_child(NodeKind::Begin));
    lemma_indent_step(c.indent);
    assert(inner.spec_make_child(NodeKind::Begin) == (CodeWriterContext {
        parent_node_type: NodeKind::Begin,
        indent: (c.indent + 1) as u32,
    }));
    assert(sp_ind(inner.indent) == sp_ind(c.indent) + "  "@);
}

/// Rescue clauses sit one indentation level shallower than the body they
/// guard: the clause line is prefixed with the outdented indentation of the
/// enclosing construct.
pub proof fn lemma_rescue_dedent(
    body: Box<Node>,
    clause: Node,
    clauses: Vec<Node>,
    c: CodeWriterContext,
)
    requires
        clauses@ == seq![clause],
    ensures
        ({
            let cc = c.spec_make_child(NodeKind::Rescue);
            r(
                Node::Rescue { body: Some(body), rescue_bodies: clauses, else_: None },
                c,
            ) == r_body(*body, cc) + sp_ind(c.spec_outdent().indent) + r(
                clause,
                cc.spec_outdent(),
            )
        }),
{
    let cc = c.spec_make_child(NodeKind::Rescue);
    assert(clauses@.drop_last() =~= Seq::<Node>::empty());
    assert(clauses@.last() == clause);
    assert(crate::render::r_each(clauses@, c.spec_outdent().indent, cc.spec_outdent())
        == crate::render::r_each(Seq::<Node>::empty(), c.spec_outdent().indent, cc.spec_outdent())
        + sp_ind(c.spec_outdent().indent) + r(clause, cc.spec_outdent()));
}

} // verus!
