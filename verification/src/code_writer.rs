use vstd::prelude::*;

use crate::ast::Node;
use crate::ast::NodeKind;
use crate::context::CodeWriterContext;
use crate::render::contains_dsym;
use crate::render::dec_digits;
use crate::render::digit_char;
use crate::render::esc_chars;
use crate::render::r;
use crate::render::r_body;
use crate::render::r_body_with_end;
use crate::render::r_deep_stmts;
use crate::render::r_each;
use crate::render::r_lines;
use crate::render::r_parts;
use crate::render::r_sep;
use crate::render::sp_ind;
use crate::render::trim_last;

verus! {

broadcast use crate::render::seq_add_assoc;

/// The indentation prefix at the given depth, as text.
pub fn write_indent(indent: u32) -> (out: String)
    ensures
        out@ == sp_ind(indent),
{
    let mut out = String::new();
    let mut i: u32 = 0;
    while i < indent
        invariant
            i <= indent,
            out@ == sp_ind(i),
        decreases indent - i,
    {
        out.append("  ");
        proof {
            reveal_strlit("  ");
            assert(sp_ind(i) + "  "@ =~= sp_ind((i + 1) as u32));
        }
        i = i + 1;
    }
    out
}

/// Relies on String::push: appends exactly the one character.
#[verifier::external_body]
pub(crate) fn push_char(s: &mut String, c: char)
    ensures
        final(s)@ == old(s)@ + seq![c],
{
    s.push(c);
}

/// One decimal digit as a character.
fn digit(d: u8) -> (ch: char)
    requires
        d < 10,
    ensures
        ch == digit_char(d as nat),
{
    if d == 0 {
        '0'
    } else if d == 1 {
        '1'
    } else if d == 2 {
        '2'
    } else if d == 3 {
        '3'
    } else if d == 4 {
        '4'
    } else if d == 5 {
        '5'
    } else if d == 6 {
        '6'
    } else if d == 7 {
        '7'
    } else if d == 8 {
        '8'
    } else {
        '9'
    }
}

/// The decimal rendering of a numbered block parameter index.
fn write_decimal(n: u8) -> (out: String)
    ensures
        out@ == dec_digits(n as nat),
    decreases n,
{
    let mut out = String::new();
    if n < 10 {
        push_char(&mut out, digit(n));
    } else {
        let s = write_decimal(n / 10);
        out.append(s.as_str());
        push_char(&mut out, digit(n % 10));
    }
    out
}

/// Text equality between an owned name and a literal.
pub(crate) fn string_eq_literal(s: &String, lit: &str) -> (b: bool)
    ensures
        b == (s@ == lit@),
{
    let other = String::from_str(lit);
    *s == other
}

/// The name with its final character removed; an empty name stays empty.
fn drop_last_char(name: &String) -> (out: String)
    ensures
        out@ == trim_last(name@),
{
    let s = name.as_str();
    let l = s.unicode_len();
    if l >= 1 {
        String::from_str(s.substring_char(0, l - 1))
    } else {
        String::new()
    }
}

/// A literal fragment with the enclosing delimiter and the interpolation
/// marker escaped.
fn write_string_with_escape(s: &str, esc: char, esc_to: &str) -> (out: String)
    ensures
        out@ == esc_chars(s@, esc, esc_to@),
{
    let mut out = String::new();
    let n = s.unicode_len();
    let mut i: usize = 0;
    while i < n
        invariant
            n == s@.len(),
            i <= n,
            out@ == esc_chars(s@.take(i as int), esc, esc_to@),
        decreases n - i,
    {
        let ch = s.get_char(i);
        if ch == esc {
            out.append(esc_to);
        } else if ch == '#' {
            out.append("\\#");
        } else {
            push_char(&mut out, ch);
        }
        proof {
            reveal_strlit("\\#");
            assert("\\#"@ =~= seq!['\\', '#']);
            assert(s@.take(i as int + 1).drop_last() =~= s@.take(i as int));
            assert(s@.take(i as int + 1).last() == s@[i as int]);
        }
        i = i + 1;
    }
    proof {
        assert(s@.take(n as int) =~= s@);
    }
    out
}

/// Does the vector hold a dynamic-symbol element?
fn any_dsym(nodes: &Vec<Node>) -> (b: bool)
    ensures
        b == contains_dsym(nodes@),
{
    let n = nodes.len();
    let mut i: usize = 0;
    while i < n
        invariant
            n == nodes@.len(),
            i <= n,
            forall|j: int| 0 <= j < i ==> !(nodes@[j] is Dsym),
        decreases n - i,
    {
        let hit = match &nodes[i] {
            Node::Dsym { .. } => true,
            _ => false,
        };
        if hit {
            return true;
        }
        i = i + 1;
    }
    false
}

/// Renders `node` under `context`, returning exactly the canonical text
/// `r(node, context)`. The writer never mutates the tree and never fails:
/// every node kind renders to a piece of text. The dispatch is split over a
/// few slice functions purely to keep each verification unit small.
pub fn write_code(node: &Node, context: &CodeWriterContext) -> (out: String)
    ensures
        out@ == r(*node, *context),
    decreases node, 1int,
{
    match node {
        Node::Alias { .. } | Node::And { .. } | Node::AndAsgn { .. } | Node::Arg { .. } | Node::Args { .. } | Node::Array { .. } | Node::ArrayPattern { .. } | Node::ArrayPatternWithTail { .. } | Node::BackRef { .. } | Node::Begin { .. } | Node::Block { .. } | Node::BlockPass { .. } | Node::Blockarg { .. } | Node::Break { .. } => write_operand_like(
            node,
            context,
        ),
        Node::CSend { .. } | Node::Case { .. } | Node::CaseMatch { .. } | Node::Casgn { .. } | Node::Cbase { .. } | Node::Class { .. } | Node::Complex { .. } | Node::Const { .. } | Node::ConstPattern { .. } | Node::Cvar { .. } | Node::Cvasgn { .. } => write_call_like(
            node,
            context,
        ),
        Node::Def { .. } | Node::Defined { .. } | Node::Defs { .. } | Node::Dstr { .. } | Node::Dsym { .. } | Node::EFlipFlop { .. } | Node::EmptyElse { .. } | Node::Encoding { .. } | Node::Ensure { .. } | Node::Erange { .. } | Node::False { .. } | Node::File { .. } | Node::FindPattern { .. } | Node::Float { .. } | Node::For { .. } => write_definition_like(
            node,
            context,
        ),
        Node::ForwardArg { .. } | Node::ForwardedArgs { .. } | Node::Gvar { .. } | Node::Gvasgn { .. } | Node::Hash { .. } | Node::HashPattern { .. } | Node::Heredoc { .. } | Node::IFlipFlop { .. } | Node::If { .. } | Node::IfGuard { .. } | Node::IfMod { .. } | Node::IfTernary { .. } => write_branch_like(
            node,
            context,
        ),
        Node::InPattern { .. } | Node::Index { .. } | Node::IndexAsgn { .. } | Node::Int { .. } | Node::Irange { .. } | Node::Ivar { .. } | Node::Ivasgn { .. } | Node::KwBegin { .. } | Node::Kwarg { .. } | Node::Kwargs { .. } | Node::Kwnilarg { .. } | Node::Kwoptarg { .. } | Node::Kwrestarg { .. } | Node::Kwsplat { .. } => write_pattern_like(
            node,
            context,
        ),
        Node::Lambda { .. } | Node::Line { .. } | Node::Lvar { .. } | Node::Lvasgn { .. } | Node::Masgn { .. } | Node::MatchAlt { .. } | Node::MatchAs { .. } | Node::MatchCurrentLine { .. } | Node::MatchNilPattern { .. } | Node::MatchPattern { .. } | Node::MatchPatternP { .. } | Node::MatchRest { .. } | Node::MatchVar { .. } | Node::MatchWithLvasgn { .. } | Node::Mlhs { .. } | Node::Module { .. } | Node::Next { .. } | Node::Nil { .. } | Node::NthRef { .. } | Node::Numblock { .. } | Node::OpAsgn { .. } | Node::Optarg { .. } | Node::Or { .. } | Node::OrAsgn { .. } => write_binding_like(
            node,
            context,
        ),
        Node::Pair { .. } | Node::Pin { .. } | Node::Postexe { .. } | Node::Preexe { .. } | Node::Procarg0 { .. } | Node::Rational { .. } | Node::Redo { .. } | Node::RegOpt { .. } | Node::Regexp { .. } | Node::Rescue { .. } | Node::RescueBody { .. } | Node::Restarg { .. } | Node::Retry { .. } | Node::Return { .. } => write_clause_like(
            node,
            context,
        ),
        Node::SClass { .. } | Node::Self_ { .. } | Node::Send(..) | Node::Shadowarg { .. } | Node::Splat { .. } | Node::Str { .. } | Node::Super { .. } | Node::Sym { .. } | Node::True { .. } | Node::Undef { .. } | Node::UnlessGuard { .. } | Node::Until { .. } | Node::UntilPost { .. } | Node::When { .. } | Node::While { .. } | Node::WhilePost { .. } | Node::XHeredoc { .. } | Node::Xstr { .. } | Node::Yield { .. } | Node::ZSuper { .. } => write_trailer_like(
            node,
            context,
        ),
    }
}

/// One slice of the node-kind dispatch.
#[verifier::spinoff_prover]
#[verifier::rlimit(100)]
fn write_operand_like(node: &Node, context: &CodeWriterContext) -> (out: String)
    requires
        node is Alias
            || node is And
            || node is AndAsgn
            || node is Arg
            || node is Args
            || node is Array
            || node is ArrayPattern
            || node is ArrayPatternWithTail
            || node is BackRef
            || node is Begin
            || node is Block
            || node is BlockPass
            || node is Blockarg
            || node is Break,
    ensures
        out@ == r(*node, *context),
    decreases node, 0int,
{
    let mut out = String::new();
    match node {
        Node::Alias { to, from } => {
            let cc = context.make_child(NodeKind::Alias);
            out.append("alias ");
            let s = write_code(&**to, &cc);
            out.append(s.as_str());
            out.append(" ");
            let s = write_code(&**from, &cc);
            out.append(s.as_str());
        },
        Node::And { lhs, rhs } => {
            let cc = context.make_child(NodeKind::And);
            let s = write_code(&**lhs, &cc);
            out.append(s.as_str());
            out.append(" && ");
            let s = write_code(&**rhs, &cc);
            out.append(s.as_str());
        },
        Node::AndAsgn { recv, value } => {
            let cc = context.make_child(NodeKind::AndAsgn);
            let s = write_code(&**recv, &cc);
            out.append(s.as_str());
            out.append(" &&= ");
            let s = write_code(&**value, &cc);
            out.append(s.as_str());
        },
        Node::Arg { name } => {
            out.append(name.as_str());
        },
        Node::Args { args } => {
            let cc = context.make_child(NodeKind::Args);
            let s = write_code_with_separator(args, &cc, ", ");
            out.append(s.as_str());
        },
        Node::Array { elements, begin_l, end_l } => {
            let cc = context.make_child(NodeKind::Array);
            let percent = match begin_l {
                Some(b) => b.size() == 3,
                None => false,
            };
            let first_is_sym = elements.len() > 0 && (match &elements[0] {
                Node::Sym { .. } => true,
                _ => false,
            });
            if percent && any_dsym(elements) {
                out.append("%I[");
                let s = write_code_with_separator(elements, &cc, " ");
                out.append(s.as_str());
                out.append("]");
            } else if percent && first_is_sym {
                out.append("%i[");
                let s = write_code_with_separator(elements, &cc, " ");
                out.append(s.as_str());
                out.append("]");
            } else {
                if begin_l.is_some() {
                    out.append("[");
                }
                let s = write_code_with_separator(elements, &cc, ", ");
                out.append(s.as_str());
                if end_l.is_some() {
                    out.append("]");
                }
            }
        },
        Node::ArrayPattern { elements, begin_l, end_l } => {
            let cc = context.make_child(NodeKind::ArrayPattern);
            if begin_l.is_some() {
                out.append("[");
            }
            let s = write_code_with_separator(elements, &cc, ", ");
            out.append(s.as_str());
            if end_l.is_some() {
                out.append("]");
            }
        },
        Node::ArrayPatternWithTail { elements, begin_l, end_l } => {
            let cc = context.make_child(NodeKind::ArrayPatternWithTail);
            if begin_l.is_some() {
                out.append("[");
            }
            let s = write_code_with_separator(elements, &cc, ", ");
            out.append(s.as_str());
            if end_l.is_some() {
                out.append(",]");
            }
        },
        Node::BackRef { name } => {
            out.append(name.as_str());
        },
        Node::Begin { statements, begin_l, .. } => {
            let cc = context.make_child(NodeKind::Begin);
            if context.parent_node_type == NodeKind::Part {
                let s = write_code_with_separator(statements, &cc, ";");
                out.append(s.as_str());
            } else if begin_l.is_some() {
                out.append("(");
                let s = write_code_with_separator(statements, &cc, "; ");
                out.append(s.as_str());
                out.append(")");
            } else {
                let s = write_code_without_separator(statements, &cc);
                out.append(s.as_str());
            }
        },
        Node::Block { call, args, body, begin_l } => {
            let cc = context.make_child(NodeKind::Block);
            let do_block = begin_l.size() == 2;
            let s = write_code(&**call, &cc);
            out.append(s.as_str());
            match args {
                Some(a) => {
                    if do_block {
                        out.append(" do |");
                    } else {
                        out.append(" { |");
                    }
                    let s = write_code(&**a, &cc);
                    out.append(s.as_str());
                    if do_block {
                        out.append("|\n");
                    } else {
                        out.append("| ");
                    }
                },
                None => {
                    if do_block {
                        out.append(" do\n");
                    } else {
                        out.append(" {");
                    }
                },
            }
            match body {
                Some(b) => {
                    if do_block {
                        let s = write_body(&**b, &cc.indent());
                        out.append(s.as_str());
                    } else {
                        let s = write_code(&**b, &cc.indent());
                        out.append(s.as_str());
                    }
                },
                None => {},
            }
            if do_block {
                let s = write_indent(context.indent);
                out.append(s.as_str());
                out.append("end");
            } else {
                out.append(" }");
            }
        },
        Node::BlockPass { value } => {
            let cc = context.make_child(NodeKind::BlockPass);
            out.append("&");
            match value {
                Some(v) => {
                    let s = write_code(&**v, &cc);
                    out.append(s.as_str());
        },
                None => {},
            }
        },
        Node::Blockarg { name } => {
            out.append("&");
            match name {
                Some(n) => {
                    out.append(n.as_str());
        },
                None => {},
            }
        },
        Node::Break { args } => {
            let cc = context.make_child(NodeKind::Break);
            if args.len() == 0 {
                out.append("break");
            } else if args.len() == 1 {
                out.append("break ");
                let s = write_code(&args[0], &cc);
                out.append(s.as_str());
            } else {
                out.append("break(");
                let s = write_code_with_separator(args, &cc, ", ");
                out.append(s.as_str());
                out.append(")");
            }
        },
        _ => {
            proof {
                assert(false);
            }
        },
    }
    out
}

/// One slice of the node-kind dispatch.
#[verifier::spinoff_prover]
#[verifier::rlimit(100)]
fn write_call_like(node: &Node, context: &CodeWriterContext) -> (out: String)
    requires
        node is CSend
            || node is Case
            || node is CaseMatch
            || node is Casgn
            || node is Cbase
            || node is Class
            || node is Complex
            || node is Const
            || node is ConstPattern
            || node is Cvar
            || node is Cvasgn,
    ensures
        out@ == r(*node, *context),
    decreases node, 0int,
{
    let mut out = String::new();
    match node {
        Node::CSend { recv, method_name, args, begin_l, end_l, operator_l } => {
            let cc = context.make_child(NodeKind::CSend);
            let s = write_code(&**recv, &cc);
            out.append(s.as_str());
            out.append("&.");
            if operator_l.is_some() {
                let t = drop_last_char(method_name);
                out.append(t.as_str());
                out.append(" = ");
                let s = write_code_with_separator(args, &cc, ", ");
                out.append(s.as_str());
            } else {
                out.append(method_name.as_str());
                if begin_l.is_some() {
                    out.append("(");
                }
                let s = write_code_with_separator(args, &cc, ", ");
                out.append(s.as_str());
                if end_l.is_some() {
                    out.append(")");
                }
            }
        },
        Node::Case { expr, when_bodies, else_body } => {
            let cc = context.make_child(NodeKind::Case);
            match expr {
                Some(e) => {
                    out.append("case ");
                    let s = write_code(&**e, &cc);
                    out.append(s.as_str());
                    out.append("\n");
                },
                None => {
                    out.append("case\n");
                },
            }
            let s = write_each_indented(when_bodies, context.indent, &cc);
            out.append(s.as_str());
            match else_body {
                Some(e) => {
                    let s = write_indent(context.indent);
                    out.append(s.as_str());
                    out.append("else\n");
                    let s = write_body(&**e, &cc.indent());
                    out.append(s.as_str());
                },
                None => {},
            }
            let s = write_indent(context.indent);
            out.append(s.as_str());
            out.append("end");
        },
        Node::CaseMatch { expr, in_bodies, else_body } => {
            let cc = context.make_child(NodeKind::CaseMatch);
            out.append("case ");
            let s = write_code(&**expr, &cc);
            out.append(s.as_str());
            out.append("\n");
            let s = write_code_without_separator(in_bodies, &cc.indent());
            out.append(s.as_str());
            match else_body {
                Some(e) => {
                    out.append("else\n");
                    let s = write_code(&**e, &cc.indent());
                    out.append(s.as_str());
                    out.append("\n");
                },
                None => {},
            }
            let s = write_indent(context.indent);
            out.append(s.as_str());
            out.append("end");
        },
        Node::Casgn { scope, name, value } => {
            let cc = context.make_child(NodeKind::Casgn);
            match scope {
                Some(sc) => {
                    let s = write_code(&**sc, &cc);
                    out.append(s.as_str());
        },
                None => {},
            }
            out.append(name.as_str());
            match value {
                Some(v) => {
                    out.append(" = ");
                    let s = write_code(&**v, &cc);
                    out.append(s.as_str());
        },
                None => {},
            }
        },
        Node::Cbase {} => {
            out.append("::");
        },
        Node::Class { name, superclass, body } => {
            let cc = context.make_child(NodeKind::Class);
            out.append("class ");
            let s = write_code(&**name, &cc);
            out.append(s.as_str());
            match superclass {
                Some(sc) => {
                    out.append(" < ");
                    let s = write_code(&**sc, &cc);
                    out.append(s.as_str());
                },
                None => {},
            }
            let s = write_body_with_end(body, &cc);
            out.append(s.as_str());
        },
        Node::Complex { value } => {
            out.append(value.as_str());
        },
        Node::Const { scope, name, double_colon_l } => {
            let cc = context.make_child(NodeKind::Const);
            match scope {
                Some(sc) => {
                    let s = write_code(&**sc, &cc);
                    out.append(s.as_str());
        },
                None => {},
            }
            if double_colon_l.is_some() {
                out.append("::");
            }
            out.append(name.as_str());
        },
        Node::ConstPattern { const_, pattern } => {
            let cc = context.make_child(NodeKind::ConstPattern);
            let s = write_code(&**const_, &cc);
            out.append(s.as_str());
            out.append("(");
            let s = write_code(&**pattern, &cc);
            out.append(s.as_str());
            out.append(")");
        },
        Node::Cvar { name } => {
            out.append(name.as_str());
        },
        Node::Cvasgn { name, value } => {
            let cc = context.make_child(NodeKind::Cvasgn);
            out.append(name.as_str());
            match value {
                Some(v) => {
                    out.append(" = ");
                    let s = write_code(&**v, &cc);
                    out.append(s.as_str());
        },
                None => {},
            }
        },
        _ => {
            proof {
                assert(false);
            }
        },
    }
    out
}

/// One slice of the node-kind dispatch.
#[verifier::spinoff_prover]
#[verifier::rlimit(100)]
fn write_definition_like(node: &Node, context: &CodeWriterContext) -> (out: String)
    requires
        node is Def
            || node is Defined
            || node is Defs
            || node is Dstr
            || node is Dsym
            || node is EFlipFlop
            || node is EmptyElse
            || node is Encoding
            || node is Ensure
            || node is Erange
            || node is False
            || node is File
            || node is FindPattern
            || node is Float
            || node is For,
    ensures
        out@ == r(*node, *context),
    decreases node, 0int,
{
    let mut out = String::new();
    match node {
        Node::Def { name, args, body, assignment_l } => {
            let cc = context.make_child(NodeKind::Def);
            out.append("def ");
            out.append(name.as_str());
            match args {
                Some(a) => {
                    out.append("(");
                    let s = write_code(&**a, &cc);
                    out.append(s.as_str());
                    out.append(")");
                },
                None => {},
            }
            if assignment_l.is_some() {
                out.append(" = ");
                match body {
                    Some(b) => {
                        let s = write_code(&**b, &cc);
                        out.append(s.as_str());
                    },
                    None => {},
                }
            } else {
                match body {
                    Some(b) => {
                        out.append("\n");
                        let clause = match &**b {
                            Node::Ensure { .. } => true,
                            Node::Rescue { .. } => true,
                            _ => false,
                        };
                        if clause {
                            let s = write_code(&**b, &cc.indent());
                            out.append(s.as_str());
                        } else {
                            let s = write_body(&**b, &cc.indent());
                            out.append(s.as_str());
                        }
                    },
                    None => {
                        out.append("\n");
                    },
                }
                let s = write_indent(cc.indent);
                out.append(s.as_str());
                out.append("end");
            }
        },
        Node::Defined { value, begin_l, end_l } => {
            let cc = context.make_child(NodeKind::Defined);
            out.append("defined?");
            if begin_l.is_some() {
                out.append("(");
            }
            let s = write_code(&**value, &cc);
            out.append(s.as_str());
            if end_l.is_some() {
                out.append(")");
            }
        },
        Node::Defs { definee, name, args, body, assignment_l } => {
            let cc = context.make_child(NodeKind::Defs);
            out.append("def ");
            let s = write_code(&**definee, &cc);
            out.append(s.as_str());
            out.append(".");
            out.append(name.as_str());
            match args {
                Some(a) => {
                    out.append("(");
                    let s = write_code(&**a, &cc);
                    out.append(s.as_str());
                    out.append(")");
                },
                None => {},
            }
            if assignment_l.is_some() {
                out.append(" = ");
                match body {
                    Some(b) => {
                        let s = write_code(&**b, &cc);
                        out.append(s.as_str());
                    },
                    None => {},
                }
            } else {
                match body {
                    Some(b) => {
                        out.append("\n");
                        let clause = match &**b {
                            Node::Ensure { .. } => true,
                            Node::Rescue { .. } => true,
                            _ => false,
                        };
                        if clause {
                            let s = write_code(&**b, &cc.indent());
                            out.append(s.as_str());
                        } else {
                            let s = write_body(&**b, &cc.indent());
                            out.append(s.as_str());
                        }
                    },
                    None => {
                        out.append("\n");
                    },
                }
                let s = write_indent(cc.indent);
                out.append(s.as_str());
                out.append("end");
            }
        },
        Node::Dstr { parts, begin_l } => {
            let cc = context.make_child(NodeKind::Dstr);
            let wide = match begin_l {
                Some(b) => b.size() != 1,
                None => false,
            };
            if wide {
                out.append("%Q{");
                let s = write_parts(parts, &cc, '}', "\\}");
                out.append(s.as_str());
                out.append("}");
            } else {
                out.append("\"");
                let s = write_parts(parts, &cc, '"', "\\\"");
                out.append(s.as_str());
                out.append("\"");
            }
        },
        Node::Dsym { parts, begin_l, end_l } => {
            let cc = context.make_child(NodeKind::Dsym);
            if context.parent_node_type == NodeKind::PairKey {
                out.append("\"");
                let s = write_parts(parts, &cc, '"', "\\\"");
                out.append(s.as_str());
                out.append("\"");
            } else {
                if begin_l.is_some() {
                    out.append(":\"");
                }
                let s = write_parts(parts, &cc, '"', "\\\"");
                out.append(s.as_str());
                if end_l.is_some() {
                    out.append("\"");
                }
            }
        },
        Node::EFlipFlop { left, right } => {
            let cc = context.make_child(NodeKind::EFlipFlop);
            match left {
                Some(v) => {
                    let s = write_code(&**v, &cc);
                    out.append(s.as_str());
        },
                None => {},
            }
            out.append("...");
            match right {
                Some(v) => {
                    let s = write_code(&**v, &cc);
                    out.append(s.as_str());
        },
                None => {},
            }
        },
        Node::EmptyElse {} => {
            out.append("else");
        },
        Node::Encoding {} => {
            out.append("__ENCODING__");
        },
        Node::Ensure { body, ensure } => {
            let cc = context.make_child(NodeKind::Ensure);
            match body {
                Some(b) => {
                    let chained = match &**b {
                        Node::Rescue { .. } => true,
                        _ => false,
                    };
                    if chained {
                        let s = write_code(&**b, &cc);
                        out.append(s.as_str());
                    } else {
                        let s = write_body(&**b, &cc);
                        out.append(s.as_str());
                    }
                },
                None => {},
            }
            let s = write_indent(context.outdent().indent);
            out.append(s.as_str());
            out.append("ensure\n");
            match ensure {
                Some(e) => {
                    let s = write_body(&**e, &cc);
                    out.append(s.as_str());
                },
                None => {},
            }
        },
        Node::Erange { left, right } => {
            let cc = context.make_child(NodeKind::Erange);
            match left {
                Some(v) => {
                    let s = write_code(&**v, &cc);
                    out.append(s.as_str());
        },
                None => {},
            }
            out.append("...");
            match right {
                Some(v) => {
                    let s = write_code(&**v, &cc);
                    out.append(s.as_str());
        },
                None => {},
            }
        },
        Node::False {} => {
            out.append("false");
        },
        Node::File {} => {
            out.append("__FILE__");
        },
        Node::FindPattern { elements, begin_l, end_l } => {
            let cc = context.make_child(NodeKind::FindPattern);
            if begin_l.is_some() {
                out.append("[");
            }
            let s = write_code_with_separator(elements, &cc, ", ");
            out.append(s.as_str());
            if end_l.is_some() {
                out.append("]");
            }
        },
        Node::Float { value } => {
            out.append(value.as_str());
        },
        Node::For { iterator, iteratee, body } => {
            let cc = context.make_child(NodeKind::For);
            out.append("for ");
            let s = write_code(&**iterator, &cc);
            out.append(s.as_str());
            out.append(" in ");
            let s = write_code(&**iteratee, &cc);
            out.append(s.as_str());
            let s = write_body_with_end(body, &cc);
            out.append(s.as_str());
        },
        _ => {
            proof {
                assert(false);
            }
        },
    }
    out
}

/// One slice of the node-kind dispatch.
#[verifier::spinoff_prover]
#[verifier::rlimit(100)]
fn write_branch_like(node: &Node, context: &CodeWriterContext) -> (out: String)
    requires
        node is ForwardArg
            || node is ForwardedArgs
            || node is Gvar
            || node is Gvasgn
            || node is Hash
            || node is HashPattern
            || node is Heredoc
            || node is IFlipFlop
            || node is If
            || node is IfGuard
            || node is IfMod
            || node is IfTernary,
    ensures
        out@ == r(*node, *context),
    decreases node, 0int,
{
    let mut out = String::new();
    match node {
        Node::ForwardArg {} => {
            out.append("...");
        },
        Node::ForwardedArgs {} => {
            out.append("...");
        },
        Node::Gvar { name } => {
            out.append(name.as_str());
        },
        Node::Gvasgn { name, value } => {
            let cc = context.make_child(NodeKind::Gvasgn);
            out.append(name.as_str());
            match value {
                Some(v) => {
                    out.append(" = ");
                    let s = write_code(&**v, &cc);
                    out.append(s.as_str());
        },
                None => {},
            }
        },
        Node::Hash { pairs, begin_l, end_l } => {
            let cc = context.make_child(NodeKind::Hash);
            if begin_l.is_some() {
                out.append("{");
            }
            let s = write_code_with_separator(pairs, &cc, ", ");
            out.append(s.as_str());
            if end_l.is_some() {
                out.append("}");
            }
        },
        Node::HashPattern { elements, begin_l, end_l } => {
            let cc = context.make_child(NodeKind::HashPattern);
            if begin_l.is_some() {
                out.append("{");
            }
            let s = write_code_with_separator(elements, &cc, ", ");
            out.append(s.as_str());
            if end_l.is_some() {
                out.append("}");
            }
        },
        Node::Heredoc { parts } => {
            let cc = context.make_child(NodeKind::Heredoc);
            out.append("\"");
            let s = write_parts(parts, &cc, '"', "\\\"");
            out.append(s.as_str());
            out.append("\"");
        },
        Node::IFlipFlop { left, right } => {
            match left {
                Some(v) => {
                    let s = write_code(&**v, context);
                    out.append(s.as_str());
        },
                None => {},
            }
            out.append("..");
            match right {
                Some(v) => {
                    let s = write_code(&**v, context);
                    out.append(s.as_str());
        },
                None => {},
            }
        },
        Node::If { cond, if_true, if_false } => {
            let cc = context.make_child(NodeKind::If);
            match if_true {
                Some(t) => {
                    out.append("if ");
                    let s = write_code(&**cond, &cc);
                    out.append(s.as_str());
                    out.append("\n");
                    let s = write_body(&**t, &cc.indent());
                    out.append(s.as_str());
                    match if_false {
                        Some(f) => {
                            let s = write_indent(context.indent);
                            out.append(s.as_str());
                            out.append("else\n");
                            let s = write_body(&**f, &cc.indent());
                            out.append(s.as_str());
                        },
                        None => {},
                    }
                },
                None => {
                    match if_false {
                        Some(f) => {
                            out.append("unless ");
                            let s = write_code(&**cond, &cc);
                            out.append(s.as_str());
                            out.append("\n");
                            let s = write_body(&**f, &cc.indent());
                            out.append(s.as_str());
                        },
                        None => {},
                    }
                },
            }
            let s = write_indent(context.indent);
            out.append(s.as_str());
            out.append("end");
        },
        Node::IfGuard { cond } => {
            let cc = context.make_child(NodeKind::IfGuard);
            out.append(" if ");
            let s = write_code(&**cond, &cc);
            out.append(s.as_str());
        },
        Node::IfMod { cond, if_true, if_false } => {
            let cc = context.make_child(NodeKind::IfMod);
            match if_true {
                Some(t) => {
                    let s = write_code(&**t, &cc);
                    out.append(s.as_str());
                    out.append(" if ");
        },
                None => {},
            }
            match if_false {
                Some(f) => {
                    let s = write_code(&**f, &cc);
                    out.append(s.as_str());
                    out.append(" unless ");
        },
                None => {},
            }
            let s = write_code(&**cond, &cc);
            out.append(s.as_str());
        },
        Node::IfTernary { cond, if_true, if_false } => {
            let cc = context.make_child(NodeKind::IfTernary);
            let s = write_code(&**cond, &cc);
            out.append(s.as_str());
            out.append(" ? ");
            let s = write_code(&**if_true, &cc);
            out.append(s.as_str());
            out.append(" : ");
            let s = write_code(&**if_false, &cc);
            out.append(s.as_str());
        },
        _ => {
            proof {
                assert(false);
            }
        },
    }
    out
}

/// One slice of the node-kind dispatch.
#[verifier::spinoff_prover]
#[verifier::rlimit(100)]
fn write_pattern_like(node: &Node, context: &CodeWriterContext) -> (out: String)
    requires
        node is InPattern
            || node is Index
            || node is IndexAsgn
            || node is Int
            || node is Irange
            || node is Ivar
            || node is Ivasgn
            || node is KwBegin
            || node is Kwarg
            || node is Kwargs
            || node is Kwnilarg
            || node is Kwoptarg
            || node is Kwrestarg
            || node is Kwsplat,
    ensures
        out@ == r(*node, *context),
    decreases node, 0int,
{
    let mut out = String::new();
    match node {
        Node::InPattern { pattern, guard, body } => {
            let cc = context.make_child(NodeKind::InPattern);
            out.append("in ");
            let s = write_code(&**pattern, &cc);
            out.append(s.as_str());
            match guard {
                Some(g) => {
                    let s = write_code(&**g, &cc);
                    out.append(s.as_str());
                },
                None => {},
            }
            match body {
                Some(b) => {
                    out.append(" then\n");
                    let s = write_body(&**b, &cc.indent());
                    out.append(s.as_str());
                },
                None => {},
            }
        },
        Node::Index { recv, indexes } => {
            let cc = context.make_child(NodeKind::Index);
            let s = write_code(&**recv, &cc);
            out.append(s.as_str());
            out.append("[");
            let s = write_code_with_separator(indexes, &cc, ", ");
            out.append(s.as_str());
            out.append("]");
        },
        Node::IndexAsgn { recv, indexes, value } => {
            let cc = context.make_child(NodeKind::IndexAsgn);
            let s = write_code(&**recv, &cc);
            out.append(s.as_str());
            out.append("[");
            let s = write_code_with_separator(indexes, &cc, ", ");
            out.append(s.as_str());
            out.append("]");
            match value {
                Some(v) => {
                    out.append(" = ");
                    let s = write_code(&**v, &cc);
                    out.append(s.as_str());
        },
                None => {},
            }
        },
        Node::Int { value } => {
            out.append(value.as_str());
        },
        Node::Irange { left, right } => {
            let cc = context.make_child(NodeKind::Irange);
            match left {
                Some(v) => {
                    let s = write_code(&**v, &cc);
                    out.append(s.as_str());
        },
                None => {},
            }
            out.append("..");
            match right {
                Some(v) => {
                    let s = write_code(&**v, &cc);
                    out.append(s.as_str());
        },
                None => {},
            }
        },
        Node::Ivar { name } => {
            out.append(name.as_str());
        },
        Node::Ivasgn { name, value } => {
            let cc = context.make_child(NodeKind::Ivasgn);
            out.append(name.as_str());
            match value {
                Some(v) => {
                    out.append(" = ");
                    let s = write_code(&**v, &cc);
                    out.append(s.as_str());
        },
                None => {},
            }
        },
        Node::KwBegin { statements, begin_l, end_l } => {
            let cc = context.make_child(NodeKind::KwBegin);
            if begin_l.is_some() {
                out.append("begin\n");
            }
            let s = write_deep_statements(statements, &cc);
            out.append(s.as_str());
            if end_l.is_some() {
                let s = write_indent(context.indent);
                out.append(s.as_str());
                out.append("end");
            }
        },
        Node::Kwarg { name } => {
            out.append(name.as_str());
            out.append(":");
        },
        Node::Kwargs { pairs } => {
            let cc = context.make_child(NodeKind::Kwargs);
            let s = write_code_with_separator(pairs, &cc, ", ");
            out.append(s.as_str());
        },
        Node::Kwnilarg {} => {
            out.append("**nil");
        },
        Node::Kwoptarg { name, default } => {
            let cc = context.make_child(NodeKind::Kwoptarg);
            out.append(name.as_str());
            out.append(": ");
            let s = write_code(&**default, &cc);
            out.append(s.as_str());
        },
        Node::Kwrestarg { name } => {
            out.append("**");
            match name {
                Some(n) => {
                    out.append(n.as_str());
        },
                None => {},
            }
        },
        Node::Kwsplat { value } => {
            let cc = context.make_child(NodeKind::Kwsplat);
            out.append("**");
            let s = write_code(&**value, &cc);
            out.append(s.as_str());
        },
        _ => {
            proof {
                assert(false);
            }
        },
    }
    out
}

/// One slice of the node-kind dispatch.
#[verifier::spinoff_prover]
#[verifier::rlimit(100)]
fn write_binding_like(node: &Node, context: &CodeWriterContext) -> (out: String)
    requires
        node is Lambda
            || node is Line
            || node is Lvar
            || node is Lvasgn
            || node is Masgn
            || node is MatchAlt
            || node is MatchAs
            || node is MatchCurrentLine
            || node is MatchNilPattern
            || node is MatchPattern
            || node is MatchPatternP
            || node is MatchRest
            || node is MatchVar
            || node is MatchWithLvasgn
            || node is Mlhs
            || node is Module
            || node is Next
            || node is Nil
            || node is NthRef
            || node is Numblock
            || node is OpAsgn
            || node is Optarg
            || node is Or
            || node is OrAsgn,
    ensures
        out@ == r(*node, *context),
    decreases node, 0int,
{
    let mut out = String::new();
    match node {
        Node::Lambda {} => {
            out.append("->");
        },
        Node::Line {} => {
            out.append("__LINE__");
        },
        Node::Lvar { name } => {
            out.append(name.as_str());
        },
        Node::Lvasgn { name, value } => {
            let cc = context.make_child(NodeKind::Lvasgn);
            out.append(name.as_str());
            match value {
                Some(v) => {
                    out.append(" = ");
                    let s = write_code(&**v, &cc);
                    out.append(s.as_str());
        },
                None => {},
            }
        },
        Node::Masgn { lhs, rhs } => {
            let cc = context.make_child(NodeKind::Masgn);
            let s = write_code(&**lhs, &cc);
            out.append(s.as_str());
            out.append(" = ");
            let s = write_code(&**rhs, &cc);
            out.append(s.as_str());
        },
        Node::MatchAlt { lhs, rhs } => {
            let cc = context.make_child(NodeKind::MatchAlt);
            let s = write_code(&**lhs, &cc);
            out.append(s.as_str());
            out.append(" | ");
            let s = write_code(&**rhs, &cc);
            out.append(s.as_str());
        },
        Node::MatchAs { value, as_ } => {
            let cc = context.make_child(NodeKind::MatchAs);
            let s = write_code(&**value, &cc);
            out.append(s.as_str());
            out.append(" => ");
            let s = write_code(&**as_, &cc);
            out.append(s.as_str());
        },
        Node::MatchCurrentLine { re } => {
            let cc = context.make_child(NodeKind::MatchCurrentLine);
            let s = write_code(&**re, &cc);
            out.append(s.as_str());
        },
        Node::MatchNilPattern {} => {
            out.append("**nil");
        },
        Node::MatchPattern { value, pattern } => {
            let cc = context.make_child(NodeKind::MatchPattern);
            let s = write_code(&**value, &cc);
            out.append(s.as_str());
            out.append(" => ");
            let s = write_code(&**pattern, &cc);
            out.append(s.as_str());
        },
        Node::MatchPatternP { value, pattern } => {
            let cc = context.make_child(NodeKind::MatchPatternP);
            let s = write_code(&**value, &cc);
            out.append(s.as_str());
            out.append(" in ");
            let s = write_code(&**pattern, &cc);
            out.append(s.as_str());
        },
        Node::MatchRest { name } => {
            let cc = context.make_child(NodeKind::MatchRest);
            out.append("*");
            match name {
                Some(n) => {
                    let s = write_code(&**n, &cc);
                    out.append(s.as_str());
        },
                None => {},
            }
        },
        Node::MatchVar { name } => {
            out.append(name.as_str());
        },
        Node::MatchWithLvasgn { re, value } => {
            let cc = context.make_child(NodeKind::MatchWithLvasgn);
            let s = write_code(&**re, &cc);
            out.append(s.as_str());
            out.append(" =~ ");
            let s = write_code(&**value, &cc);
            out.append(s.as_str());
        },
        Node::Mlhs { items, begin_l, end_l } => {
            let cc = context.make_child(NodeKind::Mlhs);
            if begin_l.is_some() {
                out.append("(");
            }
            let s = write_code_with_separator(items, &cc, ", ");
            out.append(s.as_str());
            if end_l.is_some() {
                out.append(")");
            }
        },
        Node::Module { name, body } => {
            let cc = context.make_child(NodeKind::Module);
            out.append("module ");
            let s = write_code(&**name, &cc);
            out.append(s.as_str());
            let s = write_body_with_end(body, &cc);
            out.append(s.as_str());
        },
        Node::Next { args } => {
            let cc = context.make_child(NodeKind::Next);
            if args.len() == 0 {
                out.append("next");
            } else if args.len() == 1 {
                out.append("next ");
                let s = write_code(&args[0], &cc);
                out.append(s.as_str());
            } else {
                out.append("next(");
                let s = write_code_with_separator(args, &cc, ", ");
                out.append(s.as_str());
                out.append(")");
            }
        },
        Node::Nil {} => {
            out.append("nil");
        },
        Node::NthRef { name } => {
            out.append("$");
            out.append(name.as_str());
        },
        Node::Numblock { call, numargs } => {
            let cc = context.make_child(NodeKind::Numblock);
            let s = write_code(&**call, &cc);
            out.append(s.as_str());
            out.append(" { _");
            let s = write_decimal(*numargs);
            out.append(s.as_str());
            out.append(" }");
        },
        Node::OpAsgn { recv, operator, value } => {
            let cc = context.make_child(NodeKind::OpAsgn);
            let s = write_code(&**recv, &cc);
            out.append(s.as_str());
            out.append(" ");
            out.append(operator.as_str());
            out.append("= ");
            let s = write_code(&**value, &cc);
            out.append(s.as_str());
        },
        Node::Optarg { name, default } => {
            let cc = context.make_child(NodeKind::Optarg);
            out.append(name.as_str());
            out.append(" = ");
            let s = write_code(&**default, &cc);
            out.append(s.as_str());
        },
        Node::Or { lhs, rhs } => {
            let cc = context.make_child(NodeKind::Or);
            let s = write_code(&**lhs, &cc);
            out.append(s.as_str());
            out.append(" || ");
            let s = write_code(&**rhs, &cc);
            out.append(s.as_str());
        },
        Node::OrAsgn { recv, value } => {
            let cc = context.make_child(NodeKind::OrAsgn);
            let s = write_code(&**recv, &cc);
            out.append(s.as_str());
            out.append(" ||= ");
            let s = write_code(&**value, &cc);
            out.append(s.as_str());
        },
        _ => {
            proof {
                assert(false);
            }
        },
    }
    out
}

/// One slice of the node-kind dispatch.
#[verifier::spinoff_prover]
#[verifier::rlimit(100)]
fn write_clause_like(node: &Node, context: &CodeWriterContext) -> (out: String)
    requires
        node is Pair
            || node is Pin
            || node is Postexe
            || node is Preexe
            || node is Procarg0
            || node is Rational
            || node is Redo
            || node is RegOpt
            || node is Regexp
            || node is Rescue
            || node is RescueBody
            || node is Restarg
            || node is Retry
            || node is Return,
    ensures
        out@ == r(*node, *context),
    decreases node, 0int,
{
    let mut out = String::new();
    match node {
        Node::Pair { key, value, operator_l } => {
            let cc = context.make_child(NodeKind::Pair);
            if operator_l.size() >= 2 {
                let s = write_code(&**key, &cc);
                out.append(s.as_str());
                out.append(" => ");
            } else {
                let s = write_code(&**key, &context.make_child(NodeKind::PairKey));
                out.append(s.as_str());
                out.append(": ");
            }
            let s = write_code(&**value, &cc);
            out.append(s.as_str());
        },
        Node::Pin { var } => {
            let cc = context.make_child(NodeKind::Pin);
            out.append("^");
            let s = write_code(&**var, &cc);
            out.append(s.as_str());
        },
        Node::Postexe { body } => {
            let cc = context.make_child(NodeKind::Postexe);
            out.append("END { ");
            match body {
                Some(b) => {
                    if b.is_begin_block() {
                        out.append("\n");
                        let s = write_code(&**b, &cc.indent());
                        out.append(s.as_str());
                        out.append("\n");
                    } else {
                        let s = write_code(&**b, &cc.indent());
                        out.append(s.as_str());
                    }
                },
                None => {},
            }
            out.append(" }");
        },
        Node::Preexe { body } => {
            let cc = context.make_child(NodeKind::Preexe);
            out.append("BEGIN { ");
            match body {
                Some(b) => {
                    if b.is_begin_block() {
                        out.append("\n");
                        let s = write_code(&**b, &cc.indent());
                        out.append(s.as_str());
                        out.append("\n");
                    } else {
                        let s = write_code(&**b, &cc.indent());
                        out.append(s.as_str());
                    }
                },
                None => {},
            }
            out.append(" }");
        },
        Node::Procarg0 { args, begin_l, end_l } => {
            let cc = context.make_child(NodeKind::Procarg0);
            if begin_l.is_some() {
                out.append("(");
            }
            let s = write_code_with_separator(args, &cc, ", ");
            out.append(s.as_str());
            if end_l.is_some() {
                out.append(")");
            }
        },
        Node::Rational { value } => {
            out.append(value.as_str());
        },
        Node::Redo {} => {
            out.append("redo");
        },
        Node::RegOpt { options } => {
            match options {
                Some(o) => {
                    out.append(o.as_str());
        },
                None => {},
            }
        },
        Node::Regexp { parts, options, begin_l } => {
            let cc = context.make_child(NodeKind::Regexp);
            if begin_l.size() == 1 {
                out.append("/");
                let s = write_parts(parts, &cc, '/', "\\/");
                out.append(s.as_str());
                out.append("/");
            } else {
                out.append("%r{");
                let s = write_parts(parts, &cc, '}', "\\}");
                out.append(s.as_str());
                out.append("}");
            }
            match options {
                Some(o) => {
                    let s = write_code(&**o, &cc);
                    out.append(s.as_str());
                },
                None => {},
            }
        },
        Node::Rescue { body, rescue_bodies, else_ } => {
            let cc = context.make_child(NodeKind::Rescue);
            match body {
                Some(b) => {
                    let s = write_body(&**b, &cc);
                    out.append(s.as_str());
                },
                None => {},
            }
            let s = write_each_indented(rescue_bodies, context.outdent().indent, &cc.outdent());
            out.append(s.as_str());
            match else_ {
                Some(e) => {
                    let s = write_indent(context.outdent().indent);
                    out.append(s.as_str());
                    out.append("else\n");
                    let s = write_body(&**e, &cc);
                    out.append(s.as_str());
                },
                None => {},
            }
        },
        Node::RescueBody { exc_list, exc_var, body } => {
            let cc = context.make_child(NodeKind::RescueBody);
            match exc_list {
                Some(el) => {
                    out.append("rescue ");
                    let s = write_code(&**el, &cc);
                    out.append(s.as_str());
                },
                None => {
                    out.append("rescue");
                },
            }
            match exc_var {
                Some(ev) => {
                    out.append(" => ");
                    let s = write_code(&**ev, &cc);
                    out.append(s.as_str());
                },
                None => {},
            }
            out.append("\n");
            match body {
                Some(b) => {
                    let s = write_body(&**b, &cc.indent());
                    out.append(s.as_str());
                },
                None => {},
            }
        },
        Node::Restarg { name } => {
            out.append("*");
            match name {
                Some(n) => {
                    out.append(n.as_str());
        },
                None => {},
            }
        },
        Node::Retry {} => {
            out.append("retry");
        },
        Node::Return { args } => {
            let cc = context.make_child(NodeKind::Return);
            if args.len() > 0 {
                out.append("return ");
                let s = write_code_with_separator(args, &cc, ", ");
                out.append(s.as_str());
            } else {
                out.append("return");
            }
        },
        _ => {
            proof {
                assert(false);
            }
        },
    }
    out
}

/// One slice of the node-kind dispatch.
#[verifier::spinoff_prover]
#[verifier::rlimit(100)]
fn write_trailer_like(node: &Node, context: &CodeWriterContext) -> (out: String)
    requires
        node is SClass
            || node is Self_
            || node is Send
            || node is Shadowarg
            || node is Splat
            || node is Str
            || node is Super
            || node is Sym
            || node is True
            || node is Undef
            || node is UnlessGuard
            || node is Until
            || node is UntilPost
            || node is When
            || node is While
            || node is WhilePost
            || node is XHeredoc
            || node is Xstr
            || node is Yield
            || node is ZSuper,
    ensures
        out@ == r(*node, *context),
    decreases node, 0int,
{
    let mut out = String::new();
    match node {
        Node::SClass { expr, body } => {
            let cc = context.make_child(NodeKind::SClass);
            out.append("class << ");
            let s = write_code(&**expr, &cc);
            out.append(s.as_str());
            let s = write_body_with_end(body, &cc);
            out.append(s.as_str());
        },
        Node::Self_ {} => {
            out.append("self");
        },
        Node::Send(send) => {
            let cc = context.make_child(NodeKind::Send);
            if string_eq_literal(&send.method_name, "-@") {
                out.append("-");
                match &send.recv {
                    Some(v) => {
                        let s = write_code(&**v, &cc);
                        out.append(s.as_str());
                    },
                    None => {},
                }
            } else {
                match &send.recv {
                    Some(v) => {
                        let s = write_code(&**v, &cc);
                        out.append(s.as_str());
                        if send.dot_l.is_some() {
                            out.append(".");
                        } else {
                            out.append(" ");
                        }
                    },
                    None => {},
                }
                if send.operator_l.is_some() {
                    let t = drop_last_char(&send.method_name);
                    out.append(t.as_str());
                    out.append(" = ");
                    if send.args.len() > 0 {
                        let s = write_code_with_separator(&send.args, &cc, ", ");
                        out.append(s.as_str());
                    }
                } else {
                    out.append(send.method_name.as_str());
                    if send.args.len() == 0 {
                    } else if send.args.len() == 1 {
                        if send.dot_l.is_none() {
                            out.append(" ");
                            let s = write_code(&send.args[0], &cc);
                            out.append(s.as_str());
                        } else {
                            out.append("(");
                            let s = write_code(&send.args[0], &cc);
                            out.append(s.as_str());
                            out.append(")");
                        }
                    } else {
                        out.append("(");
                        let s = write_code_with_separator(&send.args, &cc, ", ");
                        out.append(s.as_str());
                        out.append(")");
                    }
                }
            }
        },
        Node::Shadowarg { name } => {
            out.append(";");
            out.append(name.as_str());
        },
        Node::Splat { value } => {
            let cc = context.make_child(NodeKind::Splat);
            out.append("*");
            match value {
                Some(v) => {
                    let s = write_code(&**v, &cc);
                    out.append(s.as_str());
        },
                None => {},
            }
        },
        Node::Str { value } => {
            out.append("'");
            let s = write_string_with_escape(value.as_str(), '\'', "\\'");
            out.append(s.as_str());
            out.append("'");
        },
        Node::Super { args } => {
            let cc = context.make_child(NodeKind::Super);
            if args.len() > 0 {
                out.append("super(");
                let s = write_code_with_separator(args, &cc, ", ");
                out.append(s.as_str());
                out.append(")");
            } else {
                out.append("super()");
            }
        },
        Node::Sym { name, begin_l, end_l } => {
            if context.parent_node_type == NodeKind::PairKey {
                out.append(name.as_str());
            } else {
                if begin_l.is_some() {
                    out.append(":");
                }
                out.append(name.as_str());
                if end_l.is_some() {
                    out.append(":");
                }
            }
        },
        Node::True {} => {
            out.append("true");
        },
        Node::Undef { names } => {
            let cc = context.make_child(NodeKind::Undef);
            out.append("undef ");
            let s = write_code_with_separator(names, &cc, ", ");
            out.append(s.as_str());
        },
        Node::UnlessGuard { cond } => {
            let cc = context.make_child(NodeKind::UnlessGuard);
            out.append("unless ");
            let s = write_code(&**cond, &cc);
            out.append(s.as_str());
        },
        Node::Until { cond, body, end_l } => {
            let cc = context.make_child(NodeKind::Until);
            if end_l.is_some() {
                out.append("until ");
                let s = write_code(&**cond, &cc);
                out.append(s.as_str());
                match body {
                    Some(b) => {
                        out.append("\n");
                        let s = write_body(&**b, &cc.indent());
                        out.append(s.as_str());
                    },
                    None => {},
                }
                let s = write_indent(cc.indent);
                out.append(s.as_str());
                out.append("end");
            } else {
                match body {
                    Some(b) => {
                        let s = write_code(&**b, &cc);
                        out.append(s.as_str());
                        out.append(" ");
                    },
                    None => {},
                }
                out.append("until ");
                let s = write_code(&**cond, &cc);
                out.append(s.as_str());
            }
        },
        Node::UntilPost { cond, body } => {
            let cc = context.make_child(NodeKind::UntilPost);
            let s = write_code(&**body, &cc);
            out.append(s.as_str());
            out.append(" until ");
            let s = write_code(&**cond, &cc);
            out.append(s.as_str());
        },
        Node::When { patterns, body } => {
            let cc = context.make_child(NodeKind::When);
            out.append("when ");
            let s = write_code_with_separator(patterns, &cc, ", ");
            out.append(s.as_str());
            match body {
                Some(b) => {
                    out.append("\n");
                    let s = write_body(&**b, &cc.indent());
                    out.append(s.as_str());
                },
                None => {},
            }
        },
        Node::While { cond, body, end_l } => {
            let cc = context.make_child(NodeKind::While);
            if end_l.is_some() {
                out.append("while ");
                let s = write_code(&**cond, &cc);
                out.append(s.as_str());
                match body {
                    Some(b) => {
                        out.append("\n");
                        let s = write_body(&**b, &cc.indent());
                        out.append(s.as_str());
                    },
                    None => {},
                }
                let s = write_indent(cc.indent);
                out.append(s.as_str());
                out.append("end");
            } else {
                match body {
                    Some(b) => {
                        let s = write_code(&**b, &cc);
                        out.append(s.as_str());
                        out.append(" ");
                    },
                    None => {},
                }
                out.append("while ");
                let s = write_code(&**cond, &cc);
                out.append(s.as_str());
            }
        },
        Node::WhilePost { cond, body } => {
            let cc = context.make_child(NodeKind::WhilePost);
            let s = write_code(&**body, &cc);
            out.append(s.as_str());
            out.append(" while ");
            let s = write_code(&**cond, &cc);
            out.append(s.as_str());
        },
        Node::XHeredoc { parts } => {
            let cc = context.make_child(NodeKind::XHeredoc);
            out.append("`");
            let s = write_parts(parts, &cc, '`', "\\`");
            out.append(s.as_str());
            out.append("`");
        },
        Node::Xstr { parts, begin_l } => {
            let cc = context.make_child(NodeKind::Xstr);
            if begin_l.size() == 1 {
                out.append("`");
                let s = write_parts(parts, &cc, '`', "\\`");
                out.append(s.as_str());
                out.append("`");
            } else {
                out.append("%x{");
                let s = write_parts(parts, &cc, '}', "\\}");
                out.append(s.as_str());
                out.append("}");
            }
        },
        Node::Yield { args } => {
            let cc = context.make_child(NodeKind::Yield);
            if args.len() == 0 {
                out.append("yield");
            } else if args.len() == 1 {
                out.append("yield ");
                let s = write_code(&args[0], &cc);
                out.append(s.as_str());
            } else {
                out.append("yield(");
                let s = write_code_with_separator(args, &cc, ", ");
                out.append(s.as_str());
                out.append(")");
            }
        },
        Node::ZSuper {} => {
            out.append("super");
        },
        _ => {
            proof {
                assert(false);
            }
        },
    }
    out
}

/// One statement of a body: a bare statement sequence renders as its own
/// lines, anything else becomes a single indented line.
fn write_body(node: &Node, context: &CodeWriterContext) -> (out: String)
    ensures
        out@ == r_body(*node, *context),
    decreases node, 2int,
{
    let mut out = String::new();
    if node.is_begin_block() {
        let s = write_code(node, context);
        out.append(s.as_str());
    } else {
        let s = write_indent(context.indent);
        out.append(s.as_str());
        let s = write_code(node, context);
        out.append(s.as_str());
        out.append("\n");
    }
    out
}

/// The closing part of a definition-like construct: newline, optional body
/// one level deeper, closing keyword.
fn write_body_with_end(body: &Option<Box<Node>>, context: &CodeWriterContext) -> (out: String)
    ensures
        out@ == r_body_with_end(*body, *context),
    decreases body, 0int,
{
    let mut out = String::new();
    out.append("\n");
    match body {
        Some(b) => {
            let s = write_body(&**b, &context.indent());
            out.append(s.as_str());
        },
        None => {},
    }
    let s = write_indent(context.indent);
    out.append(s.as_str());
    out.append("end");
    out
}

/// Elements joined by a separator, with no separator after the last.
fn write_code_with_separator(nodes: &Vec<Node>, context: &CodeWriterContext, separator: &str) -> (out:
    String)
    ensures
        out@ == r_sep(nodes@, *context, separator@),
    decreases nodes, 0int,
{
    let mut out = String::new();
    let n = nodes.len();
    let mut i: usize = 0;
    while i < n
        invariant
            n == nodes@.len(),
            i <= n,
            out@ == r_sep(nodes@.take(i as int), *context, separator@),
        decreases n - i,
    {
        if i != 0 {
            out.append(separator);
        }
        let s = write_code(&nodes[i], context);
        out.append(s.as_str());
        proof {
            assert(nodes@.take(i as int + 1).drop_last() =~= nodes@.take(i as int));
            assert(nodes@.take(i as int + 1).last() == nodes@[i as int]);
        }
        i = i + 1;
    }
    proof {
        assert(nodes@.take(n as int) =~= nodes@);
    }
    out
}

/// Elements rendered one per line at the context's indentation.
fn write_code_without_separator(nodes: &Vec<Node>, context: &CodeWriterContext) -> (out: String)
    ensures
        out@ == r_lines(nodes@, *context),
    decreases nodes, 0int,
{
    let mut out = String::new();
    let n = nodes.len();
    let mut i: usize = 0;
    while i < n
        invariant
            n == nodes@.len(),
            i <= n,
            out@ == r_lines(nodes@.take(i as int), *context),
        decreases n - i,
    {
        let s = write_indent(context.indent);
        out.append(s.as_str());
        let s = write_code(&nodes[i], context);
        out.append(s.as_str());
        out.append("\n");
        proof {
            assert(nodes@.take(i as int + 1).drop_last() =~= nodes@.take(i as int));
            assert(nodes@.take(i as int + 1).last() == nodes@[i as int]);
        }
        i = i + 1;
    }
    proof {
        assert(nodes@.take(n as int) =~= nodes@);
    }
    out
}

/// Elements each rendered after an indentation prefix of the given depth.
fn write_each_indented(nodes: &Vec<Node>, ind: u32, context: &CodeWriterContext) -> (out: String)
    ensures
        out@ == r_each(nodes@, ind, *context),
    decreases nodes, 0int,
{
    let mut out = String::new();
    let n = nodes.len();
    let mut i: usize = 0;
    while i < n
        invariant
            n == nodes@.len(),
            i <= n,
            out@ == r_each(nodes@.take(i as int), ind, *context),
        decreases n - i,
    {
        let s = write_indent(ind);
        out.append(s.as_str());
        let s = write_code(&nodes[i], context);
        out.append(s.as_str());
        proof {
            assert(nodes@.take(i as int + 1).drop_last() =~= nodes@.take(i as int));
            assert(nodes@.take(i as int + 1).last() == nodes@[i as int]);
        }
        i = i + 1;
    }
    proof {
        assert(nodes@.take(n as int) =~= nodes@);
    }
    out
}

/// The statements of a keyword `begin` body: rescue and ensure clauses keep
/// their own layout, everything else becomes an indented line.
fn write_deep_statements(nodes: &Vec<Node>, context: &CodeWriterContext) -> (out: String)
    ensures
        out@ == r_deep_stmts(nodes@, *context),
    decreases nodes, 0int,
{
    let mut out = String::new();
    let n = nodes.len();
    let mut i: usize = 0;
    while i < n
        invariant
            n == nodes@.len(),
            i <= n,
            out@ == r_deep_stmts(nodes@.take(i as int), *context),
        decreases n - i,
    {
        let clause = match &nodes[i] {
            Node::Ensure { .. } => true,
            Node::Rescue { .. } => true,
            _ => false,
        };
        if clause {
            let s = write_code(&nodes[i], &context.indent());
            out.append(s.as_str());
        } else {
            let s = write_body(&nodes[i], &context.indent());
            out.append(s.as_str());
        }
        proof {
            assert(nodes@.take(i as int + 1).drop_last() =~= nodes@.take(i as int));
            assert(nodes@.take(i as int + 1).last() == nodes@[i as int]);
        }
        i = i + 1;
    }
    proof {
        assert(nodes@.take(n as int) =~= nodes@);
    }
    out
}

/// The fragments of an interpolated literal.
fn write_parts(parts: &Vec<Node>, context: &CodeWriterContext, esc: char, esc_to: &str) -> (out:
    String)
    ensures
        out@ == r_parts(parts@, *context, esc, esc_to@),
    decreases parts, 0int,
{
    let mut out = String::new();
    let n = parts.len();
    let mut i: usize = 0;
    while i < n
        invariant
            n == parts@.len(),
            i <= n,
            out@ == r_parts(parts@.take(i as int), *context, esc, esc_to@),
        decreases n - i,
    {
        match &parts[i] {
            Node::Str { value } => {
                let s = write_string_with_escape(value.as_str(), esc, esc_to);
                out.append(s.as_str());
            },
            Node::Begin { .. } => {
                out.append("#{");
                let s = write_code(&parts[i], &context.make_child(NodeKind::Part));
                out.append(s.as_str());
                out.append("}");
            },
            Node::Ivar { name } => {
                out.append("#");
                out.append(name.as_str());
            },
            Node::Gvar { name } => {
                out.append("#");
                out.append(name.as_str());
            },
            Node::Cvar { name } => {
                out.append("#");
                out.append(name.as_str());
            },
            _ => {
                out.append("<Unhandled node ");
                out.append(parts[i].kind_text());
                out.append(">");
            },
        }
        proof {
            assert(parts@.take(i as int + 1).drop_last() =~= parts@.take(i as int));
            assert(parts@.take(i as int + 1).last() == parts@[i as int]);
        }
        i = i + 1;
    }
    proof {
        assert(parts@.take(n as int) =~= parts@);
    }
    out
}

} // verus!
