use vstd::prelude::*;

use crate::ast::Node;
use crate::ast::NodeKind;
use crate::context::CodeWriterContext;

verus! {

/// Concatenation of character sequences is associative. Rendering equalities
/// constantly regroup concatenations (the renderer appends piece by piece,
/// while the specification groups pieces by construct), so this is kept
/// ambient wherever rendered text is reasoned about.
pub broadcast proof fn seq_add_assoc<A>(a: Seq<A>, b: Seq<A>, c: Seq<A>)
    ensures
        #[trigger] (a + (b + c)) == (a + b) + c,
{
    assert(a + (b + c) =~= (a + b) + c);
}

/// The indentation prefix at depth `n`: two spaces per level.
pub open spec fn sp_ind(n: u32) -> Seq<char> {
    Seq::new(2 * (n as nat), |i: int| ' ')
}

/// Character-wise escaping of literal fragments: the delimiter character of
/// the enclosing literal is replaced by `esc_to`, and the interpolation
/// marker `#` is protected with a backslash. Everything else passes through.
pub open spec fn esc_chars(s: Seq<char>, esc: char, esc_to: Seq<char>) -> Seq<char>
    decreases s.len(),
{
    if s.len() == 0 {
        Seq::empty()
    } else {
        esc_chars(s.drop_last(), esc, esc_to) + (if s.last() == esc {
            esc_to
        } else if s.last() == '#' {
            seq!['\\', '#']
        } else {
            seq![s.last()]
        })
    }
}

/// The character for one decimal digit.
pub open spec fn digit_char(d: nat) -> char {
    if d == 0 {
        '0'
    } else if d == 1 {
        '1'
    } else if d == 2 {
        '2'
    } else if d == 3 {
        '3'
    } else if d == 4 {
        '4'
    } else if d == 5 {
        '5'
    } else if d == 6 {
        '6'
    } else if d == 7 {
        '7'
    } else if d == 8 {
        '8'
    } else {
        '9'
    }
}

/// The decimal digits of `n`, most significant first.
pub open spec fn dec_digits(n: nat) -> Seq<char>
    decreases n,
{
    if n < 10 {
        seq![digit_char(n)]
    } else {
        dec_digits(n / 10) + seq![digit_char(n % 10)]
    }
}

/// Does the sequence hold a dynamic-symbol node? An array of symbols renders
/// in `%I[...]` form when one of its elements is interpolated.
pub open spec fn contains_dsym(s: Seq<Node>) -> bool {
    exists|i: int| 0 <= i < s.len() && s[i] is Dsym
}

/// The canonical rendering of `node` under context `c`. This is the
/// reference for the whole code writer: the executable renderer returns
/// exactly this sequence of characters.
pub open spec fn r(node: Node, c: CodeWriterContext) -> Seq<char>
    decreases node, 0int,
{
    let cc = c.spec_make_child(node.spec_kind());
    match node {
        Node::Alias { to, from } => "alias "@ + r(*to, cc) + " "@ + r(*from, cc),
        Node::And { lhs, rhs } => r(*lhs, cc) + " && "@ + r(*rhs, cc),
        Node::AndAsgn { recv, value } => r(*recv, cc) + " &&= "@ + r(*value, cc),
        Node::Arg { name } => name@,
        Node::Args { args } => r_sep(args@, cc, ", "@),
        Node::Array { elements, begin_l, end_l } => {
            if begin_l matches Some(b) && b.spec_size() == 3 && contains_dsym(elements@) {
                "%I["@ + r_sep(elements@, cc, " "@) + "]"@
            } else if begin_l matches Some(b) && b.spec_size() == 3 && elements@.len() > 0
                && elements@[0] is Sym {
                "%i["@ + r_sep(elements@, cc, " "@) + "]"@
            } else {
                (if begin_l is Some { "["@ } else { Seq::<char>::empty() }) + r_sep(
                    elements@,
                    cc,
                    ", "@,
                ) + (if end_l is Some { "]"@ } else { Seq::<char>::empty() })
            }
        },
        Node::ArrayPattern { elements, begin_l, end_l } => (if begin_l is Some {
            "["@
        } else {
            Seq::<char>::empty()
        }) + r_sep(elements@, cc, ", "@) + (if end_l is Some { "]"@ } else { Seq::<char>::empty() }),
        Node::ArrayPatternWithTail { elements, begin_l, end_l } => (if begin_l is Some {
            "["@
        } else {
            Seq::<char>::empty()
        }) + r_sep(elements@, cc, ", "@) + (if end_l is Some { ",]"@ } else { Seq::<char>::empty() }),
        Node::BackRef { name } => name@,
        Node::Begin { statements, begin_l, .. } => {
            if c.parent_node_type == NodeKind::Part {
                r_sep(statements@, cc, ";"@)
            } else if begin_l is Some {
                "("@ + r_sep(statements@, cc, "; "@) + ")"@
            } else {
                r_lines(statements@, cc)
            }
        },
        Node::BlockPass { value } => "&"@ + (match value {
            Some(v) => r(*v, cc),
            None => Seq::<char>::empty(),
        }),
        Node::Blockarg { name } => "&"@ + (match name {
            Some(n) => n@,
            None => Seq::<char>::empty(),
        }),
        Node::Break { args } => {
            if args@.len() == 0 {
                "break"@
            } else if args@.len() == 1 {
                "break "@ + r(args@[0], cc)
            } else {
                "break("@ + r_sep(args@, cc, ", "@) + ")"@
            }
        },
        Node::Casgn { scope, name, value } => (match scope {
            Some(s) => r(*s, cc),
            None => Seq::<char>::empty(),
        }) + name@ + (match value {
            Some(v) => " = "@ + r(*v, cc),
            None => Seq::<char>::empty(),
        }),
        Node::Cbase {  } => "::"@,
        Node::Complex { value } => value@,
        Node::Const { scope, name, double_colon_l } => (match scope {
            Some(n) => r(*n, cc),
            None => Seq::<char>::empty(),
        }) + (if double_colon_l
            is Some {
            "::"@
        } else {
            Seq::<char>::empty()
        }) + name@,
        Node::ConstPattern { const_, pattern } => r(*const_, cc) + "("@ + r(*pattern, cc) + ")"@,
        Node::Cvar { name } => name@,
        Node::Cvasgn { name, value } => name@ + (match value {
            Some(n) => " = "@ + r(*n, cc),
            None => Seq::<char>::empty(),
        }),
        Node::Defined { value, begin_l, end_l } => "defined?"@ + (if begin_l is Some {
            "("@
        } else {
            Seq::<char>::empty()
        }) + r(*value, cc) + (if end_l is Some { ")"@ } else { Seq::<char>::empty() }),
        Node::EFlipFlop { left, right } => (match left {
            Some(n) => r(*n, cc),
            None => Seq::<char>::empty(),
        }) + "..."@ + (match right {
            Some(n) => r(*n, cc),
            None => Seq::<char>::empty(),
        }),
        Node::EmptyElse {  } => "else"@,
        Node::Encoding {  } => "__ENCODING__"@,
        Node::Erange { left, right } => (match left {
            Some(n) => r(*n, cc),
            None => Seq::<char>::empty(),
        }) + "..."@ + (match right {
            Some(n) => r(*n, cc),
            None => Seq::<char>::empty(),
        }),
        Node::False {  } => "false"@,
        Node::File {  } => "__FILE__"@,
        Node::FindPattern { elements, begin_l, end_l } => (if begin_l is Some {
            "["@
        } else {
            Seq::<char>::empty()
        }) + r_sep(elements@, cc, ", "@) + (if end_l is Some { "]"@ } else { Seq::<char>::empty() }),
        Node::Float { value } => value@,
        Node::ForwardArg {  } => "..."@,
        Node::ForwardedArgs {  } => "..."@,
        Node::Gvar { name } => name@,
        Node::Gvasgn { name, value } => name@ + (match value {
            Some(n) => " = "@ + r(*n, cc),
            None => Seq::<char>::empty(),
        }),
        Node::Hash { pairs, begin_l, end_l } => (if begin_l is Some {
            "{"@
        } else {
            Seq::<char>::empty()
        }) + r_sep(pairs@, cc, ", "@) + (if end_l is Some { "}"@ } else { Seq::<char>::empty() }),
        Node::HashPattern { elements, begin_l, end_l } => (if begin_l is Some {
            "{"@
        } else {
            Seq::<char>::empty()
        }) + r_sep(elements@, cc, ", "@) + (if end_l is Some { "}"@ } else { Seq::<char>::empty() }),
        Node::IFlipFlop { left, right } => (match left {
            Some(n) => r(*n, c),
            None => Seq::<char>::empty(),
        }) + ".."@ + (match right {
            Some(n) => r(*n, c),
            None => Seq::<char>::empty(),
        }),
        Node::IfGuard { cond } => " if "@ + r(*cond, cc),
        Node::IfMod { cond, if_true, if_false } => (match if_true {
            Some(n) => r(*n, cc) + " if "@,
            None => Seq::<char>::empty(),
        }) + (match if_false {
            Some(n) => r(*n, cc) + " unless "@,
            None => Seq::<char>::empty(),
        }) + r(*cond, cc),
        Node::IfTernary { cond, if_true, if_false } => r(*cond, cc) + " ? "@ + r(*if_true, cc)
            + " : "@ + r(*if_false, cc),
        Node::Index { recv, indexes } => r(*recv, cc) + "["@ + r_sep(indexes@, cc, ", "@) + "]"@,
        Node::IndexAsgn { recv, indexes, value } => r(*recv, cc) + "["@ + r_sep(
            indexes@,
            cc,
            ", "@,
        ) + "]"@ + (match value {
            Some(n) => " = "@ + r(*n, cc),
            None => Seq::<char>::empty(),
        }),
        Node::Int { value } => value@,
        Node::Irange { left, right } => (match left {
            Some(n) => r(*n, cc),
            None => Seq::<char>::empty(),
        }) + ".."@ + (match right {
            Some(n) => r(*n, cc),
            None => Seq::<char>::empty(),
        }),
        Node::Ivar { name } => name@,
        Node::Ivasgn { name, value } => name@ + (match value {
            Some(n) => " = "@ + r(*n, cc),
            None => Seq::<char>::empty(),
        }),
        Node::Kwarg { name } => name@ + ":"@,
        Node::Kwargs { pairs } => r_sep(pairs@, cc, ", "@),
        Node::Kwnilarg {  } => "**nil"@,
        Node::Kwoptarg { name, default } => name@ + ": "@ + r(*default, cc),
        Node::Kwrestarg { name } => "**"@ + (match name {
            Some(n) => n@,
            None => Seq::<char>::empty(),
        }),
        Node::Kwsplat { value } => "**"@ + r(*value, cc),
        Node::Lambda {  } => "->"@,
        Node::Line {  } => "__LINE__"@,
        Node::Lvar { name } => name@,
        Node::Lvasgn { name, value } => name@ + (match value {
            Some(n) => " = "@ + r(*n, cc),
            None => Seq::<char>::empty(),
        }),
        Node::Masgn { lhs, rhs } => r(*lhs, cc) + " = "@ + r(*rhs, cc),
        Node::MatchAlt { lhs, rhs } => r(*lhs, cc) + " | "@ + r(*rhs, cc),
        Node::MatchAs { value, as_ } => r(*value, cc) + " => "@ + r(*as_, cc),
        Node::MatchCurrentLine { re } => r(*re, cc),
        Node::MatchNilPattern {  } => "**nil"@,
        Node::MatchPattern { value, pattern } => r(*value, cc) + " => "@ + r(*pattern, cc),
        Node::MatchPatternP { value, pattern } => r(*value, cc) + " in "@ + r(*pattern, cc),
        Node::MatchRest { name } => "*"@ + (match name {
            Some(n) => r(*n, cc),
            None => Seq::<char>::empty(),
        }),
        Node::MatchVar { name } => name@,
        Node::MatchWithLvasgn { re, value } => r(*re, cc) + " =~ "@ + r(*value, cc),
        Node::Mlhs { items, begin_l, end_l } => (if begin_l is Some {
            "("@
        } else {
            Seq::<char>::empty()
        }) + r_sep(items@, cc, ", "@) + (if end_l is Some { ")"@ } else { Seq::<char>::empty() }),
        Node::Module { name, body } => "module "@ + r(*name, cc) + r_body_with_end(body, cc),
        Node::Next { args } => {
            if args@.len() == 0 {
                "next"@
            } else if args@.len() == 1 {
                "next "@ + r(args@[0], cc)
            } else {
                "next("@ + r_sep(args@, cc, ", "@) + ")"@
            }
        },
        Node::Nil {  } => "nil"@,
        Node::NthRef { name } => "$"@ + name@,
        Node::OpAsgn { recv, operator, value } => r(*recv, cc) + " "@ + operator@ + "= "@ + r(
            *value,
            cc,
        ),
        Node::Optarg { name, default } => name@ + " = "@ + r(*default, cc),
        Node::Or { lhs, rhs } => r(*lhs, cc) + " || "@ + r(*rhs, cc),
        Node::OrAsgn { recv, value } => r(*recv, cc) + " ||= "@ + r(*value, cc),
        Node::Pin { var } => "^"@ + r(*var, cc),
        Node::Procarg0 { args, begin_l, end_l } => (if begin_l is Some {
            "("@
        } else {
            Seq::<char>::empty()
        }) + r_sep(args@, cc, ", "@) + (if end_l is Some { ")"@ } else { Seq::<char>::empty() }),
        Node::Rational { value } => value@,
        Node::Redo {  } => "redo"@,
        Node::RegOpt { options } => match options {
            Some(o) => o@,
            None => Seq::<char>::empty(),
        },
        Node::Restarg { name } => "*"@ + (match name {
            Some(n) => n@,
            None => Seq::<char>::empty(),
        }),
        Node::Retry {  } => "retry"@,
        Node::Return { args } => {
            if args@.len() > 0 {
                "return "@ + r_sep(args@, cc, ", "@)
            } else {
                "return"@
            }
        },
        Node::Self_ {  } => "self"@,
        Node::Shadowarg { name } => ";"@ + name@,
        Node::Splat { value } => "*"@ + (match value {
            Some(n) => r(*n, cc),
            None => Seq::<char>::empty(),
        }),
        Node::Super { args } => {
            if args@.len() > 0 {
                "super("@ + r_sep(args@, cc, ", "@) + ")"@
            } else {
                "super()"@
            }
        },
        Node::True {  } => "true"@,
        Node::Undef { names } => "undef "@ + r_sep(names@, cc, ", "@),
        Node::UnlessGuard { cond } => "unless "@ + r(*cond, cc),
        Node::UntilPost { cond, body } => r(*body, cc) + " until "@ + r(*cond, cc),
        Node::WhilePost { cond, body } => r(*body, cc) + " while "@ + r(*cond, cc),
        Node::Yield { args } => {
            if args@.len() == 0 {
                "yield"@
            } else if args@.len() == 1 {
                "yield "@ + r(args@[0], cc)
            } else {
                "yield("@ + r_sep(args@, cc, ", "@) + ")"@
            }
        },
        Node::ZSuper {  } => "super"@,
        Node::Block { call, args, body, begin_l } => {
            let do_block = begin_l.spec_size() == 2;
            r(*call, cc) + (match args {
                Some(a) => (if do_block {
                    " do |"@
                } else {
                    " { |"@
                }) + r(*a, cc) + (if do_block {
                    "|\n"@
                } else {
                    "| "@
                }),
                None => if do_block {
                    " do\n"@
                } else {
                    " {"@
                },
            }) + (match body {
                Some(b) => if do_block {
                    r_body(*b, cc.spec_indent())
                } else {
                    r(*b, cc.spec_indent())
                },
                None => Seq::<char>::empty(),
            }) + (if do_block {
                sp_ind(c.indent) + "end"@
            } else {
                " }"@
            })
        },
        Node::CSend { recv, method_name, args, begin_l, end_l, operator_l } => r(*recv, cc)
            + "&."@ + (if operator_l is Some {
            trim_last(method_name@) + " = "@ + r_sep(args@, cc, ", "@)
        } else {
            method_name@ + (if begin_l is Some { "("@ } else { Seq::<char>::empty() }) + r_sep(
                args@,
                cc,
                ", "@,
            ) + (if end_l is Some { ")"@ } else { Seq::<char>::empty() })
        }),
        Node::Case { expr, when_bodies, else_body } => (match expr {
            Some(e) => "case "@ + r(*e, cc) + "\n"@,
            None => "case\n"@,
        }) + r_each(when_bodies@, c.indent, cc) + (match else_body {
            Some(e) => sp_ind(c.indent) + "else\n"@ + r_body(*e, cc.spec_indent()),
            None => Seq::<char>::empty(),
        }) + sp_ind(c.indent) + "end"@,
        Node::CaseMatch { expr, in_bodies, else_body } => "case "@ + r(*expr, cc) + "\n"@
            + r_lines(in_bodies@, cc.spec_indent()) + (match else_body {
            Some(e) => "else\n"@ + r(*e, cc.spec_indent()) + "\n"@,
            None => Seq::<char>::empty(),
        }) + sp_ind(c.indent) + "end"@,
        Node::Class { name, superclass, body } => "class "@ + r(*name, cc) + (match superclass {
            Some(s) => " < "@ + r(*s, cc),
            None => Seq::<char>::empty(),
        }) + r_body_with_end(body, cc),
        Node::Def { name, args, body, assignment_l } => "def "@ + name@ + (match args {
            Some(a) => "("@ + r(*a, cc) + ")"@,
            None => Seq::<char>::empty(),
        }) + (if assignment_l is Some {
            " = "@ + (match body {
                Some(b) => r(*b, cc),
                None => Seq::<char>::empty(),
            })
        } else {
            (match body {
                Some(b) => "\n"@ + (if *b is Ensure || *b is Rescue {
                    r(*b, cc.spec_indent())
                } else {
                    r_body(*b, cc.spec_indent())
                }),
                None => "\n"@,
            }) + sp_ind(cc.indent) + "end"@
        }),
        Node::Defs { definee, name, args, body, assignment_l } => "def "@ + r(*definee, cc) + "."@
            + name@ + (match args {
            Some(a) => "("@ + r(*a, cc) + ")"@,
            None => Seq::<char>::empty(),
        }) + (if assignment_l is Some {
            " = "@ + (match body {
                Some(b) => r(*b, cc),
                None => Seq::<char>::empty(),
            })
        } else {
            (match body {
                Some(b) => "\n"@ + (if *b is Ensure || *b is Rescue {
                    r(*b, cc.spec_indent())
                } else {
                    r_body(*b, cc.spec_indent())
                }),
                None => "\n"@,
            }) + sp_ind(cc.indent) + "end"@
        }),
        Node::Dstr { parts, begin_l } => {
            if begin_l matches Some(b) && b.spec_size() != 1 {
                "%Q{"@ + r_parts(parts@, cc, '}', "\\}"@) + "}"@
            } else {
                "\""@ + r_parts(parts@, cc, '"', "\\\""@) + "\""@
            }
        },
        Node::Dsym { parts, begin_l, end_l } => {
            if c.parent_node_type == NodeKind::PairKey {
                "\""@ + r_parts(parts@, cc, '"', "\\\""@) + "\""@
            } else {
                (if begin_l is Some { ":\""@ } else { Seq::<char>::empty() }) + r_parts(
                    parts@,
                    cc,
                    '"',
                    "\\\""@,
                ) + (if end_l is Some { "\""@ } else { Seq::<char>::empty() })
            }
        },
        Node::Ensure { body, ensure } => (match body {
            Some(b) => if *b is Rescue {
                r(*b, cc)
            } else {
                r_body(*b, cc)
            },
            None => Seq::<char>::empty(),
        }) + sp_ind(c.spec_outdent().indent) + "ensure\n"@ + (match ensure {
            Some(e) => r_body(*e, cc),
            None => Seq::<char>::empty(),
        }),
        Node::For { iterator, iteratee, body } => "for "@ + r(*iterator, cc) + " in "@ + r(
            *iteratee,
            cc,
        ) + r_body_with_end(body, cc),
        Node::Heredoc { parts } => "\""@ + r_parts(parts@, cc, '"', "\\\""@) + "\""@,
        Node::If { cond, if_true, if_false } => (match if_true {
            Some(t) => "if "@ + r(*cond, cc) + "\n"@ + r_body(*t, cc.spec_indent()) + (
            match if_false {
                Some(f) => sp_ind(c.indent) + "else\n"@ + r_body(*f, cc.spec_indent()),
                None => Seq::<char>::empty(),
            }),
            None => (match if_false {
                Some(f) => "unless "@ + r(*cond, cc) + "\n"@ + r_body(*f, cc.spec_indent()),
                None => Seq::<char>::empty(),
            }),
        }) + sp_ind(c.indent) + "end"@,
        Node::InPattern { pattern, guard, body } => "in "@ + r(*pattern, cc) + (match guard {
            Some(g) => r(*g, cc),
            None => Seq::<char>::empty(),
        }) + (match body {
            Some(b) => " then\n"@ + r_body(*b, cc.spec_indent()),
            None => Seq::<char>::empty(),
        }),
        Node::KwBegin { statements, begin_l, end_l } => (if begin_l is Some {
            "begin\n"@
        } else {
            Seq::<char>::empty()
        }) + r_deep_stmts(statements@, cc) + (if end_l is Some {
            sp_ind(c.indent) + "end"@
        } else {
            Seq::<char>::empty()
        }),
        Node::Numblock { call, numargs } => r(*call, cc) + " { _"@ + dec_digits(numargs as nat)
            + " }"@,
        Node::Pair { key, value, operator_l } => {
            if operator_l.spec_size() >= 2 {
                r(*key, cc) + " => "@ + r(*value, cc)
            } else {
                r(*key, c.spec_make_child(NodeKind::PairKey)) + ": "@ + r(*value, cc)
            }
        },
        Node::Postexe { body } => "END { "@ + (match body {
            Some(b) => if b.spec_is_begin_block() {
                "\n"@ + r(*b, cc.spec_indent()) + "\n"@
            } else {
                r(*b, cc.spec_indent())
            },
            None => Seq::<char>::empty(),
        }) + " }"@,
        Node::Preexe { body } => "BEGIN { "@ + (match body {
            Some(b) => if b.spec_is_begin_block() {
                "\n"@ + r(*b, cc.spec_indent()) + "\n"@
            } else {
                r(*b, cc.spec_indent())
            },
            None => Seq::<char>::empty(),
        }) + " }"@,
        Node::Regexp { parts, options, begin_l } => (if begin_l.spec_size() == 1 {
            "/"@ + r_parts(parts@, cc, '/', "\\/"@) + "/"@
        } else {
            "%r{"@ + r_parts(parts@, cc, '}', "\\}"@) + "}"@
        }) + (match options {
            Some(o) => r(*o, cc),
            None => Seq::<char>::empty(),
        }),
        Node::Rescue { body, rescue_bodies, else_ } => (match body {
            Some(b) => r_body(*b, cc),
            None => Seq::<char>::empty(),
        }) + r_each(rescue_bodies@, c.spec_outdent().indent, cc.spec_outdent()) + (match else_ {
            Some(e) => sp_ind(c.spec_outdent().indent) + "else\n"@ + r_body(*e, cc),
            None => Seq::<char>::empty(),
        }),
        Node::RescueBody { exc_list, exc_var, body } => (match exc_list {
            Some(el) => "rescue "@ + r(*el, cc),
            None => "rescue"@,
        }) + (match exc_var {
            Some(ev) => " => "@ + r(*ev, cc),
            None => Seq::<char>::empty(),
        }) + "\n"@ + (match body {
            Some(b) => r_body(*b, cc.spec_indent()),
            None => Seq::<char>::empty(),
        }),
        Node::SClass { expr, body } => "class << "@ + r(*expr, cc) + r_body_with_end(body, cc),
        Node::Send(send) => {
            if send.method_name@ == "-@"@ {
                "-"@ + (match send.recv {
                    Some(n) => r(*n, cc),
                    None => Seq::<char>::empty(),
                })
            } else {
                (match send.recv {
                    Some(n) => r(*n, cc) + (if send.dot_l is Some {
                        "."@
                    } else {
                        " "@
                    }),
                    None => Seq::<char>::empty(),
                }) + (if send.operator_l is Some {
                    trim_last(send.method_name@) + " = "@ + (if send.args@.len() > 0 {
                        r_sep(send.args@, cc, ", "@)
                    } else {
                        Seq::<char>::empty()
                    })
                } else {
                    send.method_name@ + (if send.args@.len() == 0 {
                        Seq::<char>::empty()
                    } else if send.args@.len() == 1 {
                        if send.dot_l is None {
                            " "@ + r(send.args@[0], cc)
                        } else {
                            "("@ + r(send.args@[0], cc) + ")"@
                        }
                    } else {
                        "("@ + r_sep(send.args@, cc, ", "@) + ")"@
                    })
                })
            }
        },
        Node::Str { value } => "'"@ + esc_chars(value@, '\'', "\\'"@) + "'"@,
        Node::Sym { name, begin_l, end_l } => {
            if c.parent_node_type == NodeKind::PairKey {
                name@
            } else {
                (if begin_l is Some { ":"@ } else { Seq::<char>::empty() }) + name@ + (if end_l
                    is Some {
                    ":"@
                } else {
                    Seq::<char>::empty()
                })
            }
        },
        Node::Until { cond, body, end_l } => {
            if end_l is Some {
                "until "@ + r(*cond, cc) + (match body {
                    Some(b) => "\n"@ + r_body(*b, cc.spec_indent()),
                    None => Seq::<char>::empty(),
                }) + sp_ind(cc.indent) + "end"@
            } else {
                (match body {
                    Some(b) => r(*b, cc) + " "@,
                    None => Seq::<char>::empty(),
                }) + "until "@ + r(*cond, cc)
            }
        },
        Node::When { patterns, body } => "when "@ + r_sep(patterns@, cc, ", "@) + (match body {
            Some(b) => "\n"@ + r_body(*b, cc.spec_indent()),
            None => Seq::<char>::empty(),
        }),
        Node::While { cond, body, end_l } => {
            if end_l is Some {
                "while "@ + r(*cond, cc) + (match body {
                    Some(b) => "\n"@ + r_body(*b, cc.spec_indent()),
                    None => Seq::<char>::empty(),
                }) + sp_ind(cc.indent) + "end"@
            } else {
                (match body {
                    Some(b) => r(*b, cc) + " "@,
                    None => Seq::<char>::empty(),
                }) + "while "@ + r(*cond, cc)
            }
        },
        Node::XHeredoc { parts } => "`"@ + r_parts(parts@, cc, '`', "\\`"@) + "`"@,
        Node::Xstr { parts, begin_l } => {
            if begin_l.spec_size() == 1 {
                "`"@ + r_parts(parts@, cc, '`', "\\`"@) + "`"@
            } else {
                "%x{"@ + r_parts(parts@, cc, '}', "\\}"@) + "}"@
            }
        },
    }
}

/// A name with its final character removed: an assignment selector such as
/// `size=` renders as `size = value`.
pub open spec fn trim_last(s: Seq<char>) -> Seq<char> {
    if s.len() >= 1 {
        s.subrange(0, s.len() - 1)
    } else {
        s
    }
}

/// Elements each rendered after an indentation prefix of the given depth,
/// with no terminator of its own (clause lists of `case` and of rescue
/// chains).
pub open spec fn r_each(s: Seq<Node>, ind: u32, c: CodeWriterContext) -> Seq<char>
    decreases s,
{
    if s.len() == 0 {
        Seq::empty()
    } else {
        r_each(s.drop_last(), ind, c) + sp_ind(ind) + r(s.last(), c)
    }
}

/// The statements of a keyword `begin` body: rescue and ensure clauses keep
/// their own layout, everything else becomes an indented line.
pub open spec fn r_deep_stmts(s: Seq<Node>, c: CodeWriterContext) -> Seq<char>
    decreases s,
{
    if s.len() == 0 {
        Seq::empty()
    } else {
        r_deep_stmts(s.drop_last(), c) + (if s.last() is Ensure || s.last() is Rescue {
            r(s.last(), c.spec_indent())
        } else {
            r_body(s.last(), c.spec_indent())
        })
    }
}

/// The fragments of an interpolated literal: plain text fragments are
/// escaped for the enclosing delimiter, statement fragments render inside an
/// interpolation marker, and a bare instance, global or class variable
/// fragment uses the shorthand `#name` form. Any other fragment kind renders
/// as a fixed placeholder marker.
pub open spec fn r_parts(s: Seq<Node>, c: CodeWriterContext, esc: char, esc_to: Seq<char>) -> Seq<
    char,
>
    decreases s,
{
    if s.len() == 0 {
        Seq::empty()
    } else {
        r_parts(s.drop_last(), c, esc, esc_to) + (match s.last() {
            Node::Str { value } => esc_chars(value@, esc, esc_to),
            Node::Begin { .. } => "#{"@ + r(s.last(), c.spec_make_child(NodeKind::Part)) + "}"@,
            Node::Ivar { name } => "#"@ + name@,
            Node::Gvar { name } => "#"@ + name@,
            Node::Cvar { name } => "#"@ + name@,
            _ => "<Unhandled node "@ + s.last().spec_kind_text() + ">"@,
        })
    }
}

/// A statement rendered as part of a body: bare statement sequences render
/// as their own lines, anything else becomes one indented line.
pub open spec fn r_body(node: Node, c: CodeWriterContext) -> Seq<char>
    decreases node, 1int,
{
    if node.spec_is_begin_block() {
        r(node, c)
    } else {
        sp_ind(c.indent) + r(node, c) + "\n"@
    }
}

/// The tail of a definition-like construct: newline, optional body one level
/// deeper, and the closing keyword at the construct's own depth.
pub open spec fn r_body_with_end(body: Option<Box<Node>>, c: CodeWriterContext) -> Seq<char>
    decreases body,
{
    "\n"@ + (match body {
        Some(b) => r_body(*b, c.spec_indent()),
        None => Seq::<char>::empty(),
    }) + sp_ind(c.indent) + "end"@
}

/// Elements joined by a separator, with no trailing separator.
pub open spec fn r_sep(s: Seq<Node>, c: CodeWriterContext, sep: Seq<char>) -> Seq<char>
    decreases s,
{
    if s.len() == 0 {
        Seq::empty()
    } else if s.len() == 1 {
        r(s[0], c)
    } else {
        r_sep(s.drop_last(), c, sep) + sep + r(s.last(), c)
    }
}

/// Elements rendered one per line, each indented to the context's depth and
/// closed by a newline.
pub open spec fn r_lines(s: Seq<Node>, c: CodeWriterContext) -> Seq<char>
    decreases s,
{
    if s.len() == 0 {
        Seq::empty()
    } else {
        r_lines(s.drop_last(), c) + sp_ind(c.indent) + r(s.last(), c) + "\n"@
    }
}

} // verus!
